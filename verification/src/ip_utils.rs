//! Finding a dotted quad in text.

use crate::addr::is_digit;
use crate::text::string_from_utf8;
use vstd::prelude::*;
use vstd::utf8::{decode_utf8, valid_utf8};

verus! {

/// The finder of addresses in text.
pub struct IpUtils();

/// What the scan has seen since it last started over: the digits since the
/// last dot, the dots, and where the run began.
pub ghost struct Run {
    pub digits: int,
    pub dots: int,
    pub start: Option<int>,
}

/// A run that has seen nothing.
pub open spec fn fresh_run() -> Run {
    Run { digits: 0, dots: 0, start: None }
}

/// The run is behind its third dot and in its fourth group of digits.
pub open spec fn is_complete(run: Run) -> bool {
    run.dots == 3 && run.digits > 0
}

/// The range of the first dotted quad that the scan from `i` comes to, with
/// `run` seen so far. A digit goes on with the run, and ends it where it is
/// the last character and completes the quad. A dot behind a digit goes on
/// with it, unless it is the fourth. Anything else ends a complete run, and
/// lets any other start over.
pub open spec fn find_ip_from(text: Seq<char>, i: int, run: Run) -> Option<(int, int)>
    decreases text.len() - i,
{
    if i < 0 || i >= text.len() {
        None
    } else if is_digit(text[i]) {
        let start = match run.start {
            Some(s) => s,
            None => i,
        };
        if i == text.len() - 1 && run.dots == 3 {
            Some((start, i + 1))
        } else {
            find_ip_from(
                text,
                i + 1,
                Run { digits: run.digits + 1, dots: run.dots, start: Some(start) },
            )
        }
    } else if text[i] == '.' && run.digits > 0 {
        if run.dots + 1 > 3 {
            find_ip_from(text, i + 1, fresh_run())
        } else {
            find_ip_from(text, i + 1, Run { digits: 0, dots: run.dots + 1, start: run.start })
        }
    } else if is_complete(run) && run.start is Some {
        Some((run.start->0, i))
    } else {
        find_ip_from(text, i + 1, fresh_run())
    }
}

/// The range of the first dotted quad in the text.
pub open spec fn ip_range(text: Seq<char>) -> Option<(int, int)> {
    find_ip_from(text, 0, fresh_run())
}

/// The first dotted quad in the text.
pub open spec fn found_ip(text: Seq<char>) -> Option<Seq<char>> {
    match ip_range(text) {
        Some((from, to)) => Some(text.subrange(from, to)),
        None => None,
    }
}

/// The number of dots in the text.
pub open spec fn count_dots(s: Seq<char>) -> nat
    decreases s.len(),
{
    if s.len() == 0 {
        0
    } else {
        count_dots(s.drop_last()) + if s.last() == '.' {
            1nat
        } else {
            0nat
        }
    }
}

/// The text is four groups of digits with a dot between each two of them:
/// digits and dots alone, a digit at either end, no two dots side by side,
/// and three dots in all.
pub open spec fn is_dotted_quad(s: Seq<char>) -> bool {
    &&& s.len() > 0
    &&& is_digit(s[0])
    &&& is_digit(s.last())
    &&& forall|k: int| 0 <= k < s.len() ==> is_digit(#[trigger] s[k]) || s[k] == '.'
    &&& forall|k: int| 0 <= k && k + 1 < s.len() ==> !(#[trigger] s[k] == '.' && s[k + 1] == '.')
    &&& count_dots(s) == 3
}

/// What the scan has seen so far is the beginning of a dotted quad: the run
/// begins with a digit, holds digits and dots alone, no two dots side by
/// side, as many dots as the run counts, and ends with a digit where the run
/// counts digits and with a dot where it counts none.
pub open spec fn run_fits(text: Seq<char>, i: int, run: Run) -> bool {
    match run.start {
        None => run.digits == 0 && run.dots == 0,
        Some(s) => {
            &&& 0 <= s < i <= text.len()
            &&& 0 <= run.dots <= 3
            &&& run.digits >= 0
            &&& is_digit(text[s])
            &&& forall|k: int| s <= k < i ==> is_digit(#[trigger] text[k]) || text[k] == '.'
            &&& forall|k: int| s <= k && k + 1 < i ==> !(#[trigger] text[k] == '.' && text[k + 1] == '.')
            &&& count_dots(text.subrange(s, i)) == run.dots
            &&& (run.digits > 0 ==> is_digit(text[i - 1]))
            &&& (run.digits == 0 ==> text[i - 1] == '.')
        },
    }
}

/// The text from `s` up to `i`, with what it reads as a dotted quad.
proof fn lemma_run_is_quad(text: Seq<char>, s: int, i: int)
    requires
        0 <= s < i <= text.len(),
        is_digit(text[s]),
        is_digit(text[i - 1]),
        forall|k: int| s <= k < i ==> is_digit(#[trigger] text[k]) || text[k] == '.',
        forall|k: int| s <= k && k + 1 < i ==> !(#[trigger] text[k] == '.' && text[k + 1] == '.'),
        count_dots(text.subrange(s, i)) == 3,
    ensures
        is_dotted_quad(text.subrange(s, i)),
{
    let q = text.subrange(s, i);
    assert forall|k: int| 0 <= k < q.len() implies is_digit(#[trigger] q[k]) || q[k] == '.' by {
        assert(q[k] == text[s + k]);
    }
    assert forall|k: int| 0 <= k && k + 1 < q.len() implies !(#[trigger] q[k] == '.' && q[k + 1]
        == '.') by {
        assert(q[k] == text[s + k]);
        assert(q[k + 1] == text[s + k + 1]);
    }
}

/// What the scanner finds is a dotted quad inside the text.
pub proof fn lemma_scan_finds_a_quad(text: Seq<char>, i: int, run: Run)
    requires
        0 <= i <= text.len(),
        run_fits(text, i, run),
    ensures
        match find_ip_from(text, i, run) {
            Some((from, to)) => 0 <= from < to <= text.len() && is_dotted_quad(
                text.subrange(from, to),
            ),
            None => true,
        },
    decreases text.len() - i,
{
    if i >= text.len() {
    } else if is_digit(text[i]) {
        let start = match run.start {
            Some(s) => s,
            None => i,
        };
        assert(text.subrange(start, i + 1).drop_last() =~= text.subrange(start, i));
        assert(text.subrange(start, i + 1).last() == text[i]);
        assert(text[i] != '.');
        assert(text.subrange(i, i) =~= Seq::<char>::empty());
        assert(count_dots(text.subrange(start, i)) == run.dots);
        assert(count_dots(text.subrange(start, i + 1)) == run.dots);
        if i == text.len() - 1 && run.dots == 3 {
            lemma_run_is_quad(text, start, i + 1);
        } else {
            let next = Run { digits: run.digits + 1, dots: run.dots, start: Some(start) };
            assert(run_fits(text, i + 1, next));
            lemma_scan_finds_a_quad(text, i + 1, next);
        }
    } else if text[i] == '.' && run.digits > 0 {
        if run.dots + 1 > 3 {
            lemma_scan_finds_a_quad(text, i + 1, fresh_run());
        } else {
            let s = run.start->0;
            assert(text.subrange(s, i + 1).drop_last() =~= text.subrange(s, i));
            assert(text.subrange(s, i + 1).last() == text[i]);
            assert(count_dots(text.subrange(s, i + 1)) == run.dots + 1);
            let next = Run { digits: 0, dots: run.dots + 1, start: run.start };
            assert(run_fits(text, i + 1, next));
            lemma_scan_finds_a_quad(text, i + 1, next);
        }
    } else if is_complete(run) && run.start is Some {
        lemma_run_is_quad(text, run.start->0, i);
    } else {
        lemma_scan_finds_a_quad(text, i + 1, fresh_run());
    }
}

/// What `find_ip` finds is a dotted quad: four groups of digits with a dot
/// between each two of them.
pub proof fn lemma_found_ip_is_a_quad(text: Seq<char>)
    ensures
        match found_ip(text) {
            Some(found) => is_dotted_quad(found),
            None => true,
        },
{
    lemma_scan_finds_a_quad(text, 0, fresh_run());
}

impl IpUtils {
    /// The range of the first dotted quad in the text, in characters.
    pub fn find_ip_range(text: &str) -> (r: Option<(usize, usize)>)
        ensures
            match r {
                Some((from, to)) => ip_range(text@) == Some((from as int, to as int)) && from <= to
                    <= text@.len(),
                None => ip_range(text@) is None,
            },
    {
        let n: usize = text.unicode_len();
        let mut digits: usize = 0;
        let mut dots: usize = 0;
        let mut start: Option<usize> = None;
        let mut i: usize = 0;
        while i < n
            invariant
                n == text@.len(),
                i <= n,
                digits <= i,
                dots <= 3,
                match start {
                    Some(s) => s <= i,
                    None => true,
                },
                ip_range(text@) == find_ip_from(
                    text@,
                    i as int,
                    Run {
                        digits: digits as int,
                        dots: dots as int,
                        start: match start {
                            Some(s) => Some(s as int),
                            None => None,
                        },
                    },
                ),
            decreases n - i,
        {
            let c: char = text.get_char(i);
            if '0' <= c && c <= '9' {
                if start.is_none() {
                    start = Some(i);
                }
                digits += 1;
                if i == n - 1 && dots == 3 {
                    return Some((start.unwrap(), i + 1));
                }
            } else if c == '.' && digits > 0 {
                dots += 1;
                digits = 0;
                if dots > 3 {
                    dots = 0;
                    start = None;
                }
            } else {
                if dots == 3 && digits > 0 && start.is_some() {
                    return Some((start.unwrap(), i));
                }
                digits = 0;
                dots = 0;
                start = None;
            }
            i += 1;
        }
        None
    }

    /// The first dotted quad in the bytes, read as UTF-8 text: four groups of
    /// digits with a dot between each two; nothing where the bytes are no
    /// valid UTF-8 or hold no dotted quad. The scan takes time
    /// that grows with the square of the length of the text.
    pub fn find_ip(data: Vec<u8>) -> (r: Option<String>)
        ensures
            match r {
                Some(found) => valid_utf8(data@) && found_ip(decode_utf8(data@)) == Some(found@)
                    && is_dotted_quad(found@),
                None => !valid_utf8(data@) || found_ip(decode_utf8(data@)) is None,
            },
    {
        proof {
            lemma_found_ip_is_a_quad(decode_utf8(data@));
        }
        match string_from_utf8(data) {
            None => None,
            Some(text) => match Self::find_ip_range(text.as_str()) {
                Some((from, to)) => Some(text.as_str().substring_char(from, to).to_owned()),
                None => None,
            },
        }
    }
}

} // verus!
