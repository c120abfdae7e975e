//! Small operations on configuration text and on names read off the wire.

use vstd::prelude::*;
use vstd::utf8::{
    decode_utf8, encode_utf8, encode_utf8_decode_utf8, encode_utf8_valid_utf8, valid_utf8,
};

verus! {

/// The text that `String::from_utf8_lossy` makes of the bytes.
pub uninterp spec fn utf8_lossy(bytes: Seq<u8>) -> Seq<char>;

/// `String::from_utf8_lossy`, as an owned string: the text of the bytes, with
/// the replacement character wherever they are no valid UTF-8. Valid UTF-8 is
/// decoded as it stands.
#[verifier::external_body]
pub(crate) fn decode_lossy(bytes: &[u8]) -> (text: String)
    ensures
        text@ == utf8_lossy(bytes@),
        valid_utf8(bytes@) ==> text@ == decode_utf8(bytes@),
{
    String::from_utf8_lossy(bytes).into_owned()
}

/// `String::from_utf8`: the text that the bytes encode, where they are valid
/// UTF-8, and nothing where they are not.
#[verifier::external_body]
pub(crate) fn string_from_utf8(bytes: Vec<u8>) -> (r: Option<String>)
    ensures
        match r {
            Some(text) => valid_utf8(bytes@) && text@ == decode_utf8(bytes@),
            None => !valid_utf8(bytes@),
        },
{
    String::from_utf8(bytes).ok()
}

/// The bytes of two texts, one behind the other, are the bytes of the two
/// texts joined.
pub proof fn lemma_encode_concat(a: Seq<char>, b: Seq<char>)
    ensures
        encode_utf8(a + b) == encode_utf8(a) + encode_utf8(b),
    decreases a.len(),
{
    if a.len() == 0 {
        assert(a + b =~= b);
        assert(encode_utf8(a) + encode_utf8(b) =~= encode_utf8(b));
    } else {
        assert((a + b).drop_first() =~= a.drop_first() + b);
        lemma_encode_concat(a.drop_first(), b);
        assert(encode_utf8(a + b) =~= encode_utf8(a) + encode_utf8(b));
    }
}

/// The three texts, one behind the other, as one text.
pub fn join3(a: &str, b: &str, c: &str) -> (joined: String)
    ensures
        joined@ == a@ + b@ + c@,
{
    let mut bytes: Vec<u8> = Vec::new();
    crate::bytes::append_bytes(&mut bytes, a.as_bytes());
    crate::bytes::append_bytes(&mut bytes, b.as_bytes());
    crate::bytes::append_bytes(&mut bytes, c.as_bytes());
    proof {
        lemma_encode_concat(a@, b@);
        lemma_encode_concat(a@ + b@, c@);
        encode_utf8_valid_utf8(a@ + b@ + c@);
        encode_utf8_decode_utf8(a@ + b@ + c@);
        assert(bytes@ =~= encode_utf8(a@ + b@ + c@));
    }
    match string_from_utf8(bytes) {
        Some(joined) => joined,
        None => String::new(),
    }
}

/// The first position at or after `from` that holds `c`, or the length of the
/// text where there is none.
pub open spec fn index_of(s: Seq<char>, c: char, from: int) -> int
    decreases s.len() - from,
{
    if from < 0 || from >= s.len() {
        s.len() as int
    } else if s[from] == c {
        from
    } else {
        index_of(s, c, from + 1)
    }
}

/// `index_of` finds the first occurrence, and nothing before it.
pub proof fn lemma_index_of(s: Seq<char>, c: char, from: int)
    requires
        0 <= from <= s.len(),
    ensures
        from <= index_of(s, c, from) <= s.len(),
        index_of(s, c, from) < s.len() ==> s[index_of(s, c, from)] == c,
        forall|j: int| from <= j < index_of(s, c, from) ==> s[j] != c,
    decreases s.len() - from,
{
    if from < s.len() && s[from] != c {
        lemma_index_of(s, c, from + 1);
    }
}

/// The text before the first space: the whole text where it has none.
pub open spec fn head_word(s: Seq<char>) -> Seq<char> {
    s.take(index_of(s, ' ', 0))
}

/// The text behind the first space, where there is a space.
pub open spec fn tail_words(s: Seq<char>) -> Option<Seq<char>> {
    if index_of(s, ' ', 0) < s.len() {
        Some(s.skip(index_of(s, ' ', 0) + 1))
    } else {
        None
    }
}

/// Whether `item` is one of the entries of a comma-separated list.
pub open spec fn in_comma_list(list: Seq<char>, item: Seq<char>) -> bool
    decreases list.len(),
{
    let k = index_of(list, ',', 0);
    list.take(k) == item || (0 <= k < list.len() && in_comma_list(list.skip(k + 1), item))
}

/// The first position at or after `from` that holds `c`, or the length of the
/// text in characters.
pub fn find_char(s: &str, c: char, from: usize) -> (r: usize)
    requires
        from <= s@.len(),
    ensures
        r == index_of(s@, c, from as int),
        from <= r <= s@.len(),
{
    let n: usize = s.unicode_len();
    let mut i: usize = from;
    proof {
        lemma_index_of(s@, c, from as int);
    }
    while i < n
        invariant
            n == s@.len(),
            from <= i <= n,
            index_of(s@, c, from as int) == index_of(s@, c, i as int),
        decreases n - i,
    {
        if s.get_char(i) == c {
            return i;
        }
        i += 1;
    }
    i
}

/// Whether the characters of `s` from `from` up to `to` are the text `other`.
pub fn range_equals(s: &str, from: usize, to: usize, other: &str) -> (r: bool)
    requires
        from <= to <= s@.len(),
    ensures
        r == (s@.subrange(from as int, to as int) == other@),
{
    let m: usize = other.unicode_len();
    if m != to - from {
        return false;
    }
    let mut k: usize = 0;
    while k < m
        invariant
            m == other@.len(),
            m == to - from,
            from <= to <= s@.len(),
            k <= m,
            forall|j: int| 0 <= j < k ==> s@[from + j] == other@[j],
        decreases m - k,
    {
        if s.get_char(from + k) != other.get_char(k) {
            assert(s@.subrange(from as int, to as int)[k as int] != other@[k as int]);
            return false;
        }
        k += 1;
    }
    assert(s@.subrange(from as int, to as int) =~= other@);
    true
}

/// Whether two texts are the same.
pub fn same_text(a: &str, b: &str) -> (r: bool)
    ensures
        r == (a@ == b@),
{
    let n: usize = a.unicode_len();
    assert(a@.subrange(0, n as int) =~= a@);
    range_equals(a, 0, n, b)
}

/// Whether the text before the first space is `word`.
pub fn head_is(s: &str, word: &str) -> (r: bool)
    ensures
        r == (head_word(s@) == word@),
{
    let k = find_char(s, ' ', 0);
    range_equals(s, 0, k, word)
}

/// Whether `item` is one of the entries of the comma-separated list that is
/// the text of `s` from `from` on.
pub fn list_holds(s: &str, from: usize, item: &str) -> (r: bool)
    requires
        from <= s@.len(),
    ensures
        r == in_comma_list(s@.skip(from as int), item@),
{
    let n: usize = s.unicode_len();
    let mut start: usize = from;
    loop
        invariant
            n == s@.len(),
            from <= start <= n,
            in_comma_list(s@.skip(from as int), item@) == in_comma_list(
                s@.skip(start as int),
                item@,
            ),
        decreases n - start,
    {
        let k = find_char(s, ',', start);
        proof {
            lemma_index_of_skip(s@, ',', start as int, start as int);
            assert(s@.skip(start as int).take(k - start) =~= s@.subrange(start as int, k as int));
        }
        if range_equals(s, start, k, item) {
            return true;
        }
        if k >= n {
            return false;
        }
        proof {
            assert(s@.skip(start as int).skip(k - start + 1) =~= s@.skip(k + 1));
        }
        start = k + 1;
    }
}

/// Searching the text behind `base` is searching the text from `base` on.
pub proof fn lemma_index_of_skip(s: Seq<char>, c: char, base: int, from: int)
    requires
        0 <= base <= from <= s.len(),
    ensures
        index_of(s.skip(base), c, from - base) == index_of(s, c, from) - base,
    decreases s.len() - from,
{
    if from < s.len() && s[from] != c {
        lemma_index_of_skip(s, c, base, from + 1);
    }
}

/// Whether the character occurs in the text.
pub fn has_char(s: &str, c: char) -> (r: bool)
    ensures
        r == s@.contains(c),
{
    let k = find_char(s, c, 0);
    proof {
        lemma_index_of(s@, c, 0);
    }
    k < s.unicode_len()
}

} // verus!
