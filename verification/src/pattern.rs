//! The pattern engine: wildcard/hex patterns and match-and-rewrite over a buffer.

use vstd::prelude::*;

verus! {

/// One position of a compiled pattern: a byte that must be there, or any byte.
#[derive(Clone, Copy, Debug, PartialEq, Eq, Structural)]
pub enum PatternToken {
    UnknownVariable,
    KnownVariable(u8),
}

/// The value of an upper-case hexadecimal digit.
pub open spec fn hex_value(c: char) -> Option<u8> {
    if '0' <= c && c <= '9' {
        Some((c as u8 - '0' as u8) as u8)
    } else if 'A' <= c && c <= 'F' {
        Some((c as u8 - 'A' as u8 + 10) as u8)
    } else {
        None
    }
}

/// The tokens of pattern text: `x` is a wildcard, two hex digits are a byte,
/// anything else (an odd digit too) is an error.
pub open spec fn lex_tokens(s: Seq<char>) -> Option<Seq<PatternToken>>
    decreases s.len(),
{
    if s.len() == 0 {
        Some(Seq::empty())
    } else if s[0] == 'x' {
        match lex_tokens(s.skip(1)) {
            Some(rest) => Some(seq![PatternToken::UnknownVariable] + rest),
            None => None,
        }
    } else if s.len() >= 2 && hex_value(s[0]) is Some && hex_value(s[1]) is Some {
        match lex_tokens(s.skip(2)) {
            Some(rest) => Some(
                seq![
                    PatternToken::KnownVariable(
                        (hex_value(s[0])->0 * 16 + hex_value(s[1])->0) as u8,
                    ),
                ] + rest,
            ),
            None => None,
        }
    } else {
        None
    }
}

/// Pattern text that compiles: at least two characters, and lexable.
pub open spec fn pattern_valid(s: Seq<char>) -> bool {
    s.len() >= 2 && lex_tokens(s) is Some
}

/// What the text compiles to, if it compiles.
pub open spec fn compiled(s: Seq<char>) -> Option<Seq<PatternToken>> {
    if s.len() >= 2 {
        lex_tokens(s)
    } else {
        None
    }
}

/// Lexing the text after a lexable prefix continues the tokens of the prefix.
proof fn lemma_lex_split(s: Seq<char>, n: int)
    requires
        0 <= n <= s.len(),
        lex_tokens(s.take(n)) is Some,
    ensures
        lex_tokens(s) == match lex_tokens(s.skip(n)) {
            Some(rest) => Some(lex_tokens(s.take(n))->0 + rest),
            None => None::<Seq<PatternToken>>,
        },
    decreases n,
{
    let head = s.take(n);
    if n == 0 {
        assert(s.skip(0) =~= s);
        assert(head =~= Seq::<char>::empty());
        match lex_tokens(s) {
            Some(rest) => {
                assert(Seq::<PatternToken>::empty() + rest =~= rest);
            },
            None => {},
        }
    } else if head[0] == 'x' {
        assert(head.skip(1) =~= s.skip(1).take(n - 1));
        assert(s.skip(1).skip(n - 1) =~= s.skip(n));
        lemma_lex_split(s.skip(1), n - 1);
        match lex_tokens(s.skip(n)) {
            Some(rest) => {
                let mid = lex_tokens(head.skip(1))->0;
                assert((seq![PatternToken::UnknownVariable] + mid) + rest =~= seq![
                    PatternToken::UnknownVariable,
                ] + (mid + rest));
            },
            None => {},
        }
    } else {
        assert(n >= 2);
        assert(head.skip(2) =~= s.skip(2).take(n - 2));
        assert(s.skip(2).skip(n - 2) =~= s.skip(n));
        lemma_lex_split(s.skip(2), n - 2);
        match lex_tokens(s.skip(n)) {
            Some(rest) => {
                let mid = lex_tokens(head.skip(2))->0;
                let first = seq![
                    PatternToken::KnownVariable(
                        (hex_value(s[0])->0 * 16 + hex_value(s[1])->0) as u8,
                    ),
                ];
                assert((first + mid) + rest =~= first + (mid + rest));
            },
            None => {},
        }
    }
}

/// The value of an upper-case hexadecimal digit, if `c` is one.
pub fn hex_digit(c: char) -> (r: Option<u8>)
    ensures
        r == hex_value(c),
{
    if '0' <= c && c <= '9' {
        Some(c as u8 - '0' as u8)
    } else if 'A' <= c && c <= 'F' {
        Some(c as u8 - 'A' as u8 + 10)
    } else {
        None
    }
}

/// Compiles pattern text, or says that it does not compile.
pub fn compile_pattern(pattern: &str) -> (r: Option<Vec<PatternToken>>)
    ensures
        match r {
            Some(tokens) => compiled(pattern@) == Some(tokens@),
            None => compiled(pattern@) is None,
        },
{
    let n: usize = pattern.unicode_len();
    if n < 2 {
        return None;
    }
    let mut stream: Vec<PatternToken> = Vec::new();
    let mut i: usize = 0;
    proof {
        assert(pattern@.take(0) =~= Seq::<char>::empty());
    }
    while i < n
        invariant
            n == pattern@.len(),
            i <= n,
            lex_tokens(pattern@.take(i as int)) == Some(stream@),
        decreases n - i,
    {
        let c: char = pattern.get_char(i);
        let ghost rest = pattern@.skip(i as int);
        proof {
            lemma_lex_split(pattern@, i as int);
        }
        if c == 'x' {
            stream.push(PatternToken::UnknownVariable);
            proof {
                let next = pattern@.take(i + 1);
                assert(next.take(i as int) =~= pattern@.take(i as int));
                lemma_lex_split(next, i as int);
                assert(next.skip(i as int) =~= seq!['x']);
                assert(seq!['x'].skip(1) =~= Seq::<char>::empty());
                reveal_with_fuel(lex_tokens, 3);
                assert(lex_tokens(seq!['x']) == Some(
                    seq![PatternToken::UnknownVariable] + Seq::<PatternToken>::empty(),
                ));
                assert(seq![PatternToken::UnknownVariable] + Seq::<PatternToken>::empty()
                    =~= seq![PatternToken::UnknownVariable]);
            }
            i += 1;
        } else {
            let high = hex_digit(c);
            if high.is_none() || i + 1 >= n {
                assert(lex_tokens(rest) is None);
                return None;
            }
            let low = hex_digit(pattern.get_char(i + 1));
            if low.is_none() {
                assert(lex_tokens(rest) is None);
                return None;
            }
            let byte: u8 = high.unwrap() * 16 + low.unwrap();
            stream.push(PatternToken::KnownVariable(byte));
            proof {
                let next = pattern@.take(i + 2);
                assert(next.take(i as int) =~= pattern@.take(i as int));
                lemma_lex_split(next, i as int);
                let pair = next.skip(i as int);
                assert(pair =~= seq![pattern@[i as int], pattern@[i + 1]]);
                assert(pair.skip(2) =~= Seq::<char>::empty());
                reveal_with_fuel(lex_tokens, 3);
                assert(lex_tokens(pair) == Some(
                    seq![PatternToken::KnownVariable(byte)] + Seq::<PatternToken>::empty(),
                ));
                assert(seq![PatternToken::KnownVariable(byte)] + Seq::<PatternToken>::empty()
                    =~= seq![PatternToken::KnownVariable(byte)]);
            }
            i += 2;
        }
    }
    proof {
        assert(pattern@.take(n as int) =~= pattern@);
    }
    Some(stream)
}

/// Whether pattern text compiles.
pub fn is_valid_pattern(pattern: &str) -> (r: bool)
    ensures
        r == pattern_valid(pattern@),
{
    compile_pattern(pattern).is_some()
}

/// Compiles pattern text that is known to compile.
pub fn pattern_lexer(pattern: String) -> (stream: Vec<PatternToken>)
    requires
        pattern_valid(pattern@),
    ensures
        lex_tokens(pattern@) == Some(stream@),
        stream@.len() > 0,
{
    proof {
        lemma_valid_pattern_is_not_empty(pattern@);
    }
    match compile_pattern(pattern.as_str()) {
        Some(stream) => stream,
        None => Vec::new(),
    }
}

/// Text that lexes and is not empty gives at least one token.
pub proof fn lemma_valid_pattern_is_not_empty(s: Seq<char>)
    requires
        s.len() > 0,
        lex_tokens(s) is Some,
    ensures
        lex_tokens(s)->0.len() > 0,
{
}

/// The token accepts the byte.
pub open spec fn token_matches(t: PatternToken, b: u8) -> bool {
    match t {
        PatternToken::UnknownVariable => true,
        PatternToken::KnownVariable(x) => x == b,
    }
}

/// The pattern matches the buffer at position `i`.
pub open spec fn matches_at(pattern: Seq<PatternToken>, buf: Seq<u8>, i: int) -> bool {
    &&& 0 <= i
    &&& i + pattern.len() <= buf.len()
    &&& forall|k: int| 0 <= k < pattern.len() ==> token_matches(#[trigger] pattern[k], buf[i + k])
}

/// Byte `j` of the buffer after the `pattern_len` bytes at `i` were replaced:
/// before `i` the old byte; inside the replacement its known byte, or under a
/// wildcard the old byte where the match had one and zero where it grew; after
/// it the old bytes that followed the match.
pub open spec fn splice_byte(
    pattern_len: int,
    replacement: Seq<PatternToken>,
    buf: Seq<u8>,
    i: int,
    j: int,
) -> u8 {
    if j < i {
        buf[j]
    } else if j < i + replacement.len() {
        match replacement[j - i] {
            PatternToken::KnownVariable(b) => b,
            PatternToken::UnknownVariable => if j - i < pattern_len {
                buf[j]
            } else {
                0u8
            },
        }
    } else {
        buf[j - replacement.len() + pattern_len]
    }
}

/// The buffer after the `pattern_len` bytes at `i` were replaced.
pub open spec fn splice_at(
    pattern_len: int,
    replacement: Seq<PatternToken>,
    buf: Seq<u8>,
    i: int,
) -> Seq<u8> {
    Seq::new(
        (buf.len() - pattern_len + replacement.len()) as nat,
        |j: int| splice_byte(pattern_len, replacement, buf, i, j),
    )
}

/// The buffer after the scan from `i`: on a match the replacement is spliced in
/// and the scan goes on behind it, on a miss it moves one byte on.
pub open spec fn edit_from(
    pattern: Seq<PatternToken>,
    replacement: Seq<PatternToken>,
    buf: Seq<u8>,
    i: int,
) -> Seq<u8>
    decreases buf.len() - i,
{
    if pattern.len() == 0 || i < 0 || i + pattern.len() > buf.len() {
        buf
    } else if matches_at(pattern, buf, i) {
        edit_from(
            pattern,
            replacement,
            splice_at(pattern.len() as int, replacement, buf, i),
            i + replacement.len(),
        )
    } else {
        edit_from(pattern, replacement, buf, i + 1)
    }
}

/// The buffer after every match was rewritten, scanning from the start.
pub open spec fn edited(
    pattern: Seq<PatternToken>,
    replacement: Seq<PatternToken>,
    buf: Seq<u8>,
) -> Seq<u8> {
    edit_from(pattern, replacement, buf, 0)
}

/// Applying a replacement at a match changes the length of the buffer by the
/// length of the replacement less the length of the pattern.
pub proof fn lemma_splice_length(
    pattern: Seq<PatternToken>,
    replacement: Seq<PatternToken>,
    buf: Seq<u8>,
    i: int,
)
    requires
        matches_at(pattern, buf, i),
    ensures
        splice_at(pattern.len() as int, replacement, buf, i).len() == buf.len() - pattern.len()
            + replacement.len(),
{
}

/// Applying a replacement at a match leaves every byte outside the match as it
/// was: those before it in place, those after it moved by the change in length.
pub proof fn lemma_splice_preserves_outside(
    pattern: Seq<PatternToken>,
    replacement: Seq<PatternToken>,
    buf: Seq<u8>,
    i: int,
)
    requires
        matches_at(pattern, buf, i),
    ensures
        forall|j: int|
            0 <= j < i ==> splice_at(pattern.len() as int, replacement, buf, i)[j] == buf[j],
        forall|j: int|
            i + pattern.len() <= j < buf.len() ==> splice_at(
                pattern.len() as int,
                replacement,
                buf,
                i,
            )[j - pattern.len() + replacement.len()] == buf[j],
{
}

/// Replacing a pattern by itself changes nothing.
pub proof fn lemma_edit_identity(pattern: Seq<PatternToken>, buf: Seq<u8>, i: int)
    ensures
        edit_from(pattern, pattern, buf, i) == buf,
    decreases buf.len() - i,
{
    if pattern.len() == 0 || i < 0 || i + pattern.len() > buf.len() {
    } else if matches_at(pattern, buf, i) {
        assert(splice_at(pattern.len() as int, pattern, buf, i) =~= buf);
        lemma_edit_identity(pattern, buf, i + pattern.len());
    } else {
        lemma_edit_identity(pattern, buf, i + 1);
    }
}

/// The number of matches that the scan from `i` meets and rewrites.
pub open spec fn match_count(
    pattern: Seq<PatternToken>,
    replacement: Seq<PatternToken>,
    buf: Seq<u8>,
    i: int,
) -> nat
    decreases buf.len() - i,
{
    if pattern.len() == 0 || i < 0 || i + pattern.len() > buf.len() {
        0
    } else if matches_at(pattern, buf, i) {
        1 + match_count(
            pattern,
            replacement,
            splice_at(pattern.len() as int, replacement, buf, i),
            i + replacement.len(),
        )
    } else {
        match_count(pattern, replacement, buf, i + 1)
    }
}

/// Position `j` lies in a match that the scan from `i` rewrites, for a
/// replacement as long as the pattern.
pub open spec fn in_match(
    pattern: Seq<PatternToken>,
    replacement: Seq<PatternToken>,
    buf: Seq<u8>,
    i: int,
    j: int,
) -> bool
    decreases buf.len() - i,
{
    if pattern.len() == 0 || i < 0 || i + pattern.len() > buf.len() {
        false
    } else if matches_at(pattern, buf, i) {
        (i <= j < i + pattern.len()) || in_match(
            pattern,
            replacement,
            splice_at(pattern.len() as int, replacement, buf, i),
            i + replacement.len(),
            j,
        )
    } else {
        in_match(pattern, replacement, buf, i + 1, j)
    }
}

/// A whole scan changes the length of the buffer by the length of the
/// replacement less the length of the pattern, once for each match.
pub proof fn lemma_edit_length(
    pattern: Seq<PatternToken>,
    replacement: Seq<PatternToken>,
    buf: Seq<u8>,
    i: int,
)
    ensures
        edit_from(pattern, replacement, buf, i).len() == buf.len() + match_count(
            pattern,
            replacement,
            buf,
            i,
        ) * (replacement.len() - pattern.len()),
    decreases buf.len() - i,
{
    let d: int = replacement.len() - pattern.len();
    if pattern.len() == 0 || i < 0 || i + pattern.len() > buf.len() {
        assert(match_count(pattern, replacement, buf, i) == 0);
        assert(0 * d == 0) by (nonlinear_arith);
    } else if matches_at(pattern, buf, i) {
        let next = splice_at(pattern.len() as int, replacement, buf, i);
        lemma_edit_length(pattern, replacement, next, i + replacement.len());
        let c: int = match_count(pattern, replacement, next, i + replacement.len()) as int;
        assert(next.len() == buf.len() + d);
        assert(match_count(pattern, replacement, buf, i) == 1 + c);
        assert(edit_from(pattern, replacement, buf, i).len() == next.len() + c * d);
        assert((1 + c) * d == d + c * d) by (nonlinear_arith);
        assert(edit_from(pattern, replacement, buf, i).len() == buf.len() + (1 + c) * d);
    } else {
        lemma_edit_length(pattern, replacement, buf, i + 1);
    }
}

/// A whole scan from `i` leaves every byte before `i` as it was.
pub proof fn lemma_edit_keeps_what_lies_behind(
    pattern: Seq<PatternToken>,
    replacement: Seq<PatternToken>,
    buf: Seq<u8>,
    i: int,
)
    requires
        0 <= i <= buf.len(),
    ensures
        edit_from(pattern, replacement, buf, i).len() >= i,
        forall|j: int| 0 <= j < i ==> edit_from(pattern, replacement, buf, i)[j] == buf[j],
    decreases buf.len() - i,
{
    if pattern.len() == 0 || i + pattern.len() > buf.len() {
    } else if matches_at(pattern, buf, i) {
        let next = splice_at(pattern.len() as int, replacement, buf, i);
        assert(i + replacement.len() <= next.len());
        lemma_edit_keeps_what_lies_behind(pattern, replacement, next, i + replacement.len());
        assert forall|j: int| 0 <= j < i implies edit_from(pattern, replacement, buf, i)[j]
            == buf[j] by {
            assert(next[j] == buf[j]);
        }
    } else {
        lemma_edit_keeps_what_lies_behind(pattern, replacement, buf, i + 1);
    }
}

/// A buffer in which the pattern matches nowhere is left as it is.
pub proof fn lemma_edit_without_match(
    pattern: Seq<PatternToken>,
    replacement: Seq<PatternToken>,
    buf: Seq<u8>,
    i: int,
)
    requires
        forall|k: int| i <= k ==> !matches_at(pattern, buf, k),
    ensures
        edit_from(pattern, replacement, buf, i) == buf,
    decreases buf.len() - i,
{
    if pattern.len() == 0 || i < 0 || i + pattern.len() > buf.len() {
    } else {
        lemma_edit_without_match(pattern, replacement, buf, i + 1);
    }
}

/// Where the replacement is as long as the pattern, a whole scan keeps the
/// length of the buffer and leaves every byte outside the matches as it was.
pub proof fn lemma_edit_preserves_outside(
    pattern: Seq<PatternToken>,
    replacement: Seq<PatternToken>,
    buf: Seq<u8>,
    i: int,
)
    requires
        replacement.len() == pattern.len(),
    ensures
        edit_from(pattern, replacement, buf, i).len() == buf.len(),
        forall|j: int|
            0 <= j < buf.len() && !in_match(pattern, replacement, buf, i, j) ==> edit_from(
                pattern,
                replacement,
                buf,
                i,
            )[j] == buf[j],
    decreases buf.len() - i,
{
    if pattern.len() == 0 || i < 0 || i + pattern.len() > buf.len() {
    } else if matches_at(pattern, buf, i) {
        let next = splice_at(pattern.len() as int, replacement, buf, i);
        lemma_edit_preserves_outside(pattern, replacement, next, i + replacement.len());
        assert forall|j: int|
            0 <= j < buf.len() && !in_match(pattern, replacement, buf, i, j) implies edit_from(
            pattern,
            replacement,
            buf,
            i,
        )[j] == buf[j] by {
            assert(!in_match(pattern, replacement, next, i + replacement.len(), j));
            assert(next[j] == buf[j]);
        }
    } else {
        lemma_edit_preserves_outside(pattern, replacement, buf, i + 1);
    }
}

/// Whether the pattern matches the packet at `index`.
fn match_found_at(pattern: &Vec<PatternToken>, packet: &Vec<u8>, index: usize) -> (r: bool)
    requires
        index + pattern@.len() <= packet@.len(),
    ensures
        r == matches_at(pattern@, packet@, index as int),
{
    let n: usize = packet.len();
    let mut k: usize = 0;
    while k < pattern.len()
        invariant
            k <= pattern@.len(),
            n == packet@.len(),
            index + pattern@.len() <= packet@.len(),
            forall|j: int| 0 <= j < k ==> token_matches(#[trigger] pattern@[j], packet@[index + j]),
        decreases pattern@.len() - k,
    {
        match pattern[k] {
            PatternToken::KnownVariable(byte) => {
                if byte != packet[index + k] {
                    assert(!token_matches(pattern@[k as int], packet@[index + k]));
                    return false;
                }
            },
            PatternToken::UnknownVariable => {},
        }
        k += 1;
    }
    true
}

/// The packet with the `pattern_len` bytes at `index` replaced.
fn spliced(
    pattern_len: usize,
    replacement: &Vec<PatternToken>,
    packet: &Vec<u8>,
    index: usize,
) -> (out: Vec<u8>)
    requires
        index + pattern_len <= packet@.len(),
    ensures
        out@ == splice_at(pattern_len as int, replacement@, packet@, index as int),
{
    let ghost target = splice_at(pattern_len as int, replacement@, packet@, index as int);
    let n: usize = packet.len();
    let mut out: Vec<u8> = Vec::new();
    let mut j: usize = 0;
    while j < index
        invariant
            j <= index,
            n == packet@.len(),
            index + pattern_len <= packet@.len(),
            target == splice_at(pattern_len as int, replacement@, packet@, index as int),
            out@ == target.take(j as int),
        decreases index - j,
    {
        out.push(packet[j]);
        assert(out@ =~= target.take(j + 1));
        j += 1;
    }
    let mut k: usize = 0;
    while k < replacement.len()
        invariant
            k <= replacement@.len(),
            n == packet@.len(),
            index + pattern_len <= packet@.len(),
            target == splice_at(pattern_len as int, replacement@, packet@, index as int),
            out@ == target.take(index + k),
        decreases replacement@.len() - k,
    {
        let byte: u8 = match replacement[k] {
            PatternToken::KnownVariable(byte) => byte,
            PatternToken::UnknownVariable => if k < pattern_len {
                packet[index + k]
            } else {
                0
            },
        };
        out.push(byte);
        assert(out@ =~= target.take(index + k + 1));
        k += 1;
    }
    let mut s: usize = index + pattern_len;
    while s < packet.len()
        invariant
            index + pattern_len <= s <= packet@.len(),
            target == splice_at(pattern_len as int, replacement@, packet@, index as int),
            out@ == target.take(s - pattern_len + replacement@.len()),
        decreases packet@.len() - s,
    {
        out.push(packet[s]);
        assert(out@ =~= target.take(s - pattern_len + replacement@.len() + 1));
        s += 1;
    }
    assert(out@ =~= target);
    out
}

/// Rewrites every match of `pattern` in `packet` by `replacement`, scanning from
/// the start and never looking again at what a replacement wrote.
pub fn edit_packet_by_pattern(
    pattern: Vec<PatternToken>,
    replacement: Vec<PatternToken>,
    packet: &mut Vec<u8>,
)
    requires
        pattern@.len() > 0,
    ensures
        final(packet)@ == edited(pattern@, replacement@, old(packet)@),
{
    let mut index: usize = 0;
    while index <= packet.len() && pattern.len() <= packet.len() - index
        invariant
            pattern@.len() > 0,
            edit_from(pattern@, replacement@, packet@, index as int) == edited(
                pattern@,
                replacement@,
                old(packet)@,
            ),
        decreases packet@.len() - index,
    {
        if match_found_at(&pattern, packet, index) {
            let out = spliced(pattern.len(), &replacement, packet, index);
            // The replacement lies inside the new buffer: the scan goes on behind it.
            let grown: usize = out.len();
            *packet = out;
            index = if grown - index >= replacement.len() {
                index + replacement.len()
            } else {
                grown
            };
        } else {
            index += 1;
        }
    }
}

/// Compiles every rule of a list, in order.
pub fn compile_patterns(patterns: Vec<(String, String)>) -> (compiled_patterns: Vec<
    (Vec<PatternToken>, Vec<PatternToken>),
>)
    requires
        forall|i: int|
            0 <= i < patterns@.len() ==> pattern_valid((#[trigger] patterns@[i]).0@)
                && pattern_valid(patterns@[i].1@),
    ensures
        compiled_patterns@.len() == patterns@.len(),
        forall|i: int|
            0 <= i < patterns@.len() ==> lex_tokens(patterns@[i].0@) == Some(
                (#[trigger] compiled_patterns@[i]).0@,
            ) && lex_tokens(patterns@[i].1@) == Some(compiled_patterns@[i].1@),
{
    let mut compiled_patterns: Vec<(Vec<PatternToken>, Vec<PatternToken>)> = Vec::new();
    let mut i: usize = 0;
    while i < patterns.len()
        invariant
            i <= patterns@.len(),
            compiled_patterns@.len() == i,
            forall|j: int|
                0 <= j < patterns@.len() ==> pattern_valid((#[trigger] patterns@[j]).0@)
                    && pattern_valid(patterns@[j].1@),
            forall|j: int|
                0 <= j < i ==> lex_tokens(patterns@[j].0@) == Some(
                    (#[trigger] compiled_patterns@[j]).0@,
                ) && lex_tokens(patterns@[j].1@) == Some(compiled_patterns@[j].1@),
        decreases patterns@.len() - i,
    {
        let pattern = pattern_lexer(patterns[i].0.clone());
        let replacement = pattern_lexer(patterns[i].1.clone());
        compiled_patterns.push((pattern, replacement));
        i += 1;
    }
    compiled_patterns
}

/// The buffer after the first `n` rules were applied, each to what the one
/// before it left.
pub open spec fn processed(
    patterns: Seq<(Vec<PatternToken>, Vec<PatternToken>)>,
    buf: Seq<u8>,
    n: int,
) -> Seq<u8>
    decreases n,
{
    if n <= 0 {
        buf
    } else {
        edited(patterns[n - 1].0@, patterns[n - 1].1@, processed(patterns, buf, n - 1))
    }
}

/// Applies every compiled rule to the packet, in order.
pub fn process_packet(patterns: &Vec<(Vec<PatternToken>, Vec<PatternToken>)>, packet: &mut Vec<u8>)
    requires
        forall|i: int| 0 <= i < patterns@.len() ==> (#[trigger] patterns@[i]).0@.len() > 0,
    ensures
        final(packet)@ == processed(patterns@, old(packet)@, patterns@.len() as int),
{
    let mut i: usize = 0;
    while i < patterns.len()
        invariant
            i <= patterns@.len(),
            forall|j: int| 0 <= j < patterns@.len() ==> (#[trigger] patterns@[j]).0@.len() > 0,
            packet@ == processed(patterns@, old(packet)@, i as int),
        decreases patterns@.len() - i,
    {
        edit_packet_by_pattern(patterns[i].0.clone(), patterns[i].1.clone(), packet);
        i += 1;
    }
}

} // verus!
