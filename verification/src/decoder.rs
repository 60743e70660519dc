//! The character decoder: a fixed table maps each zero-padded six-slot
//! symbol pattern to one of the 26 Latin letters or 10 digits; every other
//! pattern resolves to the unknown-character placeholder `#`.

use vstd::prelude::*;

verus! {

/// Tag for an unfilled pattern slot.
pub const UNSET: u8 = 0;
/// Tag for a short press (a dot).
pub const DOT: u8 = 1;
/// Tag for a long press (a dash).
pub const DASH: u8 = 2;

/// Number of symbol slots in a pattern; no character needs more.
pub const PATTERN_SLOTS: usize = 6;

/// The Morse pattern of a character, zero-padded to six slots.
/// Characters outside the table map to the empty sequence.
pub open spec fn morse_pattern(c: char) -> Seq<u8> {
    match c {
        'A' => seq![1u8, 2, 0, 0, 0, 0],
        'B' => seq![2u8, 1, 1, 1, 0, 0],
        'C' => seq![2u8, 1, 2, 1, 0, 0],
        'D' => seq![2u8, 1, 1, 0, 0, 0],
        'E' => seq![1u8, 0, 0, 0, 0, 0],
        'F' => seq![1u8, 1, 2, 1, 0, 0],
        'G' => seq![2u8, 2, 1, 0, 0, 0],
        'H' => seq![1u8, 1, 1, 1, 0, 0],
        'I' => seq![1u8, 1, 0, 0, 0, 0],
        'J' => seq![1u8, 2, 2, 2, 0, 0],
        'K' => seq![2u8, 1, 2, 0, 0, 0],
        'L' => seq![1u8, 2, 1, 1, 0, 0],
        'M' => seq![2u8, 2, 0, 0, 0, 0],
        'N' => seq![2u8, 1, 0, 0, 0, 0],
        'O' => seq![2u8, 2, 2, 0, 0, 0],
        'P' => seq![1u8, 2, 2, 1, 0, 0],
        'Q' => seq![2u8, 2, 1, 2, 0, 0],
        'R' => seq![1u8, 2, 1, 0, 0, 0],
        'S' => seq![1u8, 1, 1, 0, 0, 0],
        'T' => seq![2u8, 0, 0, 0, 0, 0],
        'U' => seq![1u8, 1, 2, 0, 0, 0],
        'V' => seq![1u8, 1, 1, 2, 0, 0],
        'W' => seq![1u8, 2, 2, 0, 0, 0],
        'X' => seq![2u8, 1, 1, 2, 0, 0],
        'Y' => seq![2u8, 1, 2, 2, 0, 0],
        'Z' => seq![2u8, 2, 1, 1, 0, 0],
        '0' => seq![2u8, 2, 2, 2, 2, 0],
        '1' => seq![1u8, 2, 2, 2, 2, 0],
        '2' => seq![1u8, 1, 2, 2, 2, 0],
        '3' => seq![1u8, 1, 1, 2, 2, 0],
        '4' => seq![1u8, 1, 1, 1, 2, 0],
        '5' => seq![1u8, 1, 1, 1, 1, 0],
        '6' => seq![2u8, 1, 1, 1, 1, 0],
        '7' => seq![2u8, 2, 1, 1, 1, 0],
        '8' => seq![2u8, 2, 2, 1, 1, 0],
        '9' => seq![2u8, 2, 2, 2, 1, 0],
        _ => Seq::empty(),
    }
}

/// A character the table defines: a Latin letter or a digit.
pub open spec fn is_morse_char(c: char) -> bool {
    morse_pattern(c).len() == PATTERN_SLOTS
}

/// A six-slot sequence equals the six given slot values.
pub open spec fn pattern_is(s: Seq<u8>, s0: u8, s1: u8, s2: u8, s3: u8, s4: u8, s5: u8) -> bool {
    &&& s.len() == 6
    &&& s[0] == s0
    &&& s[1] == s1
    &&& s[2] == s2
    &&& s[3] == s3
    &&& s[4] == s4
    &&& s[5] == s5
}

/// The character a six-slot pattern resolves to: the table entry whose
/// pattern it equals, or `#` when no entry matches.
pub open spec fn spec_decode(s: Seq<u8>) -> char {
    if pattern_is(s, 1, 2, 0, 0, 0, 0) { 'A' }
    else if pattern_is(s, 2, 1, 1, 1, 0, 0) { 'B' }
    else if pattern_is(s, 2, 1, 2, 1, 0, 0) { 'C' }
    else if pattern_is(s, 2, 1, 1, 0, 0, 0) { 'D' }
    else if pattern_is(s, 1, 0, 0, 0, 0, 0) { 'E' }
    else if pattern_is(s, 1, 1, 2, 1, 0, 0) { 'F' }
    else if pattern_is(s, 2, 2, 1, 0, 0, 0) { 'G' }
    else if pattern_is(s, 1, 1, 1, 1, 0, 0) { 'H' }
    else if pattern_is(s, 1, 1, 0, 0, 0, 0) { 'I' }
    else if pattern_is(s, 1, 2, 2, 2, 0, 0) { 'J' }
    else if pattern_is(s, 2, 1, 2, 0, 0, 0) { 'K' }
    else if pattern_is(s, 1, 2, 1, 1, 0, 0) { 'L' }
    else if pattern_is(s, 2, 2, 0, 0, 0, 0) { 'M' }
    else if pattern_is(s, 2, 1, 0, 0, 0, 0) { 'N' }
    else if pattern_is(s, 2, 2, 2, 0, 0, 0) { 'O' }
    else if pattern_is(s, 1, 2, 2, 1, 0, 0) { 'P' }
    else if pattern_is(s, 2, 2, 1, 2, 0, 0) { 'Q' }
    else if pattern_is(s, 1, 2, 1, 0, 0, 0) { 'R' }
    else if pattern_is(s, 1, 1, 1, 0, 0, 0) { 'S' }
    else if pattern_is(s, 2, 0, 0, 0, 0, 0) { 'T' }
    else if pattern_is(s, 1, 1, 2, 0, 0, 0) { 'U' }
    else if pattern_is(s, 1, 1, 1, 2, 0, 0) { 'V' }
    else if pattern_is(s, 1, 2, 2, 0, 0, 0) { 'W' }
    else if pattern_is(s, 2, 1, 1, 2, 0, 0) { 'X' }
    else if pattern_is(s, 2, 1, 2, 2, 0, 0) { 'Y' }
    else if pattern_is(s, 2, 2, 1, 1, 0, 0) { 'Z' }
    else if pattern_is(s, 2, 2, 2, 2, 2, 0) { '0' }
    else if pattern_is(s, 1, 2, 2, 2, 2, 0) { '1' }
    else if pattern_is(s, 1, 1, 2, 2, 2, 0) { '2' }
    else if pattern_is(s, 1, 1, 1, 2, 2, 0) { '3' }
    else if pattern_is(s, 1, 1, 1, 1, 2, 0) { '4' }
    else if pattern_is(s, 1, 1, 1, 1, 1, 0) { '5' }
    else if pattern_is(s, 2, 1, 1, 1, 1, 0) { '6' }
    else if pattern_is(s, 2, 2, 1, 1, 1, 0) { '7' }
    else if pattern_is(s, 2, 2, 2, 1, 1, 0) { '8' }
    else if pattern_is(s, 2, 2, 2, 2, 1, 0) { '9' }
    else { '#' }
}

/// Every table entry decodes back to its own character: resolving the exact
/// zero-padded six-slot pattern of a defined letter or digit yields that
/// letter or digit.
pub proof fn lemma_decode_roundtrip(c: char)
    requires
        is_morse_char(c),
    ensures
        spec_decode(morse_pattern(c)) == c,
{
}

/// No two defined characters share a pattern: the table is unambiguous.
pub proof fn lemma_patterns_unique(c1: char, c2: char)
    requires
        is_morse_char(c1),
        is_morse_char(c2),
        morse_pattern(c1) == morse_pattern(c2),
    ensures
        c1 == c2,
{
    lemma_decode_roundtrip(c1);
    lemma_decode_roundtrip(c2);
}

/// A six-slot pattern that equals no table entry decodes to `#`.
pub proof fn lemma_decode_unknown(s: Seq<u8>)
    requires
        s.len() == PATTERN_SLOTS,
        forall|c: char| is_morse_char(c) ==> morse_pattern(c) != s,
    ensures
        spec_decode(s) == '#',
{
    assert(pattern_is(s, 1, 2, 0, 0, 0, 0) ==> morse_pattern('A') =~= s);
    assert(pattern_is(s, 2, 1, 1, 1, 0, 0) ==> morse_pattern('B') =~= s);
    assert(pattern_is(s, 2, 1, 2, 1, 0, 0) ==> morse_pattern('C') =~= s);
    assert(pattern_is(s, 2, 1, 1, 0, 0, 0) ==> morse_pattern('D') =~= s);
    assert(pattern_is(s, 1, 0, 0, 0, 0, 0) ==> morse_pattern('E') =~= s);
    assert(pattern_is(s, 1, 1, 2, 1, 0, 0) ==> morse_pattern('F') =~= s);
    assert(pattern_is(s, 2, 2, 1, 0, 0, 0) ==> morse_pattern('G') =~= s);
    assert(pattern_is(s, 1, 1, 1, 1, 0, 0) ==> morse_pattern('H') =~= s);
    assert(pattern_is(s, 1, 1, 0, 0, 0, 0) ==> morse_pattern('I') =~= s);
    assert(pattern_is(s, 1, 2, 2, 2, 0, 0) ==> morse_pattern('J') =~= s);
    assert(pattern_is(s, 2, 1, 2, 0, 0, 0) ==> morse_pattern('K') =~= s);
    assert(pattern_is(s, 1, 2, 1, 1, 0, 0) ==> morse_pattern('L') =~= s);
    assert(pattern_is(s, 2, 2, 0, 0, 0, 0) ==> morse_pattern('M') =~= s);
    assert(pattern_is(s, 2, 1, 0, 0, 0, 0) ==> morse_pattern('N') =~= s);
    assert(pattern_is(s, 2, 2, 2, 0, 0, 0) ==> morse_pattern('O') =~= s);
    assert(pattern_is(s, 1, 2, 2, 1, 0, 0) ==> morse_pattern('P') =~= s);
    assert(pattern_is(s, 2, 2, 1, 2, 0, 0) ==> morse_pattern('Q') =~= s);
    assert(pattern_is(s, 1, 2, 1, 0, 0, 0) ==> morse_pattern('R') =~= s);
    assert(pattern_is(s, 1, 1, 1, 0, 0, 0) ==> morse_pattern('S') =~= s);
    assert(pattern_is(s, 2, 0, 0, 0, 0, 0) ==> morse_pattern('T') =~= s);
    assert(pattern_is(s, 1, 1, 2, 0, 0, 0) ==> morse_pattern('U') =~= s);
    assert(pattern_is(s, 1, 1, 1, 2, 0, 0) ==> morse_pattern('V') =~= s);
    assert(pattern_is(s, 1, 2, 2, 0, 0, 0) ==> morse_pattern('W') =~= s);
    assert(pattern_is(s, 2, 1, 1, 2, 0, 0) ==> morse_pattern('X') =~= s);
    assert(pattern_is(s, 2, 1, 2, 2, 0, 0) ==> morse_pattern('Y') =~= s);
    assert(pattern_is(s, 2, 2, 1, 1, 0, 0) ==> morse_pattern('Z') =~= s);
    assert(pattern_is(s, 2, 2, 2, 2, 2, 0) ==> morse_pattern('0') =~= s);
    assert(pattern_is(s, 1, 2, 2, 2, 2, 0) ==> morse_pattern('1') =~= s);
    assert(pattern_is(s, 1, 1, 2, 2, 2, 0) ==> morse_pattern('2') =~= s);
    assert(pattern_is(s, 1, 1, 1, 2, 2, 0) ==> morse_pattern('3') =~= s);
    assert(pattern_is(s, 1, 1, 1, 1, 2, 0) ==> morse_pattern('4') =~= s);
    assert(pattern_is(s, 1, 1, 1, 1, 1, 0) ==> morse_pattern('5') =~= s);
    assert(pattern_is(s, 2, 1, 1, 1, 1, 0) ==> morse_pattern('6') =~= s);
    assert(pattern_is(s, 2, 2, 1, 1, 1, 0) ==> morse_pattern('7') =~= s);
    assert(pattern_is(s, 2, 2, 2, 1, 1, 0) ==> morse_pattern('8') =~= s);
    assert(pattern_is(s, 2, 2, 2, 2, 1, 0) ==> morse_pattern('9') =~= s);
}

/// Whether the six slots of `signals` hold exactly the six given values.
fn slots_are(signals: &[u8; 6], s0: u8, s1: u8, s2: u8, s3: u8, s4: u8, s5: u8) -> (r: bool)
    ensures
        r == pattern_is(signals@, s0, s1, s2, s3, s4, s5),
{
    signals[0] == s0 && signals[1] == s1 && signals[2] == s2
        && signals[3] == s3 && signals[4] == s4 && signals[5] == s5
}

/// Resolve a zero-padded six-slot symbol pattern to its character; patterns
/// outside the table resolve to `#`.
pub fn match_character(signals: &[u8; 6]) -> (c: char)
    ensures
        c == spec_decode(signals@),
{
    if slots_are(signals, 1, 2, 0, 0, 0, 0) { 'A' }
    else if slots_are(signals, 2, 1, 1, 1, 0, 0) { 'B' }
    else if slots_are(signals, 2, 1, 2, 1, 0, 0) { 'C' }
    else if slots_are(signals, 2, 1, 1, 0, 0, 0) { 'D' }
    else if slots_are(signals, 1, 0, 0, 0, 0, 0) { 'E' }
    else if slots_are(signals, 1, 1, 2, 1, 0, 0) { 'F' }
    else if slots_are(signals, 2, 2, 1, 0, 0, 0) { 'G' }
    else if slots_are(signals, 1, 1, 1, 1, 0, 0) { 'H' }
    else if slots_are(signals, 1, 1, 0, 0, 0, 0) { 'I' }
    else if slots_are(signals, 1, 2, 2, 2, 0, 0) { 'J' }
    else if slots_are(signals, 2, 1, 2, 0, 0, 0) { 'K' }
    else if slots_are(signals, 1, 2, 1, 1, 0, 0) { 'L' }
    else if slots_are(signals, 2, 2, 0, 0, 0, 0) { 'M' }
    else if slots_are(signals, 2, 1, 0, 0, 0, 0) { 'N' }
    else if slots_are(signals, 2, 2, 2, 0, 0, 0) { 'O' }
    else if slots_are(signals, 1, 2, 2, 1, 0, 0) { 'P' }
    else if slots_are(signals, 2, 2, 1, 2, 0, 0) { 'Q' }
    else if slots_are(signals, 1, 2, 1, 0, 0, 0) { 'R' }
    else if slots_are(signals, 1, 1, 1, 0, 0, 0) { 'S' }
    else if slots_are(signals, 2, 0, 0, 0, 0, 0) { 'T' }
    else if slots_are(signals, 1, 1, 2, 0, 0, 0) { 'U' }
    else if slots_are(signals, 1, 1, 1, 2, 0, 0) { 'V' }
    else if slots_are(signals, 1, 2, 2, 0, 0, 0) { 'W' }
    else if slots_are(signals, 2, 1, 1, 2, 0, 0) { 'X' }
    else if slots_are(signals, 2, 1, 2, 2, 0, 0) { 'Y' }
    else if slots_are(signals, 2, 2, 1, 1, 0, 0) { 'Z' }
    else if slots_are(signals, 2, 2, 2, 2, 2, 0) { '0' }
    else if slots_are(signals, 1, 2, 2, 2, 2, 0) { '1' }
    else if slots_are(signals, 1, 1, 2, 2, 2, 0) { '2' }
    else if slots_are(signals, 1, 1, 1, 2, 2, 0) { '3' }
    else if slots_are(signals, 1, 1, 1, 1, 2, 0) { '4' }
    else if slots_are(signals, 1, 1, 1, 1, 1, 0) { '5' }
    else if slots_are(signals, 2, 1, 1, 1, 1, 0) { '6' }
    else if slots_are(signals, 2, 2, 1, 1, 1, 0) { '7' }
    else if slots_are(signals, 2, 2, 2, 1, 1, 0) { '8' }
    else if slots_are(signals, 2, 2, 2, 2, 1, 0) { '9' }
    else { '#' }
}

} // verus!
