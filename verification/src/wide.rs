//! UTF-16 text as the host text framework takes it.

use vstd::prelude::*;

verus! {

/// The UTF-16 code units of one character: itself below the supplementary
/// planes, a surrogate pair above.
pub open spec fn utf16_of_char(c: char) -> Seq<u16> {
    let v = c as u32;
    if v < 0x10000 {
        seq![v as u16]
    } else {
        seq![(0xD800 + (v - 0x10000) / 0x400) as u16, (0xDC00 + (v - 0x10000) % 0x400) as u16]
    }
}

/// The UTF-16 code units of a text, character by character.
pub open spec fn utf16_units(s: Seq<char>) -> Seq<u16>
    decreases s.len(),
{
    if s.len() == 0 {
        Seq::empty()
    } else {
        utf16_units(s.drop_last()) + utf16_of_char(s.last())
    }
}

/// Encodes `s` as UTF-16 code units, without a terminator.
pub fn encode_utf16(s: &str) -> (units: Vec<u16>)
    ensures
        units@ == utf16_units(s@),
{
    broadcast use {vstd::string::axiom_spec_iter, vstd::utf8::char_is_scalar};

    let mut units: Vec<u16> = Vec::new();
    for c in it: s.chars()
        invariant
            it.seq() == s@,
            units@ == utf16_units(s@.take(it.index())),
    {
        proof {
            lemma_utf16_units_step(s@, it.index());
        }
        let v: u32 = c as u32;
        if v < 0x10000 {
            units.push(v as u16);
        } else {
            units.push((0xD800 + (v - 0x10000) / 0x400) as u16);
            units.push((0xDC00 + (v - 0x10000) % 0x400) as u16);
        }
    }
    assert(s@.take(s@.len() as int) =~= s@);
    units
}

/// Encoding one more character appends that character's code units.
proof fn lemma_utf16_units_step(s: Seq<char>, i: int)
    requires
        0 <= i < s.len(),
    ensures
        utf16_units(s.take(i + 1)) == utf16_units(s.take(i)) + utf16_of_char(s[i]),
{
    assert(s.take(i + 1).drop_last() =~= s.take(i));
}

/// Encodes `s` as UTF-16 code units and ends them with a zero unit.
pub fn to_wide_16(s: &str) -> (wide: Vec<u16>)
    ensures
        wide@ == utf16_units(s@).push(0u16),
{
    let mut wide = encode_utf16(s);
    wide.push(0);
    wide
}

/// The bytes of a sequence of code units, each unit low byte first.
pub open spec fn le_bytes(units: Seq<u16>) -> Seq<u8>
    decreases units.len(),
{
    if units.len() == 0 {
        Seq::empty()
    } else {
        le_bytes(units.drop_last()).push((units.last() % 256) as u8).push(
            (units.last() / 256) as u8,
        )
    }
}

/// Encodes `s` as UTF-16, each code unit as two bytes with the low byte
/// first, and ends the bytes with a single zero byte.
pub fn to_wide(s: &str) -> (wide: Vec<u8>)
    ensures
        wide@ == le_bytes(utf16_units(s@)).push(0u8),
{
    let units = encode_utf16(s);
    let mut wide: Vec<u8> = Vec::new();
    let mut i: usize = 0;
    while i < units.len()
        invariant
            i <= units@.len(),
            wide@ == le_bytes(units@.take(i as int)),
        decreases units@.len() - i,
    {
        let unit: u16 = units[i];
        assert(units@.take(i + 1).drop_last() =~= units@.take(i as int));
        wide.push((unit % 256) as u8);
        wide.push((unit / 256) as u8);
        i += 1;
    }
    assert(units@.take(i as int) =~= units@);
    wide.push(0);
    wide
}

/// A code unit that opens a surrogate pair.
pub open spec fn is_high_surrogate(unit: u16) -> bool {
    0xD800 <= unit <= 0xDBFF
}

/// A code unit that closes a surrogate pair.
pub open spec fn is_low_surrogate(unit: u16) -> bool {
    0xDC00 <= unit <= 0xDFFF
}

/// The character that a surrogate pair stands for.
pub open spec fn surrogate_pair(high: u16, low: u16) -> char {
    ((0x10000 + (high - 0xD800) * 0x400 + (low - 0xDC00)) as u32) as char
}

/// The text that a sequence of code units reads as, where nothing is
/// refused: a unit outside the surrogates is its character, a high surrogate
/// with the low surrogate after it is the character of the pair, and any
/// other surrogate is the replacement character U+FFFD.
pub open spec fn utf16_lossy_text(units: Seq<u16>) -> Seq<char>
    decreases units.len(),
{
    if units.len() == 0 {
        Seq::empty()
    } else if is_high_surrogate(units[0]) && units.len() >= 2 && is_low_surrogate(units[1]) {
        seq![surrogate_pair(units[0], units[1])] + utf16_lossy_text(units.skip(2))
    } else if is_high_surrogate(units[0]) || is_low_surrogate(units[0]) {
        seq!['\u{FFFD}'] + utf16_lossy_text(units.skip(1))
    } else {
        seq![(units[0] as u32) as char] + utf16_lossy_text(units.skip(1))
    }
}

/// Calls `String::from_utf16_lossy`, which decodes UTF-16 and puts the
/// replacement character U+FFFD in the place of each surrogate that has no
/// partner.
#[verifier::external_body]
pub(crate) fn utf16_lossy(units: &[u16]) -> (text: String)
    ensures
        text@ == utf16_lossy_text(units@),
{
    String::from_utf16_lossy(units)
}

/// The code units of two texts in a row are the code units of the first and
/// then those of the second.
pub proof fn lemma_utf16_units_concat(a: Seq<char>, b: Seq<char>)
    ensures
        utf16_units(a + b) == utf16_units(a) + utf16_units(b),
    decreases b.len(),
{
    if b.len() == 0 {
        assert(a + b =~= a);
        assert(utf16_units(a) + utf16_units(b) =~= utf16_units(a));
    } else {
        lemma_utf16_units_concat(a, b.drop_last());
        assert((a + b).drop_last() =~= a + b.drop_last());
        assert((a + b).last() == b.last());
        assert(utf16_units(a + b) =~= utf16_units(a) + utf16_units(b));
    }
}

/// Reading the code units of a text gives the text back: encoding loses
/// nothing, and nothing in an encoded text is replaced.
pub proof fn lemma_utf16_round_trip(s: Seq<char>)
    ensures
        utf16_lossy_text(utf16_units(s)) == s,
    decreases s.len(),
{
    if s.len() > 0 {
        let c = s[0];
        let rest = s.drop_first();
        let v = c as u32;
        assert(s =~= seq![c] + rest);
        lemma_utf16_units_concat(seq![c], rest);
        assert(seq![c].drop_last() =~= Seq::<char>::empty());
        assert(utf16_units(seq![c]) =~= utf16_of_char(c)) by {
            assert(utf16_units(Seq::<char>::empty()) =~= Seq::<u16>::empty());
        }
        let units = utf16_units(s);
        assert(units == utf16_of_char(c) + utf16_units(rest));
        vstd::utf8::char_is_scalar(c);
        lemma_utf16_round_trip(rest);
        if v < 0x10000 {
            assert(units[0] == v as u16);
            assert(units.skip(1) =~= utf16_units(rest));
            vstd::utf8::char_u32_cast(c, v);
            assert(((units[0] as u32) as char) == c);
            assert(utf16_lossy_text(units) =~= seq![c] + rest);
        } else {
            let q = (v - 0x10000) / 0x400;
            let r = (v - 0x10000) % 0x400;
            assert(units[0] == (0xD800 + q) as u16);
            assert(units[1] == (0xDC00 + r) as u16);
            assert(units.skip(2) =~= utf16_units(rest));
            assert(0x10000 + (units[0] - 0xD800) * 0x400 + (units[1] - 0xDC00) == v);
            vstd::utf8::char_u32_cast(c, v);
            assert(surrogate_pair(units[0], units[1]) == c);
            assert(utf16_lossy_text(units) =~= seq![c] + rest);
        }
    }
}

} // verus!
