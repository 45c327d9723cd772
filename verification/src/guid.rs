//! Identifiers of classes, interfaces and categories, and the text under
//! which the registry knows them.

use vstd::prelude::*;
use vstd::string::*;

verus! {

/// A 128-bit identifier. Its number is read as the host reads it: the
/// highest 32 bits are the first field, the next two fields have 16 bits
/// each, and the lowest 64 bits are the eight bytes of the last field, in
/// order.
#[derive(Clone, Copy, Debug, PartialEq, Eq, Structural)]
pub struct Guid(pub u128);

/// 256 to the power of `n`.
pub open spec fn pow256(n: nat) -> int
    decreases n,
{
    if n == 0 {
        1
    } else {
        256 * pow256((n - 1) as nat)
    }
}

/// The byte of `v` at place `k`, where place 0 is the highest of 16.
pub open spec fn byte_at(v: u128, k: nat) -> u8
    recommends
        k < 16,
{
    ((v as int / pow256((15 - k) as nat)) % 256) as u8
}

/// The character of a hexadecimal digit, in lower case.
pub open spec fn hex_digit(d: int) -> char
    recommends
        0 <= d < 16,
{
    if d == 0 {
        '0'
    } else if d == 1 {
        '1'
    } else if d == 2 {
        '2'
    } else if d == 3 {
        '3'
    } else if d == 4 {
        '4'
    } else if d == 5 {
        '5'
    } else if d == 6 {
        '6'
    } else if d == 7 {
        '7'
    } else if d == 8 {
        '8'
    } else if d == 9 {
        '9'
    } else if d == 10 {
        'a'
    } else if d == 11 {
        'b'
    } else if d == 12 {
        'c'
    } else if d == 13 {
        'd'
    } else if d == 14 {
        'e'
    } else {
        'f'
    }
}

/// The two hexadecimal digits of a byte.
pub open spec fn hex_byte(b: u8) -> Seq<char> {
    seq![hex_digit(b as int / 16), hex_digit(b as int % 16)]
}

/// The hexadecimal digits of the bytes of `v` from place `from` up to, and
/// without, place `to`.
pub open spec fn hex_bytes(v: u128, from: nat, to: nat) -> Seq<char>
    decreases to,
{
    if to <= from {
        Seq::empty()
    } else {
        hex_bytes(v, from, (to - 1) as nat) + hex_byte(byte_at(v, (to - 1) as nat))
    }
}

/// The text of an identifier: its fields in hexadecimal, in braces, with
/// hyphens after the 4th, 6th, 8th and 10th byte.
pub open spec fn guid_text(v: u128) -> Seq<char> {
    "{"@ + hex_bytes(v, 0, 4) + "-"@ + hex_bytes(v, 4, 6) + "-"@ + hex_bytes(v, 6, 8) + "-"@
        + hex_bytes(v, 8, 10) + "-"@ + hex_bytes(v, 10, 16) + "}"@
}

/// The one-character string of a hexadecimal digit.
fn hex_str(d: u8) -> (s: &'static str)
    requires
        d < 16,
    ensures
        s@ == seq![hex_digit(d as int)],
{
    proof {
        reveal_strlit("0");
        reveal_strlit("1");
        reveal_strlit("2");
        reveal_strlit("3");
        reveal_strlit("4");
        reveal_strlit("5");
        reveal_strlit("6");
        reveal_strlit("7");
        reveal_strlit("8");
        reveal_strlit("9");
        reveal_strlit("a");
        reveal_strlit("b");
        reveal_strlit("c");
        reveal_strlit("d");
        reveal_strlit("e");
        reveal_strlit("f");
    }
    let s = if d == 0 {
        "0"
    } else if d == 1 {
        "1"
    } else if d == 2 {
        "2"
    } else if d == 3 {
        "3"
    } else if d == 4 {
        "4"
    } else if d == 5 {
        "5"
    } else if d == 6 {
        "6"
    } else if d == 7 {
        "7"
    } else if d == 8 {
        "8"
    } else if d == 9 {
        "9"
    } else if d == 10 {
        "a"
    } else if d == 11 {
        "b"
    } else if d == 12 {
        "c"
    } else if d == 13 {
        "d"
    } else if d == 14 {
        "e"
    } else {
        "f"
    };
    assert(s@ =~= seq![hex_digit(d as int)]);
    s
}

/// Reads the byte of `v` at place `k`.
fn read_byte(v: u128, k: usize) -> (b: u8)
    requires
        k < 16,
    ensures
        b == byte_at(v, k as nat),
{
    let mut x: u128 = v;
    let mut j: usize = 15;
    while j > k
        invariant
            k <= j <= 15,
            x as int == v as int / pow256((15 - j) as nat),
        decreases j,
    {
        proof {
            let p = pow256((15 - j) as nat);
            lemma_pow256_positive((15 - j) as nat);
            vstd::arithmetic::div_mod::lemma_div_denominator(v as int, p, 256);
            assert(pow256((15 - (j - 1)) as nat) == 256 * p);
            assert(p * 256 == 256 * p);
        }
        x = x / 256;
        j -= 1;
    }
    (x % 256) as u8
}

/// A power of 256 is positive.
proof fn lemma_pow256_positive(n: nat)
    ensures
        pow256(n) > 0,
    decreases n,
{
    if n > 0 {
        lemma_pow256_positive((n - 1) as nat);
    }
}

/// Appends the hexadecimal digits of the bytes of `v` from place `from` up
/// to, and without, place `to`.
fn push_hex(text: &mut String, v: u128, from: usize, to: usize)
    requires
        from <= to <= 16,
    ensures
        final(text)@ == old(text)@ + hex_bytes(v, from as nat, to as nat),
{
    let ghost start = text@;
    let mut k: usize = from;
    assert(start + hex_bytes(v, from as nat, from as nat) =~= start);
    while k < to
        invariant
            from <= k <= to <= 16,
            text@ == start + hex_bytes(v, from as nat, k as nat),
        decreases to - k,
    {
        let b = read_byte(v, k);
        let ghost before = text@;
        text.append(hex_str(b / 16));
        text.append(hex_str(b % 16));
        proof {
            assert(text@ =~= before + hex_byte(b));
            assert(hex_bytes(v, from as nat, (k + 1) as nat) == hex_bytes(v, from as nat, k as nat)
                + hex_byte(byte_at(v, k as nat)));
            assert(text@ =~= start + hex_bytes(v, from as nat, (k + 1) as nat));
        }
        k += 1;
    }
}

/// The text of an identifier.
pub trait GUIDExt {
    /// The text, as a sequence of characters.
    spec fn text(&self) -> Seq<char>;

    /// Writes the identifier as the registry spells it.
    fn to_string(&self) -> (s: String)
        ensures
            s@ == self.text(),
    ;
}

impl GUIDExt for Guid {
    open spec fn text(&self) -> Seq<char> {
        guid_text(self.0)
    }

    fn to_string(&self) -> (s: String) {
        let v = self.0;
        let mut s = String::from_str("{");
        push_hex(&mut s, v, 0, 4);
        s.append("-");
        push_hex(&mut s, v, 4, 6);
        s.append("-");
        push_hex(&mut s, v, 6, 8);
        s.append("-");
        push_hex(&mut s, v, 8, 10);
        s.append("-");
        push_hex(&mut s, v, 10, 16);
        s.append("}");
        s
    }
}

impl Guid {
    /// The identifier whose number is `v`.
    pub fn from_u128(v: u128) -> (g: Guid)
        ensures
            g == Guid(v),
    {
        Guid(v)
    }

    /// The identifier's number.
    pub fn to_u128(&self) -> (v: u128)
        ensures
            v == self.0,
    {
        self.0
    }
}

} // verus!
