//! Numbers as text, for the replies the terminal sends.

use vstd::prelude::*;

verus! {

/// The decimal digits of a natural number, most significant first.
pub open spec fn decimal(v: nat) -> Seq<u8>
    decreases v,
{
    if v < 10 {
        seq![(0x30 + v) as u8]
    } else {
        decimal(v / 10).push((0x30 + v % 10) as u8)
    }
}

/// An integer in decimal, with a minus sign where it is negative.
pub open spec fn signed_decimal(v: int) -> Seq<u8> {
    if v < 0 {
        seq![0x2du8] + decimal((-v) as nat)
    } else {
        decimal(v as nat)
    }
}

/// A lower-case hexadecimal digit.
pub open spec fn hex_digit(v: int) -> u8 {
    if v < 10 {
        (0x30 + v) as u8
    } else {
        (0x61 + v - 10) as u8
    }
}

/// The four hexadecimal digits of a 16-bit number.
pub open spec fn hex4(v: u16) -> Seq<u8> {
    seq![
        hex_digit(v as int / 4096),
        hex_digit(v as int / 256 % 16),
        hex_digit(v as int / 16 % 16),
        hex_digit(v as int % 16),
    ]
}

/// The two hexadecimal digits of a byte.
pub open spec fn hex2(v: u8) -> Seq<u8> {
    seq![hex_digit(v as int / 16), hex_digit(v as int % 16)]
}

/// Appends the bytes of `more` to `out`.
pub fn push_bytes(out: &mut Vec<u8>, more: &[u8])
    ensures
        final(out)@ == old(out)@ + more@,
{
    let mut i: usize = 0;
    while i < more.len()
        invariant
            i <= more.len(),
            out@ == old(out)@ + more@.subrange(0, i as int),
        decreases more.len() - i,
    {
        out.push(more[i]);
        assert(out@ =~= old(out)@ + more@.subrange(0, i + 1));
        i = i + 1;
    }
    assert(more@.subrange(0, more.len() as int) =~= more@);
}

/// The decimal digits of a number.
pub fn decimal_digits(v: u64) -> (digits: Vec<u8>)
    ensures
        digits@ == decimal(v as nat),
    decreases v,
{
    if v < 10 {
        let mut digits: Vec<u8> = Vec::new();
        digits.push(0x30 + v as u8);
        assert(digits@ =~= seq![(0x30 + v) as u8]);
        digits
    } else {
        let mut digits = decimal_digits(v / 10);
        digits.push(0x30 + (v % 10) as u8);
        digits
    }
}

/// Appends a number in decimal.
pub fn push_decimal(out: &mut Vec<u8>, v: u64)
    ensures
        final(out)@ == old(out)@ + decimal(v as nat),
{
    let digits = decimal_digits(v);
    push_bytes(out, digits.as_slice());
}

/// Appends an integer in decimal.
pub fn push_signed(out: &mut Vec<u8>, v: i64)
    ensures
        final(out)@ == old(out)@ + signed_decimal(v as int),
{
    if v < 0 {
        out.push(0x2d);
        let magnitude: u64 = if v == i64::MIN {
            0x8000_0000_0000_0000
        } else {
            (-v) as u64
        };
        let ghost mid = out@;
        push_decimal(out, magnitude);
        assert(out@ =~= old(out)@ + (seq![0x2du8] + decimal((-v) as nat)));
    } else {
        push_decimal(out, v as u64);
    }
}

fn hex_char(v: u8) -> (c: u8)
    requires
        v < 16,
    ensures
        c == hex_digit(v as int),
{
    if v < 10 {
        0x30 + v
    } else {
        0x61 + v - 10
    }
}

/// Appends the four hexadecimal digits of a 16-bit number.
pub fn push_hex4(out: &mut Vec<u8>, v: u16)
    ensures
        final(out)@ == old(out)@ + hex4(v),
{
    out.push(hex_char((v / 4096) as u8));
    out.push(hex_char((v / 256 % 16) as u8));
    out.push(hex_char((v / 16 % 16) as u8));
    out.push(hex_char((v % 16) as u8));
    assert(out@ =~= old(out)@ + hex4(v));
}

/// Appends the two hexadecimal digits of a byte.
pub fn push_hex2(out: &mut Vec<u8>, v: u8)
    ensures
        final(out)@ == old(out)@ + hex2(v),
{
    out.push(hex_char(v / 16));
    out.push(hex_char(v % 16));
    assert(out@ =~= old(out)@ + hex2(v));
}

} // verus!
