//! Text the output instructions emit: the UTF-8 encoding of a one-byte code
//! point and the signed decimal representation of a register.
use vstd::prelude::*;

verus! {

/// The value of a 32-bit register read as a two's-complement integer.
pub open spec fn as_signed(v: u32) -> int {
    if v < 0x8000_0000 {
        v as int
    } else {
        v as int - 0x1_0000_0000
    }
}

/// Decimal digits of `n`, most significant first, without leading zeros
/// (`"0"` for zero).
pub open spec fn digits(n: nat) -> Seq<u8>
    decreases n,
{
    if n < 10 {
        seq![(48 + n) as u8]
    } else {
        digits(n / 10).push((48 + n % 10) as u8)
    }
}

/// Signed decimal text of `n`: a leading `-` for negative values.
pub open spec fn decimal(n: int) -> Seq<u8> {
    if n < 0 {
        seq![45u8] + digits((-n) as nat)
    } else {
        digits(n as nat)
    }
}

/// UTF-8 encoding of the character whose code point is `b`.
pub open spec fn utf8_of_byte(b: u8) -> Seq<u8> {
    if b < 0x80 {
        seq![b]
    } else {
        seq![(0xC0 + b / 64) as u8, (0x80 + b % 64) as u8]
    }
}

/// Appends the decimal digits of `n` to `out`.
fn push_digits(n: u32, out: &mut Vec<u8>)
    ensures
        final(out)@ == old(out)@ + digits(n as nat),
    decreases n,
{
    if n >= 10 {
        push_digits(n / 10, out);
    }
    out.push(48u8 + (n % 10) as u8);
}

/// Appends the signed decimal text of the register value `v` to `out`.
pub fn push_decimal(v: u32, out: &mut Vec<u8>)
    ensures
        final(out)@ == old(out)@ + decimal(as_signed(v)),
{
    if v >= 0x8000_0000 {
        out.push(45u8);
        let magnitude: u32 = 0u32.wrapping_sub(v);
        assert(magnitude as int == -as_signed(v));
        push_digits(magnitude, out);
        assert(out@ =~= old(out)@ + decimal(as_signed(v)));
    } else {
        push_digits(v, out);
    }
}

/// Appends the UTF-8 encoding of the character with code point `b` to `out`.
pub fn push_utf8_byte(b: u8, out: &mut Vec<u8>)
    ensures
        final(out)@ == old(out)@ + utf8_of_byte(b),
{
    if b < 0x80 {
        out.push(b);
    } else {
        out.push(0xC0u8 + b / 64);
        out.push(0x80u8 + b % 64);
    }
    assert(out@ =~= old(out)@ + utf8_of_byte(b));
}

} // verus!
