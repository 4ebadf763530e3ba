//! Decimal rendering of integers into strings, with optional left padding.
//!
//! Everything here is stated over `Seq<char>`: each exec function appends
//! exactly the character sequence that its spec function describes.

use vstd::prelude::*;

verus! {

/// The character for one decimal digit.
pub open spec fn digit_char(d: nat) -> char
    recommends
        d < 10,
{
    ((48 + d) as u8) as char
}

/// The decimal digits of `n`, most significant first, no sign and no padding.
pub open spec fn spec_decimal_digits(n: nat) -> Seq<char>
    decreases n,
{
    if n < 10 {
        seq![digit_char(n)]
    } else {
        spec_decimal_digits(n / 10).push(digit_char(n % 10))
    }
}

/// `k` copies of the character `c`.
pub open spec fn repeat_char(c: char, k: nat) -> Seq<char> {
    Seq::new(k, |i: int| c)
}

/// The decimal digits of `n`, right-aligned to at least `width` characters
/// by copies of `fill` on the left; wider numbers are never truncated.
pub open spec fn spec_aligned_decimal(n: nat, width: nat, fill: char) -> Seq<char> {
    let digits = spec_decimal_digits(n);
    if digits.len() >= width {
        digits
    } else {
        repeat_char(fill, (width - digits.len()) as nat) + digits
    }
}

/// The decimal rendering of a signed value: a leading `-` for negatives.
pub open spec fn spec_signed_decimal(v: int) -> Seq<char> {
    if v < 0 {
        seq!['-'] + spec_decimal_digits((-v) as nat)
    } else {
        spec_decimal_digits(v as nat)
    }
}

/// Relies on String::push: appends one character at the end of the string.
#[verifier::external_body]
fn push_char(out: &mut String, c: char)
    ensures
        final(out)@ == old(out)@.push(c),
{
    out.push(c)
}

/// Appends the character for one decimal digit.
fn push_digit(out: &mut String, d: u8)
    requires
        d < 10,
    ensures
        final(out)@ == old(out)@ + seq![digit_char(d as nat)],
{
    let c: char = (48 + d) as char;
    push_char(out, c);
    proof {
        assert(old(out)@.push(c) =~= old(out)@ + seq![digit_char(d as nat)]);
    }
}

/// Appends the decimal digits of `n`, most significant first.
pub fn append_decimal_u32(out: &mut String, n: u32)
    ensures
        final(out)@ == old(out)@ + spec_decimal_digits(n as nat),
    decreases n,
{
    if n < 10 {
        push_digit(out, n as u8);
    } else {
        append_decimal_u32(out, n / 10);
        push_digit(out, (n % 10) as u8);
        proof {
            assert(old(out)@ + spec_decimal_digits((n / 10) as nat) + seq![
                digit_char((n % 10) as nat),
            ] =~= old(out)@ + spec_decimal_digits(n as nat));
        }
    }
}

/// Ten raised to the power `k`.
pub open spec fn pow10(k: nat) -> nat
    decreases k,
{
    if k == 0 {
        1
    } else {
        10 * pow10((k - 1) as nat)
    }
}

/// A value below `pow10(b)` has at most `b` decimal digits.
pub proof fn lemma_decimal_digits_len_bound(n: nat, b: nat)
    requires
        1 <= b,
        n < pow10(b),
    ensures
        spec_decimal_digits(n).len() <= b,
    decreases b,
{
    if n < 10 {
    } else {
        assert(pow10(b) == 10 * pow10((b - 1) as nat));
        assert(n / 10 < pow10((b - 1) as nat)) by (nonlinear_arith)
            requires
                n < 10 * pow10((b - 1) as nat),
        ;
        assert(pow10((b - 1) as nat) > 1) by {
            if b - 1 == 0 {
                assert(pow10(0) == 1);
                assert(n < 10);
            }
        }
        lemma_decimal_digits_len_bound(n / 10, (b - 1) as nat)
    }
}

/// The number of decimal digits of `n`; at most ten for a 32-bit value.
pub fn decimal_digit_count(n: u32) -> (count: usize)
    ensures
        count == spec_decimal_digits(n as nat).len(),
        count <= 10,
    decreases n,
{
    proof {
        assert(pow10(10) == 10000000000) by {
            reveal_with_fuel(pow10, 11);
        }
        lemma_decimal_digits_len_bound(n as nat, 10);
    }
    if n < 10 {
        1
    } else {
        1 + decimal_digit_count(n / 10)
    }
}

/// Appends the decimal digits of `n`, right-aligned to at least `width`
/// characters by copies of `fill` on the left.
pub fn append_aligned_decimal_u32(out: &mut String, n: u32, width: usize, fill: char)
    ensures
        final(out)@ == old(out)@ + spec_aligned_decimal(n as nat, width as nat, fill),
{
    let digits = decimal_digit_count(n);
    let mut i: usize = digits;
    while i < width
        invariant
            digits <= i,
            digits == spec_decimal_digits(n as nat).len(),
            i <= width || i == digits,
            out@ == old(out)@ + repeat_char(fill, (i - digits) as nat),
        decreases width - i,
    {
        push_char(out, fill);
        i = i + 1;
        proof {
            assert((old(out)@ + repeat_char(fill, (i - 1 - digits) as nat)).push(fill) =~= old(
                out,
            )@ + repeat_char(fill, (i - digits) as nat));
        }
    }
    append_decimal_u32(out, n);
    proof {
        assert(out@ =~= old(out)@ + spec_aligned_decimal(n as nat, width as nat, fill));
    }
}

/// Appends the decimal rendering of a signed 32-bit value.
pub fn append_decimal_i32(out: &mut String, v: i32)
    ensures
        final(out)@ == old(out)@ + spec_signed_decimal(v as int),
{
    if v < 0 {
        push_char(out, '-');
        let magnitude: u32 = (-(v as i64)) as u32;
        assert(magnitude == -(v as int));
        append_decimal_u32(out, magnitude);
        proof {
            assert(old(out)@.push('-') + spec_decimal_digits(magnitude as nat) =~= old(out)@
                + spec_signed_decimal(v as int));
        }
    } else {
        append_decimal_u32(out, v as u32);
    }
}

} // verus!
