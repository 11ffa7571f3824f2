//! Sizes in binary megabytes and gigabytes, printed with two decimal places.
//!
//! A size is first taken to the nearest value that a double-precision number
//! holds, then divided by the unit and rounded to hundredths, ties going to
//! the even hundredth. Below 2^53 bytes the first step changes nothing.

use vstd::prelude::*;
use vstd::string::StringExecFns;
use vstd::arithmetic::div_mod::lemma_div_denominator;
use crate::text::{decimal, digit_char, digit_str, push_decimal};

verus! {

/// Bytes in a binary megabyte.
pub const MIB: u64 = 1048576;

/// Bytes in a binary gigabyte.
pub const GIB: u64 = 1073741824;

/// Below this bound, 2^53, every whole number is a double-precision value.
pub const EXACT_LIMIT: u64 = 9007199254740992;

/// `numerator / unit`, rounded to the nearest whole number, a tie going to
/// the even one.
pub open spec fn round_half_even(numerator: nat, unit: nat) -> nat
    recommends
        unit > 0,
{
    let quotient = numerator / unit;
    let rest = numerator % unit;
    if 2 * rest > unit || (2 * rest == unit && quotient % 2 == 1) {
        quotient + 1
    } else {
        quotient
    }
}

/// The distance between neighbouring double-precision values around `n`:
/// the least power of two `s` with `n / s < 2^53`.
pub open spec fn spacing(n: nat) -> nat
    decreases n,
{
    if n < EXACT_LIMIT {
        1
    } else {
        2 * spacing(n / 2)
    }
}

/// The double-precision value nearest to `n`, a tie going to the even
/// multiple of the spacing.
pub open spec fn nearest_double(n: nat) -> nat {
    round_half_even(n, spacing(n)) * spacing(n)
}

/// `size / unit` in hundredths, as a two-place print of it shows.
pub open spec fn hundredths(size: nat, unit: nat) -> nat
    recommends
        unit > 0,
{
    round_half_even(nearest_double(size) * 100, unit)
}

/// A count of hundredths written with two decimal places, as in `12.50`.
pub open spec fn two_places(h: nat) -> Seq<char> {
    decimal(h / 100) + seq!['.', digit_char((h / 10) % 10), digit_char(h % 10)]
}

/// The label of a size in binary megabytes, as in `12.50 MB`.
pub open spec fn size_label_text(size: nat) -> Seq<char> {
    two_places(hundredths(size, MIB as nat)) + " MB"@
}

/// Sizes that a double-precision number holds exactly are left alone.
pub proof fn nearest_double_below_limit(n: nat)
    requires
        n < EXACT_LIMIT,
    ensures
        nearest_double(n) == n,
{
    assert(spacing(n) == 1);
}

fn nearest_double_of(n: u64) -> (r: u128)
    ensures
        r == nearest_double(n as nat),
        r <= 0x2_0000_0000_0000_0000,
{
    let mut unit: u64 = 1;
    let mut quotient: u64 = n;
    while quotient >= EXACT_LIMIT
        invariant
            1 <= unit <= 4096,
            quotient * unit <= n,
            quotient == n / unit,
            spacing(n as nat) == unit * spacing(quotient as nat),
        decreases quotient,
    {
        proof {
            assert(unit < 2048) by (nonlinear_arith)
                requires
                    quotient >= 9007199254740992,
                    quotient * unit <= n,
                    n < 0x1_0000_0000_0000_0000,
                    unit >= 1,
            ;
            lemma_div_denominator(n as int, unit as int, 2);
            assert((quotient / 2) * (unit * 2) <= quotient * unit) by (nonlinear_arith)
                requires
                    quotient >= 0,
                    unit >= 1,
            ;
            assert(unit * (2 * spacing((quotient / 2) as nat)) == (unit * 2) * spacing(
                (quotient / 2) as nat,
            )) by (nonlinear_arith);
        }
        quotient = quotient / 2;
        unit = unit * 2;
    }
    assert(spacing(quotient as nat) == 1);
    assert(spacing(n as nat) == unit) by (nonlinear_arith)
        requires
            spacing(n as nat) == unit * spacing(quotient as nat),
            spacing(quotient as nat) == 1,
    ;
    let rest: u64 = n % unit;
    let up = 2 * rest > unit || (2 * rest == unit && quotient % 2 == 1);
    let rounded: u64 = if up {
        quotient + 1
    } else {
        quotient
    };
    assert(rounded * unit <= 0x2_0000_0000_0000_0000) by (nonlinear_arith)
        requires
            rounded <= 9007199254740992,
            unit <= 4096,
    ;
    (rounded as u128) * (unit as u128)
}

fn hundredths_of(size: u64, unit: u64) -> (h: u64)
    requires
        unit == MIB || unit == GIB,
    ensures
        h == hundredths(size as nat, unit as nat),
{
    let nearest = nearest_double_of(size);
    let scaled: u128 = nearest * 100;
    let quotient: u128 = scaled / (unit as u128);
    let rest: u128 = scaled % (unit as u128);
    let up = 2 * rest > unit as u128 || (2 * rest == unit as u128 && quotient % 2 == 1);
    proof {
        if unit == MIB {
            assert(quotient == scaled / 1048576);
        } else {
            assert(quotient == scaled / 1073741824);
        }
        assert(quotient < 0x1_0000_0000_0000_0000 - 1);
    }
    if up {
        (quotient + 1) as u64
    } else {
        quotient as u64
    }
}

/// `size` in hundredths of a binary megabyte.
pub fn mib_hundredths(size: u64) -> (h: u64)
    ensures
        h == hundredths(size as nat, MIB as nat),
{
    hundredths_of(size, MIB)
}

/// `size` in hundredths of a binary gigabyte.
pub fn gib_hundredths(size: u64) -> (h: u64)
    ensures
        h == hundredths(size as nat, GIB as nat),
{
    hundredths_of(size, GIB)
}

/// Appends `h` hundredths to `out`, written with two decimal places.
pub fn push_two_places(out: &mut String, h: u64)
    ensures
        final(out)@ == old(out)@ + two_places(h as nat),
{
    push_decimal(out, h / 100);
    out.append(".");
    out.append(digit_str(((h / 10) % 10) as u8));
    out.append(digit_str((h % 10) as u8));
    proof {
        reveal_strlit(".");
        assert("."@ =~= seq!['.']);
        assert(out@ =~= old(out)@ + two_places(h as nat));
    }
}

/// Appends `size` in binary megabytes to `out`, as in `12.50`.
pub fn push_mib(out: &mut String, size: u64)
    ensures
        final(out)@ == old(out)@ + two_places(hundredths(size as nat, MIB as nat)),
{
    push_two_places(out, mib_hundredths(size));
}

/// Appends `size` in binary gigabytes to `out`, as in `1.25`.
pub fn push_gib(out: &mut String, size: u64)
    ensures
        final(out)@ == old(out)@ + two_places(hundredths(size as nat, GIB as nat)),
{
    push_two_places(out, gib_hundredths(size));
}

/// The label of a size in binary megabytes, as in `12.50 MB`.
pub fn size_label(size: u64) -> (label: String)
    ensures
        label@ == size_label_text(size as nat),
{
    let mut label = String::new();
    push_mib(&mut label, size);
    label.append(" MB");
    assert(label@ =~= size_label_text(size as nat));
    label
}

} // verus!
