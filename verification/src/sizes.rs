//! Sizes in the units a musician thinks in.
//!
//! A size is shown as its double-precision value would be: sizes beyond 53
//! bits are first rounded to the nearest double, and the shown digits are
//! rounded to the nearest, a tie going to the even digit.
use vstd::prelude::*;

use crate::text::{decimal, decimal_text};

verus! {

/// The nearest whole number of units, a tie going to the even number.
pub open spec fn nearest_even(n: nat, unit: nat) -> nat {
    let quotient = n / unit;
    let rest = n % unit;
    if 2 * rest < unit || (2 * rest == unit && quotient % 2 == 0) {
        quotient
    } else {
        quotient + 1
    }
}

/// The distance between neighbouring doubles at `n`.
pub open spec fn spacing(n: nat) -> nat
    decreases n,
{
    if n < 0x20_0000_0000_0000 {
        1
    } else {
        2 * spacing(n / 2)
    }
}

/// The double nearest to `n`, a tie going to the even mantissa.
pub open spec fn as_double(n: nat) -> nat {
    let unit = spacing(n);
    let low = (n - n % unit) as nat;
    if nearest_even(n, unit) == n / unit {
        low
    } else {
        low + unit
    }
}

/// A number of tenths with its decimal point.
pub open spec fn tenths_text(tenths: nat) -> Seq<char> {
    decimal(tenths / 10) + "."@ + decimal(tenths % 10)
}

/// A byte count in words.
pub open spec fn bytes_text(bytes: nat) -> Seq<char> {
    let size = as_double(bytes);
    if size >= 1024 * 1024 * 1024 {
        tenths_text(nearest_even(size * 10, 1024 * 1024 * 1024)) + " GB"@
    } else if size >= 1024 * 1024 {
        decimal(nearest_even(size, 1024 * 1024)) + " MB"@
    } else if size >= 1024 {
        decimal(nearest_even(size, 1024)) + " KB"@
    } else {
        decimal(size) + " B"@
    }
}

fn nearest(n: u128, unit: u128) -> (r: u128)
    requires
        0 < unit <= 0x4000_0000,
        n <= 0x1_0000_0000_0000_0000_0000,
    ensures
        r == nearest_even(n as nat, unit as nat),
        r <= n + 1,
{
    let quotient: u128 = n / unit;
    let rest: u128 = n % unit;
    assert(quotient <= n) by (nonlinear_arith)
        requires
            quotient == n / unit,
            unit > 0,
    ;
    if 2 * rest < unit || (2 * rest == unit && quotient % 2 == 0) {
        quotient
    } else {
        quotient + 1
    }
}

fn spacing_at(n: u64) -> (r: u128)
    ensures
        r == spacing(n as nat),
        1 <= r <= 0x1000,
        n < 0x20_0000_0000_0000 ==> r == 1,
    decreases n,
{
    if n < 0x20_0000_0000_0000 {
        return 1;
    }
    let mut unit: u128 = 1;
    let mut rest: u64 = n;
    while rest >= 0x20_0000_0000_0000
        invariant
            spacing(n as nat) == unit * spacing(rest as nat),
            1 <= unit,
            unit * rest <= n,
            unit <= 0x1000,
            n <= u64::MAX,
        decreases rest,
    {
        assert(unit <= 0x7ff) by (nonlinear_arith)
            requires
                unit * rest <= n,
                rest >= 0x20_0000_0000_0000u64,
                n <= u64::MAX,
        ;
        assert(unit * (2 * spacing((rest / 2) as nat)) == (2 * unit) * spacing((rest / 2) as nat))
            by (nonlinear_arith);
        assert((2 * unit) * (rest / 2) <= unit * rest) by (nonlinear_arith);
        unit = 2 * unit;
        rest = rest / 2;
    }
    assert(unit * spacing(rest as nat) == unit) by (nonlinear_arith)
        requires
            spacing(rest as nat) == 1,
    ;
    unit
}

fn double_of(n: u64) -> (r: u128)
    ensures
        r == as_double(n as nat),
        r <= n + 0x1000,
{
    let unit: u128 = spacing_at(n);
    let low: u128 = n as u128 - n as u128 % unit;
    if nearest(n as u128, unit) == n as u128 / unit {
        low
    } else {
        low + unit
    }
}

fn tenths(n: u128) -> (r: String)
    ensures
        r@ == tenths_text(n as nat),
{
    let mut out = decimal_text(n / 10);
    out.append(".");
    out.append(decimal_text(n % 10).as_str());
    out
}

/// Human-readable byte count, in the units a musician thinks in.
pub fn format_bytes(bytes: u64) -> (r: String)
    ensures
        r@ == bytes_text(bytes as nat),
{
    let size: u128 = double_of(bytes);
    if size >= 1024 * 1024 * 1024 {
        let mut out = tenths(nearest(size * 10, 1024 * 1024 * 1024));
        out.append(" GB");
        out
    } else if size >= 1024 * 1024 {
        let mut out = decimal_text(nearest(size, 1024 * 1024));
        out.append(" MB");
        out
    } else if size >= 1024 {
        let mut out = decimal_text(nearest(size, 1024));
        out.append(" KB");
        out
    } else {
        let mut out = decimal_text(size);
        out.append(" B");
        out
    }
}

/// The weight of a project file in mebibytes.
pub open spec fn weight_text(bytes: nat) -> Seq<char> {
    tenths_text(nearest_even(as_double(bytes) * 10, 1024 * 1024)) + " MB project"@
}

/// The weight of a project file in mebibytes.
pub fn project_weight(bytes: u64) -> (r: String)
    ensures
        r@ == weight_text(bytes as nat),
{
    let mut out = tenths(nearest(double_of(bytes) * 10, 1024 * 1024));
    out.append(" MB project");
    out
}

} // verus!
