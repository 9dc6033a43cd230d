//! Fixed-point money arithmetic.
//!
//! Amounts are held in minor units (cents), quantities in thousandths of a
//! unit, and percentage rates in thousandths of a percent.  Figures that
//! the sale keeps unrounded (a line's price times quantity, discounts and
//! subtotals) are held in thousandths of a minor unit, which price times
//! quantity gives exactly.  Every division
//! rounds half away from zero, as decimal rounding to two places does.
use vstd::prelude::*;

verus! {

/// Largest magnitude, in minor units, of any amount the library stores.
pub const AMOUNT_LIMIT: i64 = 1_000_000_000_000_000;

/// Largest magnitude, in thousandths of a minor unit, of the unrounded
/// figures the library stores: line values, discounts and subtotals.
pub const MILLI_LIMIT: i64 = 1_000_000_000_000_000_000;

/// Largest magnitude of a quantity, in thousandths of a unit.
pub const QUANTITY_LIMIT: i64 = 1_000_000_000_000;

/// Largest magnitude of a rate, in thousandths of a percent.
pub const RATE_LIMIT: i64 = 1_000_000_000;

/// `n / d` rounded to the nearest integer, halves away from zero.
pub open spec fn div_round(n: int, d: int) -> int
    recommends
        d > 0,
{
    if n >= 0 {
        (2 * n + d) / (2 * d)
    } else {
        -((2 * (-n) + d) / (2 * d))
    }
}

pub open spec fn amount_ok(x: int) -> bool {
    -AMOUNT_LIMIT <= x <= AMOUNT_LIMIT
}

pub open spec fn milli_ok(x: int) -> bool {
    -MILLI_LIMIT <= x <= MILLI_LIMIT
}

pub open spec fn quantity_ok(x: int) -> bool {
    -QUANTITY_LIMIT <= x <= QUANTITY_LIMIT
}

pub open spec fn rate_ok(x: int) -> bool {
    -RATE_LIMIT <= x <= RATE_LIMIT
}

/// Bound under which the intermediate values of this module stay exact.
pub open spec fn wide_ok(x: int) -> bool {
    -0x1000_0000_0000_0000_0000_0000_0000_0000 <= x <= 0x1000_0000_0000_0000_0000_0000_0000_0000
}

/// Rounded division of wide intermediates.
pub fn round_div(n: i128, d: i128) -> (r: i128)
    requires
        wide_ok(n as int),
        0 < d,
        wide_ok(d as int),
    ensures
        r == div_round(n as int, d as int),
{
    let ud: u128 = d as u128;
    if n >= 0 {
        let un: u128 = n as u128;
        ((2 * un + ud) / (2 * ud)) as i128
    } else {
        let un: u128 = (-n) as u128;
        let q: u128 = (2 * un + ud) / (2 * ud);
        assert(q <= un) by (nonlinear_arith)
            requires q == (2 * un + ud) / (2 * ud), ud >= 1;
        -(q as i128)
    }
}

/// A rounded quotient is at most one past the bound of the exact one.
pub proof fn lemma_div_round_bound(n: int, d: int, b: int)
    requires
        d > 0,
        b >= 0,
        -(d * b) <= n <= d * b,
    ensures
        -(b + 1) <= div_round(n, d) <= b + 1,
{
    if n >= 0 {
        assert((2 * n + d) / (2 * d) <= b + 1) by (nonlinear_arith)
            requires
                d > 0,
                b >= 0,
                0 <= n <= d * b;
        assert((2 * n + d) / (2 * d) >= 0) by (nonlinear_arith)
            requires
                d > 0,
                0 <= n;
    } else {
        assert((2 * (-n) + d) / (2 * d) <= b + 1) by (nonlinear_arith)
            requires
                d > 0,
                b >= 0,
                0 <= -n <= d * b;
        assert((2 * (-n) + d) / (2 * d) >= 0) by (nonlinear_arith)
            requires
                d > 0,
                0 <= -n;
    }
}

} // verus!
