//! Scaled-integer arithmetic at a fixed scale of one million.
//!
//! Every quantity suffixed `_fp` is a real value multiplied by [`FP`].
//! Multiplying two scaled values divides by the scale exactly once;
//! dividing multiplies by the scale first, so the scale never drifts.
//! Operations that can exceed the native width are checked and fail with
//! [`PerpsError::MathOverflow`]; a zero divisor fails with
//! [`PerpsError::DivisionByZero`].

use vstd::prelude::*;
use vstd::arithmetic::div_mod::{
    lemma_div_is_ordered, lemma_div_multiples_vanish, lemma_fundamental_div_mod,
};
use vstd::arithmetic::mul::lemma_mul_is_commutative;
use crate::errors::PerpsError;

verus! {

/// The fixed-point scale: a real value is stored as itself times this.
pub const FP: u128 = 1_000_000;

/// The protocol-wide cap on leverage, in whole multiples.
pub const MAX_LEVERAGE_X: u64 = 40;

/// Raw token units scaled up into fixed point.
pub fn to_fp(units: u64) -> (r: u128)
    ensures
        r == units * FP,
{
    (units as u128) * FP
}

/// A fixed-point amount scaled down to raw token units, truncating the
/// sub-unit remainder.
pub fn from_fp(amount_fp: u128) -> (r: u128)
    ensures
        r == amount_fp / FP,
{
    amount_fp / FP
}

/// Product of two fixed-point values, scaled back down once.
pub fn fp_mul(a: u128, b: u128) -> (r: Result<u128, PerpsError>)
    ensures
        a * b <= u128::MAX ==> r == Ok::<u128, PerpsError>(((a * b) / (FP as int)) as u128),
        a * b > u128::MAX ==> r == Err::<u128, PerpsError>(PerpsError::MathOverflow),
{
    match a.checked_mul(b) {
        Some(p) => Ok(p / FP),
        None => Err(PerpsError::MathOverflow),
    }
}

/// Quotient of two fixed-point values, scaled up before dividing.
pub fn fp_div(a: u128, b: u128) -> (r: Result<u128, PerpsError>)
    ensures
        b == 0 ==> r == Err::<u128, PerpsError>(PerpsError::DivisionByZero),
        b != 0 && a * FP > u128::MAX ==> r == Err::<u128, PerpsError>(PerpsError::MathOverflow),
        b != 0 && a * FP <= u128::MAX ==> r == Ok::<u128, PerpsError>(
            ((a * FP) / (b as int)) as u128,
        ),
{
    if b == 0 {
        return Err(PerpsError::DivisionByZero);
    }
    match a.checked_mul(FP) {
        Some(p) => Ok(p / b),
        None => Err(PerpsError::MathOverflow),
    }
}

/// Scaling raw units up and back down returns the original value exactly.
pub proof fn lemma_fp_round_trip(x: u64)
    ensures
        (x * FP) / (FP as int) == x,
{
    lemma_div_multiples_vanish(x as int, FP as int);
}

/// A fixed-point value that is a whole number of raw units survives the
/// downscale-then-upscale round trip exactly.
pub proof fn lemma_fp_round_trip_whole(x_fp: u128)
    requires
        x_fp % FP == 0,
    ensures
        (x_fp / FP) * FP == x_fp,
{
    lemma_fundamental_div_mod(x_fp as int, FP as int);
}

/// Multiplying by a factor of at least one and then dividing by the same
/// factor returns the original value within one unit of rounding.
pub proof fn lemma_fp_mul_then_div(x: u128, f: u128)
    requires
        FP <= f,
        x * f <= u128::MAX,
    ensures
        ((x * f) / (FP as int)) * FP <= u128::MAX,
        x - 1 <= ((((x * f) / (FP as int)) * FP) / (f as int)) <= x,
{
    let y = (x * f) / (FP as int);
    lemma_fundamental_div_mod(x * f, FP as int);
    // y * FP <= x * f, so the second product also fits.
    assert(y * FP == x * f - (x * f) % (FP as int));
    let z = (y * FP) / (f as int);
    // Upper bound: y * FP <= x * f gives z <= (x * f) / f == x.
    lemma_div_is_ordered(y * FP, x * f, f as int);
    lemma_div_multiples_vanish(x as int, f as int);
    lemma_mul_is_commutative(x as int, f as int);
    // Lower bound: y * FP >= x * f - FP + 1 >= x * f - f == (x - 1) * f.
    assert((x * f) % (FP as int) < FP);
    assert(y * FP >= x * f - f) by {
        assert(x * f - (x * f) % (FP as int) > x * f - FP);
    };
    assert((x - 1) * f == x * f - f) by (nonlinear_arith);
    lemma_div_is_ordered((x - 1) * f, y * FP, f as int);
    lemma_div_multiples_vanish(x - 1, f as int);
    lemma_mul_is_commutative(x - 1, f as int);
}

/// Dividing by a positive factor of at most one (in fixed point) and then
/// multiplying by the same factor returns the original value within one
/// unit of rounding.
pub proof fn lemma_fp_div_then_mul(x: u128, f: u128)
    requires
        0 < f <= FP,
        x * FP <= u128::MAX,
    ensures
        ((x * FP) / (f as int)) * f <= u128::MAX,
        x - 1 <= ((((x * FP) / (f as int)) * f) / (FP as int)) <= x,
{
    let w = (x * FP) / (f as int);
    lemma_fundamental_div_mod(x * FP, f as int);
    assert(w * f == x * FP - (x * FP) % (f as int));
    let z = (w * f) / (FP as int);
    // Upper bound: w * f <= x * FP gives z <= (x * FP) / FP == x.
    lemma_div_is_ordered(w * f, x * FP, FP as int);
    lemma_div_multiples_vanish(x as int, FP as int);
    lemma_mul_is_commutative(x as int, FP as int);
    // Lower bound: w * f >= x * FP - f + 1 >= x * FP - FP == (x - 1) * FP.
    assert((x * FP) % (f as int) < f);
    assert(w * f >= x * FP - FP) by {
        assert(x * FP - (x * FP) % (f as int) > x * FP - f);
        assert(f <= FP);
    };
    assert((x - 1) * FP == x * FP - FP) by (nonlinear_arith);
    lemma_div_is_ordered((x - 1) * FP, w * f, FP as int);
    lemma_div_multiples_vanish(x - 1, FP as int);
    lemma_mul_is_commutative(x - 1, FP as int);
}

} // verus!
