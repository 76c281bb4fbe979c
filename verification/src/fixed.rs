//! Decimal fixed-point numbers with eighteen fractional digits.

use vstd::prelude::*;
use sp_arithmetic::traits::{CheckedAdd, CheckedMul};
use sp_arithmetic::FixedPointNumber;

verus! {

/// The number of smallest units in one: ten to the power of eighteen.
pub const ACCURACY: u128 = 1_000_000_000_000_000_000;

/// A non-negative number, held as the count `inner` of units of `1 / ACCURACY`.
#[derive(Clone, Copy, Debug, PartialEq, Eq)]
pub struct FixedU128 {
    pub inner: u128,
}

/// The fixed-point number with `units` units, if that many can be held.
pub open spec fn from_units(units: int) -> Option<FixedU128> {
    if 0 <= units <= u128::MAX {
        Some(FixedU128 { inner: units as u128 })
    } else {
        None
    }
}

impl FixedU128 {
    /// Calls `checked_from_rational` of `sp_arithmetic::FixedPointNumber` on `FixedU128`.
    ///
    /// Claimed of it: a zero denominator gives `None`; otherwise the result is `n / d`, rounded
    /// down to a whole number of units, or `None` where that exceeds what can be held. A
    /// denominator of at most 32 bits is one limb of the big number that the crate divides by,
    /// and its one-limb division rounds down.
    #[verifier::external_body]
    pub(crate) fn checked_from_rational(n: u128, d: u32) -> (res: Option<FixedU128>)
        ensures
            res == (if d == 0 {
                None
            } else {
                from_units((n * ACCURACY) / (d as int))
            }),
    {
        match sp_arithmetic::FixedU128::checked_from_rational(n, d) {
            Some(number) => Some(FixedU128 { inner: number.into_inner() }),
            None => None,
        }
    }

    /// Calls `checked_from_integer` of `sp_arithmetic::FixedPointNumber` on `FixedU128`.
    ///
    /// Claimed of it: the result is the number `whole`, or `None` where that exceeds what can
    /// be held.
    #[verifier::external_body]
    pub(crate) fn checked_from_integer(whole: u128) -> (res: Option<FixedU128>)
        ensures
            res == from_units(whole * ACCURACY),
    {
        match sp_arithmetic::FixedU128::checked_from_integer(whole) {
            Some(number) => Some(FixedU128 { inner: number.into_inner() }),
            None => None,
        }
    }

    /// Calls `checked_mul` of `sp_arithmetic::FixedU128`.
    ///
    /// Claimed of it, for a whole number on the left: the result is the exact product, or `None`
    /// where that exceeds what can be held. (The crate divides the whole factor by the accuracy
    /// before it multiplies, so nothing is rounded. With a fraction on both sides it rounds, which
    /// is why `self` has to be whole.)
    #[verifier::external_body]
    pub(crate) fn checked_mul(&self, other: &FixedU128) -> (res: Option<FixedU128>)
        requires
            self.inner % ACCURACY == 0,
        ensures
            res == from_units((self.inner / ACCURACY) * other.inner),
    {
        let lhs = sp_arithmetic::FixedU128::from_inner(self.inner);
        match lhs.checked_mul(&sp_arithmetic::FixedU128::from_inner(other.inner)) {
            Some(number) => Some(FixedU128 { inner: number.into_inner() }),
            None => None,
        }
    }

    /// Calls `checked_add` of `sp_arithmetic::FixedU128`.
    ///
    /// Claimed of it: the result is the sum, or `None` where that exceeds what can be held.
    #[verifier::external_body]
    pub(crate) fn checked_add(&self, other: &FixedU128) -> (res: Option<FixedU128>)
        ensures
            res == from_units(self.inner + other.inner),
    {
        let lhs = sp_arithmetic::FixedU128::from_inner(self.inner);
        match lhs.checked_add(&sp_arithmetic::FixedU128::from_inner(other.inner)) {
            Some(number) => Some(FixedU128 { inner: number.into_inner() }),
            None => None,
        }
    }

    /// Calls `accuracy` of `sp_arithmetic::FixedPointNumber` on `FixedU128`.
    ///
    /// Claimed of it: it is the number of units in one.
    #[verifier::external_body]
    pub(crate) fn accuracy() -> (res: u128)
        ensures
            res == ACCURACY,
    {
        sp_arithmetic::FixedU128::accuracy()
    }
}

/// A number can be made of exactly as many units as the machine can count, and has that many.
pub proof fn law_units_are_kept(units: int)
    ensures
        from_units(units) is Some <==> 0 <= units <= u128::MAX,
        from_units(units) matches Some(number) ==> number.inner == units,
{
}

} // verus!
