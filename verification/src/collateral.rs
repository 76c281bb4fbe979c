//! Exchange rates and the griefing collateral of an issue request.

use vstd::prelude::*;
use crate::error::Error;
use crate::fixed::{FixedU128, ACCURACY};
#[allow(unused_imports)]
use crate::fixed::from_units;

verus! {

/// The exchange rate of the command line is given in units of one over this number.
pub const EXCHANGE_RATE_GRANULARITY: u32 = 100_000;

/// `value / EXCHANGE_RATE_GRANULARITY`, counted in units of `1 / ACCURACY`.
pub open spec fn exchange_rate_units(value: u128) -> int {
    (value * ACCURACY) / (EXCHANGE_RATE_GRANULARITY as int)
}

/// The rate that `value` stands for, if it can be held.
pub open spec fn exchange_rate_of(value: u128) -> Option<FixedU128> {
    from_units(exchange_rate_units(value))
}

/// Turns the exchange rate of the command line into a fixed-point rate.
pub fn exchange_rate(value: u128) -> (res: Option<FixedU128>)
    ensures
        res == exchange_rate_of(value),
        res matches Some(rate) ==> rate.inner * 100_000 == value * ACCURACY,
        res is None <==> value * ACCURACY > u128::MAX * 100_000,
{
    FixedU128::checked_from_rational(value, EXCHANGE_RATE_GRANULARITY)
}

/// `amount * rate`, counted in units of `1 / ACCURACY`.
pub open spec fn collateral_units(amount: u128, rate: FixedU128) -> int {
    amount * rate.inner
}

/// Whether the collateral for `amount` at `rate` can be computed: the amount, and its share with
/// one half added, are both numbers that fixed-point arithmetic can hold.
pub open spec fn collateral_computable(amount: u128, rate: FixedU128) -> bool {
    &&& amount * ACCURACY <= u128::MAX
    &&& collateral_units(amount, rate) + ACCURACY / 2 <= u128::MAX
}

/// The whole number nearest to `amount * rate`; of two that are equally near, the larger.
pub open spec fn rounded_collateral(amount: u128, rate: FixedU128) -> int {
    (collateral_units(amount, rate) + ACCURACY / 2) / (ACCURACY as int)
}

/// Computes the griefing collateral that an issue request worth `amount_in_dot` needs at the given
/// rate.
pub fn griefing_collateral(amount_in_dot: u128, rate: &FixedU128) -> (res: Result<u128, Error>)
    ensures
        collateral_computable(amount_in_dot, *rate) ==> (res matches Ok(collateral) && collateral
            == rounded_collateral(amount_in_dot, *rate)),
        !collateral_computable(amount_in_dot, *rate) ==> res == Err::<u128, Error>(
            Error::MathError,
        ),
        res is Ok <==> amount_in_dot * ACCURACY <= u128::MAX && amount_in_dot * rate.inner
            + ACCURACY / 2 <= u128::MAX,
        res matches Ok(collateral) ==> 2 * collateral * ACCURACY <= 2 * (amount_in_dot
            * rate.inner) + ACCURACY && 2 * (amount_in_dot * rate.inner) < 2 * collateral * ACCURACY
            + ACCURACY,
        res matches Err(error) ==> error == Error::MathError,
{
    let half = match FixedU128::checked_from_rational(1, 2) {
        Some(half) => half,
        None => return Err(Error::MathError),
    };
    let amount = match FixedU128::checked_from_integer(amount_in_dot) {
        Some(amount) => amount,
        None => return Err(Error::MathError),
    };
    assert(amount.inner % ACCURACY == 0 && amount.inner / ACCURACY == amount_in_dot);
    let share = match amount.checked_mul(rate) {
        Some(share) => share,
        None => return Err(Error::MathError),
    };
    let raised = match share.checked_add(&half) {
        Some(raised) => raised,
        None => return Err(Error::MathError),
    };
    match raised.inner.checked_div(FixedU128::accuracy()) {
        Some(collateral) => Ok(collateral),
        None => Err(Error::MathError),
    }
}

/// An exchange rate is exact: no part of the value is lost to rounding.
pub proof fn law_exchange_rate_is_exact(value: u128)
    ensures
        exchange_rate_units(value) * EXCHANGE_RATE_GRANULARITY == value * ACCURACY,
        exchange_rate_of(value) matches Some(rate) ==> rate.inner * 100_000 == value * ACCURACY,
        exchange_rate_of(value) is None <==> value * ACCURACY > u128::MAX * 100_000,
{
    assert(exchange_rate_units(value) == value * 10_000_000_000_000);
}

/// The number of units in one is a power of ten: numbers have eighteen digits after the point.
pub proof fn law_accuracy_is_eighteen_digits()
    ensures
        ACCURACY == vstd::arithmetic::power::pow(10, 18),
{
    reveal_with_fuel(vstd::arithmetic::power::pow, 19);
}

/// A larger value stands for a larger rate, and two values never stand for the same rate.
pub proof fn law_exchange_rate_is_strictly_increasing(low: u128, high: u128)
    requires
        low < high,
    ensures
        exchange_rate_units(low) < exchange_rate_units(high),
{
}

/// A computed collateral is the whole number nearest to `amount * rate`: it is off by at most one
/// half, and a tie is rounded up.
pub proof fn law_collateral_is_nearest(amount: u128, rate: FixedU128)
    ensures
        2 * rounded_collateral(amount, rate) * ACCURACY <= 2 * collateral_units(amount, rate)
            + ACCURACY,
        2 * collateral_units(amount, rate) < 2 * rounded_collateral(amount, rate) * ACCURACY
            + ACCURACY,
        2 * rounded_collateral(amount, rate) * ACCURACY <= 2 * (amount * rate.inner) + ACCURACY,
        2 * (amount * rate.inner) < 2 * rounded_collateral(amount, rate) * ACCURACY + ACCURACY,
{
}

/// A collateral can be computed exactly if the amount, and its share with one half added, do not
/// exceed what fixed-point numbers can hold.
pub proof fn law_collateral_limits(amount: u128, rate: FixedU128)
    ensures
        collateral_computable(amount, rate) <==> amount * ACCURACY <= u128::MAX && amount
            * rate.inner + ACCURACY / 2 <= u128::MAX,
        collateral_computable(amount, rate) ==> 0 <= rounded_collateral(amount, rate) <= u128::MAX,
{
    assert(0 <= amount * rate.inner) by (nonlinear_arith);
}

/// One collateral for two amounts together differs from two separate ones by at most one.
pub proof fn law_collateral_is_nearly_additive(a: u128, b: u128, rate: FixedU128)
    requires
        a + b <= u128::MAX,
    ensures
        -1 <= rounded_collateral((a + b) as u128, rate) - rounded_collateral(a, rate)
            - rounded_collateral(b, rate) <= 1,
{
    assert((a + b) * rate.inner == a * rate.inner + b * rate.inner) by (nonlinear_arith);
}

/// Where `amount * rate` is a whole number, the collateral is that number.
pub proof fn law_whole_collateral_is_exact(amount: u128, rate: FixedU128, whole: int)
    requires
        amount * rate.inner == whole * ACCURACY,
    ensures
        rounded_collateral(amount, rate) == whole,
{
}

/// The collateral never falls when the amount or the rate rises, and what can be computed for the
/// larger can be computed for the smaller.
pub proof fn law_collateral_is_monotonic(
    low_amount: u128,
    high_amount: u128,
    low_rate: FixedU128,
    high_rate: FixedU128,
)
    requires
        low_amount <= high_amount,
        low_rate.inner <= high_rate.inner,
    ensures
        rounded_collateral(low_amount, low_rate) <= rounded_collateral(high_amount, high_rate),
        collateral_computable(high_amount, high_rate) ==> collateral_computable(
            low_amount,
            low_rate,
        ),
{
    let (a, b, x, y) = (
        low_amount as int,
        high_amount as int,
        low_rate.inner as int,
        high_rate.inner as int,
    );
    assert(a * x <= b * y) by (nonlinear_arith)
        requires
            0 <= a <= b,
            0 <= x <= y,
    ;
}

} // verus!
