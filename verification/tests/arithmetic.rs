use sp_arithmetic::FixedPointNumber;
use testdata_gen::collateral::{exchange_rate, griefing_collateral};
use testdata_gen::error::Error;
use testdata_gen::fixed::{FixedU128, ACCURACY};

fn rate(inner: u128) -> FixedU128 {
    FixedU128 { inner }
}

#[test]
fn exchange_rate_is_in_hundred_thousandths() {
    assert_eq!(exchange_rate(0), Some(rate(0)));
    assert_eq!(exchange_rate(1), Some(rate(10_000_000_000_000)));
    assert_eq!(exchange_rate(100_000), Some(rate(ACCURACY)));
    assert_eq!(exchange_rate(385_523_187), Some(rate(3_855_231_870_000_000_000_000)));
}

#[test]
fn exchange_rate_is_exact_up_to_the_limit() {
    let largest = u128::MAX / 10_000_000_000_000;
    assert_eq!(exchange_rate(largest), Some(rate(largest * 10_000_000_000_000)));
    assert_eq!(exchange_rate(largest + 1), None);
    assert_eq!(exchange_rate(u128::MAX), None);
}

#[test]
fn exchange_rate_agrees_with_the_fixed_point_crate() {
    for value in [1u128, 7, 99_999, 123_456_789, 1 << 80] {
        let expected = sp_arithmetic::FixedU128::checked_from_rational(value, 100_000).unwrap();
        assert_eq!(exchange_rate(value).unwrap().inner, expected.into_inner());
    }
}

#[test]
fn exchange_rate_is_strictly_increasing() {
    assert!(exchange_rate(41).unwrap().inner < exchange_rate(42).unwrap().inner);
}

#[test]
fn collateral_is_rounded_to_the_nearest() {
    // 1.49, 1.5 and 2.5 of something
    assert_eq!(griefing_collateral(149, &rate(ACCURACY / 100)), Ok(1));
    assert_eq!(griefing_collateral(150, &rate(ACCURACY / 100)), Ok(2));
    assert_eq!(griefing_collateral(5, &rate(ACCURACY / 2)), Ok(3));
    assert_eq!(griefing_collateral(1, &rate(ACCURACY / 2 - 1)), Ok(0));
    assert_eq!(griefing_collateral(3, &rate(ACCURACY / 3)), Ok(1));
}

#[test]
fn whole_collateral_is_exact() {
    assert_eq!(griefing_collateral(0, &rate(ACCURACY)), Ok(0));
    assert_eq!(griefing_collateral(100_000, &rate(0)), Ok(0));
    assert_eq!(griefing_collateral(100_000, &rate(50_000_000_000_000)), Ok(5));
    assert_eq!(griefing_collateral(1_234_567_890, &rate(7 * ACCURACY)), Ok(8_641_975_230));
}

#[test]
fn collateral_rises_with_amount_and_rate() {
    let low = griefing_collateral(1_000, &rate(ACCURACY / 7)).unwrap();
    let more = griefing_collateral(1_001, &rate(ACCURACY / 7)).unwrap();
    let dearer = griefing_collateral(1_001, &rate(ACCURACY / 6)).unwrap();
    assert_eq!((low, more, dearer), (143, 143, 167));
}

#[test]
fn amount_too_large_is_a_math_error() {
    let largest = u128::MAX / ACCURACY;
    assert_eq!(griefing_collateral(largest, &rate(0)), Ok(0));
    assert_eq!(griefing_collateral(largest + 1, &rate(0)), Err(Error::MathError));
    assert_eq!(griefing_collateral(u128::MAX, &rate(1)), Err(Error::MathError));
}

#[test]
fn product_too_large_is_a_math_error() {
    assert_eq!(griefing_collateral(2, &rate(u128::MAX)), Err(Error::MathError));
    assert_eq!(griefing_collateral(2, &rate(1 << 127)), Err(Error::MathError));
}

#[test]
fn sum_too_large_is_a_math_error() {
    let half = ACCURACY / 2;
    assert_eq!(griefing_collateral(1, &rate(u128::MAX)), Err(Error::MathError));
    assert_eq!(griefing_collateral(1, &rate(u128::MAX - half + 1)), Err(Error::MathError));
    assert_eq!(
        griefing_collateral(1, &rate(u128::MAX - half)),
        Ok(340_282_366_920_938_463_463)
    );
}
