use castpay_paymaster::error::PaymasterError;
use castpay_paymaster::price::{convert, BASIS_POINTS, PRICE_SCALE};
use castpay_paymaster::uint::U256;

fn n(value: u64) -> U256 {
    U256::from_u64(value)
}

#[test]
fn convert_adds_ten_percent_to_a_base_of_one_hundred() {
    assert_eq!(convert(n(100), n(PRICE_SCALE), n(1000)), Ok(n(110)));
    assert_eq!(convert(n(100 * PRICE_SCALE), n(1), n(1000)), Ok(n(110)));
}

#[test]
fn convert_of_zero_is_zero() {
    assert_eq!(convert(n(0), n(PRICE_SCALE), n(1000)), Ok(n(0)));
    assert_eq!(convert(n(0), U256::max_value(), U256::max_value()), Ok(n(0)));
}

#[test]
fn convert_rounds_both_divisions_down() {
    // base = floor(1999999999 * 1 / 10^9) = 1; fee = floor(1 * 9999 / 10000) = 0
    assert_eq!(convert(n(1_999_999_999), n(1), n(9999)), Ok(n(1)));
    // base = floor(7 * 3 * 10^8 / 10^9) = 2; fee = floor(2 * 5000 / 10000) = 1
    assert_eq!(convert(n(7), n(300_000_000), n(5000)), Ok(n(3)));
}

#[test]
fn convert_accepts_a_surcharge_above_the_whole() {
    assert_eq!(convert(n(100), n(PRICE_SCALE), n(3 * BASIS_POINTS)), Ok(n(400)));
    assert_eq!(convert(n(100), n(PRICE_SCALE), n(0)), Ok(n(100)));
}

#[test]
fn convert_is_monotonic_on_samples() {
    let fees = [0u64, 1, 999_999_999, 1_000_000_000, 1_000_000_001, 5_000_000_000, u64::MAX];
    let mut last = n(0);
    for fee in fees {
        let cost = convert(n(fee), n(3), n(1234)).unwrap();
        assert!(cost.ge(last));
        last = cost;
    }
}

#[test]
fn convert_overflow_in_the_first_product() {
    assert_eq!(
        convert(U256::max_value(), n(2), n(0)),
        Err(PaymasterError::ArithmeticOverflow)
    );
}

#[test]
fn convert_overflow_in_the_surcharge_product() {
    // base = floor((2^256 - 1) / 10^9) still needs three limbs and more.
    assert_eq!(
        convert(U256::max_value(), n(1), U256::from_limbs([0, 1, 0, 0])),
        Err(PaymasterError::ArithmeticOverflow)
    );
}

#[test]
fn convert_of_the_largest_fee_that_fits() {
    // (2^256 - 1) * 1 / 10^9, without surcharge
    let expected = U256::max_value().checked_div(n(PRICE_SCALE)).unwrap();
    assert_eq!(convert(U256::max_value(), n(1), n(0)), Ok(expected));
    assert_eq!(
        expected.into_limbs(),
        [0x08d5d64f9c394ae9, 0xc4a98187eebb22f0, 0xb5a52cb98b405447, 0x000000044b82fa09]
    );
}
