use castpay_paymaster::uint::U256;

#[test]
fn checked_add_carries_across_limbs() {
    let a = U256::from_limbs([u64::MAX, u64::MAX, 0, 0]);
    let b = U256::from_u64(1);
    assert_eq!(a.checked_add(b), Some(U256::from_limbs([0, 0, 1, 0])));
}

#[test]
fn checked_add_overflow_is_none() {
    assert_eq!(U256::max_value().checked_add(U256::from_u64(1)), None);
}

#[test]
fn checked_add_reaches_max() {
    let below = U256::from_limbs([u64::MAX - 1, u64::MAX, u64::MAX, u64::MAX]);
    assert_eq!(below.checked_add(U256::from_u64(1)), Some(U256::max_value()));
}

#[test]
fn checked_sub_borrows_across_limbs() {
    let a = U256::from_limbs([0, 0, 0, 1]);
    let b = U256::from_u64(1);
    assert_eq!(a.checked_sub(b), Some(U256::from_limbs([u64::MAX, u64::MAX, u64::MAX, 0])));
}

#[test]
fn checked_sub_below_zero_is_none() {
    assert_eq!(U256::from_u64(4).checked_sub(U256::from_u64(5)), None);
    assert_eq!(U256::from_u64(5).checked_sub(U256::from_u64(5)), Some(U256::zero()));
}

#[test]
fn checked_mul_spills_into_next_limb() {
    let a = U256::from_u64(1 << 63);
    let b = U256::from_u64(6);
    assert_eq!(a.checked_mul(b), Some(U256::from_limbs([0, 3, 0, 0])));
}

#[test]
fn checked_mul_overflow_is_none() {
    let half = U256::from_limbs([0, 0, 1, 0]);
    assert_eq!(half.checked_mul(half), None);
    let just_fits = U256::from_limbs([u64::MAX, u64::MAX, 0, 0]);
    assert_eq!(
        just_fits.checked_mul(just_fits),
        Some(U256::from_limbs([1, 0, u64::MAX - 1, u64::MAX]))
    );
}

#[test]
fn checked_div_rounds_down() {
    assert_eq!(U256::from_u64(1099).checked_div(U256::from_u64(100)), Some(U256::from_u64(10)));
    let wide = U256::from_limbs([0, 0, 4, 0]);
    assert_eq!(wide.checked_div(U256::from_u64(2)), Some(U256::from_limbs([0, 0, 2, 0])));
}

#[test]
fn checked_div_by_zero_is_none() {
    assert_eq!(U256::from_u64(7).checked_div(U256::zero()), None);
}

#[test]
fn saturating_sub_stops_at_zero() {
    assert_eq!(U256::from_u64(3).saturating_sub(U256::from_u64(9)), U256::zero());
    assert_eq!(U256::from_u64(9).saturating_sub(U256::from_u64(3)), U256::from_u64(6));
}

#[test]
fn comparison_goes_by_the_most_significant_limb() {
    let high = U256::from_limbs([0, 0, 0, 1]);
    let low = U256::from_limbs([u64::MAX, u64::MAX, u64::MAX, 0]);
    assert!(low.lt(high));
    assert!(!high.lt(low));
    assert!(!high.lt(high));
    assert!(high.ge(low));
    assert!(high.ge(high));
    assert!(!low.ge(high));
}

#[test]
fn equality_and_zero() {
    assert!(U256::zero().is_zero());
    assert!(!U256::from_limbs([0, 0, 1, 0]).is_zero());
    assert!(U256::from_u64(5).equals(U256::from_limbs([5, 0, 0, 0])));
    assert!(!U256::from_u64(5).equals(U256::from_limbs([5, 1, 0, 0])));
}

#[test]
fn limbs_round_trip() {
    let limbs = [1u64, 2, 3, 4];
    assert_eq!(U256::from_limbs(limbs).into_limbs(), limbs);
    assert_eq!(U256::max_value().into_limbs(), [u64::MAX; 4]);
}
