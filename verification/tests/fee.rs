use escrow::bounty_escrow::BountyEscrowContract;
use escrow::fee::{calculate_fee, fee_when_enabled, validate_rate, BASIS_POINTS, MAX_FEE_RATE};
use escrow::program_escrow::ProgramEscrowContract;

#[test]
fn constants_are_basis_points() {
    assert_eq!(BASIS_POINTS, 10_000);
    assert_eq!(MAX_FEE_RATE, 1_000);
}

#[test]
fn fee_is_floor_of_product_over_ten_thousand() {
    assert_eq!(calculate_fee(1000, 100), 10);
    assert_eq!(calculate_fee(999, 100), 9);
    assert_eq!(calculate_fee(99, 100), 0);
    assert_eq!(calculate_fee(100, 100), 1);
    assert_eq!(calculate_fee(10_000, 1), 1);
    assert_eq!(calculate_fee(9_999, 1), 0);
    assert_eq!(calculate_fee(123_456_789, 1000), 12_345_678);
    assert_eq!(calculate_fee(0, 1000), 0);
}

#[test]
fn fee_at_rate_zero_is_zero() {
    assert_eq!(calculate_fee(1000, 0), 0);
    assert_eq!(calculate_fee(i128::MAX, 0), 0);
    assert_eq!(calculate_fee(i128::MIN, 0), 0);
}

#[test]
fn fee_is_waived_where_the_product_overflows() {
    assert_eq!(calculate_fee(i128::MAX, 2), 0);
    assert_eq!(calculate_fee(i128::MAX, 1000), 0);
    assert_eq!(calculate_fee(i128::MIN, 2), 0);
    assert_eq!(calculate_fee(i128::MAX / 1000 + 1, 1000), 0);
}

#[test]
fn fee_at_the_edge_of_the_range() {
    let largest = i128::MAX / 1000;
    assert_eq!(calculate_fee(largest, 1000), largest * 1000 / 10_000);
    assert_eq!(calculate_fee(i128::MAX, 1), i128::MAX / 10_000);
}

#[test]
fn fee_on_a_negative_amount_rounds_toward_zero() {
    assert_eq!(calculate_fee(-1000, 100), -10);
    assert_eq!(calculate_fee(-999, 100), -9);
    assert_eq!(calculate_fee(-99, 100), 0);
    assert_eq!(calculate_fee(1000, -100), -10);
}

#[test]
fn both_ledgers_compute_the_same_fee() {
    assert_eq!(BountyEscrowContract::calculate_fee(1000, 100), 10);
    assert_eq!(ProgramEscrowContract::calculate_fee(1000, 100), 10);
    assert_eq!(BountyEscrowContract::calculate_fee(2_500, 250), 62);
    assert_eq!(ProgramEscrowContract::calculate_fee(2_500, 250), 62);
    assert_eq!(BountyEscrowContract::calculate_fee(i128::MAX, 3), 0);
    assert_eq!(ProgramEscrowContract::calculate_fee(i128::MAX, 3), 0);
}

#[test]
fn fee_is_charged_only_where_enabled_and_rate_positive() {
    assert_eq!(fee_when_enabled(true, 1000, 100), 10);
    assert_eq!(fee_when_enabled(false, 1000, 100), 0);
    assert_eq!(fee_when_enabled(true, 1000, 0), 0);
    assert_eq!(fee_when_enabled(true, 1000, -100), 0);
}

#[test]
fn rates_from_zero_to_one_thousand_are_valid() {
    assert!(validate_rate(0));
    assert!(validate_rate(1));
    assert!(validate_rate(1000));
    assert!(!validate_rate(1001));
    assert!(!validate_rate(1500));
    assert!(!validate_rate(-1));
    assert!(!validate_rate(i128::MAX));
    assert!(!validate_rate(i128::MIN));
}
