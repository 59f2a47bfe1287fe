use swiv_privacy::errors::CustomError;
use swiv_privacy::math::{
    calculate_accuracy_score, calculate_conviction_bonus, calculate_parimutuel_weight,
    calculate_time_bonus, MATH_PRECISION,
};

#[test]
fn accuracy_exact_hit_scores_full_credit() {
    assert_eq!(calculate_accuracy_score(500, 500, 10), Ok(1_000_000));
    assert_eq!(calculate_accuracy_score(0, 0, 1), Ok(1_000_000));
    assert_eq!(calculate_accuracy_score(u64::MAX, u64::MAX, u64::MAX), Ok(1_000_000));
}

#[test]
fn accuracy_decays_linearly_and_truncates() {
    assert_eq!(calculate_accuracy_score(505, 500, 10), Ok(500_000));
    assert_eq!(calculate_accuracy_score(495, 500, 10), Ok(500_000));
    // 3 * 1_000_000 / 7 = 428_571 (truncated)
    assert_eq!(calculate_accuracy_score(503, 500, 7), Ok(571_429));
    assert_eq!(calculate_accuracy_score(509, 500, 10), Ok(100_000));
}

#[test]
fn accuracy_outside_buffer_is_zero() {
    assert_eq!(calculate_accuracy_score(510, 500, 10), Ok(0));
    assert_eq!(calculate_accuracy_score(400, 500, 10), Ok(0));
    assert_eq!(calculate_accuracy_score(0, u64::MAX, 1000), Ok(0));
}

#[test]
fn accuracy_zero_buffer_is_zero() {
    assert_eq!(calculate_accuracy_score(500, 500, 0), Ok(0));
    assert_eq!(calculate_accuracy_score(1, 2, 0), Ok(0));
}

#[test]
fn accuracy_with_huge_buffer_does_not_overflow() {
    // diff = u64::MAX - 1, buffer = u64::MAX: the scaled error needs 84 bits
    let score = calculate_accuracy_score(u64::MAX, 1, u64::MAX).unwrap();
    assert_eq!(score, 1);
}

#[test]
fn time_bonus_endpoints() {
    assert_eq!(calculate_time_bonus(0, 100, 0), Ok(2_000_000));
    assert_eq!(calculate_time_bonus(0, 100, 100), Ok(1_000_000));
    assert_eq!(calculate_time_bonus(0, 100, 150), Ok(1_000_000));
    assert_eq!(calculate_time_bonus(0, 100, 50), Ok(1_500_000));
    assert_eq!(calculate_time_bonus(0, 100, 33), Ok(1_670_000));
    // 2 * 1_000_000 / 3 = 666_666 (truncated)
    assert_eq!(calculate_time_bonus(0, 3, 1), Ok(1_666_666));
}

#[test]
fn time_bonus_empty_window_is_unit() {
    assert_eq!(calculate_time_bonus(50, 50, 10), Ok(1_000_000));
    assert_eq!(calculate_time_bonus(80, 50, 10), Ok(1_000_000));
}

#[test]
fn time_bonus_is_non_increasing_over_the_window() {
    let mut previous = calculate_time_bonus(-40, 60, -40).unwrap();
    assert_eq!(previous, 2_000_000);
    for entry in -39..=70 {
        let factor = calculate_time_bonus(-40, 60, entry).unwrap();
        assert!(factor <= previous);
        assert!(factor >= 1_000_000);
        previous = factor;
    }
    assert_eq!(previous, 1_000_000);
}

#[test]
fn time_bonus_far_before_open_overflows() {
    assert_eq!(calculate_time_bonus(0, 1, i64::MIN), Err(CustomError::MathOverflow));
}

#[test]
fn conviction_bonus_values() {
    assert_eq!(calculate_conviction_bonus(0), 1_500_000);
    assert_eq!(calculate_conviction_bonus(1), 1_000_000);
    assert_eq!(calculate_conviction_bonus(7), 1_000_000);
    assert_eq!(calculate_conviction_bonus(u32::MAX), 1_000_000);
}

#[test]
fn weight_with_unit_factors_is_the_stake() {
    for stake in [0u64, 1, 999, 12_345, u64::MAX] {
        let p = MATH_PRECISION as u64;
        assert_eq!(calculate_parimutuel_weight(stake, p, p, p), Ok(stake as u128));
    }
}

#[test]
fn weight_of_perfect_early_unrevised_bet() {
    assert_eq!(calculate_parimutuel_weight(1000, 1_000_000, 2_000_000, 1_500_000), Ok(3000));
}

#[test]
fn weight_truncates() {
    // 7 * 0.5 * 1.5 * 1.0 = 5.25
    assert_eq!(calculate_parimutuel_weight(7, 500_000, 1_500_000, 1_000_000), Ok(5));
}

#[test]
fn weight_of_largest_stake_fits() {
    let w = calculate_parimutuel_weight(u64::MAX, 1_000_000, 2_000_000, 1_500_000).unwrap();
    assert_eq!(w, (u64::MAX as u128) * 3);
}

#[test]
fn weight_overflow_is_an_error() {
    assert_eq!(
        calculate_parimutuel_weight(u64::MAX, u64::MAX, u64::MAX, 2),
        Err(CustomError::MathOverflow)
    );
}

#[test]
fn weight_with_a_zero_factor_is_zero() {
    assert_eq!(calculate_parimutuel_weight(u64::MAX, u64::MAX, u64::MAX, 0), Ok(0));
    assert_eq!(calculate_parimutuel_weight(1000, 0, 2_000_000, 1_500_000), Ok(0));
}
