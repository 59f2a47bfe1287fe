//! Fixed-point scoring: accuracy, timing and conviction factors, and the
//! weight that combines them with a stake. `MATH_PRECISION` stands for 1.0.
use vstd::prelude::*;
use crate::errors::CustomError;

verus! {

/// The fixed-point unit: 1_000_000 stands for 1.0.
pub const MATH_PRECISION: u128 = 1_000_000;

/// `MATH_PRECISION` cubed, the scale of a product of three factors.
pub const PRECISION_CUBED: u128 = 1_000_000_000_000_000_000;

/// Conviction factor of a bet that was never revised (1.5).
pub const CONVICTION_UNREVISED: u64 = 1_500_000;

/// Conviction factor of a bet that was revised at least once (1.0).
pub const CONVICTION_REVISED: u64 = 1_000_000;

/// Distance between two values.
pub open spec fn abs_diff(a: u64, b: u64) -> int {
    if a > b { a - b } else { b - a }
}

/// Accuracy of `prediction` against `result`: full credit on a hit, falling
/// linearly to zero at a distance of `buffer`, truncated; zero for an empty
/// buffer.
pub open spec fn accuracy_spec(prediction: u64, result: u64, buffer: u64) -> int {
    if buffer == 0 || abs_diff(prediction, result) >= buffer {
        0
    } else {
        MATH_PRECISION - abs_diff(prediction, result) * MATH_PRECISION / (buffer as int)
    }
}

/// Timing factor of an entry at `entry_time` into the window
/// `[start_time, end_time)`: 2.0 at the open, falling linearly to 1.0 at the
/// close; 1.0 at or after the close and for an empty window.
pub open spec fn time_bonus_spec(start_time: i64, end_time: i64, entry_time: i64) -> int {
    if entry_time >= end_time || end_time <= start_time {
        MATH_PRECISION as int
    } else {
        MATH_PRECISION + (end_time - entry_time) * MATH_PRECISION / (end_time - start_time)
    }
}

/// Conviction factor: 1.5 for a bet never revised, 1.0 otherwise.
pub open spec fn conviction_spec(update_count: u32) -> int {
    if update_count == 0 { CONVICTION_UNREVISED as int } else { CONVICTION_REVISED as int }
}

/// The full product of a stake and three scaled factors.
pub open spec fn weight_product(stake: u64, accuracy: u64, time: u64, conviction: u64) -> int {
    stake * accuracy * time * conviction
}

/// The weight of a stake under three scaled factors, truncated.
pub open spec fn weight_spec(stake: u64, accuracy: u64, time: u64, conviction: u64) -> int {
    weight_product(stake, accuracy, time, conviction) / (MATH_PRECISION * MATH_PRECISION
        * MATH_PRECISION)
}

/// Accuracy score of a prediction against the outcome, within `buffer`.
pub fn calculate_accuracy_score(prediction: u64, result: u64, buffer: u64) -> (r: Result<
    u64,
    CustomError,
>)
    ensures
        r == Ok::<u64, CustomError>(accuracy_spec(prediction, result, buffer) as u64),
        0 <= accuracy_spec(prediction, result, buffer) <= MATH_PRECISION,
{
    if buffer == 0 {
        return Ok(0);
    }
    let diff: u64 = if prediction > result {
        prediction - result
    } else {
        result - prediction
    };
    if diff >= buffer {
        return Ok(0);
    }
    let diff_wide: u128 = diff as u128;
    let buffer_wide: u128 = buffer as u128;
    assert(diff_wide * MATH_PRECISION < buffer_wide * MATH_PRECISION) by (nonlinear_arith)
        requires
            diff_wide < buffer_wide,
    ;
    assert(buffer_wide * MATH_PRECISION <= u64::MAX * MATH_PRECISION) by (nonlinear_arith)
        requires
            buffer_wide <= u64::MAX,
    ;
    let scaled: u128 = diff_wide * MATH_PRECISION;
    let error_fraction: u128 = scaled / buffer_wide;
    assert(error_fraction <= MATH_PRECISION) by (nonlinear_arith)
        requires
            scaled < buffer_wide * MATH_PRECISION,
            buffer_wide > 0,
            error_fraction == scaled / buffer_wide,
    ;
    let score: u128 = MATH_PRECISION - error_fraction;
    Ok(score as u64)
}

/// Timing factor of an entry at `entry_time` into `[start_time, end_time)`.
/// Fails with `MathOverflow` where the factor does not fit in a `u64`, which
/// only an entry long before the open can cause.
pub fn calculate_time_bonus(start_time: i64, end_time: i64, entry_time: i64) -> (r: Result<
    u64,
    CustomError,
>)
    ensures
        time_bonus_spec(start_time, end_time, entry_time) <= u64::MAX ==> r == Ok::<
            u64,
            CustomError,
        >(time_bonus_spec(start_time, end_time, entry_time) as u64),
        time_bonus_spec(start_time, end_time, entry_time) > u64::MAX ==> r == Err::<
            u64,
            CustomError,
        >(CustomError::MathOverflow),
        time_bonus_spec(start_time, end_time, entry_time) >= MATH_PRECISION,
{
    if entry_time >= end_time || end_time <= start_time {
        return Ok(MATH_PRECISION as u64);
    }
    let total_duration: u128 = ((end_time as i128) - (start_time as i128)) as u128;
    let remaining_time: u128 = ((end_time as i128) - (entry_time as i128)) as u128;
    assert(remaining_time * MATH_PRECISION <= 0x1_0000_0000_0000_0000 * MATH_PRECISION)
        by (nonlinear_arith)
        requires
            remaining_time <= 0x1_0000_0000_0000_0000u128,
    ;
    let scaled: u128 = remaining_time * MATH_PRECISION;
    let bonus_portion: u128 = scaled / total_duration;
    assert(bonus_portion <= scaled) by (nonlinear_arith)
        requires
            total_duration >= 1,
            bonus_portion == scaled / total_duration,
    ;
    let factor: u128 = MATH_PRECISION + bonus_portion;
    if factor > u64::MAX as u128 {
        return Err(CustomError::MathOverflow);
    }
    Ok(factor as u64)
}

/// Conviction factor of a bet revised `update_count` times.
pub fn calculate_conviction_bonus(update_count: u32) -> (r: u64)
    ensures
        r == conviction_spec(update_count),
{
    if update_count == 0 {
        CONVICTION_UNREVISED
    } else {
        CONVICTION_REVISED
    }
}

/// Weight of `stake` under accuracy, timing and conviction factors: their
/// product divided by `MATH_PRECISION` cubed. Fails with `MathOverflow`
/// exactly where the product does not fit in a `u128`.
pub fn calculate_parimutuel_weight(
    stake: u64,
    accuracy_score_scaled: u64,
    time_bonus_scaled: u64,
    conviction_scaled: u64,
) -> (r: Result<u128, CustomError>)
    ensures
        weight_product(stake, accuracy_score_scaled, time_bonus_scaled, conviction_scaled)
            <= u128::MAX ==> r == Ok::<u128, CustomError>(
            weight_spec(
                stake,
                accuracy_score_scaled,
                time_bonus_scaled,
                conviction_scaled,
            ) as u128,
        ),
        weight_product(stake, accuracy_score_scaled, time_bonus_scaled, conviction_scaled)
            > u128::MAX ==> r == Err::<u128, CustomError>(CustomError::MathOverflow),
{
    let s: u128 = stake as u128;
    let a: u128 = accuracy_score_scaled as u128;
    let t: u128 = time_bonus_scaled as u128;
    let c: u128 = conviction_scaled as u128;
    assert(weight_product(stake, accuracy_score_scaled, time_bonus_scaled, conviction_scaled)
        == s * a * t * c);
    if s == 0 || a == 0 || t == 0 || c == 0 {
        assert(s * a * t * c == 0) by (nonlinear_arith)
            requires
                s == 0 || a == 0 || t == 0 || c == 0,
        ;
        return Ok(0);
    }
    assert(s * a <= u64::MAX * u64::MAX) by (nonlinear_arith)
        requires
            s <= u64::MAX,
            a <= u64::MAX,
    ;
    let sa: u128 = s * a;
    if sa > u128::MAX / t {
        assert(sa * t > u128::MAX) by (nonlinear_arith)
            requires
                sa > u128::MAX / t,
                t >= 1,
        ;
        assert(sa * t * c >= sa * t) by (nonlinear_arith)
            requires
                c >= 1,
                sa * t >= 0,
        ;
        return Err(CustomError::MathOverflow);
    }
    assert(sa * t <= u128::MAX) by (nonlinear_arith)
        requires
            sa <= u128::MAX / t,
            t >= 1,
    ;
    let sat: u128 = sa * t;
    if sat > u128::MAX / c {
        assert(sat * c > u128::MAX) by (nonlinear_arith)
            requires
                sat > u128::MAX / c,
                c >= 1,
        ;
        return Err(CustomError::MathOverflow);
    }
    assert(sat * c <= u128::MAX) by (nonlinear_arith)
        requires
            sat <= u128::MAX / c,
            c >= 1,
    ;
    let raw_product: u128 = sat * c;
    Ok(raw_product / PRECISION_CUBED)
}

/// A prediction equal to the outcome earns full accuracy credit.
pub proof fn lemma_accuracy_exact_hit(value: u64, buffer: u64)
    requires
        buffer > 0,
    ensures
        accuracy_spec(value, value, buffer) == MATH_PRECISION,
{
}

/// A prediction at or beyond the buffer's distance earns nothing, and an
/// empty buffer earns nothing whatever the prediction.
pub proof fn lemma_accuracy_zero(prediction: u64, result: u64, buffer: u64)
    ensures
        abs_diff(prediction, result) >= buffer ==> accuracy_spec(prediction, result, buffer) == 0,
        buffer == 0 ==> accuracy_spec(prediction, result, buffer) == 0,
{
}

/// The timing factor never grows as the entry moves later; it is 2.0 at the
/// open and 1.0 at the close of a non-empty window.
pub proof fn lemma_time_bonus_non_increasing(start_time: i64, end_time: i64, earlier: i64, later: i64)
    requires
        earlier <= later,
    ensures
        time_bonus_spec(start_time, end_time, later) <= time_bonus_spec(start_time, end_time, earlier),
        end_time > start_time ==> time_bonus_spec(start_time, end_time, end_time) == MATH_PRECISION,
        end_time > start_time ==> time_bonus_spec(start_time, end_time, start_time) == 2 * MATH_PRECISION,
{
    if later < end_time && end_time > start_time {
        let total: int = end_time - start_time;
        let a: int = (end_time - later) * MATH_PRECISION;
        let b: int = (end_time - earlier) * MATH_PRECISION;
        assert(a <= b) by (nonlinear_arith)
            requires
                a == (end_time - later) * MATH_PRECISION,
                b == (end_time - earlier) * MATH_PRECISION,
                earlier <= later,
        ;
        assert(a / total <= b / total) by (nonlinear_arith)
            requires
                a <= b,
                total > 0,
        ;
    }
    if end_time > start_time {
        let total: int = end_time - start_time;
        assert(total * MATH_PRECISION / total == MATH_PRECISION) by (nonlinear_arith)
            requires
                total > 0,
        ;
    }
}

/// A never-revised bet earns 1.5, any revision brings it to 1.0.
pub proof fn lemma_conviction_values(update_count: u32)
    ensures
        conviction_spec(0) == 1_500_000,
        update_count >= 1 ==> conviction_spec(update_count) == 1_000_000,
{
}

/// Unit factors leave the stake as it is.
pub proof fn lemma_weight_identity(stake: u64)
    ensures
        weight_spec(stake, 1_000_000, 1_000_000, 1_000_000) == stake,
{
    assert(stake * 1_000_000int * 1_000_000int * 1_000_000int / 1_000_000_000_000_000_000int == stake)
        by (nonlinear_arith);
}

} // verus!
