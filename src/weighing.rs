//! Weighing: scoring each revealed bet of a resolved pool against its outcome
//! and adding the weight to the pool's total, one bet at a time or in bulk.
use vstd::prelude::*;
use crate::errors::CustomError;
use crate::math::{
    accuracy_spec, calculate_accuracy_score, calculate_conviction_bonus,
    calculate_parimutuel_weight, calculate_time_bonus, conviction_spec, time_bonus_spec,
    weight_product, weight_spec,
};
use crate::state::{bytes32_equal, copy_bet, BetRecord, BetStatus, GlobalConfig, Pool, UserBet};

verus! {

/// The denominator of a rate in basis points.
pub const BPS_DENOMINATOR: u64 = 10_000;

/// The weight of `bet` in `pool`, less a share of `penalty_bps`; `None` where
/// a step does not fit its type or the penalty rate exceeds the whole.
pub open spec fn scored_weight(pool: Pool, bet: UserBet, penalty_bps: u64) -> Option<int> {
    let accuracy = accuracy_spec(bet.prediction_target, pool.resolution_target, pool.max_accuracy_buffer);
    let time = time_bonus_spec(pool.start_time, pool.end_time, bet.creation_ts);
    let conviction = conviction_spec(bet.update_count);
    if penalty_bps > BPS_DENOMINATOR || time > u64::MAX
        || weight_product(bet.deposit, accuracy as u64, time as u64, conviction as u64) > u128::MAX {
        None
    } else {
        let raw = weight_spec(bet.deposit, accuracy as u64, time as u64, conviction as u64);
        Some(raw - raw * penalty_bps / (BPS_DENOMINATOR as int))
    }
}

/// `bet` once weighed at `w`.
pub open spec fn weighed(bet: UserBet, w: int) -> UserBet {
    UserBet { calculated_weight: w as u128, is_weight_added: true, status: BetStatus::Calculated, ..bet }
}

/// `pool` with `w` added to its total weight.
pub open spec fn with_added_weight(pool: Pool, w: int) -> Pool {
    Pool { total_weight: (pool.total_weight + w) as u128, ..pool }
}

/// Why weighing `bet` in `pool` is refused, if it is.
pub open spec fn calculate_outcome_error(pool: Pool, bet: UserBet, penalty_bps: u64) -> Option<
    CustomError,
> {
    if !bet.in_pool(pool) {
        Some(CustomError::PoolMismatch)
    } else if bet.is_weight_added {
        None
    } else if bet.status != BetStatus::Active {
        Some(CustomError::AlreadySettled)
    } else if !bet.is_revealed {
        Some(CustomError::BetNotRevealed)
    } else if !pool.is_resolved {
        Some(CustomError::SettlementTooEarly)
    } else if pool.weight_finalized {
        Some(CustomError::WeightsAlreadyFinalized)
    } else {
        match scored_weight(pool, bet, penalty_bps) {
            None => Some(CustomError::MathOverflow),
            Some(w) => if pool.total_weight + w > u128::MAX {
                Some(CustomError::MathOverflow)
            } else {
                None
            },
        }
    }
}

/// Pool and bet after weighing: unchanged for a bet already weighed.
pub open spec fn calculate_outcome_next(pool: Pool, bet: UserBet, penalty_bps: u64) -> (Pool, UserBet) {
    if bet.is_weight_added {
        (pool, bet)
    } else {
        match scored_weight(pool, bet, penalty_bps) {
            Some(w) => (with_added_weight(pool, w), weighed(bet, w)),
            None => (pool, bet),
        }
    }
}

/// Weighing a bet a second time changes nothing: after one successful
/// weighing, another succeeds and leaves pool and bet as they are, so the
/// pool's total counts the bet's weight once.
pub proof fn lemma_calculate_outcome_idempotent(pool: Pool, bet: UserBet, penalty_bps: u64)
    requires
        calculate_outcome_error(pool, bet, penalty_bps) is None,
    ensures
        ({
            let (pool1, bet1) = calculate_outcome_next(pool, bet, penalty_bps);
            &&& calculate_outcome_error(pool1, bet1, penalty_bps) is None
            &&& calculate_outcome_next(pool1, bet1, penalty_bps) == (pool1, bet1)
            &&& pool1.total_weight == pool.total_weight + match scored_weight(pool, bet, penalty_bps) {
                Some(w) => if bet.is_weight_added { 0 } else { w },
                None => 0,
            }
        }),
{
    lemma_scored_weight_nonneg(pool, bet, penalty_bps);
}

/// The weight of `bet` scored against the outcome of `pool`, less the
/// configured penalty of `penalty_bps`.
pub fn calculate_bet_weight(pool: &Pool, bet: &UserBet, penalty_bps: u64) -> (r: Result<
    u128,
    CustomError,
>)
    ensures
        match scored_weight(*pool, *bet, penalty_bps) {
            Some(w) => 0 <= w <= u128::MAX && r == Ok::<u128, CustomError>(w as u128),
            None => r == Err::<u128, CustomError>(CustomError::MathOverflow),
        },
{
    if penalty_bps > BPS_DENOMINATOR {
        return Err(CustomError::MathOverflow);
    }
    let accuracy = match calculate_accuracy_score(
        bet.prediction_target,
        pool.resolution_target,
        pool.max_accuracy_buffer,
    ) {
        Ok(a) => a,
        Err(e) => return Err(e),
    };
    let time = match calculate_time_bonus(pool.start_time, pool.end_time, bet.creation_ts) {
        Ok(t) => t,
        Err(e) => return Err(e),
    };
    let conviction = calculate_conviction_bonus(bet.update_count);
    let raw = match calculate_parimutuel_weight(bet.deposit, accuracy, time, conviction) {
        Ok(w) => w,
        Err(e) => return Err(e),
    };
    let ghost product = weight_product(bet.deposit, accuracy, time, conviction);
    assert(raw * 10_000 <= u128::MAX) by (nonlinear_arith)
        requires
            raw == product / 1_000_000_000_000_000_000,
            0 <= product <= u128::MAX,
    ;
    assert(raw * penalty_bps <= raw * 10_000) by (nonlinear_arith)
        requires
            penalty_bps <= 10_000,
            raw >= 0,
    ;
    let penalty: u128 = raw * (penalty_bps as u128) / (BPS_DENOMINATOR as u128);
    assert(penalty <= raw) by (nonlinear_arith)
        requires
            penalty == raw * penalty_bps / 10_000,
            penalty_bps <= 10_000,
            raw >= 0,
    ;
    Ok(raw - penalty)
}

/// Weighs one revealed bet of a resolved pool: its weight is recorded on the
/// bet and added to the pool's total, once. A bet already weighed is left as
/// it is and the call succeeds.
pub fn calculate_outcome(config: &GlobalConfig, pool: &mut Pool, bet: &mut UserBet) -> (r: Result<
    (),
    CustomError,
>)
    ensures
        match calculate_outcome_error(*old(pool), *old(bet), config.weight_penalty_bps) {
            Some(e) => r == Err::<(), CustomError>(e) && *final(pool) == *old(pool) && *final(bet)
                == *old(bet),
            None => r is Ok && (*final(pool), *final(bet)) == calculate_outcome_next(
                *old(pool),
                *old(bet),
                config.weight_penalty_bps,
            ),
        },
        old(pool).wf() ==> final(pool).wf(),
        old(bet).wf() ==> final(bet).wf(),
{
    if bet.pool_identifier != pool.name {
        return Err(CustomError::PoolMismatch);
    }
    if bet.is_weight_added {
        return Ok(());
    }
    if bet.status != BetStatus::Active {
        return Err(CustomError::AlreadySettled);
    }
    if !bet.is_revealed {
        return Err(CustomError::BetNotRevealed);
    }
    if !pool.is_resolved {
        return Err(CustomError::SettlementTooEarly);
    }
    if pool.weight_finalized {
        return Err(CustomError::WeightsAlreadyFinalized);
    }
    let weight = match calculate_bet_weight(pool, bet, config.weight_penalty_bps) {
        Ok(w) => w,
        Err(e) => return Err(e),
    };
    if pool.total_weight > u128::MAX - weight {
        return Err(CustomError::MathOverflow);
    }
    pool.total_weight = pool.total_weight + weight;
    bet.calculated_weight = weight;
    bet.is_weight_added = true;
    bet.status = BetStatus::Calculated;
    Ok(())
}

/// Whether a bulk pass weighs `bet`: a revealed, active, unweighed bet of `pool`.
pub open spec fn batch_eligible(pool: Pool, bet: UserBet) -> bool {
    bet.in_pool(pool) && bet.status == BetStatus::Active && bet.is_revealed && !bet.is_weight_added
}

/// The weight that weighing gives `bet`: zero where it cannot be scored.
pub open spec fn eligible_weight(pool: Pool, bet: UserBet, penalty_bps: u64) -> int {
    match scored_weight(pool, bet, penalty_bps) {
        Some(w) => w,
        None => 0,
    }
}

/// Whether record `i` is the first among `records` held at its address.
pub open spec fn first_at_address(records: Seq<BetRecord>, i: int) -> bool {
    forall|j: int| 0 <= j < i ==> records[j].address != records[i].address
}

/// Whether a bulk pass weighs record `i`: the first record at its address,
/// holding an eligible bet. Later copies of the same bet are not weighed again.
pub open spec fn batch_takes(pool: Pool, records: Seq<BetRecord>, i: int) -> bool {
    first_at_address(records, i) && batch_eligible(pool, records[i].bet)
}

/// The weight that a bulk pass adds for record `i`: zero for one it skips.
pub open spec fn batch_weight(pool: Pool, records: Seq<BetRecord>, i: int, penalty_bps: u64) -> int {
    if batch_takes(pool, records, i) {
        eligible_weight(pool, records[i].bet, penalty_bps)
    } else {
        0
    }
}

/// The sum of the weights that a bulk pass adds for the first `n` records:
/// each address counts once.
pub open spec fn batch_sum(pool: Pool, records: Seq<BetRecord>, n: int, penalty_bps: u64) -> int
    decreases n,
{
    if n <= 0 {
        0
    } else {
        batch_sum(pool, records, n - 1, penalty_bps) + batch_weight(pool, records, n - 1, penalty_bps)
    }
}

/// The sum of the weights that a bulk pass over `records` adds.
pub open spec fn batch_total(pool: Pool, records: Seq<BetRecord>, penalty_bps: u64) -> int {
    batch_sum(pool, records, records.len() as int, penalty_bps)
}

/// Whether some bet that a bulk pass would weigh cannot be scored.
pub open spec fn batch_unscorable(pool: Pool, records: Seq<BetRecord>, penalty_bps: u64) -> bool {
    exists|i: int|
        0 <= i < records.len() && #[trigger] batch_takes(pool, records, i) && scored_weight(
            pool,
            records[i].bet,
            penalty_bps,
        ) is None
}

/// Why a bulk pass over `records` is refused, if it is.
pub open spec fn batch_error(pool: Pool, records: Seq<BetRecord>, penalty_bps: u64) -> Option<
    CustomError,
> {
    if !pool.is_resolved {
        Some(CustomError::SettlementTooEarly)
    } else if pool.weight_finalized {
        Some(CustomError::WeightsAlreadyFinalized)
    } else if batch_unscorable(pool, records, penalty_bps) || pool.total_weight + batch_total(
        pool,
        records,
        penalty_bps,
    ) > u128::MAX {
        Some(CustomError::MathOverflow)
    } else {
        None
    }
}

/// `bet` after a bulk pass: weighed if eligible, else as it was.
pub open spec fn batch_result(pool: Pool, bet: UserBet, penalty_bps: u64) -> UserBet {
    if batch_eligible(pool, bet) {
        weighed(bet, eligible_weight(pool, bet, penalty_bps))
    } else {
        bet
    }
}

/// The records after a successful bulk pass: each keeps its address, the
/// first record at an address holds its bet's result, and every later copy
/// ends equal to the earlier ones.
pub open spec fn batch_outcome(
    pool: Pool,
    before: Seq<BetRecord>,
    after: Seq<BetRecord>,
    penalty_bps: u64,
) -> bool {
    &&& after.len() == before.len()
    &&& forall|i: int| 0 <= i < before.len() ==> #[trigger] after[i].address == before[i].address
    &&& forall|i: int|
        0 <= i < before.len() && #[trigger] first_at_address(before, i) ==> after[i].bet
            == batch_result(pool, before[i].bet, penalty_bps)
    &&& forall|i: int, j: int|
        0 <= j < i < before.len() && before[j].address == before[i].address ==> #[trigger] after[i].bet
            == #[trigger] after[j].bet
}

/// A bulk pass weighs each bet it takes exactly as weighing it alone would,
/// and leaves alone every bet that weighing alone would leave unchanged or
/// refuse.
pub proof fn lemma_batch_agrees_with_single(pool: Pool, bet: UserBet, penalty_bps: u64)
    requires
        pool.is_resolved && !pool.weight_finalized,
        scored_weight(pool, bet, penalty_bps) is Some,
    ensures
        batch_eligible(pool, bet) ==> calculate_outcome_error(pool, bet, penalty_bps) is None
            || calculate_outcome_error(pool, bet, penalty_bps) == Some(CustomError::MathOverflow),
        batch_eligible(pool, bet) ==> batch_result(pool, bet, penalty_bps) == calculate_outcome_next(
            pool,
            bet,
            penalty_bps,
        ).1,
        !batch_eligible(pool, bet) ==> batch_result(pool, bet, penalty_bps) == bet && (
        calculate_outcome_error(pool, bet, penalty_bps) is Some || calculate_outcome_next(
            pool,
            bet,
            penalty_bps,
        ).1 == bet),
{
}

/// A bulk sum is never negative.
pub proof fn lemma_batch_sum_nonneg(pool: Pool, records: Seq<BetRecord>, n: int, penalty_bps: u64)
    ensures
        batch_sum(pool, records, n, penalty_bps) >= 0,
    decreases n,
{
    if n > 0 {
        lemma_batch_sum_nonneg(pool, records, n - 1, penalty_bps);
        lemma_batch_weight_nonneg(pool, records, n - 1, penalty_bps);
    }
}

proof fn lemma_batch_weight_nonneg(pool: Pool, records: Seq<BetRecord>, i: int, penalty_bps: u64)
    ensures
        batch_weight(pool, records, i, penalty_bps) >= 0,
{
    lemma_scored_weight_nonneg(pool, records[i].bet, penalty_bps);
}

proof fn lemma_scored_weight_nonneg(pool: Pool, bet: UserBet, penalty_bps: u64)
    ensures
        scored_weight(pool, bet, penalty_bps) matches Some(w) ==> w >= 0,
{
    if scored_weight(pool, bet, penalty_bps) is Some {
        let accuracy = accuracy_spec(bet.prediction_target, pool.resolution_target, pool.max_accuracy_buffer);
        let time = time_bonus_spec(pool.start_time, pool.end_time, bet.creation_ts);
        let conviction = conviction_spec(bet.update_count);
        let raw = weight_spec(bet.deposit, accuracy as u64, time as u64, conviction as u64);
        let product = weight_product(bet.deposit, accuracy as u64, time as u64, conviction as u64);
        assert(product >= 0) by (nonlinear_arith)
            requires
                product == bet.deposit as u64 * (accuracy as u64) * (time as u64) * (conviction as u64),
        ;
        assert(raw >= 0);
        assert(raw * penalty_bps / 10_000 <= raw) by (nonlinear_arith)
            requires
                penalty_bps <= 10_000,
                raw >= 0,
        ;
    }
}

/// A bulk sum over a prefix does not exceed the sum over a longer one.
proof fn lemma_batch_sum_prefix(pool: Pool, records: Seq<BetRecord>, i: int, n: int, penalty_bps: u64)
    requires
        0 <= i <= n,
    ensures
        batch_sum(pool, records, i, penalty_bps) <= batch_sum(pool, records, n, penalty_bps),
    decreases n - i,
{
    if i < n {
        lemma_batch_sum_prefix(pool, records, i, n - 1, penalty_bps);
        lemma_batch_weight_nonneg(pool, records, n - 1, penalty_bps);
    }
}

/// Weighs the bet of `record` at `weight`.
fn weigh_record(record: &mut BetRecord, weight: u128)
    ensures
        *final(record) == (BetRecord { bet: weighed(old(record).bet, weight as int), ..*old(record) }),
{
    record.bet.calculated_weight = weight;
    record.bet.is_weight_added = true;
    record.bet.status = BetStatus::Calculated;
}

/// Replaces the bet of `record`.
fn replace_bet(record: &mut BetRecord, bet: UserBet)
    ensures
        *final(record) == (BetRecord { bet, ..*old(record) }),
{
    record.bet = bet;
}

/// The index of the first record held at the address of record `i`.
fn first_index(records: &Vec<BetRecord>, i: usize) -> (r: usize)
    requires
        i < records@.len(),
    ensures
        r <= i,
        records@[r as int].address == records@[i as int].address,
        forall|k: int| 0 <= k < r ==> records@[k].address != records@[i as int].address,
{
    let mut j: usize = 0;
    while j < i
        invariant
            j <= i < records@.len(),
            forall|k: int| 0 <= k < j ==> records@[k].address != records@[i as int].address,
        decreases i - j,
    {
        if bytes32_equal(&records[j].address, &records[i].address) {
            return j;
        }
        j = j + 1;
    }
    i
}

/// The weight that a bulk pass adds for each of `records`, or why it is refused.
fn batch_weights(pool: &Pool, records: &Vec<BetRecord>, penalty_bps: u64) -> (r: Result<
    Vec<u128>,
    CustomError,
>)
    requires
        pool.is_resolved && !pool.weight_finalized,
    ensures
        match batch_error(*pool, records@, penalty_bps) {
            Some(e) => r == Err::<Vec<u128>, CustomError>(e),
            None => r is Ok && r->Ok_0@.len() == records@.len() && forall|k: int|
                0 <= k < records@.len() ==> #[trigger] r->Ok_0@[k] == batch_weight(
                    *pool,
                    records@,
                    k,
                    penalty_bps,
                ),
        },
{
    let mut weights: Vec<u128> = Vec::new();
    let mut total: u128 = pool.total_weight;
    let mut i: usize = 0;
    while i < records.len()
        invariant
            pool.is_resolved && !pool.weight_finalized,
            i <= records@.len(),
            weights@.len() == i,
            forall|k: int| 0 <= k < i ==> #[trigger] weights@[k] == batch_weight(*pool, records@, k, penalty_bps),
            forall|k: int| 0 <= k < i ==> !(#[trigger] batch_takes(*pool, records@, k) && scored_weight(*pool, records@[k].bet, penalty_bps) is None),
            total == pool.total_weight + batch_sum(*pool, records@, i as int, penalty_bps),
        decreases records@.len() - i,
    {
        let f = first_index(records, i);
        let first = f == i;
        let bet = &records[i].bet;
        let mut w: u128 = 0;
        if first && bet.pool_identifier == pool.name && bet.status == BetStatus::Active
            && bet.is_revealed && !bet.is_weight_added {
            assert(batch_takes(*pool, records@, i as int));
            match calculate_bet_weight(pool, bet, penalty_bps) {
                Ok(v) => {
                    w = v;
                },
                Err(e) => {
                    assert(batch_unscorable(*pool, records@, penalty_bps));
                    return Err(e);
                },
            }
        } else if !first {
            assert(records@[f as int].address == records@[i as int].address);
            assert(!first_at_address(records@, i as int));
        }
        assert(w == batch_weight(*pool, records@, i as int, penalty_bps));
        if total > u128::MAX - w {
            proof {
                lemma_batch_sum_prefix(*pool, records@, i + 1, records@.len() as int, penalty_bps);
            }
            return Err(CustomError::MathOverflow);
        }
        total = total + w;
        weights.push(w);
        i = i + 1;
    }
    Ok(weights)
}

/// Weighs every eligible bet among `records` in one pass. Records of another
/// pool, bets not active, not revealed or already weighed are skipped, and a
/// bet listed more than once (two records at one address) is weighed once:
/// every copy ends as the first does. Either the pool's total grows by the
/// sum over distinct eligible bets, or, where a weight or the total would
/// overflow, nothing changes.
pub fn batch_calculate_weights(
    config: &GlobalConfig,
    pool: &mut Pool,
    records: &mut Vec<BetRecord>,
) -> (r: Result<(), CustomError>)
    ensures
        match batch_error(*old(pool), old(records)@, config.weight_penalty_bps) {
            Some(e) => r == Err::<(), CustomError>(e) && *final(pool) == *old(pool) && final(records)@
                == old(records)@,
            None => r is Ok && *final(pool) == with_added_weight(
                *old(pool),
                batch_total(*old(pool), old(records)@, config.weight_penalty_bps),
            ) && batch_outcome(*old(pool), old(records)@, final(records)@, config.weight_penalty_bps),
        },
        batch_total(*old(pool), old(records)@, config.weight_penalty_bps) >= 0,
        old(pool).wf() ==> final(pool).wf(),
{
    proof {
        lemma_batch_sum_nonneg(*pool, records@, records@.len() as int, config.weight_penalty_bps);
    }
    if !pool.is_resolved {
        return Err(CustomError::SettlementTooEarly);
    }
    if pool.weight_finalized {
        return Err(CustomError::WeightsAlreadyFinalized);
    }
    let penalty_bps = config.weight_penalty_bps;
    let weights = match batch_weights(pool, records, penalty_bps) {
        Ok(ws) => ws,
        Err(e) => return Err(e),
    };
    let ghost pool0 = *pool;
    let ghost recs0 = records@;
    let mut j: usize = 0;
    while j < records.len()
        invariant
            records@.len() == recs0.len(),
            weights@.len() == recs0.len(),
            j <= recs0.len(),
            forall|k: int| 0 <= k < recs0.len() ==> #[trigger] weights@[k] == batch_weight(pool0, recs0, k, penalty_bps),
            forall|k: int| 0 <= k < recs0.len() ==> #[trigger] records@[k].address == recs0[k].address,
            forall|k: int| j <= k < recs0.len() ==> #[trigger] records@[k] == recs0[k],
            forall|k: int| 0 <= k < j && #[trigger] first_at_address(recs0, k) ==> records@[k].bet == batch_result(pool0, recs0[k].bet, penalty_bps),
            forall|k: int, m: int| 0 <= m < k < j && recs0[m].address == recs0[k].address ==> #[trigger] records@[k].bet == #[trigger] records@[m].bet,
            *pool == with_added_weight(pool0, batch_sum(pool0, recs0, j as int, penalty_bps)),
            pool0.total_weight + batch_total(pool0, recs0, penalty_bps) <= u128::MAX,
        decreases recs0.len() - j,
    {
        proof {
            lemma_batch_sum_prefix(pool0, recs0, j + 1, recs0.len() as int, penalty_bps);
            lemma_batch_sum_nonneg(pool0, recs0, j as int, penalty_bps);
            lemma_batch_weight_nonneg(pool0, recs0, j as int, penalty_bps);
        }
        let f = first_index(records, j);
        assert forall|k: int| 0 <= k < f implies recs0[k].address != recs0[j as int].address by {
            assert(records@[k].address == recs0[k].address);
            assert(records@[j as int].address == recs0[j as int].address);
        }
        assert(recs0[f as int].address == recs0[j as int].address) by {
            assert(records@[f as int].address == recs0[f as int].address);
            assert(records@[j as int].address == recs0[j as int].address);
        }
        if f == j {
            assert(first_at_address(recs0, j as int));
            let w = weights[j];
            let eligible = records[j].bet.pool_identifier == pool.name
                && records[j].bet.status == BetStatus::Active && records[j].bet.is_revealed
                && !records[j].bet.is_weight_added;
            if eligible {
                weigh_record(&mut records[j], w);
                pool.total_weight = pool.total_weight + w;
            } else {
                assert(w == 0);
            }
        } else {
            assert(first_at_address(recs0, f as int));
            assert(!first_at_address(recs0, j as int));
            assert(batch_weight(pool0, recs0, j as int, penalty_bps) == 0);
            let copy = copy_bet(&records[f].bet);
            replace_bet(&mut records[j], copy);
            assert forall|m: int| 0 <= m < j && recs0[m].address == recs0[j as int].address implies records@[j as int].bet == records@[m].bet by {
                if m != f {
                    assert(f < m);
                    assert(records@[m].bet == records@[f as int].bet);
                }
            }
        }
        j = j + 1;
    }
    Ok(())
}

/// The bulk pass that an administrator may run once `batch_settle_wait_duration`
/// has passed since resolution, so that users can weigh their own bets first.
pub fn batch_calculate_outcome(
    config: &GlobalConfig,
    pool: &mut Pool,
    records: &mut Vec<BetRecord>,
    now: i64,
) -> (r: Result<(), CustomError>)
    ensures
        !old(pool).is_resolved ==> r == Err::<(), CustomError>(CustomError::SettlementTooEarly),
        old(pool).is_resolved && old(pool).weight_finalized ==> r == Err::<(), CustomError>(
            CustomError::WeightsAlreadyFinalized,
        ),
        old(pool).is_resolved && !old(pool).weight_finalized && now <= old(pool).resolution_ts
            + config.batch_settle_wait_duration ==> r == Err::<(), CustomError>(
            CustomError::SettlementTooEarly,
        ),
        r is Err ==> *final(pool) == *old(pool) && final(records)@ == old(records)@,
        old(pool).is_resolved && !old(pool).weight_finalized && now > old(pool).resolution_ts
            + config.batch_settle_wait_duration ==> match batch_error(
            *old(pool),
            old(records)@,
            config.weight_penalty_bps,
        ) {
            Some(e) => r == Err::<(), CustomError>(e),
            None => r is Ok && *final(pool) == with_added_weight(
                *old(pool),
                batch_total(*old(pool), old(records)@, config.weight_penalty_bps),
            ) && batch_outcome(*old(pool), old(records)@, final(records)@, config.weight_penalty_bps),
        },
        batch_total(*old(pool), old(records)@, config.weight_penalty_bps) >= 0,
        old(pool).wf() ==> final(pool).wf(),
{
    proof {
        lemma_batch_sum_nonneg(*pool, records@, records@.len() as int, config.weight_penalty_bps);
    }
    if !pool.is_resolved {
        return Err(CustomError::SettlementTooEarly);
    }
    if pool.weight_finalized {
        return Err(CustomError::WeightsAlreadyFinalized);
    }
    let wait = config.batch_settle_wait_duration;
    if (now as i128) <= (pool.resolution_ts as i128) + (wait as i128) {
        return Err(CustomError::SettlementTooEarly);
    }
    batch_calculate_weights(config, pool, records)
}

} // verus!
