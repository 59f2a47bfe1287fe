//! The life of a bet: placed with a hidden prediction while its pool is open,
//! revised or revealed, and ended by a claim or a refund. Every transition
//! either applies all its effects or fails and leaves pool and bet unchanged.
use vstd::prelude::*;
use crate::commitment::{commitment_of, compute_commitment, lemma_preimage_injective, preimage};
use crate::errors::CustomError;
use crate::state::{bytes32_equal, BetStatus, GlobalConfig, Pool, Pubkey, UserBet};
use crate::weighing::BPS_DENOMINATOR;

verus! {

/// How long after its entry time a bet may be revealed.
pub const REVEAL_WINDOW_SECONDS: i64 = 300;

/// Share of the stake kept by the protocol on a voluntary refund, in basis points.
pub const REFUND_PENALTY_BPS: u64 = 100;

/// How long after the pool's close an emergency refund becomes possible.
pub const REFUND_TIMEOUT_SECONDS: i64 = 60;

// ---- place ----

/// Why placing a bet of `amount` in `pool` at `now` is refused, if it is.
pub open spec fn place_bet_error(paused: bool, pool: Pool, amount: u64, now: i64) -> Option<CustomError> {
    if paused {
        Some(CustomError::Paused)
    } else if now < pool.start_time || now >= pool.end_time {
        Some(CustomError::DurationTooShort)
    } else if pool.vault_balance + amount > u64::MAX {
        Some(CustomError::MathOverflow)
    } else {
        None
    }
}

/// The bet that placing `amount` in `pool` at `now` creates.
pub open spec fn placed_bet(
    pool: Pool,
    owner: Pubkey,
    amount: u64,
    commitment: [u8; 32],
    now: i64,
    bump: u8,
) -> UserBet {
    UserBet {
        owner,
        pool_identifier: pool.name,
        deposit: amount,
        end_timestamp: pool.end_time,
        creation_ts: now,
        update_count: 0,
        calculated_weight: 0,
        is_weight_added: false,
        referrer: None,
        commitment,
        is_revealed: false,
        prediction_target: 0,
        status: BetStatus::Active,
        bump,
    }
}

/// Places a bet of `amount` with a `commitment` to a hidden prediction, while
/// the pool is open; the stake joins the pot. The host moves the tokens.
pub fn place_bet(
    config: &GlobalConfig,
    pool: &mut Pool,
    owner: Pubkey,
    amount: u64,
    commitment: [u8; 32],
    now: i64,
    bump: u8,
) -> (r: Result<UserBet, CustomError>)
    ensures
        match place_bet_error(config.paused, *old(pool), amount, now) {
            Some(e) => r == Err::<UserBet, CustomError>(e) && *final(pool) == *old(pool),
            None => r == Ok::<UserBet, CustomError>(
                placed_bet(*old(pool), owner, amount, commitment, now, bump),
            ) && *final(pool) == (Pool {
                vault_balance: (old(pool).vault_balance + amount) as u64,
                ..*old(pool)
            }),
        },
        r matches Ok(bet) ==> bet.wf() && bet.in_pool(*final(pool)),
        old(pool).wf() ==> final(pool).wf(),
{
    if config.paused {
        return Err(CustomError::Paused);
    }
    if now < pool.start_time || now >= pool.end_time {
        return Err(CustomError::DurationTooShort);
    }
    if pool.vault_balance > u64::MAX - amount {
        return Err(CustomError::MathOverflow);
    }
    pool.vault_balance = pool.vault_balance + amount;
    Ok(UserBet {
        owner,
        pool_identifier: pool.name.clone(),
        deposit: amount,
        end_timestamp: pool.end_time,
        creation_ts: now,
        update_count: 0,
        calculated_weight: 0,
        is_weight_added: false,
        referrer: None,
        commitment,
        is_revealed: false,
        prediction_target: 0,
        status: BetStatus::Active,
        bump,
    })
}

// ---- update ----

/// Why revising `bet` at `now` is refused, if it is.
pub open spec fn update_bet_error(pool: Pool, bet: UserBet, now: i64) -> Option<CustomError> {
    if !bet.in_pool(pool) {
        Some(CustomError::PoolMismatch)
    } else if bet.status != BetStatus::Active {
        Some(CustomError::AlreadySettled)
    } else if now >= pool.end_time {
        Some(CustomError::DurationTooShort)
    } else if bet.update_count == u32::MAX {
        Some(CustomError::MathOverflow)
    } else {
        None
    }
}

/// `bet` revised to `target` at `now`: the entry time restarts, the revision
/// is counted, and the new prediction stands revealed.
pub open spec fn updated_bet(bet: UserBet, target: u64, now: i64) -> UserBet {
    UserBet {
        creation_ts: now,
        update_count: (bet.update_count + 1) as u32,
        prediction_target: target,
        is_revealed: true,
        ..bet
    }
}

/// Revises an active bet's prediction while the pool is open. The bet loses
/// its early-entry advantage and its conviction bonus.
///
/// The new prediction is stored in the clear and the bet counts as revealed
/// without any commitment check. This suits a host that keeps bets private by
/// other means; elsewhere it weakens the commit-reveal guarantee, since the
/// prediction is visible before the pool closes and the commitment no longer
/// binds it.
pub fn update_bet(pool: &Pool, bet: &mut UserBet, new_prediction_target: u64, now: i64) -> (r:
    Result<(), CustomError>)
    ensures
        match update_bet_error(*pool, *old(bet), now) {
            Some(e) => r == Err::<(), CustomError>(e) && *final(bet) == *old(bet),
            None => r is Ok && *final(bet) == updated_bet(*old(bet), new_prediction_target, now),
        },
        old(bet).wf() ==> final(bet).wf(),
{
    if bet.pool_identifier != pool.name {
        return Err(CustomError::PoolMismatch);
    }
    if bet.status != BetStatus::Active {
        return Err(CustomError::AlreadySettled);
    }
    if now >= pool.end_time {
        return Err(CustomError::DurationTooShort);
    }
    if bet.update_count == u32::MAX {
        return Err(CustomError::MathOverflow);
    }
    bet.creation_ts = now;
    bet.update_count = bet.update_count + 1;
    bet.prediction_target = new_prediction_target;
    bet.is_revealed = true;
    Ok(())
}

// ---- reveal ----

/// Why revealing `bet` with a preimage whose digest is `digest` at `now` is
/// refused, if it is.
pub open spec fn reveal_error(bet: UserBet, digest: Seq<u8>, now: i64) -> Option<CustomError> {
    if bet.status != BetStatus::Active {
        Some(CustomError::AlreadySettled)
    } else if bet.is_revealed {
        Some(CustomError::AlreadyRevealed)
    } else if now > bet.creation_ts + REVEAL_WINDOW_SECONDS {
        Some(CustomError::RevealWindowExpired)
    } else if digest != bet.commitment@ {
        Some(CustomError::InvalidCommitment)
    } else {
        None
    }
}

/// `bet` with `target` revealed.
pub open spec fn revealed_bet(bet: UserBet, target: u64) -> UserBet {
    UserBet { prediction_target: target, is_revealed: true, ..bet }
}

/// Reveals `prediction_target` given the digest of its preimage: it is
/// accepted when the digest equals the bet's commitment.
pub fn reveal_with_digest(bet: &mut UserBet, prediction_target: u64, digest: &[u8; 32], now: i64) -> (r:
    Result<(), CustomError>)
    ensures
        match reveal_error(*old(bet), digest@, now) {
            Some(e) => r == Err::<(), CustomError>(e) && *final(bet) == *old(bet),
            None => r is Ok && *final(bet) == revealed_bet(*old(bet), prediction_target),
        },
        old(bet).wf() ==> final(bet).wf(),
{
    if bet.status != BetStatus::Active {
        return Err(CustomError::AlreadySettled);
    }
    if bet.is_revealed {
        return Err(CustomError::AlreadyRevealed);
    }
    if (now as i128) > (bet.creation_ts as i128) + (REVEAL_WINDOW_SECONDS as i128) {
        return Err(CustomError::RevealWindowExpired);
    }
    if !bytes32_equal(digest, &bet.commitment) {
        return Err(CustomError::InvalidCommitment);
    }
    bet.prediction_target = prediction_target;
    bet.is_revealed = true;
    Ok(())
}

/// Reveals `prediction_target` and `salt`: accepted when they hash to the
/// bet's commitment, within the reveal window.
pub fn reveal_bet(bet: &mut UserBet, prediction_target: u64, salt: &[u8; 32], now: i64) -> (r:
    Result<(), CustomError>)
    ensures
        match reveal_error(*old(bet), commitment_of(prediction_target, salt@), now) {
            Some(e) => r == Err::<(), CustomError>(e) && *final(bet) == *old(bet),
            None => r is Ok && *final(bet) == revealed_bet(*old(bet), prediction_target),
        },
        old(bet).wf() ==> final(bet).wf(),
{
    let digest = compute_commitment(prediction_target, salt);
    reveal_with_digest(bet, prediction_target, &digest, now)
}

/// A commitment opens to the prediction and salt it was made from, and to no
/// other prediction under that salt whose digest differs from it. Other
/// predictions always hash a different preimage.
pub proof fn lemma_reveal_round_trip(bet: UserBet, target: u64, other: u64, salt: Seq<u8>, now: i64)
    requires
        bet.commitment@ == commitment_of(target, salt),
        bet.status == BetStatus::Active,
        !bet.is_revealed,
        now <= bet.creation_ts + REVEAL_WINDOW_SECONDS,
    ensures
        reveal_error(bet, commitment_of(target, salt), now) is None,
        other != target ==> preimage(other, salt) != preimage(target, salt),
        other != target && commitment_of(other, salt) != commitment_of(target, salt) ==> reveal_error(
            bet,
            commitment_of(other, salt),
            now,
        ) == Some(CustomError::InvalidCommitment),
{
    if other != target {
        lemma_preimage_injective(other, target, salt);
    }
}

// ---- claim ----

/// Whether a claim on `bet` computes a share: a weighed bet with a non-zero
/// weight in a pool with a non-zero total.
pub open spec fn claim_has_share(pool: Pool, bet: UserBet) -> bool {
    bet.status == BetStatus::Calculated && bet.calculated_weight > 0 && pool.total_weight > 0
}

/// What a claim on `bet` pays: its weight's share of the pot, truncated.
pub open spec fn payout_spec(pool: Pool, bet: UserBet) -> int {
    if claim_has_share(pool, bet) {
        bet.calculated_weight * pool.vault_balance / (pool.total_weight as int)
    } else {
        0
    }
}

/// Why a claim on `bet` is refused, if it is.
pub open spec fn claim_error(pool: Pool, bet: UserBet) -> Option<CustomError> {
    if !bet.in_pool(pool) {
        Some(CustomError::PoolMismatch)
    } else if !pool.weight_finalized {
        Some(CustomError::SettlementTooEarly)
    } else if bet.status == BetStatus::Settled {
        Some(CustomError::AlreadySettled)
    } else if claim_has_share(pool, bet) && bet.calculated_weight * pool.vault_balance > u128::MAX {
        Some(CustomError::MathOverflow)
    } else if payout_spec(pool, bet) > pool.vault_balance {
        Some(CustomError::InsufficientLiquidity)
    } else {
        None
    }
}

/// `bet` once ended.
pub open spec fn settled_bet(bet: UserBet) -> UserBet {
    UserBet { status: BetStatus::Settled, ..bet }
}

/// Claims the bet's share of a finalized pool's pot and ends the bet, even
/// where the share is zero. Returns the amount the host pays out.
pub fn claim_reward(pool: &Pool, bet: &mut UserBet) -> (r: Result<u64, CustomError>)
    ensures
        match claim_error(*pool, *old(bet)) {
            Some(e) => r == Err::<u64, CustomError>(e) && *final(bet) == *old(bet),
            None => r == Ok::<u64, CustomError>(payout_spec(*pool, *old(bet)) as u64) && *final(bet)
                == settled_bet(*old(bet)),
        },
        old(bet).wf() ==> final(bet).wf(),
{
    if bet.pool_identifier != pool.name {
        return Err(CustomError::PoolMismatch);
    }
    if !pool.weight_finalized {
        return Err(CustomError::SettlementTooEarly);
    }
    if bet.status == BetStatus::Settled {
        return Err(CustomError::AlreadySettled);
    }
    let mut payout: u128 = 0;
    if bet.status == BetStatus::Calculated && bet.calculated_weight > 0 && pool.total_weight > 0 {
        let pot: u128 = pool.vault_balance as u128;
        if pot > 0 && bet.calculated_weight > u128::MAX / pot {
            assert(bet.calculated_weight * pot > u128::MAX) by (nonlinear_arith)
                requires
                    bet.calculated_weight > u128::MAX / pot,
                    pot > 0,
            ;
            return Err(CustomError::MathOverflow);
        }
        assert(bet.calculated_weight * pot <= u128::MAX) by (nonlinear_arith)
            requires
                pot == 0 || bet.calculated_weight <= u128::MAX / pot,
        ;
        payout = bet.calculated_weight * pot / pool.total_weight;
    }
    if payout > pool.vault_balance as u128 {
        return Err(CustomError::InsufficientLiquidity);
    }
    bet.status = BetStatus::Settled;
    Ok(payout as u64)
}

/// Claims wait for finalization: before it every claim fails, with
/// `SettlementTooEarly` for a bet of the pool. Once a pool is finalized with
/// no weight at all, every unsettled bet of it claims zero without error.
pub proof fn lemma_claim_zero_total_weight(pool: Pool, bet: UserBet)
    ensures
        !pool.weight_finalized ==> claim_error(pool, bet) is Some,
        !pool.weight_finalized && bet.in_pool(pool) ==> claim_error(pool, bet) == Some(
            CustomError::SettlementTooEarly,
        ),
        pool.weight_finalized && pool.total_weight == 0 && bet.status != BetStatus::Settled
            && bet.in_pool(pool) ==> claim_error(pool, bet) is None && payout_spec(pool, bet) == 0,
{
}

/// The sum of the weights recorded on `bets`.
pub open spec fn weight_total(bets: Seq<UserBet>) -> int
    decreases bets.len(),
{
    if bets.len() == 0 {
        0
    } else {
        weight_total(bets.drop_last()) + bets.last().calculated_weight
    }
}

/// The sum of what claims on `bets` pay out of `pool`.
pub open spec fn payout_total(pool: Pool, bets: Seq<UserBet>) -> int
    decreases bets.len(),
{
    if bets.len() == 0 {
        0
    } else {
        payout_total(pool, bets.drop_last()) + payout_spec(pool, bets.last())
    }
}

proof fn lemma_payout_prefix(pool: Pool, bets: Seq<UserBet>)
    requires
        pool.total_weight > 0,
        forall|i: int| 0 <= i < bets.len() ==> #[trigger] bets[i].status == BetStatus::Calculated,
    ensures
        weight_total(bets) >= 0,
        pool.total_weight * payout_total(pool, bets) <= pool.vault_balance * weight_total(bets),
        pool.vault_balance * weight_total(bets) - pool.total_weight * payout_total(pool, bets) <= (
        pool.total_weight - 1) * weight_total(bets),
    decreases bets.len(),
{
    if bets.len() > 0 {
        let rest = bets.drop_last();
        assert forall|i: int| 0 <= i < rest.len() implies #[trigger] rest[i].status
            == BetStatus::Calculated by {
            assert(rest[i] == bets[i]);
        }
        lemma_payout_prefix(pool, rest);
        let t: int = pool.total_weight as int;
        let pot: int = pool.vault_balance as int;
        let w: int = bets.last().calculated_weight as int;
        let p: int = payout_spec(pool, bets.last());
        let wr: int = weight_total(rest);
        let pr: int = payout_total(pool, rest);
        assert(bets.last().status == BetStatus::Calculated);
        if w > 0 {
            assert(p == w * pot / t);
            let r: int = w * pot - t * p;
            assert(0 <= r < t) by (nonlinear_arith)
                requires
                    p == w * pot / t,
                    r == w * pot - t * p,
                    t > 0,
            ;
            assert(t * (pr + p) <= pot * (wr + w)) by (nonlinear_arith)
                requires
                    t * pr <= pot * wr,
                    r == w * pot - t * p,
                    r >= 0,
            ;
            assert(r <= (t - 1) * w) by (nonlinear_arith)
                requires
                    r < t,
                    t >= 1,
                    w >= 1,
            ;
            assert(pot * (wr + w) - t * (pr + p) == (pot * wr - t * pr) + r) by (nonlinear_arith)
                requires
                    r == w * pot - t * p,
            ;
            assert((t - 1) * (wr + w) == (t - 1) * wr + (t - 1) * w) by (nonlinear_arith);
        } else {
            assert(p == 0);
            assert(w == 0);
        }
    }
}

proof fn lemma_weight_within_total(bets: Seq<UserBet>, i: int)
    requires
        0 <= i < bets.len(),
    ensures
        bets[i].calculated_weight <= weight_total(bets),
    decreases bets.len(),
{
    let rest = bets.drop_last();
    if i < bets.len() - 1 {
        lemma_weight_within_total(rest, i);
        assert(rest[i] == bets[i]);
    }
    lemma_weight_total_nonneg(rest);
}

proof fn lemma_weight_total_nonneg(bets: Seq<UserBet>)
    ensures
        weight_total(bets) >= 0,
    decreases bets.len(),
{
    if bets.len() > 0 {
        lemma_weight_total_nonneg(bets.drop_last());
    }
}

/// Claims on weighed bets whose weights make up the pool's whole total pay
/// out no more than the pot, and leave less than the total weight behind:
/// what truncation keeps in the pot is at most `total_weight - 1`. Each such
/// bet of a finalized pool claims its weight's share of the pot, truncated,
/// wherever weight times pot fits in a `u128`.
pub proof fn lemma_payouts_split_pot(pool: Pool, bets: Seq<UserBet>)
    requires
        pool.total_weight > 0,
        weight_total(bets) == pool.total_weight,
        forall|i: int| 0 <= i < bets.len() ==> #[trigger] bets[i].status == BetStatus::Calculated,
    ensures
        payout_total(pool, bets) <= pool.vault_balance,
        pool.vault_balance - payout_total(pool, bets) <= pool.total_weight - 1,
        forall|i: int|
            0 <= i < bets.len() && pool.weight_finalized && bets[i].in_pool(pool)
                && bets[i].calculated_weight * pool.vault_balance <= u128::MAX ==> claim_error(
                pool,
                #[trigger] bets[i],
            ) is None && payout_spec(pool, bets[i]) == (if bets[i].calculated_weight > 0 {
                bets[i].calculated_weight * pool.vault_balance / (pool.total_weight as int)
            } else {
                0
            }),
{
    assert forall|i: int|
        0 <= i < bets.len() && pool.weight_finalized && bets[i].in_pool(pool)
            && bets[i].calculated_weight * pool.vault_balance <= u128::MAX implies claim_error(
        pool,
        #[trigger] bets[i],
    ) is None by {
        lemma_weight_within_total(bets, i);
        let w: int = bets[i].calculated_weight as int;
        let t: int = pool.total_weight as int;
        let pot: int = pool.vault_balance as int;
        assert(w * pot / t <= pot) by (nonlinear_arith)
            requires
                0 <= w <= t,
                t > 0,
                pot >= 0,
        ;
    }
    lemma_payout_prefix(pool, bets);
    let t: int = pool.total_weight as int;
    let pot: int = pool.vault_balance as int;
    let paid: int = payout_total(pool, bets);
    assert(paid <= pot && pot - paid <= t - 1) by (nonlinear_arith)
        requires
            t * paid <= pot * t,
            pot * t - t * paid <= (t - 1) * t,
            t > 0,
    ;
}

// ---- refunds ----

/// Why a voluntary refund of `bet` at `now` is refused, if it is.
pub open spec fn refund_error(pool: Pool, bet: UserBet, now: i64) -> Option<CustomError> {
    if !bet.in_pool(pool) {
        Some(CustomError::PoolMismatch)
    } else if bet.status == BetStatus::Settled {
        Some(CustomError::AlreadySettled)
    } else if pool.weight_finalized {
        Some(CustomError::WeightsAlreadyFinalized)
    } else if bet.is_revealed {
        Some(CustomError::CannotRefundRevealed)
    } else if now <= bet.end_timestamp {
        Some(CustomError::SettlementTooEarly)
    } else if pool.vault_balance < bet.deposit {
        Some(CustomError::InsufficientLiquidity)
    } else {
        None
    }
}

/// The share of a stake that a voluntary refund withholds.
pub open spec fn refund_penalty(deposit: u64) -> int {
    deposit * REFUND_PENALTY_BPS / (BPS_DENOMINATOR as int)
}

/// `pool` with `amount` taken from its pot.
pub open spec fn withdrawn(pool: Pool, amount: u64) -> Pool {
    Pool { vault_balance: (pool.vault_balance - amount) as u64, ..pool }
}

/// Refunds a bet that was never revealed, after the pool has closed and
/// before its weights are finalized (the pot is then frozen for claims): the
/// stake leaves the pot, and the result is the amount returned to the owner
/// and the penalty kept by the protocol, in that order.
pub fn refund_bet(pool: &mut Pool, bet: &mut UserBet, now: i64) -> (r: Result<(u64, u64), CustomError>)
    ensures
        match refund_error(*old(pool), *old(bet), now) {
            Some(e) => r == Err::<(u64, u64), CustomError>(e) && *final(pool) == *old(pool)
                && *final(bet) == *old(bet),
            None => r == Ok::<(u64, u64), CustomError>(
                (
                    (old(bet).deposit - refund_penalty(old(bet).deposit)) as u64,
                    refund_penalty(old(bet).deposit) as u64,
                ),
            ) && *final(pool) == withdrawn(*old(pool), old(bet).deposit) && *final(bet)
                == settled_bet(*old(bet)),
        },
        old(pool).wf() ==> final(pool).wf(),
        old(bet).wf() ==> final(bet).wf(),
{
    if bet.pool_identifier != pool.name {
        return Err(CustomError::PoolMismatch);
    }
    if bet.status == BetStatus::Settled {
        return Err(CustomError::AlreadySettled);
    }
    if pool.weight_finalized {
        return Err(CustomError::WeightsAlreadyFinalized);
    }
    if bet.is_revealed {
        return Err(CustomError::CannotRefundRevealed);
    }
    if now <= bet.end_timestamp {
        return Err(CustomError::SettlementTooEarly);
    }
    if pool.vault_balance < bet.deposit {
        return Err(CustomError::InsufficientLiquidity);
    }
    let deposit: u128 = bet.deposit as u128;
    let penalty: u128 = deposit * (REFUND_PENALTY_BPS as u128) / (BPS_DENOMINATOR as u128);
    assert(penalty <= deposit) by (nonlinear_arith)
        requires
            penalty == deposit * 100 / 10_000,
            deposit >= 0,
    ;
    let refund: u128 = deposit - penalty;
    pool.vault_balance = pool.vault_balance - bet.deposit;
    bet.status = BetStatus::Settled;
    Ok((refund as u64, penalty as u64))
}

/// Why an emergency refund of `bet` at `now` is refused, if it is.
pub open spec fn emergency_refund_error(pool: Pool, bet: UserBet, now: i64) -> Option<CustomError> {
    if !bet.in_pool(pool) {
        Some(CustomError::PoolMismatch)
    } else if bet.status == BetStatus::Settled {
        Some(CustomError::AlreadySettled)
    } else if pool.weight_finalized {
        Some(CustomError::WeightsAlreadyFinalized)
    } else if now <= bet.end_timestamp + REFUND_TIMEOUT_SECONDS {
        Some(CustomError::TimeoutNotMet)
    } else if pool.vault_balance < bet.deposit {
        Some(CustomError::InsufficientLiquidity)
    } else {
        None
    }
}

/// Returns the whole stake of any unsettled bet once the refund timeout has
/// passed after the pool's close, revealed or not, as long as the pool's
/// weights are not finalized: from then on the pot is frozen for claims. Returns the amount the
/// host pays back.
pub fn emergency_refund(pool: &mut Pool, bet: &mut UserBet, now: i64) -> (r: Result<u64, CustomError>)
    ensures
        match emergency_refund_error(*old(pool), *old(bet), now) {
            Some(e) => r == Err::<u64, CustomError>(e) && *final(pool) == *old(pool) && *final(bet)
                == *old(bet),
            None => r == Ok::<u64, CustomError>(old(bet).deposit) && *final(pool) == withdrawn(
                *old(pool),
                old(bet).deposit,
            ) && *final(bet) == settled_bet(*old(bet)),
        },
        old(pool).wf() ==> final(pool).wf(),
        old(bet).wf() ==> final(bet).wf(),
{
    if bet.pool_identifier != pool.name {
        return Err(CustomError::PoolMismatch);
    }
    if bet.status == BetStatus::Settled {
        return Err(CustomError::AlreadySettled);
    }
    if pool.weight_finalized {
        return Err(CustomError::WeightsAlreadyFinalized);
    }
    if (now as i128) <= (bet.end_timestamp as i128) + (REFUND_TIMEOUT_SECONDS as i128) {
        return Err(CustomError::TimeoutNotMet);
    }
    if pool.vault_balance < bet.deposit {
        return Err(CustomError::InsufficientLiquidity);
    }
    pool.vault_balance = pool.vault_balance - bet.deposit;
    bet.status = BetStatus::Settled;
    Ok(bet.deposit)
}

} // verus!
