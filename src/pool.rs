//! A pool's own lifecycle: created by the administrator for a whitelisted
//! asset, resolved with its outcome after it closes, and finalized once the
//! protocol fee has been taken from its pot.
use vstd::prelude::*;
use crate::config::contains_key;
use crate::errors::CustomError;
use crate::state::{bytes32_equal, GlobalConfig, Pool, Pubkey};
use crate::weighing::BPS_DENOMINATOR;

verus! {

/// Why creating a pool is refused, if it is.
pub open spec fn create_pool_error(
    config: GlobalConfig,
    caller: Pubkey,
    token_mint: Pubkey,
    start_time: i64,
    end_time: i64,
) -> Option<CustomError> {
    if caller != config.admin {
        Some(CustomError::Unauthorized)
    } else if end_time <= start_time {
        Some(CustomError::DurationTooShort)
    } else if !config.allowed_assets@.contains(token_mint) {
        Some(CustomError::AssetNotWhitelisted)
    } else {
        None
    }
}

/// Opens a pool over `[start_time, end_time)` for a whitelisted mint, its pot
/// seeded with `initial_liquidity`, which the host moves in.
pub fn create_pool(
    config: &GlobalConfig,
    caller: Pubkey,
    name: String,
    metadata: Option<String>,
    token_mint: Pubkey,
    start_time: i64,
    end_time: i64,
    initial_liquidity: u64,
    max_accuracy_buffer: u64,
    conviction_bonus_bps: u64,
    bump: u8,
) -> (r: Result<Pool, CustomError>)
    ensures
        match create_pool_error(*config, caller, token_mint, start_time, end_time) {
            Some(e) => r == Err::<Pool, CustomError>(e),
            None => r == Ok::<Pool, CustomError>(
                Pool {
                    admin: caller,
                    name,
                    token_mint,
                    start_time,
                    end_time,
                    vault_balance: initial_liquidity,
                    max_accuracy_buffer,
                    conviction_bonus_bps,
                    metadata,
                    resolution_target: 0,
                    is_resolved: false,
                    resolution_ts: 0,
                    total_weight: 0,
                    weight_finalized: false,
                    bump,
                },
            ),
        },
        r matches Ok(p) ==> p.wf(),
{
    if !bytes32_equal(&caller, &config.admin) {
        return Err(CustomError::Unauthorized);
    }
    if end_time <= start_time {
        return Err(CustomError::DurationTooShort);
    }
    if !contains_key(&config.allowed_assets, &token_mint) {
        return Err(CustomError::AssetNotWhitelisted);
    }
    Ok(Pool {
        admin: caller,
        name,
        token_mint,
        start_time,
        end_time,
        vault_balance: initial_liquidity,
        max_accuracy_buffer,
        conviction_bonus_bps,
        metadata,
        resolution_target: 0,
        is_resolved: false,
        resolution_ts: 0,
        total_weight: 0,
        weight_finalized: false,
        bump,
    })
}

/// Why resolving `pool` at `now` is refused, if it is.
pub open spec fn resolve_pool_error(config: GlobalConfig, caller: Pubkey, pool: Pool, now: i64) -> Option<
    CustomError,
> {
    if caller != config.admin {
        Some(CustomError::Unauthorized)
    } else if pool.is_resolved {
        Some(CustomError::AlreadySettled)
    } else if now < pool.end_time {
        Some(CustomError::DurationTooShort)
    } else {
        None
    }
}

/// `pool` resolved to `final_outcome` at `now`.
pub open spec fn resolved_pool(pool: Pool, final_outcome: u64, now: i64) -> Pool {
    Pool {
        resolution_target: final_outcome,
        is_resolved: true,
        resolution_ts: now,
        weight_finalized: false,
        ..pool
    }
}

/// Records the outcome of a closed pool, once.
pub fn resolve_pool(
    config: &GlobalConfig,
    caller: &Pubkey,
    pool: &mut Pool,
    final_outcome: u64,
    now: i64,
) -> (r: Result<(), CustomError>)
    ensures
        match resolve_pool_error(*config, *caller, *old(pool), now) {
            Some(e) => r == Err::<(), CustomError>(e) && *final(pool) == *old(pool),
            None => r is Ok && *final(pool) == resolved_pool(*old(pool), final_outcome, now),
        },
        old(pool).wf() ==> final(pool).wf(),
{
    if !bytes32_equal(caller, &config.admin) {
        return Err(CustomError::Unauthorized);
    }
    if pool.is_resolved {
        return Err(CustomError::AlreadySettled);
    }
    if now < pool.end_time {
        return Err(CustomError::DurationTooShort);
    }
    pool.resolution_target = final_outcome;
    pool.is_resolved = true;
    pool.resolution_ts = now;
    pool.weight_finalized = false;
    Ok(())
}

/// The fee taken from a pot of `vault_balance` at `fee_bps`, truncated.
pub open spec fn fee_spec(vault_balance: u64, fee_bps: u64) -> int {
    vault_balance * fee_bps / (BPS_DENOMINATOR as int)
}

/// Why finalizing `pool` is refused, if it is.
pub open spec fn finalize_weights_error(pool: Pool, fee_bps: u64) -> Option<CustomError> {
    if !pool.is_resolved {
        Some(CustomError::SettlementTooEarly)
    } else if pool.weight_finalized {
        Some(CustomError::WeightsAlreadyFinalized)
    } else if fee_spec(pool.vault_balance, fee_bps) > pool.vault_balance {
        Some(CustomError::MathOverflow)
    } else {
        None
    }
}

/// `pool` finalized with `fee` taken from its pot.
pub open spec fn finalized_pool(pool: Pool, fee: int) -> Pool {
    Pool { vault_balance: (pool.vault_balance - fee) as u64, weight_finalized: true, ..pool }
}

/// Takes the protocol fee from a resolved pool's pot and freezes its total
/// weight and pot for the claims. Returns the fee, which the host moves to
/// the treasury.
pub fn finalize_weights(config: &GlobalConfig, pool: &mut Pool) -> (r: Result<u64, CustomError>)
    ensures
        match finalize_weights_error(*old(pool), config.parimutuel_fee_bps) {
            Some(e) => r == Err::<u64, CustomError>(e) && *final(pool) == *old(pool),
            None => r == Ok::<u64, CustomError>(
                fee_spec(old(pool).vault_balance, config.parimutuel_fee_bps) as u64,
            ) && *final(pool) == finalized_pool(
                *old(pool),
                fee_spec(old(pool).vault_balance, config.parimutuel_fee_bps),
            ),
        },
        old(pool).wf() ==> final(pool).wf(),
{
    if !pool.is_resolved {
        return Err(CustomError::SettlementTooEarly);
    }
    if pool.weight_finalized {
        return Err(CustomError::WeightsAlreadyFinalized);
    }
    let total_assets: u128 = pool.vault_balance as u128;
    let fee_bps: u128 = config.parimutuel_fee_bps as u128;
    assert(total_assets * fee_bps <= u64::MAX * u64::MAX) by (nonlinear_arith)
        requires
            total_assets <= u64::MAX,
            fee_bps <= u64::MAX,
    ;
    let fee: u128 = total_assets * fee_bps / (BPS_DENOMINATOR as u128);
    if fee > total_assets {
        return Err(CustomError::MathOverflow);
    }
    pool.vault_balance = (total_assets - fee) as u64;
    pool.weight_finalized = true;
    Ok(fee as u64)
}

} // verus!
