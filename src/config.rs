//! The protocol's configuration record and its administrative updates.
use vstd::prelude::*;
use crate::errors::CustomError;
use crate::state::{bytes32_equal, GlobalConfig, Pubkey};

verus! {

/// Default wait after resolution before an administrator may weigh in bulk.
pub const DEFAULT_BATCH_SETTLE_WAIT: i64 = 60;

/// Whether `key` is among `keys`.
pub fn contains_key(keys: &Vec<Pubkey>, key: &Pubkey) -> (r: bool)
    ensures
        r == keys@.contains(*key),
{
    let mut i: usize = 0;
    while i < keys.len()
        invariant
            i <= keys@.len(),
            forall|j: int| 0 <= j < i ==> keys@[j] != *key,
        decreases keys@.len() - i,
    {
        if bytes32_equal(&keys[i], key) {
            return true;
        }
        i = i + 1;
    }
    false
}

/// The configuration of a freshly initialized protocol, administered by
/// `admin`: not paused, no penalty on weighing.
pub fn initialize_protocol(
    admin: Pubkey,
    treasury_wallet: Pubkey,
    parimutuel_fee_bps: u64,
    allowed_assets: Vec<Pubkey>,
) -> (r: GlobalConfig)
    ensures
        r == (GlobalConfig {
            admin,
            treasury_wallet,
            parimutuel_fee_bps,
            allowed_assets,
            paused: false,
            total_users: 0,
            batch_settle_wait_duration: DEFAULT_BATCH_SETTLE_WAIT,
            weight_penalty_bps: 0,
        }),
{
    GlobalConfig {
        admin,
        treasury_wallet,
        parimutuel_fee_bps,
        allowed_assets,
        paused: false,
        total_users: 0,
        batch_settle_wait_duration: DEFAULT_BATCH_SETTLE_WAIT,
        weight_penalty_bps: 0,
    }
}

/// Replaces each setting that is given, when `caller` is the administrator.
pub fn update_config(
    config: &mut GlobalConfig,
    caller: &Pubkey,
    new_treasury: Option<Pubkey>,
    new_parimutuel_fee_bps: Option<u64>,
    new_allowed_assets: Option<Vec<Pubkey>>,
) -> (r: Result<(), CustomError>)
    ensures
        *caller != old(config).admin ==> r == Err::<(), CustomError>(CustomError::Unauthorized)
            && *final(config) == *old(config),
        *caller == old(config).admin ==> r is Ok && *final(config) == (GlobalConfig {
            treasury_wallet: match new_treasury {
                Some(t) => t,
                None => old(config).treasury_wallet,
            },
            parimutuel_fee_bps: match new_parimutuel_fee_bps {
                Some(f) => f,
                None => old(config).parimutuel_fee_bps,
            },
            allowed_assets: match new_allowed_assets {
                Some(a) => a,
                None => old(config).allowed_assets,
            },
            ..*old(config)
        }),
{
    if !bytes32_equal(caller, &config.admin) {
        return Err(CustomError::Unauthorized);
    }
    if let Some(treasury) = new_treasury {
        config.treasury_wallet = treasury;
    }
    if let Some(fee) = new_parimutuel_fee_bps {
        config.parimutuel_fee_bps = fee;
    }
    if let Some(assets) = new_allowed_assets {
        config.allowed_assets = assets;
    }
    Ok(())
}

/// Hands administration to `new_admin`, when `caller` is the administrator.
pub fn transfer_admin(config: &mut GlobalConfig, caller: &Pubkey, new_admin: Pubkey) -> (r: Result<
    (),
    CustomError,
>)
    ensures
        *caller != old(config).admin ==> r == Err::<(), CustomError>(CustomError::Unauthorized)
            && *final(config) == *old(config),
        *caller == old(config).admin ==> r is Ok && *final(config) == (GlobalConfig {
            admin: new_admin,
            ..*old(config)
        }),
{
    if !bytes32_equal(caller, &config.admin) {
        return Err(CustomError::Unauthorized);
    }
    config.admin = new_admin;
    Ok(())
}

/// Sets or clears the circuit breaker, when `caller` is the administrator.
pub fn set_pause(config: &mut GlobalConfig, caller: &Pubkey, paused: bool) -> (r: Result<
    (),
    CustomError,
>)
    ensures
        *caller != old(config).admin ==> r == Err::<(), CustomError>(CustomError::Unauthorized)
            && *final(config) == *old(config),
        *caller == old(config).admin ==> r is Ok && *final(config) == (GlobalConfig {
            paused,
            ..*old(config)
        }),
{
    if !bytes32_equal(caller, &config.admin) {
        return Err(CustomError::Unauthorized);
    }
    config.paused = paused;
    Ok(())
}

} // verus!
