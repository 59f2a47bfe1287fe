use swiv_privacy::commitment::compute_commitment;
use swiv_privacy::config::{initialize_protocol, set_pause, transfer_admin, update_config};
use swiv_privacy::errors::CustomError;
use swiv_privacy::lifecycle::{claim_reward, emergency_refund, place_bet, refund_bet, reveal_bet, update_bet};
use swiv_privacy::pool::{create_pool, finalize_weights, resolve_pool};
use swiv_privacy::state::{BetRecord, BetStatus, GlobalConfig, Pool, UserBet};
use swiv_privacy::weighing::{
    batch_calculate_outcome, batch_calculate_weights, calculate_bet_weight, calculate_outcome,
};

const ADMIN: [u8; 32] = [7u8; 32];
const MINT: [u8; 32] = [9u8; 32];
const SALT: [u8; 32] = [5u8; 32];

fn config(fee_bps: u64) -> GlobalConfig {
    initialize_protocol(ADMIN, [1u8; 32], fee_bps, vec![MINT])
}

fn pool(cfg: &GlobalConfig, name: &str) -> Pool {
    create_pool(cfg, ADMIN, name.to_string(), None, MINT, 0, 100, 0, 10, 0, 1).unwrap()
}

fn records(bets: Vec<UserBet>) -> Vec<BetRecord> {
    bets.into_iter()
        .enumerate()
        .map(|(i, bet)| BetRecord { address: [i as u8 + 100; 32], bet })
        .collect()
}

fn revealed_bet(cfg: &GlobalConfig, pool: &mut Pool, amount: u64, target: u64, now: i64) -> UserBet {
    let c = compute_commitment(target, &SALT);
    let mut bet = place_bet(cfg, pool, [3u8; 32], amount, c, now, 0).unwrap();
    reveal_bet(&mut bet, target, &SALT, now).unwrap();
    bet
}

#[test]
fn single_bet_scenario_weight_is_3000() {
    let cfg = config(0);
    let mut p = pool(&cfg, "btc");
    let mut bet = revealed_bet(&cfg, &mut p, 1000, 500, 0);
    resolve_pool(&cfg, &ADMIN, &mut p, 500, 100).unwrap();
    assert_eq!(calculate_outcome(&cfg, &mut p, &mut bet), Ok(()));
    assert_eq!(bet.calculated_weight, 3000);
    assert_eq!(bet.status, BetStatus::Calculated);
    assert!(bet.is_weight_added);
    assert_eq!(p.total_weight, 3000);
}

#[test]
fn calculate_outcome_twice_counts_once() {
    let cfg = config(0);
    let mut p = pool(&cfg, "btc");
    let mut bet = revealed_bet(&cfg, &mut p, 1000, 505, 50);
    resolve_pool(&cfg, &ADMIN, &mut p, 500, 100).unwrap();
    calculate_outcome(&cfg, &mut p, &mut bet).unwrap();
    let once = p.total_weight;
    // 1000 * 0.5 * 1.5 * 1.5
    assert_eq!(once, 1125);
    assert_eq!(calculate_outcome(&cfg, &mut p, &mut bet), Ok(()));
    assert_eq!(p.total_weight, once);
    assert_eq!(bet.calculated_weight, 1125);
}

#[test]
fn calculate_outcome_refusals() {
    let cfg = config(0);
    let mut p = pool(&cfg, "btc");
    let c = compute_commitment(500, &SALT);
    let mut hidden = place_bet(&cfg, &mut p, [3u8; 32], 10, c, 0, 0).unwrap();
    let mut bet = revealed_bet(&cfg, &mut p, 10, 500, 0);
    assert_eq!(calculate_outcome(&cfg, &mut p, &mut bet), Err(CustomError::SettlementTooEarly));
    resolve_pool(&cfg, &ADMIN, &mut p, 500, 100).unwrap();
    assert_eq!(calculate_outcome(&cfg, &mut p, &mut hidden), Err(CustomError::BetNotRevealed));
    let mut other = pool(&cfg, "eth");
    assert_eq!(calculate_outcome(&cfg, &mut other, &mut bet), Err(CustomError::PoolMismatch));
    finalize_weights(&cfg, &mut p).unwrap();
    assert_eq!(calculate_outcome(&cfg, &mut p, &mut bet), Err(CustomError::WeightsAlreadyFinalized));
    bet.status = BetStatus::Settled;
    assert_eq!(calculate_outcome(&cfg, &mut p, &mut bet), Err(CustomError::AlreadySettled));
    assert_eq!(p.total_weight, 0);
}

#[test]
fn weight_penalty_is_applied_uniformly() {
    let mut cfg = config(0);
    cfg.weight_penalty_bps = 500;
    let mut p = pool(&cfg, "btc");
    let mut bet = revealed_bet(&cfg, &mut p, 1000, 500, 0);
    resolve_pool(&cfg, &ADMIN, &mut p, 500, 100).unwrap();
    assert_eq!(calculate_bet_weight(&p, &bet, 500), Ok(2850));
    assert_eq!(calculate_bet_weight(&p, &bet, 10_001), Err(CustomError::MathOverflow));
    calculate_outcome(&cfg, &mut p, &mut bet).unwrap();
    assert_eq!(bet.calculated_weight, 2850);
}

#[test]
fn revised_bet_loses_bonuses() {
    let cfg = config(0);
    let mut p = pool(&cfg, "btc");
    let mut bet = revealed_bet(&cfg, &mut p, 1000, 1, 0);
    update_bet(&p, &mut bet, 500, 50).unwrap();
    resolve_pool(&cfg, &ADMIN, &mut p, 500, 100).unwrap();
    calculate_outcome(&cfg, &mut p, &mut bet).unwrap();
    // 1000 * 1.0 * 1.5 * 1.0
    assert_eq!(bet.calculated_weight, 1500);
}

#[test]
fn claim_before_finalize_fails() {
    let cfg = config(0);
    let mut p = pool(&cfg, "btc");
    let mut bet = revealed_bet(&cfg, &mut p, 1000, 500, 0);
    resolve_pool(&cfg, &ADMIN, &mut p, 500, 100).unwrap();
    calculate_outcome(&cfg, &mut p, &mut bet).unwrap();
    assert_eq!(claim_reward(&p, &mut bet), Err(CustomError::SettlementTooEarly));
    assert_eq!(bet.status, BetStatus::Calculated);
}

#[test]
fn claim_with_zero_total_weight_pays_zero() {
    let cfg = config(0);
    let mut p = pool(&cfg, "btc");
    let mut a = revealed_bet(&cfg, &mut p, 1000, 900, 0);
    let mut b = revealed_bet(&cfg, &mut p, 500, 10, 0);
    resolve_pool(&cfg, &ADMIN, &mut p, 500, 100).unwrap();
    calculate_outcome(&cfg, &mut p, &mut a).unwrap();
    calculate_outcome(&cfg, &mut p, &mut b).unwrap();
    assert_eq!(p.total_weight, 0);
    finalize_weights(&cfg, &mut p).unwrap();
    assert_eq!(claim_reward(&p, &mut a), Ok(0));
    assert_eq!(claim_reward(&p, &mut b), Ok(0));
    assert_eq!(a.status, BetStatus::Settled);
    assert_eq!(b.status, BetStatus::Settled);
    assert_eq!(claim_reward(&p, &mut a), Err(CustomError::AlreadySettled));
}

#[test]
fn two_bets_split_the_pot_by_weight() {
    let cfg = config(0);
    let mut p = pool(&cfg, "btc");
    let mut a = revealed_bet(&cfg, &mut p, 3000, 500, 0);
    let mut b = revealed_bet(&cfg, &mut p, 1000, 500, 0);
    resolve_pool(&cfg, &ADMIN, &mut p, 500, 100).unwrap();
    a.calculated_weight = 3000;
    a.is_weight_added = true;
    a.status = BetStatus::Calculated;
    b.calculated_weight = 1000;
    b.is_weight_added = true;
    b.status = BetStatus::Calculated;
    p.total_weight = 4000;
    assert_eq!(finalize_weights(&cfg, &mut p), Ok(0));
    assert_eq!(p.vault_balance, 4000);
    let pa = claim_reward(&p, &mut a).unwrap();
    let pb = claim_reward(&p, &mut b).unwrap();
    assert_eq!(pa, 3000);
    assert_eq!(pb, 1000);
    assert_eq!(pa + pb, 4000);
}

#[test]
fn payouts_lose_less_than_total_weight_to_truncation() {
    let cfg = config(250);
    let mut p = pool(&cfg, "btc");
    let mut bets = vec![
        revealed_bet(&cfg, &mut p, 1000, 500, 0),
        revealed_bet(&cfg, &mut p, 777, 503, 30),
        revealed_bet(&cfg, &mut p, 1234, 498, 60),
    ];
    resolve_pool(&cfg, &ADMIN, &mut p, 500, 100).unwrap();
    for bet in bets.iter_mut() {
        calculate_outcome(&cfg, &mut p, bet).unwrap();
    }
    let fee = finalize_weights(&cfg, &mut p).unwrap();
    assert_eq!(fee, 3011 * 250 / 10_000);
    assert_eq!(p.vault_balance, 3011 - fee);
    let mut paid: u64 = 0;
    for bet in bets.iter_mut() {
        paid += claim_reward(&p, bet).unwrap();
    }
    assert!(paid <= p.vault_balance);
    assert!(((p.vault_balance - paid) as u128) < p.total_weight);
}

#[test]
fn finalize_takes_fee_once() {
    let cfg = config(250);
    let mut p = pool(&cfg, "btc");
    p.vault_balance = 10_000;
    assert_eq!(finalize_weights(&cfg, &mut p), Err(CustomError::SettlementTooEarly));
    resolve_pool(&cfg, &ADMIN, &mut p, 1, 100).unwrap();
    assert_eq!(finalize_weights(&cfg, &mut p), Ok(250));
    assert_eq!(p.vault_balance, 9750);
    assert!(p.weight_finalized);
    assert_eq!(finalize_weights(&cfg, &mut p), Err(CustomError::WeightsAlreadyFinalized));
}

#[test]
fn finalize_fee_on_largest_pot_does_not_overflow() {
    let cfg = config(10_000);
    let mut p = pool(&cfg, "btc");
    p.vault_balance = u64::MAX;
    resolve_pool(&cfg, &ADMIN, &mut p, 1, 100).unwrap();
    assert_eq!(finalize_weights(&cfg, &mut p), Ok(u64::MAX));
    assert_eq!(p.vault_balance, 0);
}

#[test]
fn finalize_with_fee_above_whole_fails() {
    let cfg = config(10_001);
    let mut p = pool(&cfg, "btc");
    p.vault_balance = 10_000;
    resolve_pool(&cfg, &ADMIN, &mut p, 1, 100).unwrap();
    assert_eq!(finalize_weights(&cfg, &mut p), Err(CustomError::MathOverflow));
    assert!(!p.weight_finalized);
}

#[test]
fn resolve_rules() {
    let cfg = config(0);
    let mut p = pool(&cfg, "btc");
    assert_eq!(resolve_pool(&cfg, &[0u8; 32], &mut p, 1, 100), Err(CustomError::Unauthorized));
    assert_eq!(resolve_pool(&cfg, &ADMIN, &mut p, 1, 99), Err(CustomError::DurationTooShort));
    assert_eq!(resolve_pool(&cfg, &ADMIN, &mut p, 1, 100), Ok(()));
    assert_eq!(p.resolution_target, 1);
    assert_eq!(p.resolution_ts, 100);
    assert!(p.is_resolved);
    assert_eq!(resolve_pool(&cfg, &ADMIN, &mut p, 2, 120), Err(CustomError::AlreadySettled));
    assert_eq!(p.resolution_target, 1);
}

#[test]
fn create_pool_rules() {
    let cfg = config(0);
    let mk = |caller: [u8; 32], mint: [u8; 32], start: i64, end: i64| {
        create_pool(&cfg, caller, "p".to_string(), Some("m".to_string()), mint, start, end, 50, 10, 0, 1)
    };
    assert_eq!(mk([0u8; 32], MINT, 0, 10), Err(CustomError::Unauthorized));
    assert_eq!(mk(ADMIN, MINT, 10, 10), Err(CustomError::DurationTooShort));
    assert_eq!(mk(ADMIN, [8u8; 32], 0, 10), Err(CustomError::AssetNotWhitelisted));
    let p = mk(ADMIN, MINT, 0, 10).unwrap();
    assert_eq!(p.vault_balance, 50);
    assert_eq!(p.metadata, Some("m".to_string()));
    assert!(!p.is_resolved);
    assert_eq!(p.total_weight, 0);
}

#[test]
fn batch_weighs_eligible_bets_and_skips_others() {
    let cfg = config(0);
    let mut p = pool(&cfg, "btc");
    let mut other = pool(&cfg, "eth");
    let a = revealed_bet(&cfg, &mut p, 1000, 500, 0);
    let c = compute_commitment(500, &SALT);
    let hidden = place_bet(&cfg, &mut p, [3u8; 32], 10, c, 0, 0).unwrap();
    let foreign = revealed_bet(&cfg, &mut other, 1000, 500, 0);
    let b = revealed_bet(&cfg, &mut p, 1000, 505, 50);
    resolve_pool(&cfg, &ADMIN, &mut p, 500, 100).unwrap();
    let mut bets = records(vec![a, hidden, foreign, b]);
    assert_eq!(batch_calculate_weights(&cfg, &mut p, &mut bets), Ok(()));
    assert_eq!(bets[0].bet.calculated_weight, 3000);
    assert_eq!(bets[0].bet.status, BetStatus::Calculated);
    assert_eq!(bets[1].bet.status, BetStatus::Active);
    assert!(!bets[1].bet.is_weight_added);
    assert_eq!(bets[2].bet.status, BetStatus::Active);
    assert_eq!(bets[3].bet.calculated_weight, 1125);
    assert_eq!(p.total_weight, 4125);
    // a second pass over the same bets changes nothing
    assert_eq!(batch_calculate_weights(&cfg, &mut p, &mut bets), Ok(()));
    assert_eq!(p.total_weight, 4125);
}

#[test]
fn batch_weighs_a_repeated_bet_once() {
    let cfg = config(0);
    let mut p = pool(&cfg, "btc");
    let a = revealed_bet(&cfg, &mut p, 1000, 500, 0);
    let b = revealed_bet(&cfg, &mut p, 1000, 505, 50);
    resolve_pool(&cfg, &ADMIN, &mut p, 500, 100).unwrap();
    let mut bets = vec![
        BetRecord { address: [1u8; 32], bet: a.clone() },
        BetRecord { address: [2u8; 32], bet: b },
        BetRecord { address: [1u8; 32], bet: a.clone() },
        BetRecord { address: [1u8; 32], bet: a },
    ];
    assert_eq!(batch_calculate_weights(&cfg, &mut p, &mut bets), Ok(()));
    assert_eq!(p.total_weight, 3000 + 1125);
    assert_eq!(bets[0].bet.calculated_weight, 3000);
    assert_eq!(bets[2].bet, bets[0].bet);
    assert_eq!(bets[3].bet, bets[0].bet);
    assert_eq!(bets[2].address, [1u8; 32]);
    // a later pass over overlapping records adds nothing
    let mut again = vec![bets[2].clone(), bets[1].clone(), bets[0].clone()];
    assert_eq!(batch_calculate_weights(&cfg, &mut p, &mut again), Ok(()));
    assert_eq!(p.total_weight, 3000 + 1125);
}

#[test]
fn refunds_refused_once_weights_are_finalized() {
    let cfg = config(0);
    let mut p = pool(&cfg, "btc");
    let c = compute_commitment(500, &SALT);
    let mut hidden = place_bet(&cfg, &mut p, [3u8; 32], 100, c, 0, 0).unwrap();
    let mut shown = revealed_bet(&cfg, &mut p, 100, 500, 0);
    resolve_pool(&cfg, &ADMIN, &mut p, 500, 100).unwrap();
    finalize_weights(&cfg, &mut p).unwrap();
    assert_eq!(refund_bet(&mut p, &mut hidden, 500), Err(CustomError::WeightsAlreadyFinalized));
    assert_eq!(emergency_refund(&mut p, &mut shown, 500), Err(CustomError::WeightsAlreadyFinalized));
    assert_eq!(p.vault_balance, 200);
}

#[test]
fn batch_overflow_changes_nothing() {
    let cfg = config(0);
    let mut p = pool(&cfg, "btc");
    let a = revealed_bet(&cfg, &mut p, 1000, 500, 0);
    resolve_pool(&cfg, &ADMIN, &mut p, 500, 100).unwrap();
    p.total_weight = u128::MAX - 10;
    let mut bets = records(vec![a.clone()]);
    assert_eq!(batch_calculate_weights(&cfg, &mut p, &mut bets), Err(CustomError::MathOverflow));
    assert_eq!(p.total_weight, u128::MAX - 10);
    assert_eq!(bets[0].bet, a);
}

#[test]
fn batch_waits_after_resolution() {
    let mut cfg = config(0);
    cfg.batch_settle_wait_duration = 5;
    let mut p = pool(&cfg, "btc");
    let a = revealed_bet(&cfg, &mut p, 1000, 500, 0);
    let mut bets = records(vec![a]);
    assert_eq!(batch_calculate_outcome(&cfg, &mut p, &mut bets, 200), Err(CustomError::SettlementTooEarly));
    resolve_pool(&cfg, &ADMIN, &mut p, 500, 100).unwrap();
    assert_eq!(batch_calculate_outcome(&cfg, &mut p, &mut bets, 105), Err(CustomError::SettlementTooEarly));
    assert_eq!(batch_calculate_outcome(&cfg, &mut p, &mut bets, 106), Ok(()));
    assert_eq!(p.total_weight, 3000);
    finalize_weights(&cfg, &mut p).unwrap();
    assert_eq!(
        batch_calculate_outcome(&cfg, &mut p, &mut bets, 300),
        Err(CustomError::WeightsAlreadyFinalized)
    );
}

#[test]
fn config_updates_need_the_admin() {
    let mut cfg = config(250);
    assert_eq!(cfg.batch_settle_wait_duration, 60);
    assert!(!cfg.paused);
    assert_eq!(set_pause(&mut cfg, &[0u8; 32], true), Err(CustomError::Unauthorized));
    assert_eq!(set_pause(&mut cfg, &ADMIN, true), Ok(()));
    assert!(cfg.paused);
    assert_eq!(update_config(&mut cfg, &ADMIN, Some([2u8; 32]), None, None), Ok(()));
    assert_eq!(cfg.treasury_wallet, [2u8; 32]);
    assert_eq!(cfg.parimutuel_fee_bps, 250);
    assert_eq!(update_config(&mut cfg, &ADMIN, None, Some(100), Some(vec![])), Ok(()));
    assert_eq!(cfg.parimutuel_fee_bps, 100);
    assert!(cfg.allowed_assets.is_empty());
    assert_eq!(transfer_admin(&mut cfg, &[0u8; 32], [4u8; 32]), Err(CustomError::Unauthorized));
    assert_eq!(transfer_admin(&mut cfg, &ADMIN, [4u8; 32]), Ok(()));
    assert_eq!(cfg.admin, [4u8; 32]);
    assert_eq!(set_pause(&mut cfg, &ADMIN, false), Err(CustomError::Unauthorized));
}

#[test]
fn error_messages_are_distinct() {
    assert_eq!(CustomError::InvalidCommitment.message(), "The provided prediction does not match the commitment hash.");
    assert_ne!(CustomError::Paused.message(), CustomError::Unauthorized.message());
}
