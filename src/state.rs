//! The records of the protocol: its configuration, each pool, and each bet.
use vstd::prelude::*;

verus! {

/// A 32-byte account identity.
pub type Pubkey = [u8; 32];

/// Protocol-wide settings, passed into every transition that needs them.
#[derive(Debug, Clone, PartialEq, Eq)]
pub struct GlobalConfig {
    /// The administrator who may pause, change fees and edit the whitelist.
    pub admin: Pubkey,
    /// The wallet that collects protocol fees.
    pub treasury_wallet: Pubkey,
    /// Fee taken from a pool's pot when its weights are finalized, in basis points.
    pub parimutuel_fee_bps: u64,
    /// The token mints that pools may be created for.
    pub allowed_assets: Vec<Pubkey>,
    /// Circuit breaker: no bet is placed while set.
    pub paused: bool,
    pub total_users: u64,
    /// Time after resolution before an administrator may weigh bets in bulk.
    pub batch_settle_wait_duration: i64,
    /// Share of a computed weight withheld on every weighing, in basis points.
    pub weight_penalty_bps: u64,
}

/// One prediction market window.
#[derive(Debug, Clone, PartialEq, Eq)]
pub struct Pool {
    pub admin: Pubkey,
    pub name: String,
    pub token_mint: Pubkey,
    /// Start of the open interval `[start_time, end_time)`.
    pub start_time: i64,
    pub end_time: i64,
    /// The pot: deposits less refunds, and after finalization less the fee.
    pub vault_balance: u64,
    /// Distance from the outcome at which accuracy falls to zero.
    pub max_accuracy_buffer: u64,
    pub conviction_bonus_bps: u64,
    pub metadata: Option<String>,
    /// The outcome, meaningful once `is_resolved`.
    pub resolution_target: u64,
    pub is_resolved: bool,
    pub resolution_ts: i64,
    /// Sum of the weights of every bet weighed in this pool.
    pub total_weight: u128,
    /// Set once the fee is taken; total weight and pot are then frozen.
    pub weight_finalized: bool,
    pub bump: u8,
}

/// Where a bet stands in its lifecycle.
#[derive(Debug, Clone, Copy, PartialEq, Eq, Structural)]
pub enum BetStatus {
    Active,
    Calculated,
    Settled,
}

/// One user's position in one pool.
#[derive(Debug, Clone, PartialEq, Eq)]
pub struct UserBet {
    pub owner: Pubkey,
    /// Name of the pool the bet belongs to.
    pub pool_identifier: String,
    pub deposit: u64,
    /// The pool's close time when the bet was placed.
    pub end_timestamp: i64,
    /// Entry time for the timing factor, reset on every update.
    pub creation_ts: i64,
    /// Number of times the prediction was revised.
    pub update_count: u32,
    pub calculated_weight: u128,
    /// Guard that the weight entered the pool's total exactly once.
    pub is_weight_added: bool,
    pub referrer: Option<Pubkey>,
    /// Digest binding the hidden prediction and a salt.
    pub commitment: [u8; 32],
    pub is_revealed: bool,
    /// The prediction, meaningful once `is_revealed`.
    pub prediction_target: u64,
    pub status: BetStatus,
    pub bump: u8,
}

/// Whether two 32-byte values (keys, digests) are equal.
pub fn bytes32_equal(a: &[u8; 32], b: &[u8; 32]) -> (r: bool)
    ensures
        r == (a@ == b@),
        r == (*a == *b),
{
    let mut i: usize = 0;
    while i < 32
        invariant
            i <= 32,
            a@.len() == 32,
            b@.len() == 32,
            forall|j: int| 0 <= j < i ==> a@[j] == b@[j],
        decreases 32 - i,
    {
        if a[i] != b[i] {
            return false;
        }
        i = i + 1;
    }
    assert(a@ =~= b@);
    assert(*a =~= *b);
    true
}

/// A bet together with the address of the account that holds it, as a bulk
/// pass receives it: two records at one address are two copies of one bet.
#[derive(Debug, Clone, PartialEq, Eq)]
pub struct BetRecord {
    pub address: Pubkey,
    pub bet: UserBet,
}

/// A copy of `bet`.
pub fn copy_bet(bet: &UserBet) -> (r: UserBet)
    ensures
        r == *bet,
{
    UserBet {
        owner: bet.owner,
        pool_identifier: bet.pool_identifier.clone(),
        deposit: bet.deposit,
        end_timestamp: bet.end_timestamp,
        creation_ts: bet.creation_ts,
        update_count: bet.update_count,
        calculated_weight: bet.calculated_weight,
        is_weight_added: bet.is_weight_added,
        referrer: bet.referrer,
        commitment: bet.commitment,
        is_revealed: bet.is_revealed,
        prediction_target: bet.prediction_target,
        status: bet.status,
        bump: bet.bump,
    }
}

impl Pool {
    /// Finalized weights imply a resolved pool.
    pub open spec fn wf(&self) -> bool {
        self.weight_finalized ==> self.is_resolved
    }
}

impl UserBet {
    /// A bet whose weight was added is no longer active.
    pub open spec fn wf(&self) -> bool {
        self.is_weight_added ==> self.status != BetStatus::Active
    }

    /// Whether the bet belongs to `pool`.
    pub open spec fn in_pool(&self, pool: Pool) -> bool {
        self.pool_identifier@ == pool.name@
    }
}

} // verus!
