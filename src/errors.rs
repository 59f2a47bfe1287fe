use vstd::prelude::*;

verus! {

/// Every way a transition can be refused.
#[derive(Debug, Clone, Copy, PartialEq, Eq, Structural)]
pub enum CustomError {
    Paused,
    Unauthorized,
    MathOverflow,
    InsufficientLiquidity,
    AlreadySettled,
    DurationTooShort,
    InvalidAsset,
    AssetNotWhitelisted,
    PoolMismatch,
    InvalidOraclePrice,
    SettlementTooEarly,
    TimeoutNotMet,
    NotCalculatedYet,
    InvalidCommitment,
    AlreadyRevealed,
    BetNotRevealed,
    CannotRefundRevealed,
    RevealWindowExpired,
    UndelegationTooEarly,
    WeightsAlreadyFinalized,
}

impl CustomError {
    /// The human-readable message of this error.
    pub fn message(&self) -> &'static str {
        match self {
            CustomError::Paused => "Global protocol is paused.",
            CustomError::Unauthorized => "Unauthorized admin action.",
            CustomError::MathOverflow => "Math operation overflow.",
            CustomError::InsufficientLiquidity => "Insufficient liquidity in pool.",
            CustomError::AlreadySettled => "Bet is already settled.",
            CustomError::DurationTooShort => "Bet duration is too short.",
            CustomError::InvalidAsset => "Invalid asset symbol.",
            CustomError::AssetNotWhitelisted => "Asset is not whitelisted.",
            CustomError::PoolMismatch => "Bet does not match the current pool/asset config",
            CustomError::InvalidOraclePrice => "Oracle price is non-positive.",
            CustomError::SettlementTooEarly => "Admin force-settlement is not yet allowed for this bet.",
            CustomError::TimeoutNotMet => "Emergency refund timeout has not been met.",
            CustomError::NotCalculatedYet => "Bet has not been calculated by the TEE yet.",
            CustomError::InvalidCommitment => "The provided prediction does not match the commitment hash.",
            CustomError::AlreadyRevealed => "Bet is already revealed.",
            CustomError::BetNotRevealed => "Bet is not yet revealed.",
            CustomError::CannotRefundRevealed => "You cannot refund a bet that has been revealed. Wait for settlement.",
            CustomError::RevealWindowExpired => "Reveal window has expired. Please request a refund.",
            CustomError::UndelegationTooEarly => "You must wait for the pool to end before undelegating to preserve privacy.",
            CustomError::WeightsAlreadyFinalized => "Pool weights are already finalized.",
        }
    }
}

} // verus!
