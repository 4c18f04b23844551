//! Failure kinds of the staking operations and the validators.
use vstd::prelude::*;

verus! {

#[derive(Clone, Copy, Debug, PartialEq, Eq, Structural)]
pub enum StakingError {
    PoolPaused,
    InvalidAmount,
    BelowMinimumStake,
    TooManyStakes,
    InvalidStakeIndex,
    StakeNotActive,
    StillLocked,
    LockExpired,
    NoRewardsToClaim,
    Unauthorized,
    SuspiciousActivity,
    RateLimitExceeded,
    RewardCalculationError,
    InvalidStakeAmount,
    InvalidLockPeriod,
    InvalidMultiplier,
    MultiplierMismatch,
    InconsistentTotalStaked,
    TooManyActiveStakes,
    TooManyShortTermStakes,
    PenaltyCalculationError,
    ExcessivePenalty,
    SuspiciousSybilPattern,
    StakeAmountTooSmall,
    /// A balance, timestamp or reward computation left the range of its type.
    ArithmeticOverflow,
}

impl StakingError {
    /// Human-readable description of the failure.
    pub fn message(&self) -> (r: &'static str) {
        match self {
            StakingError::PoolPaused => "Pool is currently paused",
            StakingError::InvalidAmount => "Invalid amount",
            StakingError::BelowMinimumStake => "Amount below minimum stake requirement",
            StakingError::TooManyStakes => "Too many concurrent stakes (max 10)",
            StakingError::InvalidStakeIndex => "Invalid stake index",
            StakingError::StakeNotActive => "Stake is not active",
            StakingError::StillLocked => "Tokens are still locked",
            StakingError::LockExpired => "Lock period has already expired",
            StakingError::NoRewardsToClaim => "No rewards to claim",
            StakingError::Unauthorized => "Unauthorized",
            StakingError::SuspiciousActivity => "Suspicious activity detected",
            StakingError::RateLimitExceeded => "Rate limit exceeded - too many operations",
            StakingError::RewardCalculationError => "Reward calculation error",
            StakingError::InvalidStakeAmount => "Invalid stake amount",
            StakingError::InvalidLockPeriod => "Invalid lock period",
            StakingError::InvalidMultiplier => "Invalid multiplier",
            StakingError::MultiplierMismatch => "Multiplier does not match lock period",
            StakingError::InconsistentTotalStaked => "Inconsistent total staked amount",
            StakingError::TooManyActiveStakes => "Too many active stakes",
            StakingError::TooManyShortTermStakes => "Too many short-term stakes - use longer periods",
            StakingError::PenaltyCalculationError => "Penalty calculation error",
            StakingError::ExcessivePenalty => "Excessive penalty",
            StakingError::SuspiciousSybilPattern => "Suspicious Sybil attack pattern detected",
            StakingError::StakeAmountTooSmall => "Stake amount too small",
            StakingError::ArithmeticOverflow => "Arithmetic overflow",
        }
    }
}

/// Coarse failure kinds of the security checks.
#[derive(Clone, Copy, Debug, PartialEq, Eq, Structural)]
pub enum SecurityError {
    FlashLoanDetected,
    RateLimitExceeded,
    InvalidRewardCalculation,
}

pub open spec fn staking_error_of(err: SecurityError) -> StakingError {
    match err {
        SecurityError::FlashLoanDetected => StakingError::SuspiciousActivity,
        SecurityError::RateLimitExceeded => StakingError::RateLimitExceeded,
        SecurityError::InvalidRewardCalculation => StakingError::RewardCalculationError,
    }
}

impl From<SecurityError> for StakingError {
    fn from(err: SecurityError) -> (r: StakingError)
        ensures
            r == staking_error_of(err),
    {
        match err {
            SecurityError::FlashLoanDetected => StakingError::SuspiciousActivity,
            SecurityError::RateLimitExceeded => StakingError::RateLimitExceeded,
            SecurityError::InvalidRewardCalculation => StakingError::RewardCalculationError,
        }
    }
}

impl vstd::std_specs::convert::FromSpecImpl<SecurityError> for StakingError {
    open spec fn obeys_from_spec() -> bool {
        true
    }

    open spec fn from_spec(err: SecurityError) -> StakingError {
        staking_error_of(err)
    }
}

} // verus!
