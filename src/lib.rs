//! A token-staking ledger with time-locked commitments, reward accrual,
//! progressive early-exit penalties and anti-gaming validators.
//!
//! Every operation takes the pool, the user's account and the current time,
//! and either fails with the first check it does not pass, leaving both
//! records unchanged, or applies its change and returns the token transfers
//! and the event that must accompany it.
pub mod error;
pub mod laws;
pub mod ledger;
pub mod penalty;
pub mod rewards;
pub mod security;
pub mod staking;

pub use error::{SecurityError, StakingError};
pub use ledger::{get_lock_multiplier, AccountKey, LockPeriod, StakeEntry, StakingPool, UserAccount};
pub use penalty::{calculate_penalty_percent, split_penalty, PenaltyBreakdown};
pub use rewards::{compute_accrual, update_user_rewards};
pub use security::{OperationType, SecurityValidator};
pub use staking::{
    claim_rewards, emergency_unstake, initialize_pool, initialize_user, set_paused, stake, unstake,
    ClaimReceipt, ClaimRewardsEvent, Custody, EmergencyUnstakeReceipt, StakeEvent, StakeReceipt,
    TransferRequest, UnstakeEvent, UnstakeReceipt,
};
