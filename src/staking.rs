//! The staking operations. Each one checks everything it needs before it
//! changes the ledger: on error the pool and the account are left as they
//! were. On success it hands back the transfers the custody service must make
//! and the event to publish.
use vstd::prelude::*;
use crate::error::StakingError;
use crate::laws::{
    law_accrual_is_monotone, law_deactivation_keeps_entries_on_table, law_deactivation_keeps_total,
    law_stake_keeps_entries_on_table, law_stake_keeps_total,
};
use crate::ledger::{
    active_sum, deactivated, entries_match_table, get_lock_multiplier, new_stake_entry, AccountKey, LockPeriod, StakeEntry, StakingPool,
    UserAccount, MAX_STAKES,
};
use crate::penalty::{
    calculate_penalty_percent, penalty_breakdown_spec, penalty_percent_spec, split_penalty, PenaltyBreakdown,
};
use crate::rewards::{accrual_succeeds, accrued_last, accrued_pending, compute_accrual};
use crate::security::{
    consistency_result, first_entry_error, flash_loan_result, lock_gaming_result, rate_limit_result, sybil_result,
    OperationType, SecurityValidator,
};

verus! {

/// A token account that a transfer moves tokens out of or into.
#[derive(Clone, Copy, Debug, PartialEq, Eq, Structural)]
pub enum Custody {
    /// The user's account of the staking token.
    UserTokenAccount,
    /// The user's account of the reward token.
    UserRewardAccount,
    /// The pool's vault of staked tokens.
    StakingVault,
    /// The pool's vault of reward tokens.
    RewardVault,
    /// The treasury that receives its share of early-exit penalties.
    Treasury,
}

/// A transfer the custody service must make for an operation to commit.
#[derive(Clone, Copy, Debug, PartialEq, Eq, Structural)]
pub struct TransferRequest {
    pub from: Custody,
    pub to: Custody,
    pub amount: u64,
}

#[derive(Clone, Copy, Debug)]
pub struct StakeEvent {
    pub user: AccountKey,
    pub amount: u64,
    pub lock_period: LockPeriod,
    pub lock_end: i64,
    pub multiplier: u64,
}

#[derive(Clone, Copy, Debug)]
pub struct UnstakeEvent {
    pub user: AccountKey,
    pub amount: u64,
    pub penalty: u64,
}

#[derive(Clone, Copy, Debug)]
pub struct ClaimRewardsEvent {
    pub user: AccountKey,
    pub amount: u64,
}

/// What a successful stake asks of the outside world.
#[derive(Clone, Copy, Debug)]
pub struct StakeReceipt {
    pub transfer: TransferRequest,
    pub event: StakeEvent,
}

/// What a successful unstake asks of the outside world.
#[derive(Clone, Copy, Debug)]
pub struct UnstakeReceipt {
    pub transfer: TransferRequest,
    pub event: UnstakeEvent,
}

/// What a successful emergency unstake asks of the outside world.
#[derive(Clone, Debug)]
pub struct EmergencyUnstakeReceipt {
    /// The returned amount to the user, then the treasury share where it is
    /// positive.
    pub transfers: Vec<TransferRequest>,
    pub penalty: PenaltyBreakdown,
    pub event: UnstakeEvent,
}

/// What a successful claim asks of the outside world.
#[derive(Clone, Copy, Debug)]
pub struct ClaimReceipt {
    pub transfer: TransferRequest,
    pub event: ClaimRewardsEvent,
}

/// A fresh pool: nothing staked, not paused.
pub fn initialize_pool(
    authority: AccountKey,
    staking_mint: AccountKey,
    reward_mint: AccountKey,
    staking_vault: AccountKey,
    reward_vault: AccountKey,
    bump: u8,
    reward_rate: u64,
) -> (r: StakingPool)
    ensures
        r == (StakingPool {
            authority,
            staking_mint,
            reward_mint,
            staking_vault,
            reward_vault,
            total_staked: 0,
            reward_rate,
            bump,
            paused: false,
        }),
{
    StakingPool {
        authority,
        staking_mint,
        reward_mint,
        staking_vault,
        reward_vault,
        total_staked: 0,
        reward_rate,
        bump,
        paused: false,
    }
}

/// A fresh account for `authority` with no stakes and its checkpoint at
/// `current_time`.
pub fn initialize_user(authority: AccountKey, bump: u8, current_time: i64) -> (r: UserAccount)
    ensures
        r.authority == authority,
        r.total_staked == 0,
        r.pending_rewards == 0,
        r.last_reward_time == current_time,
        r.stakes@ == Seq::<StakeEntry>::empty(),
        r.bump == bump,
{
    UserAccount {
        authority,
        total_staked: 0,
        pending_rewards: 0,
        last_reward_time: current_time,
        stakes: Vec::new(),
        bump,
    }
}

/// Sets the pause flag; only the pool's authority may.
pub fn set_paused(pool: &mut StakingPool, caller: &AccountKey, paused: bool) -> (r: Result<(), StakingError>)
    ensures
        r is Ok <==> caller.bytes@ == old(pool).authority.bytes@,
        r is Ok ==> *final(pool) == (StakingPool { paused, ..*old(pool) }),
        r is Err ==> r == Err::<(), StakingError>(StakingError::Unauthorized) && *final(pool) == *old(pool),
{
    if !caller.same_as(&pool.authority) {
        return Err(StakingError::Unauthorized);
    }
    pool.paused = paused;
    Ok(())
}

/// The first check a stake fails, in the order they are made.
pub open spec fn stake_check(
    pool: StakingPool,
    user: UserAccount,
    amount: u64,
    lock_period: LockPeriod,
    now: i64,
) -> Result<(), StakingError> {
    let s = user.stakes@;
    if pool.paused {
        Err(StakingError::PoolPaused)
    } else if amount == 0 {
        Err(StakingError::InvalidAmount)
    } else if flash_loan_result(s, now) is Err {
        flash_loan_result(s, now)
    } else if rate_limit_result(s, now, OperationType::Stake) is Err {
        rate_limit_result(s, now, OperationType::Stake)
    } else if consistency_result(user) is Err {
        consistency_result(user)
    } else if lock_gaming_result(s, lock_period, now) is Err {
        lock_gaming_result(s, lock_period, now)
    } else if sybil_result(s, amount, now) is Err {
        sybil_result(s, amount, now)
    } else if amount < lock_period.min_stake_spec() {
        Err(StakingError::BelowMinimumStake)
    } else if !accrual_succeeds(user, pool.reward_rate, now) {
        Err(StakingError::ArithmeticOverflow)
    } else if now + lock_period.duration_spec() > i64::MAX {
        Err(StakingError::ArithmeticOverflow)
    } else if s.len() >= 10 {
        Err(StakingError::TooManyStakes)
    } else if user.total_staked + amount > u64::MAX || pool.total_staked + amount > u64::MAX {
        Err(StakingError::ArithmeticOverflow)
    } else {
        Ok(())
    }
}

/// Locks `amount` for `lock_period` from `current_time`: runs the flash-loan,
/// rate-limit, consistency, lock-gaming and Sybil checks, requires the
/// period's minimum, accrues rewards, appends the new entry and adds `amount`
/// to both totals.
pub fn stake(
    pool: &mut StakingPool,
    user_account: &mut UserAccount,
    amount: u64,
    lock_period: LockPeriod,
    current_time: i64,
) -> (r: Result<StakeReceipt, StakingError>)
    ensures
        match r {
            Err(e) => {
                &&& stake_check(*old(pool), *old(user_account), amount, lock_period, current_time) == Err::<
                    (),
                    StakingError,
                >(e)
                &&& *final(pool) == *old(pool)
                &&& *final(user_account) == *old(user_account)
            },
            Ok(receipt) => {
                let entry = new_stake_entry(amount, lock_period, current_time);
                &&& stake_check(*old(pool), *old(user_account), amount, lock_period, current_time) is Ok
                &&& entries_match_table(old(user_account).stakes@) ==> entries_match_table(
                    final(user_account).stakes@,
                )
                &&& old(user_account).total_staked == active_sum(old(user_account).stakes@)
                    ==> final(user_account).total_staked == active_sum(final(user_account).stakes@)
                &&& final(user_account).pending_rewards >= old(user_account).pending_rewards
                &&& final(user_account).last_reward_time >= old(user_account).last_reward_time
                &&& final(user_account).stakes@ == old(user_account).stakes@.push(entry)
                &&& entry.lock_end == current_time + lock_period.duration_spec()
                &&& final(user_account).total_staked == old(user_account).total_staked + amount
                &&& final(user_account).pending_rewards == accrued_pending(
                    *old(user_account),
                    old(pool).reward_rate,
                    current_time,
                )
                &&& final(user_account).last_reward_time == accrued_last(*old(user_account), current_time)
                &&& final(user_account).authority == old(user_account).authority
                &&& final(user_account).bump == old(user_account).bump
                &&& *final(pool) == (StakingPool {
                    total_staked: (old(pool).total_staked + amount) as u64,
                    ..*old(pool)
                })
                &&& receipt.transfer == (TransferRequest {
                    from: Custody::UserTokenAccount,
                    to: Custody::StakingVault,
                    amount,
                })
                &&& receipt.event.user == old(user_account).authority
                &&& receipt.event.amount == amount
                &&& receipt.event.lock_period == lock_period
                &&& receipt.event.lock_end == entry.lock_end
                &&& receipt.event.multiplier == entry.multiplier
            },
        },
{
    let ghost u0 = *user_account;
    if pool.paused {
        return Err(StakingError::PoolPaused);
    }
    if amount == 0 {
        return Err(StakingError::InvalidAmount);
    }
    SecurityValidator::validate_flash_loan_protection(user_account, current_time)?;
    SecurityValidator::validate_rate_limiting(user_account, current_time, OperationType::Stake)?;
    SecurityValidator::validate_account_consistency(user_account)?;
    SecurityValidator::validate_lock_period_gaming(user_account.stakes.as_slice(), lock_period, current_time)?;
    SecurityValidator::validate_sybil_protection(user_account, amount, current_time)?;
    if amount < lock_period.min_stake() {
        return Err(StakingError::BelowMinimumStake);
    }
    let accrues = current_time > user_account.last_reward_time;
    let pending: u64 = if accrues {
        compute_accrual(user_account, pool.reward_rate, current_time)?
    } else {
        user_account.pending_rewards
    };
    let lock_duration: i64 = lock_period.duration();
    if current_time > i64::MAX - lock_duration {
        return Err(StakingError::ArithmeticOverflow);
    }
    let stake_entry = StakeEntry {
        amount,
        lock_period,
        lock_start: current_time,
        lock_end: current_time + lock_duration,
        multiplier: get_lock_multiplier(lock_period),
        is_active: true,
    };
    if user_account.stakes.len() >= MAX_STAKES {
        return Err(StakingError::TooManyStakes);
    }
    if user_account.total_staked > u64::MAX - amount || pool.total_staked > u64::MAX - amount {
        return Err(StakingError::ArithmeticOverflow);
    }
    user_account.pending_rewards = pending;
    if accrues {
        user_account.last_reward_time = current_time;
    }
    proof {
        law_accrual_is_monotone(u0, pool.reward_rate, current_time);
        if entries_match_table(u0.stakes@) {
            law_stake_keeps_entries_on_table(u0.stakes@, amount, lock_period, current_time);
        }
        if u0.total_staked == active_sum(u0.stakes@) {
            law_stake_keeps_total(
                u0.total_staked as int,
                u0.stakes@,
                amount,
                lock_period,
                current_time,
            );
        }
    }
    user_account.stakes.push(stake_entry);
    user_account.total_staked = user_account.total_staked + amount;
    pool.total_staked = pool.total_staked + amount;
    Ok(StakeReceipt {
        transfer: TransferRequest { from: Custody::UserTokenAccount, to: Custody::StakingVault, amount },
        event: StakeEvent {
            user: user_account.authority,
            amount,
            lock_period,
            lock_end: stake_entry.lock_end,
            multiplier: stake_entry.multiplier,
        },
    })
}

/// In a sequence with no malformed active entry, each active entry ends
/// after it starts.
pub proof fn lemma_consistent_entry_has_positive_span(s: Seq<StakeEntry>, i: int)
    requires
        0 <= i < s.len(),
        first_entry_error(s) is None,
        s[i].is_active,
    ensures
        s[i].lock_start < s[i].lock_end,
    decreases s.len(),
{
    if i < s.len() - 1 {
        lemma_consistent_entry_has_positive_span(s.drop_last(), i);
    }
}

/// The first check an unstake of entry `index` fails, in the order they are made.
pub open spec fn unstake_check(pool: StakingPool, user: UserAccount, index: u8, now: i64) -> Result<
    (),
    StakingError,
> {
    let s = user.stakes@;
    if pool.paused {
        Err(StakingError::PoolPaused)
    } else if index >= s.len() {
        Err(StakingError::InvalidStakeIndex)
    } else if !s[index as int].is_active {
        Err(StakingError::StakeNotActive)
    } else if now < s[index as int].lock_end {
        Err(StakingError::StillLocked)
    } else if !accrual_succeeds(user, pool.reward_rate, now) {
        Err(StakingError::ArithmeticOverflow)
    } else if user.total_staked < s[index as int].amount || pool.total_staked < s[index as int].amount {
        Err(StakingError::ArithmeticOverflow)
    } else {
        Ok(())
    }
}

/// Ends the expired entry at `stake_index`: accrues rewards, marks the entry
/// inactive, takes its amount off both totals and returns it in full.
pub fn unstake(pool: &mut StakingPool, user_account: &mut UserAccount, stake_index: u8, current_time: i64) -> (r:
    Result<UnstakeReceipt, StakingError>)
    ensures
        match r {
            Err(e) => {
                &&& unstake_check(*old(pool), *old(user_account), stake_index, current_time) == Err::<
                    (),
                    StakingError,
                >(e)
                &&& *final(pool) == *old(pool)
                &&& *final(user_account) == *old(user_account)
            },
            Ok(receipt) => {
                let amount = old(user_account).stakes@[stake_index as int].amount;
                &&& unstake_check(*old(pool), *old(user_account), stake_index, current_time) is Ok
                &&& entries_match_table(old(user_account).stakes@) ==> entries_match_table(
                    final(user_account).stakes@,
                )
                &&& old(user_account).total_staked == active_sum(old(user_account).stakes@)
                    ==> final(user_account).total_staked == active_sum(final(user_account).stakes@)
                &&& final(user_account).pending_rewards >= old(user_account).pending_rewards
                &&& final(user_account).last_reward_time >= old(user_account).last_reward_time
                &&& final(user_account).stakes@ == deactivated(old(user_account).stakes@, stake_index as int)
                &&& final(user_account).total_staked == old(user_account).total_staked - amount
                &&& final(user_account).pending_rewards == accrued_pending(
                    *old(user_account),
                    old(pool).reward_rate,
                    current_time,
                )
                &&& final(user_account).last_reward_time == accrued_last(*old(user_account), current_time)
                &&& final(user_account).authority == old(user_account).authority
                &&& final(user_account).bump == old(user_account).bump
                &&& *final(pool) == (StakingPool {
                    total_staked: (old(pool).total_staked - amount) as u64,
                    ..*old(pool)
                })
                &&& receipt.transfer == (TransferRequest {
                    from: Custody::StakingVault,
                    to: Custody::UserTokenAccount,
                    amount,
                })
                &&& receipt.event.user == old(user_account).authority
                &&& receipt.event.amount == amount
                &&& receipt.event.penalty == 0
            },
        },
{
    let ghost u0 = *user_account;
    if pool.paused {
        return Err(StakingError::PoolPaused);
    }
    let index = stake_index as usize;
    if index >= user_account.stakes.len() {
        return Err(StakingError::InvalidStakeIndex);
    }
    let stake = user_account.stakes[index];
    if !stake.is_active {
        return Err(StakingError::StakeNotActive);
    }
    if current_time < stake.lock_end {
        return Err(StakingError::StillLocked);
    }
    let accrues = current_time > user_account.last_reward_time;
    let pending: u64 = if accrues {
        compute_accrual(user_account, pool.reward_rate, current_time)?
    } else {
        user_account.pending_rewards
    };
    let amount = stake.amount;
    if user_account.total_staked < amount || pool.total_staked < amount {
        return Err(StakingError::ArithmeticOverflow);
    }
    user_account.pending_rewards = pending;
    if accrues {
        user_account.last_reward_time = current_time;
    }
    proof {
        law_accrual_is_monotone(u0, pool.reward_rate, current_time);
        if entries_match_table(u0.stakes@) {
            law_deactivation_keeps_entries_on_table(u0.stakes@, index as int);
        }
        if u0.total_staked == active_sum(u0.stakes@) {
            law_deactivation_keeps_total(u0.total_staked as int, u0.stakes@, index as int);
        }
    }
    user_account.stakes.set(index, StakeEntry { is_active: false, ..stake });
    user_account.total_staked = user_account.total_staked - amount;
    pool.total_staked = pool.total_staked - amount;
    Ok(UnstakeReceipt {
        transfer: TransferRequest { from: Custody::StakingVault, to: Custody::UserTokenAccount, amount },
        event: UnstakeEvent { user: user_account.authority, amount, penalty: 0 },
    })
}

/// The first check an emergency unstake of entry `index` fails, in the order
/// they are made.
pub open spec fn emergency_unstake_check(pool: StakingPool, user: UserAccount, index: u8, now: i64) -> Result<
    (),
    StakingError,
> {
    let s = user.stakes@;
    if pool.paused {
        Err(StakingError::PoolPaused)
    } else if index >= s.len() {
        Err(StakingError::InvalidStakeIndex)
    } else if rate_limit_result(s, now, OperationType::EmergencyUnstake) is Err {
        rate_limit_result(s, now, OperationType::EmergencyUnstake)
    } else if consistency_result(user) is Err {
        consistency_result(user)
    } else if !s[index as int].is_active {
        Err(StakingError::StakeNotActive)
    } else if now >= s[index as int].lock_end {
        Err(StakingError::LockExpired)
    } else if !accrual_succeeds(user, pool.reward_rate, now) {
        Err(StakingError::ArithmeticOverflow)
    } else if penalty_percent_spec(
        s[index as int].lock_start as int,
        s[index as int].lock_end as int,
        now as int,
    ) > 33 {
        Err(StakingError::ExcessivePenalty)
    } else if user.total_staked < s[index as int].amount || pool.total_staked < s[index as int].amount {
        Err(StakingError::ArithmeticOverflow)
    } else {
        Ok(())
    }
}

/// Ends the still-locked entry at `stake_index` early: runs the rate-limit and
/// consistency checks, accrues rewards, charges the progressive penalty,
/// marks the entry inactive and takes its full amount off both totals. The
/// user gets the amount less the penalty; the treasury gets its share where
/// positive.
pub fn emergency_unstake(
    pool: &mut StakingPool,
    user_account: &mut UserAccount,
    stake_index: u8,
    current_time: i64,
) -> (r: Result<EmergencyUnstakeReceipt, StakingError>)
    ensures
        match r {
            Err(e) => {
                &&& emergency_unstake_check(*old(pool), *old(user_account), stake_index, current_time)
                    == Err::<(), StakingError>(e)
                &&& *final(pool) == *old(pool)
                &&& *final(user_account) == *old(user_account)
            },
            Ok(receipt) => {
                let entry = old(user_account).stakes@[stake_index as int];
                let percent = penalty_percent_spec(
                    entry.lock_start as int,
                    entry.lock_end as int,
                    current_time as int,
                );
                let penalty = penalty_breakdown_spec(entry.amount, percent as u64);
                &&& emergency_unstake_check(*old(pool), *old(user_account), stake_index, current_time) is Ok
                &&& entries_match_table(old(user_account).stakes@) ==> entries_match_table(
                    final(user_account).stakes@,
                )
                &&& old(user_account).total_staked == active_sum(old(user_account).stakes@)
                    ==> final(user_account).total_staked == active_sum(final(user_account).stakes@)
                &&& final(user_account).pending_rewards >= old(user_account).pending_rewards
                &&& final(user_account).last_reward_time >= old(user_account).last_reward_time
                &&& 0 <= percent <= 33
                &&& receipt.penalty == penalty
                &&& final(user_account).stakes@ == deactivated(old(user_account).stakes@, stake_index as int)
                &&& final(user_account).total_staked == old(user_account).total_staked - entry.amount
                &&& final(user_account).pending_rewards == accrued_pending(
                    *old(user_account),
                    old(pool).reward_rate,
                    current_time,
                )
                &&& final(user_account).last_reward_time == accrued_last(*old(user_account), current_time)
                &&& final(user_account).authority == old(user_account).authority
                &&& final(user_account).bump == old(user_account).bump
                &&& *final(pool) == (StakingPool {
                    total_staked: (old(pool).total_staked - entry.amount) as u64,
                    ..*old(pool)
                })
                &&& receipt.transfers@ == if penalty.treasury_amount > 0 {
                    seq![
                        TransferRequest {
                            from: Custody::StakingVault,
                            to: Custody::UserTokenAccount,
                            amount: penalty.return_amount,
                        },
                        TransferRequest {
                            from: Custody::StakingVault,
                            to: Custody::Treasury,
                            amount: penalty.treasury_amount,
                        },
                    ]
                } else {
                    seq![
                        TransferRequest {
                            from: Custody::StakingVault,
                            to: Custody::UserTokenAccount,
                            amount: penalty.return_amount,
                        },
                    ]
                }
                &&& receipt.event.user == old(user_account).authority
                &&& receipt.event.amount == penalty.return_amount
                &&& receipt.event.penalty == penalty.penalty_amount
            },
        },
{
    let ghost u0 = *user_account;
    if pool.paused {
        return Err(StakingError::PoolPaused);
    }
    let index = stake_index as usize;
    if index >= user_account.stakes.len() {
        return Err(StakingError::InvalidStakeIndex);
    }
    SecurityValidator::validate_rate_limiting(user_account, current_time, OperationType::EmergencyUnstake)?;
    SecurityValidator::validate_account_consistency(user_account)?;
    let stake = user_account.stakes[index];
    if !stake.is_active {
        return Err(StakingError::StakeNotActive);
    }
    if current_time >= stake.lock_end {
        return Err(StakingError::LockExpired);
    }
    let accrues = current_time > user_account.last_reward_time;
    let pending: u64 = if accrues {
        compute_accrual(user_account, pool.reward_rate, current_time)?
    } else {
        user_account.pending_rewards
    };
    proof {
        lemma_consistent_entry_has_positive_span(u0.stakes@, index as int);
    }
    let percent = calculate_penalty_percent(&stake, current_time);
    if percent > u64::MAX as u128 {
        return Err(StakingError::ExcessivePenalty);
    }
    let penalty_percent = percent as u64;
    SecurityValidator::validate_penalty_calculation(&stake, current_time, penalty_percent)?;
    let staked_amount = stake.amount;
    if user_account.total_staked < staked_amount || pool.total_staked < staked_amount {
        return Err(StakingError::ArithmeticOverflow);
    }
    let penalty = split_penalty(staked_amount, penalty_percent);
    let mut transfers: Vec<TransferRequest> = Vec::new();
    transfers.push(
        TransferRequest {
            from: Custody::StakingVault,
            to: Custody::UserTokenAccount,
            amount: penalty.return_amount,
        },
    );
    if penalty.treasury_amount > 0 {
        transfers.push(
            TransferRequest {
                from: Custody::StakingVault,
                to: Custody::Treasury,
                amount: penalty.treasury_amount,
            },
        );
    }
    user_account.pending_rewards = pending;
    if accrues {
        user_account.last_reward_time = current_time;
    }
    proof {
        law_accrual_is_monotone(u0, pool.reward_rate, current_time);
        if entries_match_table(u0.stakes@) {
            law_deactivation_keeps_entries_on_table(u0.stakes@, index as int);
        }
        if u0.total_staked == active_sum(u0.stakes@) {
            law_deactivation_keeps_total(u0.total_staked as int, u0.stakes@, index as int);
        }
    }
    user_account.stakes.set(index, StakeEntry { is_active: false, ..stake });
    user_account.total_staked = user_account.total_staked - staked_amount;
    pool.total_staked = pool.total_staked - staked_amount;
    Ok(EmergencyUnstakeReceipt {
        transfers,
        penalty,
        event: UnstakeEvent {
            user: user_account.authority,
            amount: penalty.return_amount,
            penalty: penalty.penalty_amount,
        },
    })
}

/// The first check a claim fails, in the order they are made.
pub open spec fn claim_check(pool: StakingPool, user: UserAccount, now: i64) -> Result<(), StakingError> {
    if pool.paused {
        Err(StakingError::PoolPaused)
    } else if !accrual_succeeds(user, pool.reward_rate, now) {
        Err(StakingError::ArithmeticOverflow)
    } else if accrued_pending(user, pool.reward_rate, now) == 0 {
        Err(StakingError::NoRewardsToClaim)
    } else {
        Ok(())
    }
}

/// Accrues rewards and pays out everything pending; fails where nothing is.
pub fn claim_rewards(pool: &StakingPool, user_account: &mut UserAccount, current_time: i64) -> (r: Result<
    ClaimReceipt,
    StakingError,
>)
    ensures
        match r {
            Err(e) => {
                &&& claim_check(*pool, *old(user_account), current_time) == Err::<(), StakingError>(e)
                &&& *final(user_account) == *old(user_account)
            },
            Ok(receipt) => {
                let amount = accrued_pending(*old(user_account), pool.reward_rate, current_time);
                &&& claim_check(*pool, *old(user_account), current_time) is Ok
                &&& final(user_account).last_reward_time >= old(user_account).last_reward_time
                &&& final(user_account).pending_rewards == 0
                &&& final(user_account).last_reward_time == accrued_last(*old(user_account), current_time)
                &&& final(user_account).stakes@ == old(user_account).stakes@
                &&& final(user_account).total_staked == old(user_account).total_staked
                &&& final(user_account).authority == old(user_account).authority
                &&& final(user_account).bump == old(user_account).bump
                &&& receipt.transfer == (TransferRequest {
                    from: Custody::RewardVault,
                    to: Custody::UserRewardAccount,
                    amount: amount as u64,
                })
                &&& receipt.event.user == old(user_account).authority
                &&& receipt.event.amount == amount
            },
        },
{
    let ghost u0 = *user_account;
    if pool.paused {
        return Err(StakingError::PoolPaused);
    }
    let accrues = current_time > user_account.last_reward_time;
    let reward_amount: u64 = if accrues {
        compute_accrual(user_account, pool.reward_rate, current_time)?
    } else {
        user_account.pending_rewards
    };
    proof {
        law_accrual_is_monotone(u0, pool.reward_rate, current_time);
    }
    if reward_amount == 0 {
        return Err(StakingError::NoRewardsToClaim);
    }
    user_account.pending_rewards = 0;
    if accrues {
        user_account.last_reward_time = current_time;
    }
    Ok(ClaimReceipt {
        transfer: TransferRequest {
            from: Custody::RewardVault,
            to: Custody::UserRewardAccount,
            amount: reward_amount,
        },
        event: ClaimRewardsEvent { user: user_account.authority, amount: reward_amount },
    })
}

} // verus!
