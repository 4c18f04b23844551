//! Anti-gaming validators: pure checks over a user's ledger snapshot and the
//! current time, each passing or failing with one specific error.
use vstd::prelude::*;
use crate::error::StakingError;
use crate::ledger::{
    active_count, count_where, is_active_entry, lemma_count_where_step, active_sum,
    lemma_active_sum_step, LockPeriod, StakeEntry, UserAccount, MAX_STAKES,
};
use crate::penalty::{penalty_percent_spec, MAX_PENALTY_PERCENT};
use crate::rewards::{entry_fits, entry_reward, window_reward};

verus! {

/// Length of the flash-loan, rate-limit and Sybil windows, in seconds.
pub const RECENT_WINDOW: i64 = 3600;

/// Shortest holding time of a recent stake that is not flagged as flash-loan use.
pub const MIN_HOLD_SECONDS: i64 = 600;

/// Length of the short-term churn window, in seconds.
pub const SHORT_TERM_WINDOW: i64 = 604800;

/// Stakes below this are too small to add to a run of recent stakes.
pub const MIN_MEANINGFUL_STAKE: u64 = 10_000_000;

/// The operation a rate limit is checked for.
#[derive(Clone, Copy, Debug, PartialEq, Eq, Structural)]
pub enum OperationType {
    Stake,
    EmergencyUnstake,
}

/// Namespace of the security checks.
pub struct SecurityValidator;

/// `e` was created within the hour before `now`.
pub open spec fn created_within_hour(e: StakeEntry, now: i64) -> bool {
    e.lock_start > now - 3600
}

/// How long an inactive entry was held: to its lock end if that has passed,
/// else up to `now`.
pub open spec fn held_duration(e: StakeEntry, now: i64) -> int {
    if e.lock_end <= now {
        e.lock_end - e.lock_start
    } else {
        now - e.lock_start
    }
}

pub open spec fn flash_loan_flagged(e: StakeEntry, now: i64) -> bool {
    !e.is_active && created_within_hour(e, now) && held_duration(e, now) < 600
}

pub open spec fn flash_loan_result(s: Seq<StakeEntry>, now: i64) -> Result<(), StakingError> {
    if exists|i: int| 0 <= i < s.len() && flash_loan_flagged(#[trigger] s[i], now) {
        Err(StakingError::SuspiciousActivity)
    } else {
        Ok(())
    }
}

/// Entries that count toward the hourly limit of `op`.
pub open spec fn counts_toward_limit(op: OperationType, now: i64) -> spec_fn(StakeEntry) -> bool {
    |e: StakeEntry|
        match op {
            OperationType::Stake => created_within_hour(e, now),
            OperationType::EmergencyUnstake => !e.is_active && created_within_hour(e, now) && now
                < e.lock_end,
        }
}

pub open spec fn rate_limit(op: OperationType) -> nat {
    match op {
        OperationType::Stake => 5,
        OperationType::EmergencyUnstake => 2,
    }
}

pub open spec fn rate_limit_result(s: Seq<StakeEntry>, now: i64, op: OperationType) -> Result<(), StakingError> {
    if count_where(s, counts_toward_limit(op, now)) < rate_limit(op) {
        Ok(())
    } else {
        Err(StakingError::RateLimitExceeded)
    }
}

/// What the consistency check finds wrong with one entry, if anything.
pub open spec fn entry_error(e: StakeEntry) -> Option<StakingError> {
    if !e.is_active {
        None
    } else if e.amount == 0 {
        Some(StakingError::InvalidStakeAmount)
    } else if e.lock_end <= e.lock_start {
        Some(StakingError::InvalidLockPeriod)
    } else if e.multiplier == 0 {
        Some(StakingError::InvalidMultiplier)
    } else if e.multiplier != e.lock_period.multiplier_spec() {
        Some(StakingError::MultiplierMismatch)
    } else {
        None
    }
}

/// The error of the first malformed active entry of `s`.
pub open spec fn first_entry_error(s: Seq<StakeEntry>) -> Option<StakingError>
    decreases s.len(),
{
    if s.len() == 0 {
        None
    } else {
        match first_entry_error(s.drop_last()) {
            Some(e) => Some(e),
            None => entry_error(s.last()),
        }
    }
}

pub open spec fn consistency_result(u: UserAccount) -> Result<(), StakingError> {
    match first_entry_error(u.stakes@) {
        Some(e) => Err(e),
        None => if u.total_staked != active_sum(u.stakes@) {
            Err(StakingError::InconsistentTotalStaked)
        } else if active_count(u.stakes@) > 10 {
            Err(StakingError::TooManyActiveStakes)
        } else {
            Ok(())
        },
    }
}

/// Active one-day or one-week entries created in the week before `now`.
pub open spec fn recent_short_term(now: i64) -> spec_fn(StakeEntry) -> bool {
    |e: StakeEntry| e.is_active && e.lock_period.is_short_term() && e.lock_start > now - 604800
}

pub open spec fn lock_gaming_result(s: Seq<StakeEntry>, new_lock_period: LockPeriod, now: i64) -> Result<
    (),
    StakingError,
> {
    let n = count_where(s, recent_short_term(now));
    if n >= 3 && new_lock_period is OneDay {
        Err(StakingError::TooManyShortTermStakes)
    } else if n >= 5 && new_lock_period is OneWeek {
        Err(StakingError::TooManyShortTermStakes)
    } else {
        Ok(())
    }
}

pub open spec fn penalty_check_result(stake: StakeEntry, now: i64, calculated: u64) -> Result<(), StakingError> {
    if now >= stake.lock_end {
        Err(StakingError::LockExpired)
    } else {
        let expected = penalty_percent_spec(stake.lock_start as int, stake.lock_end as int, now as int);
        if calculated - expected > 1 || expected - calculated > 1 {
            Err(StakingError::PenaltyCalculationError)
        } else if calculated > 33 {
            Err(StakingError::ExcessivePenalty)
        } else {
            Ok(())
        }
    }
}

pub open spec fn recent_within_hour(now: i64) -> spec_fn(StakeEntry) -> bool {
    |e: StakeEntry| created_within_hour(e, now)
}

/// `j` is the position of the first entry of `s` created within the hour.
pub open spec fn is_first_recent(s: Seq<StakeEntry>, j: int, now: i64) -> bool {
    &&& 0 <= j < s.len()
    &&& created_within_hour(s[j], now)
    &&& forall|k: int| 0 <= k < j ==> !created_within_hour(#[trigger] s[k], now)
}

/// `amount` differs from `first` by less than 1% of `first`.
pub open spec fn similar_amount(amount: u64, first: u64) -> bool {
    if amount > first {
        amount - first < first / 100
    } else {
        first - amount < first / 100
    }
}

/// Three or more entries created within the hour, all within 1% of the
/// first one's amount.
pub open spec fn sybil_pattern(s: Seq<StakeEntry>, now: i64) -> bool {
    &&& count_where(s, recent_within_hour(now)) >= 3
    &&& exists|j: int|
        is_first_recent(s, j, now) && forall|i: int|
            0 <= i < s.len() && created_within_hour(#[trigger] s[i], now) ==> similar_amount(
                s[i].amount,
                s[j].amount,
            )
}

pub open spec fn sybil_result(s: Seq<StakeEntry>, stake_amount: u64, now: i64) -> Result<(), StakingError> {
    if sybil_pattern(s, now) {
        Err(StakingError::SuspiciousSybilPattern)
    } else if stake_amount < 10_000_000 && count_where(s, recent_within_hour(now)) > 1 {
        Err(StakingError::StakeAmountTooSmall)
    } else {
        Ok(())
    }
}

/// What recomputing the reward of `stake` from its lock start to `now` yields.
pub open spec fn expected_rewards_result(stake: StakeEntry, rate: u64, now: i64) -> Result<u64, StakingError> {
    if entry_fits(stake, rate, stake.lock_start, now) && entry_reward(stake, rate, stake.lock_start, now)
        <= u64::MAX {
        Ok(entry_reward(stake, rate, stake.lock_start, now) as u64)
    } else {
        Err(StakingError::ArithmeticOverflow)
    }
}

pub open spec fn reward_check_result(stake: StakeEntry, calculated: u64, rate: u64, now: i64) -> Result<
    (),
    StakingError,
> {
    match expected_rewards_result(stake, rate, now) {
        Err(e) => Err(e),
        Ok(expected) => {
            let tolerance = if expected / 1000 >= 1 {
                expected / 1000
            } else {
                1
            };
            if calculated - expected <= tolerance && expected - calculated <= tolerance {
                Ok(())
            } else {
                Err(StakingError::RewardCalculationError)
            }
        },
    }
}

/// An error found in a prefix is the error of the whole sequence.
pub proof fn lemma_first_entry_error_prefix(s: Seq<StakeEntry>, k: int)
    requires
        0 <= k <= s.len(),
        first_entry_error(s.subrange(0, k)) is Some,
    ensures
        first_entry_error(s) == first_entry_error(s.subrange(0, k)),
    decreases s.len(),
{
    if k == s.len() {
        assert(s.subrange(0, k) =~= s);
    } else {
        assert(s.drop_last().subrange(0, k) =~= s.subrange(0, k));
        lemma_first_entry_error_prefix(s.drop_last(), k);
    }
}

impl SecurityValidator {
    /// Fails where an inactive entry created within the hour was held for
    /// under ten minutes.
    pub fn validate_flash_loan_protection(user_account: &UserAccount, current_time: i64) -> (r: Result<
        (),
        StakingError,
    >)
        ensures
            r == flash_loan_result(user_account.stakes@, current_time),
    {
        let ghost s = user_account.stakes@;
        let mut i: usize = 0;
        while i < user_account.stakes.len()
            invariant
                s == user_account.stakes@,
                i <= s.len(),
                forall|j: int| 0 <= j < i ==> !flash_loan_flagged(#[trigger] s[j], current_time),
            decreases s.len() - i,
        {
            let stake = user_account.stakes[i];
            if !stake.is_active && (stake.lock_start as i128) > (current_time as i128) - RECENT_WINDOW as i128 {
                let held: i128 = if stake.lock_end <= current_time {
                    (stake.lock_end as i128) - (stake.lock_start as i128)
                } else {
                    (current_time as i128) - (stake.lock_start as i128)
                };
                if held < MIN_HOLD_SECONDS as i128 {
                    assert(flash_loan_flagged(s[i as int], current_time));
                    return Err(StakingError::SuspiciousActivity);
                }
            }
            i = i + 1;
        }
        Ok(())
    }

    /// Fails where the entries counting toward `operation_type`'s hourly
    /// limit have reached it (5 stakes, 2 emergency exits).
    pub fn validate_rate_limiting(
        user_account: &UserAccount,
        current_time: i64,
        operation_type: OperationType,
    ) -> (r: Result<(), StakingError>)
        ensures
            r == rate_limit_result(user_account.stakes@, current_time, operation_type),
    {
        let ghost s = user_account.stakes@;
        let ghost p = counts_toward_limit(operation_type, current_time);
        let mut count: usize = 0;
        let mut i: usize = 0;
        while i < user_account.stakes.len()
            invariant
                s == user_account.stakes@,
                p == counts_toward_limit(operation_type, current_time),
                i <= s.len(),
                count == count_where(s.subrange(0, i as int), p),
                count <= i,
            decreases s.len() - i,
        {
            let stake = user_account.stakes[i];
            let recent = (stake.lock_start as i128) > (current_time as i128) - RECENT_WINDOW as i128;
            let counted = match operation_type {
                OperationType::Stake => recent,
                OperationType::EmergencyUnstake => !stake.is_active && recent && current_time
                    < stake.lock_end,
            };
            proof {
                lemma_count_where_step(s, i as int, p);
            }
            if counted {
                count = count + 1;
            }
            i = i + 1;
        }
        assert(s.subrange(0, s.len() as int) =~= s);
        let max_operations: usize = match operation_type {
            OperationType::Stake => 5,
            OperationType::EmergencyUnstake => 2,
        };
        if count < max_operations {
            Ok(())
        } else {
            Err(StakingError::RateLimitExceeded)
        }
    }

    /// Recomputes the reward of `stake` from its lock start to
    /// `calculation_time` and fails where `calculated_rewards` differs from it
    /// by more than 0.1% of it (at least 1).
    pub fn validate_reward_calculation(
        stake: &StakeEntry,
        calculated_rewards: u64,
        reward_rate: u64,
        calculation_time: i64,
    ) -> (r: Result<(), StakingError>)
        ensures
            r == reward_check_result(*stake, calculated_rewards, reward_rate, calculation_time),
    {
        let expected_rewards = match Self::calculate_expected_rewards(stake, reward_rate, calculation_time) {
            Err(e) => return Err(e),
            Ok(v) => v,
        };
        let variance_threshold: u64 = if expected_rewards / 1000 >= 1 {
            expected_rewards / 1000
        } else {
            1
        };
        let difference: u64 = if calculated_rewards > expected_rewards {
            calculated_rewards - expected_rewards
        } else {
            expected_rewards - calculated_rewards
        };
        if difference <= variance_threshold {
            Ok(())
        } else {
            Err(StakingError::RewardCalculationError)
        }
    }

    /// Reward of `stake` over its locked window up to `current_time`; zero
    /// for an inactive entry.
    pub fn calculate_expected_rewards(stake: &StakeEntry, reward_rate: u64, current_time: i64) -> (r:
        Result<u64, StakingError>)
        ensures
            r == expected_rewards_result(*stake, reward_rate, current_time),
    {
        if !stake.is_active {
            return Ok(0);
        }
        let effective_end_time: i64 = if current_time <= stake.lock_end {
            current_time
        } else {
            stake.lock_end
        };
        match window_reward(stake.amount, stake.multiplier, reward_rate, stake.lock_start, effective_end_time) {
            None => Err(StakingError::ArithmeticOverflow),
            Some(reward) => {
                if reward > u64::MAX as u128 {
                    Err(StakingError::ArithmeticOverflow)
                } else {
                    Ok(reward as u64)
                }
            },
        }
    }

    /// Checks each active entry (positive amount, lock end after lock start,
    /// multiplier equal to its period's), then that the stored total equals
    /// the sum of active amounts, then that at most ten entries are active.
    pub fn validate_account_consistency(user_account: &UserAccount) -> (r: Result<(), StakingError>)
        ensures
            r == consistency_result(*user_account),
    {
        let ghost s = user_account.stakes@;
        let mut calculated_total_staked: u128 = 0;
        let mut active_stakes: usize = 0;
        let mut i: usize = 0;
        while i < user_account.stakes.len()
            invariant
                s == user_account.stakes@,
                i <= s.len(),
                first_entry_error(s.subrange(0, i as int)) is None,
                calculated_total_staked == active_sum(s.subrange(0, i as int)),
                calculated_total_staked <= i * 0xffff_ffff_ffff_ffffint,
                active_stakes == active_count(s.subrange(0, i as int)),
                active_stakes <= i,
            decreases s.len() - i,
        {
            let stake = user_account.stakes[i];
            proof {
                lemma_active_sum_step(s, i as int);
                lemma_count_where_step(s, i as int, is_active_entry());
                assert(s.subrange(0, i + 1).drop_last() =~= s.subrange(0, i as int));
            }
            if stake.is_active {
                proof {
                    assert((i + 1) * 0xffff_ffff_ffff_ffffint <= 0xffff_ffff_ffff_ffffint
                        * 0xffff_ffff_ffff_ffffint) by (nonlinear_arith)
                        requires
                            i < 0xffff_ffff_ffff_ffffint,
                    ;
                }
                calculated_total_staked = calculated_total_staked + stake.amount as u128;
                active_stakes = active_stakes + 1;
                proof {
                    if entry_error(stake) is Some {
                        lemma_first_entry_error_prefix(s, i as int + 1);
                    }
                }
                if stake.amount == 0 {
                    return Err(StakingError::InvalidStakeAmount);
                }
                if stake.lock_end <= stake.lock_start {
                    return Err(StakingError::InvalidLockPeriod);
                }
                if stake.multiplier == 0 {
                    return Err(StakingError::InvalidMultiplier);
                }
                let expected_multiplier: u64 = match stake.lock_period {
                    LockPeriod::OneDay => 1000,
                    LockPeriod::OneWeek => 1250,
                    LockPeriod::ThreeMonths => 2000,
                    LockPeriod::SixMonths => 3000,
                };
                if stake.multiplier != expected_multiplier {
                    return Err(StakingError::MultiplierMismatch);
                }
            }
            proof {
                assert((i + 1) * 0xffff_ffff_ffff_ffffint == i * 0xffff_ffff_ffff_ffffint
                    + 0xffff_ffff_ffff_ffffint) by (nonlinear_arith);
            }
            i = i + 1;
        }
        assert(s.subrange(0, s.len() as int) =~= s);
        if user_account.total_staked as u128 != calculated_total_staked {
            return Err(StakingError::InconsistentTotalStaked);
        }
        if active_stakes > MAX_STAKES {
            return Err(StakingError::TooManyActiveStakes);
        }
        Ok(())
    }

    /// Fails a new one-day stake once three active short-term entries were
    /// created in the last week, and a new one-week stake once five were.
    pub fn validate_lock_period_gaming(
        existing_stakes: &[StakeEntry],
        new_lock_period: LockPeriod,
        current_time: i64,
    ) -> (r: Result<(), StakingError>)
        ensures
            r == lock_gaming_result(existing_stakes@, new_lock_period, current_time),
    {
        let ghost s = existing_stakes@;
        let ghost p = recent_short_term(current_time);
        let mut short_term_count: usize = 0;
        let mut i: usize = 0;
        while i < existing_stakes.len()
            invariant
                s == existing_stakes@,
                p == recent_short_term(current_time),
                i <= s.len(),
                short_term_count == count_where(s.subrange(0, i as int), p),
                short_term_count <= i,
            decreases s.len() - i,
        {
            let stake = existing_stakes[i];
            let short_term = match stake.lock_period {
                LockPeriod::OneDay => true,
                LockPeriod::OneWeek => true,
                _ => false,
            };
            proof {
                lemma_count_where_step(s, i as int, p);
            }
            if stake.is_active && short_term && (stake.lock_start as i128) > (current_time as i128)
                - SHORT_TERM_WINDOW as i128 {
                short_term_count = short_term_count + 1;
            }
            i = i + 1;
        }
        assert(s.subrange(0, s.len() as int) =~= s);
        if short_term_count >= 3 && new_lock_period == LockPeriod::OneDay {
            return Err(StakingError::TooManyShortTermStakes);
        }
        if short_term_count >= 5 && new_lock_period == LockPeriod::OneWeek {
            return Err(StakingError::TooManyShortTermStakes);
        }
        Ok(())
    }

    /// Recomputes the penalty percent of leaving `stake` at `current_time`
    /// and fails where `calculated_penalty_percent` is more than one point
    /// off it, or above 33.
    pub fn validate_penalty_calculation(
        stake: &StakeEntry,
        current_time: i64,
        calculated_penalty_percent: u64,
    ) -> (r: Result<(), StakingError>)
        requires
            stake.lock_start < stake.lock_end,
        ensures
            r == penalty_check_result(*stake, current_time, calculated_penalty_percent),
    {
        if current_time >= stake.lock_end {
            return Err(StakingError::LockExpired);
        }
        let total_duration: u128 = ((stake.lock_end as i128) - (stake.lock_start as i128)) as u128;
        let time_remaining: u128 = ((stake.lock_end as i128) - (current_time as i128)) as u128;
        let expected_penalty_percent: u128 = (time_remaining * 33) / total_duration;
        let calculated: u128 = calculated_penalty_percent as u128;
        let difference: u128 = if calculated > expected_penalty_percent {
            calculated - expected_penalty_percent
        } else {
            expected_penalty_percent - calculated
        };
        if difference > 1 {
            return Err(StakingError::PenaltyCalculationError);
        }
        if calculated_penalty_percent > MAX_PENALTY_PERCENT {
            return Err(StakingError::ExcessivePenalty);
        }
        Ok(())
    }

    /// Fails where three or more entries were created within the hour, all
    /// within 1% of the first one's amount; else fails a stake below the
    /// meaningful minimum when more than one entry was created within the hour.
    pub fn validate_sybil_protection(user_account: &UserAccount, stake_amount: u64, current_time: i64) -> (r:
        Result<(), StakingError>)
        ensures
            r == sybil_result(user_account.stakes@, stake_amount, current_time),
    {
        let ghost s = user_account.stakes@;
        let ghost p = recent_within_hour(current_time);
        let mut recent_count: usize = 0;
        let mut first: Option<usize> = None;
        let mut i: usize = 0;
        while i < user_account.stakes.len()
            invariant
                s == user_account.stakes@,
                p == recent_within_hour(current_time),
                i <= s.len(),
                recent_count == count_where(s.subrange(0, i as int), p),
                recent_count <= i,
                first is None ==> recent_count == 0,
                first is None ==> forall|k: int| 0 <= k < i ==> !created_within_hour(#[trigger] s[k], current_time),
                first is Some ==> first->0 < i && is_first_recent(s, first->0 as int, current_time),
            decreases s.len() - i,
        {
            proof {
                lemma_count_where_step(s, i as int, p);
            }
            if (user_account.stakes[i].lock_start as i128) > (current_time as i128) - RECENT_WINDOW as i128 {
                recent_count = recent_count + 1;
                if first.is_none() {
                    first = Some(i);
                }
            }
            i = i + 1;
        }
        assert(s.subrange(0, s.len() as int) =~= s);
        if recent_count >= 3 {
            let j: usize = match first {
                Some(j) => j,
                None => 0,
            };
            let first_amount: u64 = user_account.stakes[j].amount;
            let mut all_similar = true;
            let mut k: usize = 0;
            while k < user_account.stakes.len()
                invariant
                    s == user_account.stakes@,
                    k <= s.len(),
                    j < s.len(),
                    first_amount == s[j as int].amount,
                    all_similar == forall|m: int|
                        0 <= m < k && created_within_hour(#[trigger] s[m], current_time) ==> similar_amount(
                            s[m].amount,
                            first_amount,
                        ),
                decreases s.len() - k,
            {
                let stake = user_account.stakes[k];
                if (stake.lock_start as i128) > (current_time as i128) - RECENT_WINDOW as i128 {
                    let diff: u64 = if stake.amount > first_amount {
                        stake.amount - first_amount
                    } else {
                        first_amount - stake.amount
                    };
                    if !(diff < first_amount / 100) {
                        all_similar = false;
                    }
                }
                k = k + 1;
            }
            if all_similar {
                assert(sybil_pattern(s, current_time));
                return Err(StakingError::SuspiciousSybilPattern);
            }
            proof {
                assert forall|j2: int|
                    is_first_recent(s, j2, current_time) implies j2 == j as int by {
                    if j2 < j as int {
                        assert(!created_within_hour(s[j2], current_time));
                    } else if j2 > j as int {
                        assert(!created_within_hour(s[j as int], current_time));
                    }
                }
            }
        }
        if stake_amount < MIN_MEANINGFUL_STAKE && recent_count > 1 {
            return Err(StakingError::StakeAmountTooSmall);
        }
        Ok(())
    }
}

} // verus!
