//! Progressive early-exit penalty and its three-way split.
use vstd::prelude::*;
use crate::ledger::StakeEntry;

verus! {

/// Penalty, in percent, at the instant of staking; it decays linearly to zero
/// at the end of the lock.
pub const MAX_PENALTY_PERCENT: u64 = 33;

/// `floor((lock_end - now) * 33 / (lock_end - lock_start))`.
pub open spec fn penalty_percent_spec(lock_start: int, lock_end: int, now: int) -> int {
    ((lock_end - now) * 33) / (lock_end - lock_start)
}

/// The amounts an early exit of `amount` at `penalty_percent` yields.
#[derive(Clone, Copy, Debug, PartialEq, Eq, Structural)]
pub struct PenaltyBreakdown {
    pub penalty_percent: u64,
    pub penalty_amount: u64,
    pub return_amount: u64,
    /// 40% of the penalty, rounded down.
    pub burn_amount: u64,
    /// 40% of the penalty, rounded down.
    pub rewards_amount: u64,
    /// The rest of the penalty.
    pub treasury_amount: u64,
}

pub open spec fn penalty_breakdown_spec(amount: u64, percent: u64) -> PenaltyBreakdown {
    let penalty = (amount * percent) / 100;
    let burn = (penalty * 40) / 100;
    PenaltyBreakdown {
        penalty_percent: percent,
        penalty_amount: penalty as u64,
        return_amount: (amount - penalty) as u64,
        burn_amount: burn as u64,
        rewards_amount: burn as u64,
        treasury_amount: (penalty - 2 * burn) as u64,
    }
}

/// Penalty percent of leaving `stake` at `current_time`; above 33 only when
/// `current_time` lies before the lock started.
pub fn calculate_penalty_percent(stake: &StakeEntry, current_time: i64) -> (r: u128)
    requires
        stake.lock_start < stake.lock_end,
        current_time < stake.lock_end,
    ensures
        r == penalty_percent_spec(stake.lock_start as int, stake.lock_end as int, current_time as int),
{
    let total_duration: u128 = ((stake.lock_end as i128) - (stake.lock_start as i128)) as u128;
    let time_remaining: u128 = ((stake.lock_end as i128) - (current_time as i128)) as u128;
    (time_remaining * 33) / total_duration
}

/// Splits the penalty of an early exit: the penalty is `floor(amount *
/// percent / 100)`, burn and reward-pool shares are 40% of it each, rounded
/// down, and the treasury takes the remainder.
pub fn split_penalty(amount: u64, penalty_percent: u64) -> (r: PenaltyBreakdown)
    requires
        penalty_percent <= 100,
    ensures
        r == penalty_breakdown_spec(amount, penalty_percent),
        r.burn_amount + r.rewards_amount + r.treasury_amount == r.penalty_amount,
        r.return_amount + r.penalty_amount == amount,
        r.treasury_amount >= 0,
{
    proof {
        assert((amount as int) * (penalty_percent as int) <= (amount as int) * 100) by (nonlinear_arith)
            requires
                penalty_percent <= 100,
        ;
    }
    let penalty_amount: u64 = ((amount as u128) * (penalty_percent as u128) / 100) as u64;
    let burn_amount: u64 = ((penalty_amount as u128) * 40 / 100) as u64;
    let rewards_amount: u64 = burn_amount;
    let treasury_amount: u64 = penalty_amount - burn_amount - rewards_amount;
    PenaltyBreakdown {
        penalty_percent,
        penalty_amount,
        return_amount: amount - penalty_amount,
        burn_amount,
        rewards_amount,
        treasury_amount,
    }
}

} // verus!
