//! Reward accrual: whole-day rewards over each active entry's locked window
//! since the account's checkpoint.
use vstd::prelude::*;
use crate::error::StakingError;
use crate::ledger::{StakeEntry, StakingPool, UserAccount};

verus! {

/// Divisor of `amount * rate * days`: 1000 staked units times the 1e6 rate scale.
pub const REWARD_SCALE: u128 = 1_000_000_000;

/// Whole days in the window `[start, end]`, zero when it is empty or inverted.
pub open spec fn window_days(start: int, end: int) -> int {
    if end > start {
        (end - start) / 86400
    } else {
        0
    }
}

/// `floor(amount * rate * days / 1e9)`.
pub open spec fn base_reward(amount: u64, rate: u64, start: int, end: int) -> int {
    (amount * rate * window_days(start, end)) / 1_000_000_000
}

/// Reward for holding `amount` with `multiplier` over `[start, end]`.
pub open spec fn reward_for_window(amount: u64, multiplier: u64, rate: u64, start: int, end: int) -> int {
    (base_reward(amount, rate, start, end) * multiplier) / 1000
}

/// The intermediate products of `reward_for_window` fit in 128 bits.
pub open spec fn window_fits(amount: u64, multiplier: u64, rate: u64, start: int, end: int) -> bool {
    &&& amount * rate * window_days(start, end) <= u128::MAX
    &&& base_reward(amount, rate, start, end) * multiplier <= u128::MAX
}

pub open spec fn max_i(a: int, b: int) -> int {
    if a >= b { a } else { b }
}

pub open spec fn min_i(a: int, b: int) -> int {
    if a <= b { a } else { b }
}

/// Reward an entry earns between the checkpoint `last` and `now`: its window is
/// the intersection of `[last, now]` and `[lock_start, lock_end]`.
pub open spec fn entry_reward(e: StakeEntry, rate: u64, last: i64, now: i64) -> int {
    if e.is_active {
        reward_for_window(
            e.amount,
            e.multiplier,
            rate,
            max_i(e.lock_start as int, last as int),
            min_i(now as int, e.lock_end as int),
        )
    } else {
        0
    }
}

pub open spec fn entry_fits(e: StakeEntry, rate: u64, last: i64, now: i64) -> bool {
    e.is_active ==> window_fits(
        e.amount,
        e.multiplier,
        rate,
        max_i(e.lock_start as int, last as int),
        min_i(now as int, e.lock_end as int),
    )
}

/// Sum of `entry_reward` over `s`.
pub open spec fn rewards_sum(s: Seq<StakeEntry>, rate: u64, last: i64, now: i64) -> int
    decreases s.len(),
{
    if s.len() == 0 {
        0
    } else {
        rewards_sum(s.drop_last(), rate, last, now) + entry_reward(s.last(), rate, last, now)
    }
}

pub open spec fn all_entries_fit(s: Seq<StakeEntry>, rate: u64, last: i64, now: i64) -> bool {
    forall|i: int| 0 <= i < s.len() ==> entry_fits(#[trigger] s[i], rate, last, now)
}

/// Pending rewards of `u` once accrued up to `now`.
pub open spec fn accrued_pending(u: UserAccount, rate: u64, now: i64) -> int {
    if now > u.last_reward_time {
        u.pending_rewards + rewards_sum(u.stakes@, rate, u.last_reward_time, now)
    } else {
        u.pending_rewards as int
    }
}

/// Checkpoint of `u` once accrued up to `now`.
pub open spec fn accrued_last(u: UserAccount, now: i64) -> i64 {
    if now > u.last_reward_time {
        now
    } else {
        u.last_reward_time
    }
}

/// Accrual up to `now` stays within the range of the ledger's integers.
pub open spec fn accrual_succeeds(u: UserAccount, rate: u64, now: i64) -> bool {
    now <= u.last_reward_time || {
        &&& all_entries_fit(u.stakes@, rate, u.last_reward_time, now)
        &&& accrued_pending(u, rate, now) <= u64::MAX
    }
}

/// `u` after a successful accrual up to `now`.
pub open spec fn accrued(u: UserAccount, rate: u64, now: i64) -> UserAccount {
    UserAccount {
        pending_rewards: accrued_pending(u, rate, now) as u64,
        last_reward_time: accrued_last(u, now),
        ..u
    }
}

pub proof fn lemma_reward_for_window_nonneg(amount: u64, multiplier: u64, rate: u64, start: int, end: int)
    ensures
        reward_for_window(amount, multiplier, rate, start, end) >= 0,
        base_reward(amount, rate, start, end) >= 0,
{
    let d = window_days(start, end);
    assert(d >= 0);
    assert(amount * rate * d >= 0) by (nonlinear_arith)
        requires
            d >= 0,
    ;
    let b = base_reward(amount, rate, start, end);
    assert(b * multiplier >= 0) by (nonlinear_arith)
        requires
            b >= 0,
    ;
}

pub proof fn lemma_rewards_sum_step(s: Seq<StakeEntry>, i: int, rate: u64, last: i64, now: i64)
    requires
        0 <= i < s.len(),
    ensures
        rewards_sum(s.subrange(0, i + 1), rate, last, now) == rewards_sum(s.subrange(0, i), rate, last, now)
            + entry_reward(s[i], rate, last, now),
{
    assert(s.subrange(0, i + 1).drop_last() =~= s.subrange(0, i));
}

/// Rewards summed over a prefix never exceed those over the whole sequence.
pub proof fn lemma_rewards_sum_prefix(s: Seq<StakeEntry>, i: int, rate: u64, last: i64, now: i64)
    requires
        0 <= i <= s.len(),
    ensures
        0 <= rewards_sum(s.subrange(0, i), rate, last, now) <= rewards_sum(s, rate, last, now),
    decreases s.len(),
{
    if i == s.len() {
        assert(s.subrange(0, i) =~= s);
        lemma_rewards_sum_nonneg(s, rate, last, now);
    } else {
        let e = s.last();
        if e.is_active {
            lemma_reward_for_window_nonneg(
                e.amount,
                e.multiplier,
                rate,
                max_i(e.lock_start as int, last as int),
                min_i(now as int, e.lock_end as int),
            );
        }
        assert(s.drop_last().subrange(0, i) =~= s.subrange(0, i));
        lemma_rewards_sum_prefix(s.drop_last(), i, rate, last, now);
    }
}

pub proof fn lemma_rewards_sum_nonneg(s: Seq<StakeEntry>, rate: u64, last: i64, now: i64)
    ensures
        rewards_sum(s, rate, last, now) >= 0,
    decreases s.len(),
{
    if s.len() > 0 {
        let e = s.last();
        if e.is_active {
            lemma_reward_for_window_nonneg(
                e.amount,
                e.multiplier,
                rate,
                max_i(e.lock_start as int, last as int),
                min_i(now as int, e.lock_end as int),
            );
        }
        lemma_rewards_sum_nonneg(s.drop_last(), rate, last, now);
    }
}

/// Reward for `[start, end]`, or `None` where an intermediate product
/// overflows 128 bits.
pub fn window_reward(amount: u64, multiplier: u64, rate: u64, start: i64, end: i64) -> (r: Option<u128>)
    ensures
        r is Some <==> window_fits(amount, multiplier, rate, start as int, end as int),
        r is Some ==> r->0 == reward_for_window(amount, multiplier, rate, start as int, end as int),
{
    let days: u128 = if end > start {
        let span: u128 = ((end as i128) - (start as i128)) as u128;
        span / 86400
    } else {
        0
    };
    assert(days == window_days(start as int, end as int));
    proof {
        assert((amount as int) * (rate as int) <= 0xffff_ffff_ffff_ffffint * 0xffff_ffff_ffff_ffffint)
            by (nonlinear_arith)
            requires
                amount <= 0xffff_ffff_ffff_ffffint,
                rate <= 0xffff_ffff_ffff_ffffint,
        ;
    }
    let amount_rate: u128 = (amount as u128) * (rate as u128);
    match amount_rate.checked_mul(days) {
        None => None,
        Some(product) => {
            let base: u128 = product / REWARD_SCALE;
            match base.checked_mul(multiplier as u128) {
                None => None,
                Some(scaled) => Some(scaled / 1000),
            }
        },
    }
}

/// Pending rewards of `user_account` once accrued up to `current_time`, which
/// must lie past its checkpoint.
pub fn compute_accrual(user_account: &UserAccount, reward_rate: u64, current_time: i64) -> (r: Result<
    u64,
    StakingError,
>)
    requires
        current_time > user_account.last_reward_time,
    ensures
        r is Ok <==> accrual_succeeds(*user_account, reward_rate, current_time),
        r is Ok ==> r->Ok_0 == accrued_pending(*user_account, reward_rate, current_time),
        r is Err ==> r == Err::<u64, StakingError>(StakingError::ArithmeticOverflow),
{
    let ghost s = user_account.stakes@;
    let ghost last = user_account.last_reward_time;
    let pending: u64 = user_account.pending_rewards;
    let mut total: u128 = 0;
    let mut i: usize = 0;
    while i < user_account.stakes.len()
        invariant
            s == user_account.stakes@,
            last == user_account.last_reward_time,
            pending == user_account.pending_rewards,
            current_time > last,
            i <= s.len(),
            total == rewards_sum(s.subrange(0, i as int), reward_rate, last, current_time),
            pending + total <= u64::MAX,
            forall|j: int| 0 <= j < i ==> entry_fits(#[trigger] s[j], reward_rate, last, current_time),
        decreases s.len() - i,
    {
        let stake = user_account.stakes[i];
        proof {
            lemma_rewards_sum_step(s, i as int, reward_rate, last, current_time);
        }
        if stake.is_active {
            let start: i64 = if stake.lock_start >= user_account.last_reward_time {
                stake.lock_start
            } else {
                user_account.last_reward_time
            };
            let end: i64 = if current_time <= stake.lock_end {
                current_time
            } else {
                stake.lock_end
            };
            match window_reward(stake.amount, stake.multiplier, reward_rate, start, end) {
                None => {
                    assert(!entry_fits(s[i as int], reward_rate, last, current_time));
                    return Err(StakingError::ArithmeticOverflow);
                },
                Some(reward) => {
                    if reward > (u64::MAX - pending) as u128 - total {
                        proof {
                            lemma_rewards_sum_prefix(s, i as int + 1, reward_rate, last, current_time);
                        }
                        return Err(StakingError::ArithmeticOverflow);
                    }
                    total = total + reward;
                },
            }
        }
        i = i + 1;
    }
    assert(s.subrange(0, s.len() as int) =~= s);
    Ok(pending + total as u64)
}

/// Brings `pending_rewards` up to `current_time` and moves the checkpoint
/// there; no change where `current_time` is not past the checkpoint.
pub fn update_user_rewards(user_account: &mut UserAccount, pool: &StakingPool, current_time: i64) -> (r:
    Result<(), StakingError>)
    ensures
        r is Ok <==> accrual_succeeds(*old(user_account), pool.reward_rate, current_time),
        r is Ok ==> *final(user_account) == accrued(*old(user_account), pool.reward_rate, current_time),
        r is Err ==> r == Err::<(), StakingError>(StakingError::ArithmeticOverflow) && *final(user_account)
            == *old(user_account),
{
    if current_time <= user_account.last_reward_time {
        return Ok(());
    }
    let pending = compute_accrual(user_account, pool.reward_rate, current_time)?;
    user_account.pending_rewards = pending;
    user_account.last_reward_time = current_time;
    Ok(())
}

} // verus!
