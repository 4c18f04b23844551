//! Properties of the ledger that hold across operations, stated over the
//! spec functions the operations' contracts use.
use vstd::prelude::*;
use crate::ledger::{
    active_count, active_sum, deactivated, entries_match_table, new_stake_entry,
    LockPeriod, StakeEntry, UserAccount,
};
use crate::rewards::{accrued_last, accrued_pending, lemma_rewards_sum_nonneg};
use crate::security::{consistency_result, entry_error, first_entry_error};

verus! {

/// Staking appends an entry whose span and multiplier are its period's, so
/// every active entry keeps matching the lock-period table.
pub proof fn law_stake_keeps_entries_on_table(s: Seq<StakeEntry>, amount: u64, lock_period: LockPeriod, now: i64)
    requires
        entries_match_table(s),
        now + lock_period.duration_spec() <= i64::MAX,
    ensures
        entries_match_table(s.push(new_stake_entry(amount, lock_period, now))),
{
    let t = s.push(new_stake_entry(amount, lock_period, now));
    assert forall|i: int| 0 <= i < t.len() && (#[trigger] t[i]).is_active implies {
        &&& t[i].lock_end - t[i].lock_start == t[i].lock_period.duration_spec()
        &&& t[i].multiplier == t[i].lock_period.multiplier_spec()
    } by {
        if i < s.len() {
            assert(t[i] == s[i]);
        }
    }
}

/// Marking an entry inactive keeps every active entry on the table.
pub proof fn law_deactivation_keeps_entries_on_table(s: Seq<StakeEntry>, i: int)
    requires
        entries_match_table(s),
        0 <= i < s.len(),
    ensures
        entries_match_table(deactivated(s, i)),
{
    let t = deactivated(s, i);
    assert forall|j: int| 0 <= j < t.len() && (#[trigger] t[j]).is_active implies {
        &&& t[j].lock_end - t[j].lock_start == t[j].lock_period.duration_spec()
        &&& t[j].multiplier == t[j].lock_period.multiplier_spec()
    } by {
        assert(t[j] == s[j]);
    }
}

proof fn lemma_active_sum_push(s: Seq<StakeEntry>, e: StakeEntry)
    ensures
        active_sum(s.push(e)) == active_sum(s) + if e.is_active {
            e.amount as int
        } else {
            0
        },
{
    assert(s.push(e).drop_last() =~= s);
}

proof fn lemma_active_sum_update(s: Seq<StakeEntry>, i: int, e: StakeEntry)
    requires
        0 <= i < s.len(),
    ensures
        active_sum(s.update(i, e)) == active_sum(s) - (if s[i].is_active {
            s[i].amount as int
        } else {
            0
        }) + (if e.is_active {
            e.amount as int
        } else {
            0
        }),
    decreases s.len(),
{
    let t = s.update(i, e);
    if i == s.len() - 1 {
        assert(t.drop_last() =~= s.drop_last());
    } else {
        assert(t.drop_last() =~= s.drop_last().update(i, e));
        lemma_active_sum_update(s.drop_last(), i, e);
    }
}

/// A stored total equal to the sum of active amounts stays equal to it after
/// a stake adds the new amount to both.
pub proof fn law_stake_keeps_total(total: int, s: Seq<StakeEntry>, amount: u64, lock_period: LockPeriod, now: i64)
    requires
        total == active_sum(s),
    ensures
        total + amount == active_sum(s.push(new_stake_entry(amount, lock_period, now))),
{
    lemma_active_sum_push(s, new_stake_entry(amount, lock_period, now));
}

/// A stored total equal to the sum of active amounts stays equal to it after
/// an unstake takes the entry's amount off both.
pub proof fn law_deactivation_keeps_total(total: int, s: Seq<StakeEntry>, i: int)
    requires
        total == active_sum(s),
        0 <= i < s.len(),
        s[i].is_active,
    ensures
        total - s[i].amount == active_sum(deactivated(s, i)),
{
    lemma_active_sum_update(s, i, StakeEntry { is_active: false, ..s[i] });
}

/// Every active entry has a positive amount, a lock end after its lock start
/// and its period's multiplier.
pub open spec fn entries_well_formed(s: Seq<StakeEntry>) -> bool {
    forall|i: int|
        0 <= i < s.len() && (#[trigger] s[i]).is_active ==> {
            &&& s[i].amount > 0
            &&& s[i].lock_end > s[i].lock_start
            &&& s[i].multiplier == s[i].lock_period.multiplier_spec()
        }
}

proof fn lemma_no_entry_error(s: Seq<StakeEntry>)
    requires
        entries_well_formed(s),
    ensures
        first_entry_error(s) is None,
    decreases s.len(),
{
    if s.len() > 0 {
        let t = s.drop_last();
        assert forall|i: int| 0 <= i < t.len() && (#[trigger] t[i]).is_active implies {
            &&& t[i].amount > 0
            &&& t[i].lock_end > t[i].lock_start
            &&& t[i].multiplier == t[i].lock_period.multiplier_spec()
        } by {
            assert(t[i] == s[i]);
        }
        lemma_no_entry_error(t);
        assert(entry_error(s[s.len() - 1]) is None);
    }
}

/// The consistency check accepts every account whose stored total is the sum
/// of its active amounts, whose active entries are well formed and which holds
/// at most ten active entries.
pub proof fn law_consistency_accepts(u: UserAccount)
    requires
        u.total_staked == active_sum(u.stakes@),
        entries_well_formed(u.stakes@),
        active_count(u.stakes@) <= 10,
    ensures
        consistency_result(u) is Ok,
{
    lemma_no_entry_error(u.stakes@);
}

/// The consistency check rejects every account whose stored total is not the
/// sum of its active amounts.
pub proof fn law_consistency_rejects_wrong_total(u: UserAccount)
    requires
        u.total_staked != active_sum(u.stakes@),
    ensures
        consistency_result(u) is Err,
{
}

/// Sum of the active amounts of all accounts.
pub open spec fn ledger_total(users: Seq<UserAccount>) -> int
    decreases users.len(),
{
    if users.len() == 0 {
        0
    } else {
        ledger_total(users.drop_last()) + active_sum(users.last().stakes@)
    }
}

/// When one account's active amounts change by `delta` and the pool total by
/// the same `delta`, a pool total equal to the sum over all accounts stays
/// equal to it.
pub proof fn law_pool_total_follows_accounts(
    pool_total: int,
    users: Seq<UserAccount>,
    k: int,
    updated: UserAccount,
    delta: int,
)
    requires
        pool_total == ledger_total(users),
        0 <= k < users.len(),
        active_sum(updated.stakes@) == active_sum(users[k].stakes@) + delta,
    ensures
        pool_total + delta == ledger_total(users.update(k, updated)),
    decreases users.len(),
{
    let t = users.update(k, updated);
    if k == users.len() - 1 {
        assert(t.drop_last() =~= users.drop_last());
    } else {
        assert(t.drop_last() =~= users.drop_last().update(k, updated));
        law_pool_total_follows_accounts(ledger_total(users.drop_last()), users.drop_last(), k, updated, delta);
    }
}

/// Accrual never lowers pending rewards and never moves the checkpoint back.
pub proof fn law_accrual_is_monotone(u: UserAccount, reward_rate: u64, now: i64)
    ensures
        accrued_pending(u, reward_rate, now) >= u.pending_rewards,
        accrued_last(u, now) >= u.last_reward_time,
{
    lemma_rewards_sum_nonneg(u.stakes@, reward_rate, u.last_reward_time, now);
}

} // verus!
