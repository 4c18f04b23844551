//! Durable records of the staking ledger: the pool aggregate, per-user
//! accounts, stake entries and the lock-period table.
use vstd::prelude::*;

verus! {

/// Most stake entries a user account can hold.
pub const MAX_STAKES: usize = 10;

/// A 32-byte account identity (owner, mint or vault address).
#[derive(Clone, Copy, Debug)]
pub struct AccountKey {
    pub bytes: [u8; 32],
}

impl AccountKey {
    pub fn new(bytes: [u8; 32]) -> (r: AccountKey)
        ensures
            r.bytes@ == bytes@,
    {
        AccountKey { bytes }
    }

    /// Byte-wise equality of two identities.
    pub fn same_as(&self, other: &AccountKey) -> (r: bool)
        ensures
            r == (self.bytes@ == other.bytes@),
    {
        let mut i: usize = 0;
        while i < 32
            invariant
                i <= 32,
                self.bytes@.len() == 32,
                other.bytes@.len() == 32,
                forall|j: int| 0 <= j < i ==> self.bytes@[j] == other.bytes@[j],
            decreases 32 - i,
        {
            if self.bytes[i] != other.bytes[i] {
                return false;
            }
            i = i + 1;
        }
        assert(self.bytes@ =~= other.bytes@);
        true
    }
}

/// The four commitment durations a stake can be locked for.
#[derive(Clone, Copy, Debug, PartialEq, Eq, Structural)]
pub enum LockPeriod {
    OneDay,
    OneWeek,
    ThreeMonths,
    SixMonths,
}

impl LockPeriod {
    pub open spec fn duration_spec(self) -> int {
        match self {
            LockPeriod::OneDay => 86400,
            LockPeriod::OneWeek => 604800,
            LockPeriod::ThreeMonths => 7776000,
            LockPeriod::SixMonths => 15552000,
        }
    }

    pub open spec fn multiplier_spec(self) -> int {
        match self {
            LockPeriod::OneDay => 1000,
            LockPeriod::OneWeek => 1250,
            LockPeriod::ThreeMonths => 2000,
            LockPeriod::SixMonths => 3000,
        }
    }

    pub open spec fn min_stake_spec(self) -> int {
        match self {
            LockPeriod::OneDay => 100_000_000,
            LockPeriod::OneWeek => 250_000_000,
            LockPeriod::ThreeMonths => 500_000_000,
            LockPeriod::SixMonths => 1_000_000_000,
        }
    }

    pub open spec fn is_short_term(self) -> bool {
        self is OneDay || self is OneWeek
    }

    /// Length of the lock in seconds.
    pub fn duration(self) -> (r: i64)
        ensures
            r == self.duration_spec(),
    {
        match self {
            LockPeriod::OneDay => 86400,
            LockPeriod::OneWeek => 604800,
            LockPeriod::ThreeMonths => 7776000,
            LockPeriod::SixMonths => 15552000,
        }
    }

    /// Smallest amount, in base units, that may be staked for this period.
    pub fn min_stake(self) -> (r: u64)
        ensures
            r == self.min_stake_spec(),
    {
        match self {
            LockPeriod::OneDay => 100_000_000,
            LockPeriod::OneWeek => 250_000_000,
            LockPeriod::ThreeMonths => 500_000_000,
            LockPeriod::SixMonths => 1_000_000_000,
        }
    }
}

/// Reward multiplier of a lock period, fixed-point with 1000 meaning 1.0x.
pub fn get_lock_multiplier(lock_period: LockPeriod) -> (r: u64)
    ensures
        r == lock_period.multiplier_spec(),
{
    match lock_period {
        LockPeriod::OneDay => 1000,
        LockPeriod::OneWeek => 1250,
        LockPeriod::ThreeMonths => 2000,
        LockPeriod::SixMonths => 3000,
    }
}

/// One locked deposit of a user.
#[derive(Clone, Copy, Debug, PartialEq, Eq, Structural)]
pub struct StakeEntry {
    pub amount: u64,
    pub lock_period: LockPeriod,
    pub lock_start: i64,
    pub lock_end: i64,
    /// Scaled by 1000 (1000 = 1.0x).
    pub multiplier: u64,
    pub is_active: bool,
}

/// The global staking pool.
#[derive(Clone, Copy, Debug)]
pub struct StakingPool {
    pub authority: AccountKey,
    pub staking_mint: AccountKey,
    pub reward_mint: AccountKey,
    pub staking_vault: AccountKey,
    pub reward_vault: AccountKey,
    pub total_staked: u64,
    /// Reward units per 1000 staked per day, scaled by 1e6.
    pub reward_rate: u64,
    pub bump: u8,
    pub paused: bool,
}

/// The staking record of one participant.
#[derive(Clone, Debug)]
pub struct UserAccount {
    pub authority: AccountKey,
    pub total_staked: u64,
    pub pending_rewards: u64,
    pub last_reward_time: i64,
    /// Entries in insertion order; an entry is addressed by its position and
    /// is never removed, only marked inactive.
    pub stakes: Vec<StakeEntry>,
    pub bump: u8,
}

/// Number of entries of `s` that satisfy `p`.
pub open spec fn count_where(s: Seq<StakeEntry>, p: spec_fn(StakeEntry) -> bool) -> nat
    decreases s.len(),
{
    if s.len() == 0 {
        0
    } else {
        count_where(s.drop_last(), p) + if p(s.last()) {
            1nat
        } else {
            0nat
        }
    }
}

/// Sum of the amounts of the active entries of `s`.
pub open spec fn active_sum(s: Seq<StakeEntry>) -> int
    decreases s.len(),
{
    if s.len() == 0 {
        0
    } else {
        active_sum(s.drop_last()) + if s.last().is_active {
            s.last().amount as int
        } else {
            0
        }
    }
}

pub open spec fn is_active_entry() -> spec_fn(StakeEntry) -> bool {
    |e: StakeEntry| e.is_active
}

/// Number of active entries of `s`.
pub open spec fn active_count(s: Seq<StakeEntry>) -> nat {
    count_where(s, is_active_entry())
}

/// Every active entry spans exactly its period's duration and carries its
/// period's multiplier.
pub open spec fn entries_match_table(s: Seq<StakeEntry>) -> bool {
    forall|i: int|
        0 <= i < s.len() && (#[trigger] s[i]).is_active ==> {
            &&& s[i].lock_end - s[i].lock_start == s[i].lock_period.duration_spec()
            &&& s[i].multiplier == s[i].lock_period.multiplier_spec()
        }
}

/// `s` with the entry at `i` marked inactive.
pub open spec fn deactivated(s: Seq<StakeEntry>, i: int) -> Seq<StakeEntry> {
    s.update(i, StakeEntry { is_active: false, ..s[i] })
}

/// The entry that staking `amount` for `period` at `now` creates.
pub open spec fn new_stake_entry(amount: u64, period: LockPeriod, now: i64) -> StakeEntry {
    StakeEntry {
        amount,
        lock_period: period,
        lock_start: now,
        lock_end: (now + period.duration_spec()) as i64,
        multiplier: period.multiplier_spec() as u64,
        is_active: true,
    }
}

pub proof fn lemma_count_where_step(s: Seq<StakeEntry>, i: int, p: spec_fn(StakeEntry) -> bool)
    requires
        0 <= i < s.len(),
    ensures
        count_where(s.subrange(0, i + 1), p) == count_where(s.subrange(0, i), p) + if p(s[i]) {
            1nat
        } else {
            0nat
        },
{
    assert(s.subrange(0, i + 1).drop_last() =~= s.subrange(0, i));
}

pub proof fn lemma_active_sum_step(s: Seq<StakeEntry>, i: int)
    requires
        0 <= i < s.len(),
    ensures
        active_sum(s.subrange(0, i + 1)) == active_sum(s.subrange(0, i)) + if s[i].is_active {
            s[i].amount as int
        } else {
            0
        },
{
    assert(s.subrange(0, i + 1).drop_last() =~= s.subrange(0, i));
}

} // verus!
