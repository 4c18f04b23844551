use zk_poop_staking::{
    claim_rewards, emergency_unstake, initialize_pool, initialize_user, set_paused, stake, unstake,
    AccountKey, Custody, LockPeriod, StakingError, StakingPool, TransferRequest, UserAccount,
};

const DAY: i64 = 86400;

fn key(b: u8) -> AccountKey {
    AccountKey::new([b; 32])
}

fn pool(rate: u64) -> StakingPool {
    initialize_pool(key(1), key(2), key(3), key(4), key(5), 254, rate)
}

fn user(now: i64) -> UserAccount {
    initialize_user(key(9), 253, now)
}

fn min_of(p: LockPeriod) -> u64 {
    match p {
        LockPeriod::OneDay => 100_000_000,
        LockPeriod::OneWeek => 250_000_000,
        LockPeriod::ThreeMonths => 500_000_000,
        LockPeriod::SixMonths => 1_000_000_000,
    }
}

#[test]
fn stake_exactly_minimum_succeeds_for_every_period() {
    for p in [LockPeriod::OneDay, LockPeriod::OneWeek, LockPeriod::ThreeMonths, LockPeriod::SixMonths] {
        let mut pl = pool(1_000_000);
        let mut u = user(0);
        assert!(stake(&mut pl, &mut u, min_of(p), p, 0).is_ok());
        assert_eq!(u.total_staked, min_of(p));
        assert_eq!(pl.total_staked, min_of(p));
    }
}

#[test]
fn stake_one_below_minimum_fails() {
    for p in [LockPeriod::OneDay, LockPeriod::OneWeek, LockPeriod::ThreeMonths, LockPeriod::SixMonths] {
        let mut pl = pool(1_000_000);
        let mut u = user(0);
        let r = stake(&mut pl, &mut u, min_of(p) - 1, p, 0);
        assert_eq!(r.err(), Some(StakingError::BelowMinimumStake));
        assert_eq!(u.stakes.len(), 0);
        assert_eq!(pl.total_staked, 0);
    }
}

#[test]
fn stake_entry_matches_lock_table() {
    let cases = [
        (LockPeriod::OneDay, 86400, 1000),
        (LockPeriod::OneWeek, 604800, 1250),
        (LockPeriod::ThreeMonths, 7_776_000, 2000),
        (LockPeriod::SixMonths, 15_552_000, 3000),
    ];
    for (p, dur, mult) in cases {
        let mut pl = pool(0);
        let mut u = user(100);
        let receipt = stake(&mut pl, &mut u, 2_000_000_000, p, 1000).unwrap();
        let e = u.stakes[0];
        assert_eq!(e.lock_start, 1000);
        assert_eq!(e.lock_end - e.lock_start, dur);
        assert_eq!(e.multiplier, mult);
        assert!(e.is_active);
        assert_eq!(receipt.event.lock_end, 1000 + dur);
        assert_eq!(receipt.event.multiplier, mult);
        assert_eq!(
            receipt.transfer,
            TransferRequest { from: Custody::UserTokenAccount, to: Custody::StakingVault, amount: 2_000_000_000 }
        );
    }
}

#[test]
fn one_day_stake_accrues_one_day_of_rewards() {
    let mut pl = pool(1_000_000);
    let mut u = user(0);
    stake(&mut pl, &mut u, 100_000_000, LockPeriod::OneDay, 0).unwrap();
    let receipt = claim_rewards(&pl, &mut u, 86400).unwrap();
    assert_eq!(receipt.event.amount, 100_000);
    assert_eq!(
        receipt.transfer,
        TransferRequest { from: Custody::RewardVault, to: Custody::UserRewardAccount, amount: 100_000 }
    );
    assert_eq!(u.pending_rewards, 0);
    assert_eq!(u.last_reward_time, 86400);
}

#[test]
fn emergency_unstake_halfway_through_six_months() {
    let mut pl = pool(0);
    let mut u = user(0);
    stake(&mut pl, &mut u, 1_000_000_000, LockPeriod::SixMonths, 0).unwrap();
    let receipt = emergency_unstake(&mut pl, &mut u, 0, 7_776_000).unwrap();
    let p = receipt.penalty;
    assert_eq!(p.penalty_percent, 16);
    assert_eq!(p.penalty_amount, 160_000_000);
    assert_eq!(p.return_amount, 840_000_000);
    assert_eq!(p.burn_amount, 64_000_000);
    assert_eq!(p.rewards_amount, 64_000_000);
    assert_eq!(p.treasury_amount, 32_000_000);
    assert_eq!(p.burn_amount + p.rewards_amount + p.treasury_amount, p.penalty_amount);
    assert_eq!(
        receipt.transfers,
        vec![
            TransferRequest { from: Custody::StakingVault, to: Custody::UserTokenAccount, amount: 840_000_000 },
            TransferRequest { from: Custody::StakingVault, to: Custody::Treasury, amount: 32_000_000 },
        ]
    );
    assert_eq!(receipt.event.amount, 840_000_000);
    assert_eq!(receipt.event.penalty, 160_000_000);
    assert!(!u.stakes[0].is_active);
    assert_eq!(u.total_staked, 0);
    assert_eq!(pl.total_staked, 0);
}

#[test]
fn sixth_stake_within_hour_is_rate_limited() {
    let mut pl = pool(0);
    let mut u = user(0);
    for k in 0..5u64 {
        let amount = (k + 1) * 1_000_000_000;
        stake(&mut pl, &mut u, amount, LockPeriod::SixMonths, (k as i64) * 60).unwrap();
    }
    let r = stake(&mut pl, &mut u, 6_000_000_000, LockPeriod::SixMonths, 300);
    assert_eq!(r.err(), Some(StakingError::RateLimitExceeded));
    assert_eq!(u.stakes.len(), 5);
    assert_eq!(u.total_staked, 15_000_000_000);
}

#[test]
fn second_unstake_of_same_entry_fails() {
    let mut pl = pool(0);
    let mut u = user(0);
    stake(&mut pl, &mut u, 100_000_000, LockPeriod::OneDay, 0).unwrap();
    let receipt = unstake(&mut pl, &mut u, 0, DAY).unwrap();
    assert_eq!(receipt.event.amount, 100_000_000);
    assert_eq!(receipt.event.penalty, 0);
    assert_eq!(
        receipt.transfer,
        TransferRequest { from: Custody::StakingVault, to: Custody::UserTokenAccount, amount: 100_000_000 }
    );
    assert!(!u.stakes[0].is_active);
    let r = unstake(&mut pl, &mut u, 0, DAY + 10);
    assert_eq!(r.err(), Some(StakingError::StakeNotActive));
}

#[test]
fn totals_track_active_entries_across_operations() {
    let mut pl = pool(1_000_000);
    let mut u = user(0);
    stake(&mut pl, &mut u, 100_000_000, LockPeriod::OneDay, 0).unwrap();
    stake(&mut pl, &mut u, 2_000_000_000, LockPeriod::SixMonths, 4000).unwrap();
    stake(&mut pl, &mut u, 500_000_000, LockPeriod::ThreeMonths, 8000).unwrap();
    unstake(&mut pl, &mut u, 0, DAY).unwrap();
    emergency_unstake(&mut pl, &mut u, 2, DAY + 100).unwrap();
    let sum: u64 = u.stakes.iter().filter(|e| e.is_active).map(|e| e.amount).sum();
    assert_eq!(u.total_staked, sum);
    assert_eq!(pl.total_staked, 2_000_000_000);
    assert_eq!(u.stakes.len(), 3);
}

#[test]
fn checkpoint_and_pending_rewards_are_monotone() {
    let mut pl = pool(1_000_000);
    let mut u = user(0);
    stake(&mut pl, &mut u, 1_000_000_000, LockPeriod::SixMonths, 0).unwrap();
    let mut last = u.last_reward_time;
    let mut pending = u.pending_rewards;
    stake(&mut pl, &mut u, 2_000_000_000, LockPeriod::SixMonths, 3 * DAY).unwrap();
    assert!(u.last_reward_time >= last && u.pending_rewards >= pending);
    assert_eq!(u.pending_rewards, 9_000_000);
    last = u.last_reward_time;
    pending = u.pending_rewards;
    emergency_unstake(&mut pl, &mut u, 1, 5 * DAY).unwrap();
    assert!(u.last_reward_time >= last && u.pending_rewards >= pending);
    let r = claim_rewards(&pl, &mut u, 5 * DAY).unwrap();
    assert_eq!(r.event.amount, 9_000_000 + 6_000_000 + 12_000_000);
    assert_eq!(u.pending_rewards, 0);
    assert_eq!(u.last_reward_time, 5 * DAY);
}

#[test]
fn sub_day_windows_earn_nothing_but_advance_checkpoint() {
    let mut pl = pool(1_000_000);
    let mut u = user(0);
    stake(&mut pl, &mut u, 1_000_000_000, LockPeriod::SixMonths, 0).unwrap();
    let r = claim_rewards(&pl, &mut u, DAY - 1);
    assert_eq!(r.err(), Some(StakingError::NoRewardsToClaim));
    assert_eq!(u.last_reward_time, 0);
    assert_eq!(u.pending_rewards, 0);
}

#[test]
fn paused_pool_rejects_operations() {
    let mut pl = pool(0);
    let mut u = user(0);
    stake(&mut pl, &mut u, 100_000_000, LockPeriod::OneDay, 0).unwrap();
    set_paused(&mut pl, &key(1), true).unwrap();
    assert!(pl.paused);
    assert_eq!(stake(&mut pl, &mut u, 100_000_000, LockPeriod::OneDay, 10).err(), Some(StakingError::PoolPaused));
    assert_eq!(unstake(&mut pl, &mut u, 0, DAY).err(), Some(StakingError::PoolPaused));
    assert_eq!(emergency_unstake(&mut pl, &mut u, 0, 10).err(), Some(StakingError::PoolPaused));
    assert_eq!(claim_rewards(&pl, &mut u, DAY).err(), Some(StakingError::PoolPaused));
    set_paused(&mut pl, &key(1), false).unwrap();
    assert!(!pl.paused);
}

#[test]
fn set_paused_requires_authority() {
    let mut pl = pool(0);
    assert_eq!(set_paused(&mut pl, &key(7), true), Err(StakingError::Unauthorized));
    assert!(!pl.paused);
}

#[test]
fn zero_amount_is_invalid() {
    let mut pl = pool(0);
    let mut u = user(0);
    assert_eq!(stake(&mut pl, &mut u, 0, LockPeriod::OneDay, 0).err(), Some(StakingError::InvalidAmount));
}

#[test]
fn eleventh_stake_is_too_many() {
    let mut pl = pool(0);
    let mut u = user(0);
    for k in 0..10i64 {
        stake(&mut pl, &mut u, 1_000_000_000, LockPeriod::SixMonths, k * 4000).unwrap();
    }
    let r = stake(&mut pl, &mut u, 1_000_000_000, LockPeriod::SixMonths, 40_000);
    assert_eq!(r.err(), Some(StakingError::TooManyStakes));
    assert_eq!(u.stakes.len(), 10);
    assert_eq!(pl.total_staked, 10_000_000_000);
}

#[test]
fn index_and_lock_errors() {
    let mut pl = pool(0);
    let mut u = user(0);
    stake(&mut pl, &mut u, 100_000_000, LockPeriod::OneDay, 0).unwrap();
    assert_eq!(unstake(&mut pl, &mut u, 1, DAY).err(), Some(StakingError::InvalidStakeIndex));
    assert_eq!(emergency_unstake(&mut pl, &mut u, 3, 10).err(), Some(StakingError::InvalidStakeIndex));
    assert_eq!(unstake(&mut pl, &mut u, 0, DAY - 1).err(), Some(StakingError::StillLocked));
    assert_eq!(emergency_unstake(&mut pl, &mut u, 0, DAY).err(), Some(StakingError::LockExpired));
    assert!(u.stakes[0].is_active);
}

#[test]
fn emergency_unstake_inactive_entry_fails() {
    let mut pl = pool(0);
    let mut u = user(0);
    stake(&mut pl, &mut u, 100_000_000, LockPeriod::OneDay, 0).unwrap();
    unstake(&mut pl, &mut u, 0, DAY).unwrap();
    assert_eq!(emergency_unstake(&mut pl, &mut u, 0, 10).err(), Some(StakingError::StakeNotActive));
}

#[test]
fn emergency_unstake_at_start_charges_full_penalty() {
    let mut pl = pool(0);
    let mut u = user(0);
    stake(&mut pl, &mut u, 1_000_000_000, LockPeriod::SixMonths, 0).unwrap();
    let receipt = emergency_unstake(&mut pl, &mut u, 0, 0).unwrap();
    assert_eq!(receipt.penalty.penalty_percent, 33);
    assert_eq!(receipt.penalty.penalty_amount, 330_000_000);
    assert_eq!(receipt.penalty.return_amount, 670_000_000);
}

#[test]
fn emergency_unstake_near_end_has_no_treasury_transfer() {
    let mut pl = pool(0);
    let mut u = user(0);
    stake(&mut pl, &mut u, 100_000_000, LockPeriod::OneDay, 0).unwrap();
    let receipt = emergency_unstake(&mut pl, &mut u, 0, DAY - 1).unwrap();
    assert_eq!(receipt.penalty.penalty_percent, 0);
    assert_eq!(
        receipt.transfers,
        vec![TransferRequest { from: Custody::StakingVault, to: Custody::UserTokenAccount, amount: 100_000_000 }]
    );
}

#[test]
fn third_emergency_unstake_within_hour_is_rate_limited() {
    let mut pl = pool(0);
    let mut u = user(0);
    stake(&mut pl, &mut u, 1_000_000_000, LockPeriod::SixMonths, 0).unwrap();
    stake(&mut pl, &mut u, 2_000_000_000, LockPeriod::SixMonths, 700).unwrap();
    stake(&mut pl, &mut u, 3_000_000_000, LockPeriod::SixMonths, 1400).unwrap();
    emergency_unstake(&mut pl, &mut u, 0, 1500).unwrap();
    emergency_unstake(&mut pl, &mut u, 1, 1600).unwrap();
    let r = emergency_unstake(&mut pl, &mut u, 2, 1700);
    assert_eq!(r.err(), Some(StakingError::RateLimitExceeded));
    assert!(u.stakes[2].is_active);
}

#[test]
fn quick_exit_then_stake_is_flagged_as_flash_loan() {
    let mut pl = pool(0);
    let mut u = user(0);
    stake(&mut pl, &mut u, 1_000_000_000, LockPeriod::SixMonths, 0).unwrap();
    emergency_unstake(&mut pl, &mut u, 0, 100).unwrap();
    let r = stake(&mut pl, &mut u, 1_000_000_000, LockPeriod::SixMonths, 200);
    assert_eq!(r.err(), Some(StakingError::SuspiciousActivity));
}

#[test]
fn repeated_one_day_stakes_are_short_term_gaming() {
    let mut pl = pool(0);
    let mut u = user(0);
    for k in 0..3i64 {
        stake(&mut pl, &mut u, 100_000_000 * (k as u64 + 1), LockPeriod::OneDay, k * 4000).unwrap();
    }
    let r = stake(&mut pl, &mut u, 500_000_000, LockPeriod::OneDay, 12_000);
    assert_eq!(r.err(), Some(StakingError::TooManyShortTermStakes));
    assert!(stake(&mut pl, &mut u, 500_000_000, LockPeriod::OneWeek, 12_000).is_ok());
}

#[test]
fn near_identical_recent_stakes_are_sybil() {
    let mut pl = pool(0);
    let mut u = user(0);
    for k in 0..3i64 {
        stake(&mut pl, &mut u, 1_000_000_000 + k as u64, LockPeriod::SixMonths, k * 60).unwrap();
    }
    let r = stake(&mut pl, &mut u, 5_000_000_000, LockPeriod::SixMonths, 200);
    assert_eq!(r.err(), Some(StakingError::SuspiciousSybilPattern));
}

#[test]
fn accrual_overflow_is_reported() {
    let mut pl = pool(u64::MAX);
    let mut u = user(0);
    stake(&mut pl, &mut u, u64::MAX / 2, LockPeriod::SixMonths, 0).unwrap();
    let r = claim_rewards(&pl, &mut u, 100 * DAY);
    assert_eq!(r.err(), Some(StakingError::ArithmeticOverflow));
    assert_eq!(u.last_reward_time, 0);
}

#[test]
fn lock_end_overflow_is_reported() {
    let mut pl = pool(0);
    let mut u = user(0);
    let r = stake(&mut pl, &mut u, 100_000_000, LockPeriod::OneDay, i64::MAX - 10);
    assert_eq!(r.err(), Some(StakingError::ArithmeticOverflow));
    assert_eq!(u.stakes.len(), 0);
}
