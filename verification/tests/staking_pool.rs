use snowboard_depin::errors::SnowboardDepinError;
use snowboard_depin::miii_points_engine::initialize;
use snowboard_depin::motion_staking_pool::{
    accrue, apply_halving, commit_stake, complete_unstake, credit_staker_fees,
    ingest_protocol_fees, initialize_staking, pending_rewards, request_unstake, stake, FeeSplit,
};
use snowboard_depin::state::{StakePool, StakePosition, StakeTier};

fn pool() -> StakePool {
    let mut config = initialize([1u8; 32], [2u8; 32], [3u8; 32], [4u8; 32], 0, 0, 0, 0, 0);
    let p = initialize_staking(&mut config, [8u8; 32], [1u8; 32], [2u8; 32], [9u8; 32], 0, 1, 2);
    assert_eq!(config.stake_pool, [8u8; 32]);
    p
}

fn empty_position() -> StakePosition {
    StakePosition {
        owner: [0u8; 32],
        amount: 0,
        tier: StakeTier::Flex,
        reward_debt: 0,
        pending_unbond: 0,
        unbond_complete_slot: 0,
        bump: 0,
    }
}

#[test]
fn tiers() {
    assert_eq!(StakeTier::Flex.min_amount(), 1);
    assert_eq!(StakeTier::Core.min_amount(), 10_000_000);
    assert_eq!(StakeTier::Elite.min_amount(), 100_000_000);
    assert_eq!(StakeTier::Flex.multiplier_bps(), 10_000);
    assert_eq!(StakeTier::Core.multiplier_bps(), 12_500);
    assert_eq!(StakeTier::Elite.multiplier_bps(), 16_000);
    assert_eq!(StakeTier::from_amount(0), StakeTier::Flex);
    assert_eq!(StakeTier::from_amount(9_999_999), StakeTier::Flex);
    assert_eq!(StakeTier::from_amount(10_000_000), StakeTier::Core);
    assert_eq!(StakeTier::from_amount(99_999_999), StakeTier::Core);
    assert_eq!(StakeTier::from_amount(100_000_000), StakeTier::Elite);
}

#[test]
fn initial_pool() {
    let p = pool();
    assert_eq!(p.emission_per_slot, 100);
    assert_eq!(p.halving_interval_slots, 15_768_000);
    assert_eq!(p.unbond_slots, 21_600);
    assert_eq!(p.burn_bps, 3_000);
    assert_eq!(p.staker_share_bps, 7_000);
    assert_eq!(p.total_staked, 0);
    assert_eq!((p.bump, p.vault_bump), (1, 2));
}

#[test]
fn accrue_spreads_emission() {
    let mut p = pool();
    // nothing staked: only the slot moves
    assert_eq!(accrue(&mut p, 10), Ok(()));
    assert_eq!((p.reward_index, p.last_update_slot), (0, 10));
    // the clock never moves the slot backwards
    assert_eq!(accrue(&mut p, 5), Ok(()));
    assert_eq!(p.last_update_slot, 10);
    p.total_staked = 1_000;
    assert_eq!(accrue(&mut p, 20), Ok(()));
    // 10 slots * 100 per slot * 1e12 / 1000 staked
    assert_eq!(p.reward_index, 1_000_000_000_000);
    assert_eq!(p.last_update_slot, 20);
    p.emission_per_slot = u64::MAX;
    let before = p;
    assert_eq!(accrue(&mut p, 30), Err(SnowboardDepinError::MathOverflow));
    assert_eq!(p, before);
}

#[test]
fn pending_rewards_with_multiplier() {
    let mut p = pool();
    p.reward_index = 1_000_000_000_000;
    let mut pos = empty_position();
    pos.amount = 1_000;
    assert_eq!(pending_rewards(&p, &pos), Ok(1_000));
    pos.tier = StakeTier::Core;
    assert_eq!(pending_rewards(&p, &pos), Ok(1_250));
    pos.tier = StakeTier::Elite;
    assert_eq!(pending_rewards(&p, &pos), Ok(1_600));
    pos.reward_debt = p.reward_index;
    assert_eq!(pending_rewards(&p, &pos), Ok(0));
    // a debt above the index counts as nothing earned
    pos.reward_debt = p.reward_index + 1;
    assert_eq!(pending_rewards(&p, &pos), Ok(0));
}

#[test]
fn stake_flow() {
    let mut p = pool();
    let mut pos = empty_position();
    let owner = [7u8; 32];
    assert_eq!(stake(&mut p, &mut pos, &owner, 0, 0, 0, 3), Err(SnowboardDepinError::InsufficientStake));
    assert_eq!(stake(&mut p, &mut pos, &owner, 10_000_000, 0, 0, 3), Ok(0));
    assert_eq!(pos.owner, owner);
    assert_eq!(pos.bump, 3);
    assert_eq!(commit_stake(&mut p, &mut pos, 10_000_000), Ok(()));
    assert_eq!(pos.amount, 10_000_000);
    assert_eq!(pos.tier, StakeTier::Core);
    assert_eq!(p.total_staked, 10_000_000);
    // 100 slots later: index grew by 100 * 100 * 1e12 / 1e7 = 1e9
    let payout = stake(&mut p, &mut pos, &owner, 5, 100, 1_000_000, 4).unwrap();
    // 1e7 * 1e9 / 1e12 = 10_000, boosted by 1.25
    assert_eq!(payout, 12_500);
    assert_eq!(pos.bump, 3);
    assert_eq!(commit_stake(&mut p, &mut pos, 5), Ok(()));
    assert_eq!(pos.reward_debt, p.reward_index);
    assert_eq!(p.total_staked, 10_000_005);
    // with too little in the treasury nothing is paid out
    let payout = stake(&mut p, &mut pos, &owner, 1, 200, 1, 4).unwrap();
    assert_eq!(payout, 0);
}

#[test]
fn commit_stake_overflow_changes_nothing() {
    let mut p = pool();
    let mut pos = empty_position();
    pos.amount = u64::MAX;
    let (bp, bq) = (p, pos);
    assert_eq!(commit_stake(&mut p, &mut pos, 1), Err(SnowboardDepinError::MathOverflow));
    assert_eq!((p, pos), (bp, bq));
}

#[test]
fn unstake_flow() {
    let mut p = pool();
    let mut pos = empty_position();
    let owner = [7u8; 32];
    stake(&mut p, &mut pos, &owner, 1_000, 0, 0, 0).unwrap();
    commit_stake(&mut p, &mut pos, 1_000).unwrap();
    assert_eq!(request_unstake(&mut p, &mut pos, 0, 0, 0), Err(SnowboardDepinError::InsufficientStake));
    assert_eq!(request_unstake(&mut p, &mut pos, 1_001, 0, 0), Err(SnowboardDepinError::InsufficientStake));
    // 10 slots: index +1e12, pending 1000
    assert_eq!(request_unstake(&mut p, &mut pos, 400, 10, 5_000), Ok(1_000));
    assert_eq!(pos.amount, 600);
    assert_eq!(pos.pending_unbond, 400);
    assert_eq!(pos.unbond_complete_slot, 10 + 21_600);
    assert_eq!(p.total_staked, 600);
    assert_eq!(request_unstake(&mut p, &mut pos, 100, 11, 0), Err(SnowboardDepinError::CooldownActive));
    assert_eq!(complete_unstake(&mut pos, 21_609, 1_000), Err(SnowboardDepinError::CooldownActive));
    assert_eq!(complete_unstake(&mut pos, 21_610, 399), Err(SnowboardDepinError::InsufficientStakeVault));
    assert_eq!(complete_unstake(&mut pos, 21_610, 400), Ok(400));
    assert_eq!((pos.pending_unbond, pos.unbond_complete_slot), (0, 0));
    assert_eq!(complete_unstake(&mut pos, 21_611, 400), Err(SnowboardDepinError::NoUnbondPending));
}

#[test]
fn halving() {
    let mut p = pool();
    assert_eq!(apply_halving(&mut p, 15_767_999), Err(SnowboardDepinError::HalvingNotDue));
    assert_eq!(p.emission_per_slot, 100);
    assert_eq!(apply_halving(&mut p, 15_768_000), Ok(()));
    assert_eq!(p.emission_per_slot, 50);
    assert_eq!(p.last_halving_slot, 15_768_000);
    p.emission_per_slot = 1;
    p.last_halving_slot = 0;
    assert_eq!(apply_halving(&mut p, 15_768_000), Ok(()));
    assert_eq!(p.emission_per_slot, 0);
    p.last_halving_slot = 0;
    assert_eq!(apply_halving(&mut p, 15_768_000), Ok(()));
    assert_eq!(p.emission_per_slot, 0);
}

#[test]
fn protocol_fees() {
    let mut p = pool();
    assert_eq!(ingest_protocol_fees(&mut p, 0, 10, 0), Err(SnowboardDepinError::ZeroFee));
    assert_eq!(ingest_protocol_fees(&mut p, 11, 10, 0), Err(SnowboardDepinError::InsufficientTreasury));
    assert_eq!(ingest_protocol_fees(&mut p, 1_000, 1_000, 0), Ok(FeeSplit { burn: 300, staker: 700 }));
    // nothing staked: the index stays
    assert_eq!(credit_staker_fees(&mut p, 700), Ok(()));
    assert_eq!(p.reward_index, 0);
    p.total_staked = 1_000;
    assert_eq!(credit_staker_fees(&mut p, 700), Ok(()));
    assert_eq!(p.reward_index, 700_000_000_000);
    p.burn_bps = 10_000;
    assert_eq!(ingest_protocol_fees(&mut p, 5, 5, 0), Ok(FeeSplit { burn: 5, staker: 0 }));
    assert_eq!(
        ingest_protocol_fees(&mut p, u64::MAX, u64::MAX, 0),
        Err(SnowboardDepinError::MathOverflow)
    );
}

#[test]
fn stake_then_unstake_restores_totals() {
    let mut p = pool();
    p.total_staked = 500;
    let mut pos = empty_position();
    let owner = [7u8; 32];
    stake(&mut p, &mut pos, &owner, 300, 0, 0, 0).unwrap();
    commit_stake(&mut p, &mut pos, 300).unwrap();
    assert_eq!(p.total_staked, 800);
    request_unstake(&mut p, &mut pos, 300, 0, 0).unwrap();
    assert_eq!(p.total_staked, 500);
    assert_eq!(pos.amount, 0);
    assert_eq!(pos.pending_unbond, 300);
    assert_eq!(pos.tier, StakeTier::Flex);
}

#[test]
fn burn_rate_above_full_burns_more_than_the_fee() {
    let mut p = pool();
    p.burn_bps = 20_000;
    assert_eq!(ingest_protocol_fees(&mut p, 10, 10, 0), Ok(FeeSplit { burn: 20, staker: 0 }));
}

#[test]
fn staker_fee_share_is_pro_rata() {
    let mut p = pool();
    p.total_staked = 1_000;
    let small = StakePosition { amount: 300, tier: StakeTier::Core, ..empty_position() };
    let large = StakePosition { amount: 700, tier: StakeTier::Core, ..empty_position() };
    assert_eq!(credit_staker_fees(&mut p, 700), Ok(()));
    assert_eq!(p.reward_index, 700_000_000_000);
    // 300 * 0.7 = 210, boosted by 1.25 = 262; 700 * 0.7 = 490, boosted = 612.
    assert_eq!(pending_rewards(&p, &small), Ok(262));
    assert_eq!(pending_rewards(&p, &large), Ok(612));
}

#[test]
fn total_staked_tracks_the_positions() {
    let mut p = pool();
    let mut a = StakePosition { owner: [1u8; 32], ..empty_position() };
    let mut b = StakePosition { owner: [2u8; 32], ..empty_position() };
    assert_eq!(stake(&mut p, &mut a, &[1u8; 32], 400, 0, 0, 1), Ok(0));
    assert_eq!(commit_stake(&mut p, &mut a, 400), Ok(()));
    assert_eq!(stake(&mut p, &mut b, &[2u8; 32], 600, 0, 0, 1), Ok(0));
    assert_eq!(commit_stake(&mut p, &mut b, 600), Ok(()));
    assert_eq!(p.total_staked, a.amount + b.amount);
    assert_eq!(request_unstake(&mut p, &mut a, 150, 0, 0), Ok(0));
    assert_eq!(p.total_staked, a.amount + b.amount);
    assert_eq!(p.total_staked, 850);
    let due = a.unbond_complete_slot;
    assert_eq!(complete_unstake(&mut a, due, 1_000), Ok(150));
    assert_eq!(p.total_staked, a.amount + b.amount);
}
