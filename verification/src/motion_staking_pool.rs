//! The motion staking pool: a reward index fed by a per-slot emission that
//! halves on schedule and by protocol fees, tiered reward multipliers, and
//! unstaking through an unbonding period.

use vstd::prelude::*;
use crate::constants::{
    BPS_DENOM, DEFAULT_BURN_BPS, DEFAULT_EMISSION_PER_SLOT, DEFAULT_HALVING_INTERVAL,
    DEFAULT_STAKER_SHARE_BPS, DEFAULT_UNBOND_SLOTS, INDEX_SCALE,
};
use crate::errors::SnowboardDepinError;
use crate::state::{
    is_default_key, spec_default_key, GlobalConfig, Pubkey, StakePool, StakePosition, StakeTier,
};

verus! {

/// The pool that `initialize_staking` creates at `slot`.
pub open spec fn spec_initial_pool(
    admin: Pubkey,
    fusion_mint: Pubkey,
    stake_vault: Pubkey,
    slot: u64,
    bump: u8,
    vault_bump: u8,
) -> StakePool {
    StakePool {
        admin,
        fusion_mint,
        stake_vault,
        total_staked: 0,
        reward_index: 0,
        emission_per_slot: DEFAULT_EMISSION_PER_SLOT,
        last_update_slot: slot,
        last_halving_slot: slot,
        halving_interval_slots: DEFAULT_HALVING_INTERVAL,
        unbond_slots: DEFAULT_UNBOND_SLOTS,
        burn_bps: DEFAULT_BURN_BPS,
        staker_share_bps: DEFAULT_STAKER_SHARE_BPS,
        bump,
        vault_bump,
    }
}

/// Creates the staking pool at `slot` and records its address in the configuration.
pub fn initialize_staking(
    config: &mut GlobalConfig,
    pool_address: Pubkey,
    admin: Pubkey,
    fusion_mint: Pubkey,
    stake_vault: Pubkey,
    slot: u64,
    bump: u8,
    vault_bump: u8,
) -> (pool: StakePool)
    ensures
        pool == spec_initial_pool(admin, fusion_mint, stake_vault, slot, bump, vault_bump),
        *final(config) == (GlobalConfig { stake_pool: pool_address, ..*old(config) }),
{
    config.stake_pool = pool_address;
    StakePool {
        admin,
        fusion_mint,
        stake_vault,
        total_staked: 0,
        reward_index: 0,
        emission_per_slot: DEFAULT_EMISSION_PER_SLOT,
        last_update_slot: slot,
        last_halving_slot: slot,
        halving_interval_slots: DEFAULT_HALVING_INTERVAL,
        unbond_slots: DEFAULT_UNBOND_SLOTS,
        burn_bps: DEFAULT_BURN_BPS,
        staker_share_bps: DEFAULT_STAKER_SHARE_BPS,
        bump,
        vault_bump,
    }
}

/// The pool after the emission since `last_update_slot` has been spread over
/// the stake: the index grows by `minted * INDEX_SCALE / total_staked`. With no
/// stake, or no time passed, only the update slot moves (never backwards).
pub open spec fn spec_accrue(pool: StakePool, slot: u64) -> Result<StakePool, SnowboardDepinError> {
    if slot <= pool.last_update_slot || pool.total_staked == 0 {
        Ok(
            StakePool {
                last_update_slot: if slot > pool.last_update_slot {
                    slot
                } else {
                    pool.last_update_slot
                },
                ..pool
            },
        )
    } else {
        let minted = (slot - pool.last_update_slot) * pool.emission_per_slot;
        if minted > u64::MAX {
            Err(SnowboardDepinError::MathOverflow)
        } else {
            let delta = (minted * INDEX_SCALE) / (pool.total_staked as int);
            if pool.reward_index + delta > u128::MAX {
                Err(SnowboardDepinError::MathOverflow)
            } else {
                Ok(
                    StakePool {
                        reward_index: (pool.reward_index + delta) as u128,
                        last_update_slot: slot,
                        ..pool
                    },
                )
            }
        }
    }
}

/// Brings the reward index up to `slot`; on failure the pool is unchanged.
pub fn accrue(pool: &mut StakePool, slot: u64) -> (r: Result<(), SnowboardDepinError>)
    ensures
        match spec_accrue(*old(pool), slot) {
            Ok(p) => r == Ok::<(), SnowboardDepinError>(()) && *final(pool) == p,
            Err(e) => r == Err::<(), SnowboardDepinError>(e) && *final(pool) == *old(pool),
        },
{
    if slot <= pool.last_update_slot || pool.total_staked == 0 {
        pool.last_update_slot = if slot > pool.last_update_slot {
            slot
        } else {
            pool.last_update_slot
        };
        return Ok(());
    }
    let dt = slot - pool.last_update_slot;
    let minted = match dt.checked_mul(pool.emission_per_slot) {
        Some(v) => v,
        None => return Err(SnowboardDepinError::MathOverflow),
    };
    let scaled = match (minted as u128).checked_mul(INDEX_SCALE) {
        Some(v) => v,
        None => return Err(SnowboardDepinError::MathOverflow),
    };
    let delta = match scaled.checked_div(pool.total_staked as u128) {
        Some(v) => v,
        None => return Err(SnowboardDepinError::MathOverflow),
    };
    let index = match pool.reward_index.checked_add(delta) {
        Some(v) => v,
        None => return Err(SnowboardDepinError::MathOverflow),
    };
    pool.reward_index = index;
    pool.last_update_slot = slot;
    Ok(())
}

/// Rewards a position has earned since its last checkpoint: its share of the
/// index growth, boosted by its tier multiplier; beyond `u64` is an overflow.
pub open spec fn spec_pending_rewards(pool: StakePool, pos: StakePosition) -> Result<
    u64,
    SnowboardDepinError,
> {
    let growth: int = if pool.reward_index >= pos.reward_debt {
        pool.reward_index - pos.reward_debt
    } else {
        0
    };
    let product = pos.amount * growth;
    if product > u128::MAX {
        Err(SnowboardDepinError::MathOverflow)
    } else {
        let accrued = product / (INDEX_SCALE as int);
        let boosted_full = accrued * pos.tier.spec_multiplier_bps();
        if boosted_full > u128::MAX {
            Err(SnowboardDepinError::MathOverflow)
        } else {
            let boosted = boosted_full / (BPS_DENOM as int);
            if boosted > u64::MAX {
                Err(SnowboardDepinError::MathOverflow)
            } else {
                Ok(boosted as u64)
            }
        }
    }
}

/// Rewards a position has earned since its last checkpoint.
pub fn pending_rewards(pool: &StakePool, pos: &StakePosition) -> (r: Result<
    u64,
    SnowboardDepinError,
>)
    ensures
        r == spec_pending_rewards(*pool, *pos),
{
    let growth = if pool.reward_index >= pos.reward_debt {
        pool.reward_index - pos.reward_debt
    } else {
        0
    };
    let product = match (pos.amount as u128).checked_mul(growth) {
        Some(v) => v,
        None => return Err(SnowboardDepinError::MathOverflow),
    };
    let accrued = product / INDEX_SCALE;
    let boosted_full = match accrued.checked_mul(pos.tier.multiplier_bps() as u128) {
        Some(v) => v,
        None => return Err(SnowboardDepinError::MathOverflow),
    };
    let boosted = boosted_full / (BPS_DENOM as u128);
    if boosted > u64::MAX as u128 {
        return Err(SnowboardDepinError::MathOverflow);
    }
    Ok(boosted as u64)
}

/// Reward paid out at a checkpoint: all that is pending, if the treasury
/// holds it, and nothing otherwise.
pub open spec fn spec_payable(pending: u64, treasury_amount: u64) -> u64 {
    if pending > 0 && treasury_amount >= pending {
        pending
    } else {
        0
    }
}

/// First part of a stake of `amount`, before the token transfers: the pool
/// accrues, a new position takes its owner, and the rewards pending on an
/// existing position are settled. Yields the pool, the position and the
/// reward to pay out from the treasury.
pub open spec fn spec_stake(
    pool: StakePool,
    pos: StakePosition,
    owner: Pubkey,
    amount: u64,
    slot: u64,
    treasury_amount: u64,
    position_bump: u8,
) -> Result<(StakePool, StakePosition, u64), SnowboardDepinError> {
    if amount == 0 {
        Err(SnowboardDepinError::InsufficientStake)
    } else {
        match spec_accrue(pool, slot) {
            Err(e) => Err(e),
            Ok(p) => {
                let q = if pos.owner@ == spec_default_key() {
                    StakePosition { owner, bump: position_bump, ..pos }
                } else {
                    pos
                };
                if q.amount > 0 {
                    match spec_pending_rewards(p, q) {
                        Err(e) => Err(e),
                        Ok(pending) => Ok((p, q, spec_payable(pending, treasury_amount))),
                    }
                } else {
                    Ok((p, q, 0))
                }
            },
        }
    }
}

/// Starts a stake of `amount`: returns the pending reward to transfer from
/// the treasury to the owner (zero for none). After that transfer and the
/// owner's deposit of `amount` into the vault, `commit_stake` books the stake.
/// On failure nothing changes.
pub fn stake(
    pool: &mut StakePool,
    pos: &mut StakePosition,
    owner: &Pubkey,
    amount: u64,
    slot: u64,
    treasury_amount: u64,
    position_bump: u8,
) -> (r: Result<u64, SnowboardDepinError>)
    ensures
        match spec_stake(*old(pool), *old(pos), *owner, amount, slot, treasury_amount, position_bump) {
            Ok((p, q, payout)) => r == Ok::<u64, SnowboardDepinError>(payout) && *final(pool) == p
                && *final(pos) == q,
            Err(e) => r == Err::<u64, SnowboardDepinError>(e) && *final(pool) == *old(pool)
                && *final(pos) == *old(pos),
        },
{
    if amount == 0 {
        return Err(SnowboardDepinError::InsufficientStake);
    }
    let mut p = *pool;
    match accrue(&mut p, slot) {
        Ok(()) => {},
        Err(e) => return Err(e),
    }
    let mut q = *pos;
    if is_default_key(&q.owner) {
        q.owner = *owner;
        q.bump = position_bump;
    }
    let mut payout: u64 = 0;
    if q.amount > 0 {
        let pending = match pending_rewards(&p, &q) {
            Ok(v) => v,
            Err(e) => return Err(e),
        };
        if pending > 0 && treasury_amount >= pending {
            payout = pending;
        }
    }
    *pool = p;
    *pos = q;
    Ok(payout)
}

/// Second part of a stake, after the deposit: the position grows by `amount`,
/// its tier follows its size, it is checkpointed at the current index, and the
/// pool's total grows by `amount`.
pub open spec fn spec_commit_stake(pool: StakePool, pos: StakePosition, amount: u64) -> Result<
    (StakePool, StakePosition),
    SnowboardDepinError,
> {
    if pos.amount + amount > u64::MAX || pool.total_staked + amount > u64::MAX {
        Err(SnowboardDepinError::MathOverflow)
    } else {
        let new_amount = (pos.amount + amount) as u64;
        Ok(
            (
                StakePool { total_staked: (pool.total_staked + amount) as u64, ..pool },
                StakePosition {
                    amount: new_amount,
                    tier: StakeTier::spec_from_amount(new_amount),
                    reward_debt: pool.reward_index,
                    ..pos
                },
            ),
        )
    }
}

/// Books a deposited stake of `amount`; on failure nothing changes.
pub fn commit_stake(pool: &mut StakePool, pos: &mut StakePosition, amount: u64) -> (r: Result<
    (),
    SnowboardDepinError,
>)
    ensures
        match spec_commit_stake(*old(pool), *old(pos), amount) {
            Ok((p, q)) => r == Ok::<(), SnowboardDepinError>(()) && *final(pool) == p && *final(pos)
                == q,
            Err(e) => r == Err::<(), SnowboardDepinError>(e) && *final(pool) == *old(pool)
                && *final(pos) == *old(pos),
        },
{
    let new_amount = match pos.amount.checked_add(amount) {
        Some(v) => v,
        None => return Err(SnowboardDepinError::MathOverflow),
    };
    let total = match pool.total_staked.checked_add(amount) {
        Some(v) => v,
        None => return Err(SnowboardDepinError::MathOverflow),
    };
    pos.amount = new_amount;
    pos.tier = StakeTier::from_amount(new_amount);
    pos.reward_debt = pool.reward_index;
    pool.total_staked = total;
    Ok(())
}

/// Unstaking `amount`: the pool accrues; the amount must be positive, at most
/// the stake, and no other unbonding may be pending; the amount leaves the
/// stake and unbonds until `slot + unbond_slots`; the pending reward is paid.
pub open spec fn spec_request_unstake(
    pool: StakePool,
    pos: StakePosition,
    amount: u64,
    slot: u64,
    treasury_amount: u64,
) -> Result<(StakePool, StakePosition, u64), SnowboardDepinError> {
    match spec_accrue(pool, slot) {
        Err(e) => Err(e),
        Ok(p) => if !(amount > 0 && amount <= pos.amount) {
            Err(SnowboardDepinError::InsufficientStake)
        } else if pos.pending_unbond != 0 {
            Err(SnowboardDepinError::CooldownActive)
        } else {
            match spec_pending_rewards(p, pos) {
                Err(e) => Err(e),
                Ok(pending) => if slot + p.unbond_slots > u64::MAX || p.total_staked < amount {
                    Err(SnowboardDepinError::MathOverflow)
                } else {
                    let left = (pos.amount - amount) as u64;
                    Ok(
                        (
                            StakePool { total_staked: (p.total_staked - amount) as u64, ..p },
                            StakePosition {
                                amount: left,
                                pending_unbond: amount,
                                unbond_complete_slot: (slot + p.unbond_slots) as u64,
                                tier: StakeTier::spec_from_amount(left),
                                reward_debt: p.reward_index,
                                ..pos
                            },
                            spec_payable(pending, treasury_amount),
                        ),
                    )
                }
            }
        },
    }
}

/// Starts unbonding `amount` and returns the pending reward to transfer from
/// the treasury (zero for none); on failure nothing changes.
pub fn request_unstake(
    pool: &mut StakePool,
    pos: &mut StakePosition,
    amount: u64,
    slot: u64,
    treasury_amount: u64,
) -> (r: Result<u64, SnowboardDepinError>)
    ensures
        match spec_request_unstake(*old(pool), *old(pos), amount, slot, treasury_amount) {
            Ok((p, q, payout)) => r == Ok::<u64, SnowboardDepinError>(payout) && *final(pool) == p
                && *final(pos) == q,
            Err(e) => r == Err::<u64, SnowboardDepinError>(e) && *final(pool) == *old(pool)
                && *final(pos) == *old(pos),
        },
{
    let mut p = *pool;
    match accrue(&mut p, slot) {
        Ok(()) => {},
        Err(e) => return Err(e),
    }
    if !(amount > 0 && amount <= pos.amount) {
        return Err(SnowboardDepinError::InsufficientStake);
    }
    if pos.pending_unbond != 0 {
        return Err(SnowboardDepinError::CooldownActive);
    }
    let pending = match pending_rewards(&p, pos) {
        Ok(v) => v,
        Err(e) => return Err(e),
    };
    let left = pos.amount - amount;
    let complete = match slot.checked_add(p.unbond_slots) {
        Some(v) => v,
        None => return Err(SnowboardDepinError::MathOverflow),
    };
    let total = match p.total_staked.checked_sub(amount) {
        Some(v) => v,
        None => return Err(SnowboardDepinError::MathOverflow),
    };
    pos.amount = left;
    pos.pending_unbond = amount;
    pos.unbond_complete_slot = complete;
    pos.tier = StakeTier::from_amount(left);
    pos.reward_debt = p.reward_index;
    p.total_staked = total;
    *pool = p;
    if pending > 0 && treasury_amount >= pending {
        Ok(pending)
    } else {
        Ok(0)
    }
}

/// Finishing an unbonding: one must be pending and due at `slot`, and the
/// vault must hold it; the position's unbonding is cleared.
pub open spec fn spec_complete_unstake(pos: StakePosition, slot: u64, vault_amount: u64) -> Result<
    (StakePosition, u64),
    SnowboardDepinError,
> {
    if pos.pending_unbond == 0 {
        Err(SnowboardDepinError::NoUnbondPending)
    } else if slot < pos.unbond_complete_slot {
        Err(SnowboardDepinError::CooldownActive)
    } else if vault_amount < pos.pending_unbond {
        Err(SnowboardDepinError::InsufficientStakeVault)
    } else {
        Ok(
            (
                StakePosition { pending_unbond: 0, unbond_complete_slot: 0, ..pos },
                pos.pending_unbond,
            ),
        )
    }
}

/// Completes an unbonding and returns the amount to transfer from the stake
/// vault to the owner; on failure nothing changes.
pub fn complete_unstake(pos: &mut StakePosition, slot: u64, vault_amount: u64) -> (r: Result<
    u64,
    SnowboardDepinError,
>)
    ensures
        match spec_complete_unstake(*old(pos), slot, vault_amount) {
            Ok((q, amount)) => r == Ok::<u64, SnowboardDepinError>(amount) && *final(pos) == q,
            Err(e) => r == Err::<u64, SnowboardDepinError>(e) && *final(pos) == *old(pos),
        },
{
    if !(pos.pending_unbond > 0) {
        return Err(SnowboardDepinError::NoUnbondPending);
    }
    if !(slot >= pos.unbond_complete_slot) {
        return Err(SnowboardDepinError::CooldownActive);
    }
    let amount = pos.pending_unbond;
    if !(vault_amount >= amount) {
        return Err(SnowboardDepinError::InsufficientStakeVault);
    }
    pos.pending_unbond = 0;
    pos.unbond_complete_slot = 0;
    Ok(amount)
}

/// Halving: after accruing, once `halving_interval_slots` have passed since
/// the last halving, the emission per slot halves (an emission of zero counts
/// as one) and the halving slot moves to `slot`.
pub open spec fn spec_apply_halving(pool: StakePool, slot: u64) -> Result<
    StakePool,
    SnowboardDepinError,
> {
    match spec_accrue(pool, slot) {
        Err(e) => Err(e),
        Ok(p) => if p.last_halving_slot + p.halving_interval_slots > u64::MAX {
            Err(SnowboardDepinError::MathOverflow)
        } else if slot < p.last_halving_slot + p.halving_interval_slots {
            Err(SnowboardDepinError::HalvingNotDue)
        } else {
            Ok(
                StakePool {
                    emission_per_slot: if p.emission_per_slot > 1 {
                        p.emission_per_slot / 2
                    } else {
                        0
                    },
                    last_halving_slot: slot,
                    ..p
                },
            )
        },
    }
}

/// Halves the emission when due; on failure the pool is unchanged.
pub fn apply_halving(pool: &mut StakePool, slot: u64) -> (r: Result<(), SnowboardDepinError>)
    ensures
        match spec_apply_halving(*old(pool), slot) {
            Ok(p) => r == Ok::<(), SnowboardDepinError>(()) && *final(pool) == p,
            Err(e) => r == Err::<(), SnowboardDepinError>(e) && *final(pool) == *old(pool),
        },
{
    let mut p = *pool;
    match accrue(&mut p, slot) {
        Ok(()) => {},
        Err(e) => return Err(e),
    }
    let due = match p.last_halving_slot.checked_add(p.halving_interval_slots) {
        Some(v) => v,
        None => return Err(SnowboardDepinError::MathOverflow),
    };
    if !(slot >= due) {
        return Err(SnowboardDepinError::HalvingNotDue);
    }
    let base = if p.emission_per_slot > 1 {
        p.emission_per_slot
    } else {
        1
    };
    p.emission_per_slot = base / 2;
    p.last_halving_slot = slot;
    *pool = p;
    Ok(())
}

/// How a fee is split: the part to burn and the part that goes to stakers.
#[derive(Debug, Clone, Copy, PartialEq, Eq)]
pub struct FeeSplit {
    pub burn: u64,
    pub staker: u64,
}

/// First part of fee ingestion, before the burn and the transfer: the fee
/// must be positive and held by the fee vault; the pool accrues; `burn_bps`
/// of the fee is burned and the rest goes to stakers.
pub open spec fn spec_ingest_protocol_fees(
    pool: StakePool,
    amount: u64,
    fee_vault_amount: u64,
    slot: u64,
) -> Result<(StakePool, FeeSplit), SnowboardDepinError> {
    if amount == 0 {
        Err(SnowboardDepinError::ZeroFee)
    } else if fee_vault_amount < amount {
        Err(SnowboardDepinError::InsufficientTreasury)
    } else {
        match spec_accrue(pool, slot) {
            Err(e) => Err(e),
            Ok(p) => if amount * p.burn_bps > u64::MAX {
                Err(SnowboardDepinError::MathOverflow)
            } else {
                let burn = (amount * p.burn_bps) / (BPS_DENOM as int);
                let staker = if amount >= burn {
                    amount - burn
                } else {
                    0
                };
                Ok((p, FeeSplit { burn: burn as u64, staker: staker as u64 }))
            },
        }
    }
}

/// Starts ingesting a protocol fee of `amount`: returns how much to burn from
/// the fee vault and how much to move to the treasury for stakers. After those
/// transfers, `credit_staker_fees` raises the reward index. On failure the pool
/// is unchanged.
pub fn ingest_protocol_fees(
    pool: &mut StakePool,
    amount: u64,
    fee_vault_amount: u64,
    slot: u64,
) -> (r: Result<FeeSplit, SnowboardDepinError>)
    ensures
        match spec_ingest_protocol_fees(*old(pool), amount, fee_vault_amount, slot) {
            Ok((p, split)) => r == Ok::<FeeSplit, SnowboardDepinError>(split) && *final(pool) == p,
            Err(e) => r == Err::<FeeSplit, SnowboardDepinError>(e) && *final(pool) == *old(pool),
        },
{
    if amount == 0 {
        return Err(SnowboardDepinError::ZeroFee);
    }
    if !(fee_vault_amount >= amount) {
        return Err(SnowboardDepinError::InsufficientTreasury);
    }
    let mut p = *pool;
    match accrue(&mut p, slot) {
        Ok(()) => {},
        Err(e) => return Err(e),
    }
    let burn = match amount.checked_mul(p.burn_bps as u64) {
        Some(v) => match v.checked_div(BPS_DENOM) {
            Some(w) => w,
            None => return Err(SnowboardDepinError::MathOverflow),
        },
        None => return Err(SnowboardDepinError::MathOverflow),
    };
    let staker = if amount >= burn {
        amount - burn
    } else {
        0
    };
    *pool = p;
    Ok(FeeSplit { burn, staker })
}

/// Second part of fee ingestion: with stake in the pool, the stakers' part
/// raises the reward index by `staker_amount * INDEX_SCALE / total_staked`.
pub open spec fn spec_credit_staker_fees(pool: StakePool, staker_amount: u64) -> Result<
    StakePool,
    SnowboardDepinError,
> {
    if staker_amount > 0 && pool.total_staked > 0 {
        let delta = (staker_amount * INDEX_SCALE) / (pool.total_staked as int);
        if pool.reward_index + delta > u128::MAX {
            Err(SnowboardDepinError::MathOverflow)
        } else {
            Ok(StakePool { reward_index: (pool.reward_index + delta) as u128, ..pool })
        }
    } else {
        Ok(pool)
    }
}

/// Credits the stakers' part of a fee to the reward index; on failure the
/// pool is unchanged.
pub fn credit_staker_fees(pool: &mut StakePool, staker_amount: u64) -> (r: Result<
    (),
    SnowboardDepinError,
>)
    ensures
        match spec_credit_staker_fees(*old(pool), staker_amount) {
            Ok(p) => r == Ok::<(), SnowboardDepinError>(()) && *final(pool) == p,
            Err(e) => r == Err::<(), SnowboardDepinError>(e) && *final(pool) == *old(pool),
        },
{
    if staker_amount > 0 && pool.total_staked > 0 {
        let scaled = match (staker_amount as u128).checked_mul(INDEX_SCALE) {
            Some(v) => v,
            None => return Err(SnowboardDepinError::MathOverflow),
        };
        let delta = match scaled.checked_div(pool.total_staked as u128) {
            Some(v) => v,
            None => return Err(SnowboardDepinError::MathOverflow),
        };
        let index = match pool.reward_index.checked_add(delta) {
            Some(v) => v,
            None => return Err(SnowboardDepinError::MathOverflow),
        };
        pool.reward_index = index;
    }
    Ok(())
}


/// Tier assignment: a stake of at least one token gets a tier whose minimum it
/// reaches, no tier with a higher minimum that it also reaches exists, and a
/// larger stake never gets a smaller reward multiplier.
pub proof fn lemma_tier_from_amount(amount: u64, larger: u64, t: StakeTier)
    requires
        amount >= 1,
        amount <= larger,
    ensures
        StakeTier::spec_from_amount(amount).spec_min_amount() <= amount,
        t.spec_min_amount() <= amount ==> t.spec_min_amount() <= StakeTier::spec_from_amount(
            amount,
        ).spec_min_amount(),
        StakeTier::spec_from_amount(amount).spec_multiplier_bps()
            <= StakeTier::spec_from_amount(larger).spec_multiplier_bps(),
{
}

/// Reading the index: the pool accrues without changing its stake, the index
/// and the update slot never move backwards, and the update slot reaches `slot`.
pub proof fn lemma_accrue_monotone(pool: StakePool, slot: u64)
    requires
        spec_accrue(pool, slot) is Ok,
    ensures
        ({
            let p = spec_accrue(pool, slot)->Ok_0;
            &&& p.reward_index >= pool.reward_index
            &&& p.last_update_slot >= pool.last_update_slot
            &&& p.last_update_slot >= slot
            &&& p.total_staked == pool.total_staked
            &&& p.emission_per_slot == pool.emission_per_slot
        }),
{
}

/// A position checkpointed at the current index has nothing pending; staking
/// and unstaking both leave the position checkpointed.
pub proof fn lemma_checkpoint_has_nothing_pending(pool: StakePool, pos: StakePosition)
    requires
        pos.reward_debt == pool.reward_index,
    ensures
        spec_pending_rewards(pool, pos) == Ok::<u64, SnowboardDepinError>(0),
{
    assert(pos.amount * 0int == 0);
    assert(0int * pos.tier.spec_multiplier_bps() == 0);
}

/// Staking `amount` and then requesting to unstake the same `amount` leaves
/// the pool's total stake and the position's stake as they were, with `amount`
/// unbonding.
pub proof fn lemma_stake_then_unstake_restores_stake(
    pool: StakePool,
    pos: StakePosition,
    amount: u64,
    slot: u64,
    treasury_amount: u64,
)
    requires
        spec_commit_stake(pool, pos, amount) is Ok,
        ({
            let (p, q) = spec_commit_stake(pool, pos, amount)->Ok_0;
            spec_request_unstake(p, q, amount, slot, treasury_amount) is Ok
        }),
    ensures
        ({
            let (p, q) = spec_commit_stake(pool, pos, amount)->Ok_0;
            let (p2, q2, payout) = spec_request_unstake(p, q, amount, slot, treasury_amount)->Ok_0;
            &&& p2.total_staked == pool.total_staked
            &&& q2.amount == pos.amount
            &&& q2.pending_unbond == amount
            &&& q2.tier == StakeTier::spec_from_amount(pos.amount)
        }),
{
}

/// Unbonding returns exactly what was requested, and only once it is due:
/// after `request_unstake` of `amount` at `slot`, `complete_unstake` at any
/// `later` slot before `slot + unbond_slots` is refused, and from then on (with
/// enough in the vault) pays out `amount` and clears the unbonding.
pub proof fn lemma_unbond_pays_requested_amount_when_due(
    pool: StakePool,
    pos: StakePosition,
    amount: u64,
    slot: u64,
    treasury_amount: u64,
    later: u64,
    vault_amount: u64,
)
    requires
        spec_request_unstake(pool, pos, amount, slot, treasury_amount) is Ok,
    ensures
        ({
            let (p, q, payout) = spec_request_unstake(pool, pos, amount, slot, treasury_amount)->Ok_0;
            let done = spec_complete_unstake(q, later, vault_amount);
            &&& later < slot + p.unbond_slots ==> done == Err::<(StakePosition, u64), SnowboardDepinError>(
                SnowboardDepinError::CooldownActive,
            )
            &&& later >= slot + p.unbond_slots && vault_amount >= amount ==> done is Ok
                && done->Ok_0.1 == amount && done->Ok_0.0.pending_unbond == 0
                && done->Ok_0.0.amount == q.amount
        }),
{
}

/// A second unstake cannot start while one is unbonding.
pub proof fn lemma_one_unbonding_at_a_time(
    pool: StakePool,
    pos: StakePosition,
    amount: u64,
    slot: u64,
    treasury_amount: u64,
)
    requires
        pos.pending_unbond != 0,
    ensures
        spec_request_unstake(pool, pos, amount, slot, treasury_amount) is Err,
{
}

/// Fee conservation: with a burn rate of at most 100%, the burned part and the
/// stakers' part add up to the fee, and the burn is `burn_bps` of it.
pub proof fn lemma_fee_split_conserves(
    pool: StakePool,
    amount: u64,
    fee_vault_amount: u64,
    slot: u64,
)
    requires
        pool.burn_bps <= BPS_DENOM,
        spec_ingest_protocol_fees(pool, amount, fee_vault_amount, slot) is Ok,
    ensures
        ({
            let (p, split) = spec_ingest_protocol_fees(pool, amount, fee_vault_amount, slot)->Ok_0;
            &&& split.burn + split.staker == amount
            &&& split.burn == amount * pool.burn_bps / 10_000
            &&& split.burn <= amount
        }),
{
    let burn_bps = pool.burn_bps as int;
    assert(amount * burn_bps / 10_000 <= amount) by (nonlinear_arith)
        requires
            0 <= burn_bps <= 10_000,
            amount >= 0,
    ;
}

/// Halving never raises the emission: it at least halves it.
pub proof fn lemma_halving_never_increases_emission(pool: StakePool, slot: u64)
    requires
        spec_apply_halving(pool, slot) is Ok,
    ensures
        ({
            let p = spec_apply_halving(pool, slot)->Ok_0;
            &&& p.emission_per_slot <= pool.emission_per_slot
            &&& 2 * p.emission_per_slot <= pool.emission_per_slot || pool.emission_per_slot <= 1
            &&& p.last_halving_slot == slot
        }),
{
}

/// Fee shares are pro rata: after the stakers' part of a fee is credited, two
/// positions of the same tier checkpointed at the old index have pending
/// rewards of their stake times the index growth (scaled down, then boosted by
/// the tier), so the larger stake never earns less.
pub proof fn lemma_fee_share_pro_rata(
    pool: StakePool,
    staker_amount: u64,
    pos1: StakePosition,
    pos2: StakePosition,
)
    requires
        spec_credit_staker_fees(pool, staker_amount) is Ok,
        pos1.reward_debt == pool.reward_index,
        pos2.reward_debt == pool.reward_index,
        pos1.tier == pos2.tier,
        pos1.amount <= pos2.amount,
        spec_pending_rewards(spec_credit_staker_fees(pool, staker_amount)->Ok_0, pos2) is Ok,
    ensures
        ({
            let p = spec_credit_staker_fees(pool, staker_amount)->Ok_0;
            let growth = p.reward_index - pool.reward_index;
            let m = pos1.tier.spec_multiplier_bps();
            &&& growth == (if staker_amount > 0 && pool.total_staked > 0 {
                (staker_amount * INDEX_SCALE) / (pool.total_staked as int)
            } else {
                0
            })
            &&& spec_pending_rewards(p, pos1) is Ok
            &&& spec_pending_rewards(p, pos1)->Ok_0 == (pos1.amount * growth / (INDEX_SCALE as int))
                * m / (BPS_DENOM as int)
            &&& spec_pending_rewards(p, pos2)->Ok_0 == (pos2.amount * growth / (INDEX_SCALE as int))
                * m / (BPS_DENOM as int)
            &&& spec_pending_rewards(p, pos1)->Ok_0 <= spec_pending_rewards(p, pos2)->Ok_0
        }),
{
    let p = spec_credit_staker_fees(pool, staker_amount)->Ok_0;
    let g: int = p.reward_index - pool.reward_index;
    let m: int = pos1.tier.spec_multiplier_bps() as int;
    let a1: int = pos1.amount as int;
    let a2: int = pos2.amount as int;
    let k: int = INDEX_SCALE as int;
    let b: int = BPS_DENOM as int;
    assert(g >= 0);
    assert(a1 * g <= a2 * g) by (nonlinear_arith)
        requires
            0 <= a1 <= a2,
            g >= 0,
    ;
    assert(a1 * g >= 0) by (nonlinear_arith)
        requires
            a1 >= 0,
            g >= 0,
    ;
    assert((a1 * g) / k <= (a2 * g) / k) by (nonlinear_arith)
        requires
            0 <= a1 * g <= a2 * g,
            k > 0,
    ;
    assert(((a1 * g) / k) * m <= ((a2 * g) / k) * m) by (nonlinear_arith)
        requires
            0 <= (a1 * g) / k <= (a2 * g) / k,
            m >= 0,
    ;
    assert(((a1 * g) / k) * m >= 0) by (nonlinear_arith)
        requires
            (a1 * g) / k >= 0,
            m >= 0,
    ;
    assert((((a1 * g) / k) * m) / b <= (((a2 * g) / k) * m) / b) by (nonlinear_arith)
        requires
            0 <= ((a1 * g) / k) * m <= ((a2 * g) / k) * m,
            b > 0,
    ;
}

/// The stake held by a set of positions: the sum of their amounts (stake that
/// is unbonding is not counted).
pub open spec fn spec_total_amount(positions: Seq<StakePosition>) -> int
    decreases positions.len(),
{
    if positions.len() == 0 {
        0
    } else {
        spec_total_amount(positions.drop_last()) + positions.last().amount
    }
}

/// Replacing one position changes the total by the change of its amount.
proof fn lemma_total_amount_update(positions: Seq<StakePosition>, i: int, q: StakePosition)
    requires
        0 <= i < positions.len(),
    ensures
        spec_total_amount(positions.update(i, q)) == spec_total_amount(positions)
            - positions[i].amount + q.amount,
    decreases positions.len(),
{
    let u = positions.update(i, q);
    if i == positions.len() - 1 {
        assert(u.drop_last() =~= positions.drop_last());
    } else {
        lemma_total_amount_update(positions.drop_last(), i, q);
        assert(u.drop_last() =~= positions.drop_last().update(i, q));
    }
}

/// Stake accounting: where the pool's total stake is the sum of the amounts of
/// all positions, it stays so after `stake`, `commit_stake`, `request_unstake`
/// or `complete_unstake` on any one of them (a failed call changes nothing).
pub proof fn lemma_stake_accounting_preserved(
    pool: StakePool,
    positions: Seq<StakePosition>,
    i: int,
    owner: Pubkey,
    amount: u64,
    slot: u64,
    treasury_amount: u64,
    position_bump: u8,
    vault_amount: u64,
)
    requires
        0 <= i < positions.len(),
        pool.total_staked == spec_total_amount(positions),
    ensures
        spec_stake(pool, positions[i], owner, amount, slot, treasury_amount, position_bump) matches Ok(
            (p, q, payout),
        ) ==> p.total_staked == spec_total_amount(positions.update(i, q)),
        spec_commit_stake(pool, positions[i], amount) matches Ok((p, q)) ==> p.total_staked
            == spec_total_amount(positions.update(i, q)),
        spec_request_unstake(pool, positions[i], amount, slot, treasury_amount) matches Ok(
            (p, q, payout),
        ) ==> p.total_staked == spec_total_amount(positions.update(i, q)),
        spec_complete_unstake(positions[i], slot, vault_amount) matches Ok((q, paid))
            ==> pool.total_staked == spec_total_amount(positions.update(i, q)),
{
    let pos = positions[i];
    match spec_stake(pool, pos, owner, amount, slot, treasury_amount, position_bump) {
        Ok((p, q, _)) => {
            lemma_total_amount_update(positions, i, q);
        },
        Err(_) => {},
    }
    match spec_commit_stake(pool, pos, amount) {
        Ok((p, q)) => {
            lemma_total_amount_update(positions, i, q);
        },
        Err(_) => {},
    }
    match spec_request_unstake(pool, pos, amount, slot, treasury_amount) {
        Ok((p, q, _)) => {
            lemma_total_amount_update(positions, i, q);
        },
        Err(_) => {},
    }
    match spec_complete_unstake(pos, slot, vault_amount) {
        Ok((q, _)) => {
            lemma_total_amount_update(positions, i, q);
        },
        Err(_) => {},
    }
}

/// The tier a stake of `amount` earns, by the tier thresholds: 100 million and
/// more Elite, 10 million and more Core, Flex below.
pub open spec fn spec_tier_by_threshold(amount: int) -> StakeTier {
    if amount >= 100_000_000 {
        StakeTier::Elite
    } else if amount >= 10_000_000 {
        StakeTier::Core
    } else {
        StakeTier::Flex
    }
}

/// Accrual spreads the emission since the last update over the stake: with
/// stake and time passed, the index grows by `elapsed * emission * 10^12 /
/// total_staked` and the update slot becomes `slot`; otherwise the index stays
/// and the update slot never moves back. Nothing else changes.
pub proof fn lemma_accrue_spreads_emission(pool: StakePool, slot: u64)
    requires
        spec_accrue(pool, slot) is Ok,
    ensures
        ({
            let p = spec_accrue(pool, slot)->Ok_0;
            &&& slot > pool.last_update_slot && pool.total_staked > 0 ==> p.reward_index
                == pool.reward_index + (slot - pool.last_update_slot) * pool.emission_per_slot
                * 1_000_000_000_000int / (pool.total_staked as int)
            &&& !(slot > pool.last_update_slot && pool.total_staked > 0) ==> p.reward_index
                == pool.reward_index
            &&& p.last_update_slot == if slot > pool.last_update_slot {
                slot
            } else {
                pool.last_update_slot
            }
            &&& p == StakePool {
                reward_index: p.reward_index,
                last_update_slot: p.last_update_slot,
                ..pool
            }
        }),
{
}

/// A stake top-up: the position grows by the deposit, takes the tier of its
/// new total (so a top-up never lowers the tier of what was held), is
/// checkpointed at the pool's index, and the pool's total grows by the deposit.
pub proof fn lemma_commit_stake_takes_tier_of_total(
    pool: StakePool,
    pos: StakePosition,
    amount: u64,
)
    requires
        spec_commit_stake(pool, pos, amount) is Ok,
    ensures
        ({
            let (p, q) = spec_commit_stake(pool, pos, amount)->Ok_0;
            &&& q.amount == pos.amount + amount
            &&& q.tier == spec_tier_by_threshold(pos.amount + amount)
            &&& spec_tier_by_threshold(pos.amount as int).spec_multiplier_bps()
                <= q.tier.spec_multiplier_bps()
            &&& q.reward_debt == pool.reward_index
            &&& p.total_staked == pool.total_staked + amount
            &&& p.reward_index == pool.reward_index
        }),
{
}

/// Unstaking checkpoints the position: after `request_unstake` the position's
/// reward debt is the accrued index, nothing is pending on it, and a `stake`
/// at the same slot pays nothing more, so a reward paid at unstake is never
/// paid again. The stake leaves the position and the pool by `amount`.
pub proof fn lemma_unstake_checkpoints_position(
    pool: StakePool,
    pos: StakePosition,
    amount: u64,
    slot: u64,
    treasury_amount: u64,
    owner: Pubkey,
    amount2: u64,
    treasury_amount2: u64,
    position_bump: u8,
)
    requires
        spec_request_unstake(pool, pos, amount, slot, treasury_amount) is Ok,
    ensures
        ({
            let (p, q, payout) = spec_request_unstake(pool, pos, amount, slot, treasury_amount)->Ok_0;
            &&& q.reward_debt == p.reward_index
            &&& spec_pending_rewards(p, q) == Ok::<u64, SnowboardDepinError>(0)
            &&& q.amount == pos.amount - amount
            &&& q.pending_unbond == amount
            &&& p.total_staked == pool.total_staked - amount
            &&& spec_stake(p, q, owner, amount2, slot, treasury_amount2, position_bump) matches Ok(
                (p2, q2, payout2),
            ) ==> payout2 == 0
        }),
{
    let (p, q, payout) = spec_request_unstake(pool, pos, amount, slot, treasury_amount)->Ok_0;
    assert(q.amount * 0int == 0);
    assert(0int * q.tier.spec_multiplier_bps() == 0);
}

/// Halving accrues first: the emission up to `slot` is spread at the rate
/// before the halving (the pool's index and update slot are those of accruing
/// to `slot`), then the rate halves (a rate of 1 or less drops to 0) and the
/// halving slot becomes `slot`. Nothing else changes.
pub proof fn lemma_halving_accrues_at_old_rate(pool: StakePool, slot: u64)
    requires
        spec_apply_halving(pool, slot) is Ok,
    ensures
        spec_accrue(pool, slot) is Ok,
        ({
            let p = spec_apply_halving(pool, slot)->Ok_0;
            let accrued = spec_accrue(pool, slot)->Ok_0;
            &&& p == StakePool {
                emission_per_slot: p.emission_per_slot,
                last_halving_slot: slot,
                ..accrued
            }
            &&& p.emission_per_slot == if pool.emission_per_slot > 1 {
                pool.emission_per_slot / 2
            } else {
                0
            }
            &&& slot > pool.last_update_slot && pool.total_staked > 0 ==> p.reward_index
                == pool.reward_index + (slot - pool.last_update_slot) * pool.emission_per_slot
                * 1_000_000_000_000int / (pool.total_staked as int)
            &&& p.last_update_slot >= slot
        }),
{
    lemma_accrue_spreads_emission(pool, slot);
}

/// Staking settles what is pending first: the pool accrues to `slot`, the
/// position keeps its stake and checkpoint (a new one takes `owner`), and the
/// payout is the reward pending on the position at the accrued index when the
/// treasury holds it, nothing otherwise. Unstaking pays the same way.
pub proof fn lemma_checkpoints_pay_pending(
    pool: StakePool,
    pos: StakePosition,
    owner: Pubkey,
    amount: u64,
    slot: u64,
    treasury_amount: u64,
    position_bump: u8,
)
    ensures
        spec_stake(pool, pos, owner, amount, slot, treasury_amount, position_bump) matches Ok(
            (p, q, payout),
        ) ==> {
            let pending = spec_pending_rewards(p, pos);
            &&& spec_accrue(pool, slot) == Ok::<StakePool, SnowboardDepinError>(p)
            &&& q.amount == pos.amount
            &&& q.reward_debt == pos.reward_debt
            &&& q.owner == if pos.owner@ == spec_default_key() {
                owner
            } else {
                pos.owner
            }
            &&& payout == if pos.amount > 0 && pending is Ok && pending->Ok_0 > 0 && treasury_amount
                >= pending->Ok_0 {
                pending->Ok_0
            } else {
                0
            }
        },
        spec_request_unstake(pool, pos, amount, slot, treasury_amount) matches Ok((p, q, payout))
            ==> {
            let pending = spec_pending_rewards(spec_accrue(pool, slot)->Ok_0, pos);
            &&& pending is Ok
            &&& payout == if pending->Ok_0 > 0 && treasury_amount >= pending->Ok_0 {
                pending->Ok_0
            } else {
                0
            }
        },
{
}

} // verus!
