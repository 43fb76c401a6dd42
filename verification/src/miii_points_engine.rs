//! The telemetry points engine: device registration, anti-fraud checks on
//! signed telemetry, reward computation with diminishing returns, per-epoch
//! emission limits and settlement of each report.

use vstd::prelude::*;
use vstd::string::*;
use vstd::utf8::encode_utf8;
use crate::constants::{
    DEFAULT_EPOCH_SLOTS, DEFAULT_MAX_EPOCH_EMISSION, DEFAULT_MAX_PAYOUT,
    DEFAULT_REWARD_PER_AIRTIME_MS, DEFAULT_REWARD_PER_DROP_CM, DEFAULT_REWARD_PER_METER,
    DIMINISH_K, MAX_ACCEL_MILLI_G, MAX_CLOCK_LEAD_SECS, MAX_DEVICE_ID_LEN, MAX_DISTANCE_CM,
    MAX_IMU_DELTA, MAX_SAMPLE_DT_SECS, MAX_SPEED_CM_S,
};
use crate::crypto::{
    build_telemetry_message, push_bytes, spec_check_ed25519_instruction, spec_telemetry_message,
    sysvar_instruction_at, verify_ed25519_signature,
};
use crate::errors::SnowboardDepinError;
use crate::state::{
    Device, DeviceStatus, GlobalConfig, HardwareAdapter, Pubkey, spec_zero_key, TelemetryRecord,
    TelemetrySample,
};
use crate::universal_decoder::{normalize, spec_normalize};

verus! {

/// The configuration that `initialize` writes: a zero reward rate selects the
/// default rate, every other parameter takes its default, counters start at zero.
pub open spec fn spec_initialize(
    admin: Pubkey,
    fusion_mint: Pubkey,
    treasury_vault: Pubkey,
    fee_vault: Pubkey,
    reward_per_meter: u64,
    genesis_slot: u64,
    bump: u8,
    treasury_bump: u8,
    fee_vault_bump: u8,
) -> GlobalConfig {
    GlobalConfig {
        admin,
        fusion_mint,
        treasury_vault,
        fee_vault,
        stake_pool: spec_zero_key(),
        reward_per_meter: if reward_per_meter == 0 {
            DEFAULT_REWARD_PER_METER
        } else {
            reward_per_meter
        },
        reward_per_trick: 0,
        airtime_bps_per_ms: 0,
        rotation_bps_per_rev: 0,
        max_trick_multiplier_bps: 0,
        reward_per_drop_cm: DEFAULT_REWARD_PER_DROP_CM,
        reward_per_airtime_ms: DEFAULT_REWARD_PER_AIRTIME_MS,
        max_payout_per_report: DEFAULT_MAX_PAYOUT,
        max_epoch_emission: DEFAULT_MAX_EPOCH_EMISSION,
        epoch_slots: DEFAULT_EPOCH_SLOTS,
        total_devices: 0,
        total_rewards_distributed: 0,
        genesis_slot,
        bump,
        treasury_bump,
        fee_vault_bump,
    }
}

/// Creates the program configuration; `genesis_slot` is the current slot.
pub fn initialize(
    admin: Pubkey,
    fusion_mint: Pubkey,
    treasury_vault: Pubkey,
    fee_vault: Pubkey,
    reward_per_meter: u64,
    genesis_slot: u64,
    bump: u8,
    treasury_bump: u8,
    fee_vault_bump: u8,
) -> (config: GlobalConfig)
    ensures
        config == spec_initialize(
            admin,
            fusion_mint,
            treasury_vault,
            fee_vault,
            reward_per_meter,
            genesis_slot,
            bump,
            treasury_bump,
            fee_vault_bump,
        ),
{
    GlobalConfig {
        admin,
        fusion_mint,
        treasury_vault,
        fee_vault,
        stake_pool: [0u8; 32],
        reward_per_meter: if reward_per_meter == 0 {
            DEFAULT_REWARD_PER_METER
        } else {
            reward_per_meter
        },
        reward_per_trick: 0,
        airtime_bps_per_ms: 0,
        rotation_bps_per_rev: 0,
        max_trick_multiplier_bps: 0,
        reward_per_drop_cm: DEFAULT_REWARD_PER_DROP_CM,
        reward_per_airtime_ms: DEFAULT_REWARD_PER_AIRTIME_MS,
        max_payout_per_report: DEFAULT_MAX_PAYOUT,
        max_epoch_emission: DEFAULT_MAX_EPOCH_EMISSION,
        epoch_slots: DEFAULT_EPOCH_SLOTS,
        total_devices: 0,
        total_rewards_distributed: 0,
        genesis_slot,
        bump,
        treasury_bump,
        fee_vault_bump,
    }
}

/// Byte length of a device id.
pub open spec fn spec_id_len(device_id: String) -> nat {
    encode_utf8(device_id@).len()
}

/// A freshly registered, active device with all counters at zero.
pub open spec fn spec_new_device(
    owner: Pubkey,
    device_id: String,
    device_pubkey: Pubkey,
    bump: u8,
) -> Device {
    Device {
        owner,
        device_pubkey,
        device_id,
        status: DeviceStatus::Active,
        last_nonce: 0,
        last_timestamp: 0,
        last_lat_e7: 0,
        last_lon_e7: 0,
        last_speed_cm_s: 0,
        last_accel_milli_g: 0,
        epoch_id: 0,
        epoch_emitted: 0,
        epoch_distance_m: 0,
        total_distance_m: 0,
        total_rewards: 0,
        processing_lock: 0,
        bump,
    }
}

/// Registers a device whose id is 1 to `MAX_DEVICE_ID_LEN` bytes long and
/// counts it in the configuration; on failure the configuration is unchanged.
pub fn register_device(
    config: &mut GlobalConfig,
    owner: Pubkey,
    device_id: String,
    device_pubkey: Pubkey,
    bump: u8,
) -> (r: Result<Device, SnowboardDepinError>)
    ensures
        spec_id_len(device_id) == 0 || spec_id_len(device_id) > MAX_DEVICE_ID_LEN ==> r
            == Err::<Device, SnowboardDepinError>(SnowboardDepinError::InvalidDeviceId)
            && *final(config) == *old(config),
        0 < spec_id_len(device_id) <= MAX_DEVICE_ID_LEN && old(config).total_devices == u64::MAX
            ==> r == Err::<Device, SnowboardDepinError>(SnowboardDepinError::MathOverflow)
            && *final(config) == *old(config),
        0 < spec_id_len(device_id) <= MAX_DEVICE_ID_LEN && old(config).total_devices < u64::MAX
            ==> r == Ok::<Device, SnowboardDepinError>(
            spec_new_device(owner, device_id, device_pubkey, bump),
        ) && *final(config) == (GlobalConfig {
            total_devices: (old(config).total_devices + 1) as u64,
            ..*old(config)
        }),
{
    let id_len = device_id.as_str().as_bytes_vec().len();
    if !(id_len != 0 && id_len <= MAX_DEVICE_ID_LEN) {
        return Err(SnowboardDepinError::InvalidDeviceId);
    }
    let total = match config.total_devices.checked_add(1) {
        Some(t) => t,
        None => return Err(SnowboardDepinError::MathOverflow),
    };
    config.total_devices = total;
    Ok(
        Device {
            owner,
            device_pubkey,
            device_id,
            status: DeviceStatus::Active,
            last_nonce: 0,
            last_timestamp: 0,
            last_lat_e7: 0,
            last_lon_e7: 0,
            last_speed_cm_s: 0,
            last_accel_milli_g: 0,
            epoch_id: 0,
            epoch_emitted: 0,
            epoch_distance_m: 0,
            total_distance_m: 0,
            total_rewards: 0,
            processing_lock: 0,
            bump,
        },
    )
}

/// Sets the reward per meter; zero is refused.
pub fn update_reward_rate(config: &mut GlobalConfig, reward_per_meter: u64) -> (r: Result<
    (),
    SnowboardDepinError,
>)
    ensures
        reward_per_meter == 0 ==> r == Err::<(), SnowboardDepinError>(
            SnowboardDepinError::InvalidRewardRate,
        ) && *final(config) == *old(config),
        reward_per_meter > 0 ==> r == Ok::<(), SnowboardDepinError>(()) && *final(config) == (
        GlobalConfig { reward_per_meter, ..*old(config) }),
{
    if reward_per_meter == 0 {
        return Err(SnowboardDepinError::InvalidRewardRate);
    }
    config.reward_per_meter = reward_per_meter;
    Ok(())
}

/// Marks a device inactive; nothing else changes.
pub fn deactivate_device(device: &mut Device)
    ensures
        *final(device) == (Device { status: DeviceStatus::Inactive, ..*old(device) }),
{
    device.status = DeviceStatus::Inactive;
}

pub open spec fn spec_abs(x: int) -> int {
    if x < 0 {
        -x
    } else {
        x
    }
}

/// Distance in cm between two positions, at 1.11 cm per 1e-7 degree on each axis.
pub open spec fn spec_approx_travel_cm(lat0: i32, lon0: i32, lat1: i32, lon1: i32) -> int {
    ((spec_abs(lat1 - lat0) + spec_abs(lon1 - lon0)) * 111) / 100
}

/// Farthest plausible travel in cm over `dt` seconds at the mean of two
/// speeds, plus 50 m of slack.
pub open spec fn spec_max_travel_cm(speed0: u32, speed1: u32, dt: int) -> int {
    ((speed0 + speed1) * dt) / 2 + 5_000
}

/// The checks on a sample that do not involve the clock or the previous report.
pub open spec fn spec_sample_bounds(d: Device, s: TelemetrySample) -> Result<
    (),
    SnowboardDepinError,
> {
    if s.nonce <= d.last_nonce {
        Err(SnowboardDepinError::ReplayDetected)
    } else if !(s.distance_cm > 0 && s.distance_cm <= MAX_DISTANCE_CM) {
        Err(SnowboardDepinError::InvalidDistance)
    } else if s.speed_cm_s > MAX_SPEED_CM_S {
        Err(SnowboardDepinError::SpeedThresholdExceeded)
    } else if s.accel_milli_g > MAX_ACCEL_MILLI_G {
        Err(SnowboardDepinError::AccelerationCapExceeded)
    } else if s.imu_delta > MAX_IMU_DELTA {
        Err(SnowboardDepinError::ImuDeltaThresholdExceeded)
    } else {
        Ok(())
    }
}

/// Anti-fraud verdict on a sample: replay, physical bounds, a timestamp at
/// most 30 s ahead of the clock `now`, and, after a first report, a strictly
/// later timestamp at most `MAX_SAMPLE_DT_SECS` on whose travel is plausible.
pub open spec fn spec_anti_fraud(d: Device, s: TelemetrySample, now: i64) -> Result<
    (),
    SnowboardDepinError,
> {
    match spec_sample_bounds(d, s) {
        Err(e) => Err(e),
        Ok(_) => if s.timestamp > now + MAX_CLOCK_LEAD_SECS {
            Err(SnowboardDepinError::InvalidTimestamp)
        } else if d.last_timestamp > 0 {
            if s.timestamp <= d.last_timestamp {
                Err(SnowboardDepinError::ReplayDetected)
            } else if s.timestamp - d.last_timestamp > MAX_SAMPLE_DT_SECS {
                Err(SnowboardDepinError::InvalidTimestamp)
            } else if spec_approx_travel_cm(d.last_lat_e7, d.last_lon_e7, s.lat_e7, s.lon_e7)
                > spec_max_travel_cm(
                s.speed_cm_s,
                d.last_speed_cm_s,
                s.timestamp - d.last_timestamp,
            ) {
                Err(SnowboardDepinError::SpatialContinuityFailed)
            } else {
                Ok(())
            }
        } else {
            Ok(())
        },
    }
}

/// Checks a sample against the device's last report and the clock `now`.
pub fn apply_anti_fraud(device: &Device, sample: &TelemetrySample, now: i64) -> (r: Result<
    (),
    SnowboardDepinError,
>)
    requires
        spec_sample_bounds(*device, *sample) is Ok ==> now + MAX_CLOCK_LEAD_SECS <= i64::MAX,
    ensures
        r == spec_anti_fraud(*device, *sample, now),
{
    if !(sample.nonce > device.last_nonce) {
        return Err(SnowboardDepinError::ReplayDetected);
    }
    if !(sample.distance_cm > 0 && sample.distance_cm <= MAX_DISTANCE_CM) {
        return Err(SnowboardDepinError::InvalidDistance);
    }
    if sample.speed_cm_s > MAX_SPEED_CM_S {
        return Err(SnowboardDepinError::SpeedThresholdExceeded);
    }
    if sample.accel_milli_g > MAX_ACCEL_MILLI_G {
        return Err(SnowboardDepinError::AccelerationCapExceeded);
    }
    if sample.imu_delta > MAX_IMU_DELTA {
        return Err(SnowboardDepinError::ImuDeltaThresholdExceeded);
    }
    if sample.timestamp > now + MAX_CLOCK_LEAD_SECS {
        return Err(SnowboardDepinError::InvalidTimestamp);
    }
    if device.last_timestamp > 0 {
        if !(sample.timestamp > device.last_timestamp) {
            return Err(SnowboardDepinError::ReplayDetected);
        }
        let dt = match sample.timestamp.checked_sub(device.last_timestamp) {
            Some(v) => v,
            None => return Err(SnowboardDepinError::InvalidTimestamp),
        };
        if dt > MAX_SAMPLE_DT_SECS {
            return Err(SnowboardDepinError::InvalidTimestamp);
        }
        let dlat: i64 = (sample.lat_e7 as i64) - (device.last_lat_e7 as i64);
        let dlon: i64 = (sample.lon_e7 as i64) - (device.last_lon_e7 as i64);
        let abs_lat: u64 = if dlat < 0 {
            (0 - dlat) as u64
        } else {
            dlat as u64
        };
        let abs_lon: u64 = if dlon < 0 {
            (0 - dlon) as u64
        } else {
            dlon as u64
        };
        let approx_cm: u64 = (abs_lat + abs_lon) * 111 / 100;
        let speed_sum: u64 = (sample.speed_cm_s as u64) + (device.last_speed_cm_s as u64);
        assert(speed_sum * (dt as u64) <= 0x2_0000_0000u64 * 120) by (nonlinear_arith)
            requires
                speed_sum <= 0x2_0000_0000u64,
                0 < dt <= 120,
        ;
        let max_travel: u64 = speed_sum * (dt as u64) / 2 + 5_000;
        if approx_cm > max_travel {
            return Err(SnowboardDepinError::SpatialContinuityFailed);
        }
    }
    Ok(())
}

/// Reward before the per-report cap: distance, drop and airtime parts, scaled
/// by `K / (K + epoch_distance_m)` so that returns diminish over an epoch; an
/// intermediate value beyond `u64` is an overflow.
pub open spec fn spec_reward(config: GlobalConfig, epoch_distance_m: u64, s: TelemetrySample) -> Result<
    u64,
    SnowboardDepinError,
> {
    let dist_m = s.distance_cm / 100;
    let distance_part = dist_m * config.reward_per_meter;
    let drop_part = s.vertical_drop_cm * config.reward_per_drop_cm;
    let air_part = s.airtime_ms * config.reward_per_airtime_ms;
    let raw = distance_part + drop_part + air_part;
    let denom = DIMINISH_K + epoch_distance_m;
    if distance_part > u64::MAX || drop_part > u64::MAX || air_part > u64::MAX || raw > u64::MAX
        || denom > u64::MAX || raw * DIMINISH_K > u64::MAX {
        Err(SnowboardDepinError::MathOverflow)
    } else {
        Ok(((raw * DIMINISH_K) / denom) as u64)
    }
}

fn reward_for(config: &GlobalConfig, epoch_distance_m: u64, sample: &TelemetrySample) -> (r: Result<
    u64,
    SnowboardDepinError,
>)
    ensures
        r == spec_reward(*config, epoch_distance_m, *sample),
{
    let dist_m = (sample.distance_cm as u64) / 100;
    let distance_part = match dist_m.checked_mul(config.reward_per_meter) {
        Some(v) => v,
        None => return Err(SnowboardDepinError::MathOverflow),
    };
    let drop_part = match (sample.vertical_drop_cm as u64).checked_mul(config.reward_per_drop_cm) {
        Some(v) => v,
        None => return Err(SnowboardDepinError::MathOverflow),
    };
    let air_part = match (sample.airtime_ms as u64).checked_mul(config.reward_per_airtime_ms) {
        Some(v) => v,
        None => return Err(SnowboardDepinError::MathOverflow),
    };
    let raw = match distance_part.checked_add(drop_part) {
        Some(v) => match v.checked_add(air_part) {
            Some(w) => w,
            None => return Err(SnowboardDepinError::MathOverflow),
        },
        None => return Err(SnowboardDepinError::MathOverflow),
    };
    let denom = match DIMINISH_K.checked_add(epoch_distance_m) {
        Some(v) => v,
        None => return Err(SnowboardDepinError::MathOverflow),
    };
    match raw.checked_mul(DIMINISH_K) {
        Some(v) => match v.checked_div(denom) {
            Some(w) => Ok(w),
            None => Err(SnowboardDepinError::MathOverflow),
        },
        None => Err(SnowboardDepinError::MathOverflow),
    }
}

/// Reward for a sample, given the distance the device has covered this epoch.
pub fn compute_reward(config: &GlobalConfig, device: &Device, sample: &TelemetrySample) -> (r: Result<
    u64,
    SnowboardDepinError,
>)
    ensures
        r == spec_reward(*config, device.epoch_distance_m, *sample),
{
    reward_for(config, device.epoch_distance_m, sample)
}

/// The epoch of a slot; an epoch length of zero counts as one slot.
pub open spec fn spec_epoch_id(config: GlobalConfig, slot: u64) -> u64 {
    if config.epoch_slots == 0 {
        slot
    } else {
        slot / config.epoch_slots
    }
}

/// Entering a new epoch clears the epoch counters.
pub fn rotate_epoch(device: &mut Device, epoch_id: u64)
    ensures
        old(device).epoch_id != epoch_id ==> *final(device) == (Device {
            epoch_id,
            epoch_emitted: 0,
            epoch_distance_m: 0,
            ..*old(device)
        }),
        old(device).epoch_id == epoch_id ==> *final(device) == *old(device),
{
    if device.epoch_id != epoch_id {
        device.epoch_id = epoch_id;
        device.epoch_emitted = 0;
        device.epoch_distance_m = 0;
    }
}


/// What a settled report pays out and records.
#[derive(Debug, Clone, Copy, PartialEq, Eq)]
pub struct TelemetrySettlement {
    /// The record to store for the report.
    pub record: TelemetryRecord,
    /// Tokens to transfer from the treasury to the device owner.
    pub reward: u64,
}

/// The device's epoch counters once the epoch of `slot` has been entered.
pub open spec fn spec_rotated_counters(config: GlobalConfig, d: Device, slot: u64) -> (u64, u64) {
    if d.epoch_id != spec_epoch_id(config, slot) {
        (0, 0)
    } else {
        (d.epoch_emitted, d.epoch_distance_m)
    }
}

/// The payout of a report that passed its checks: the reward capped at
/// `max_payout_per_report`, refused where it would take the device's epoch
/// emission past `max_epoch_emission` or the treasury below zero.
pub open spec fn spec_payout(
    config: GlobalConfig,
    d: Device,
    s: TelemetrySample,
    slot: u64,
    treasury_amount: u64,
) -> Result<u64, SnowboardDepinError> {
    let (emitted, distance) = spec_rotated_counters(config, d, slot);
    match spec_reward(config, distance, s) {
        Err(e) => Err(e),
        Ok(raw) => {
            let reward = if raw < config.max_payout_per_report {
                raw
            } else {
                config.max_payout_per_report
            };
            if emitted + reward > u64::MAX {
                Err(SnowboardDepinError::MathOverflow)
            } else if emitted + reward > config.max_epoch_emission {
                Err(SnowboardDepinError::RateLimitReached)
            } else if treasury_amount < reward {
                Err(SnowboardDepinError::InsufficientTreasury)
            } else {
                Ok(reward)
            }
        },
    }
}

/// The record stored for a settled report.
pub open spec fn spec_record(
    device_address: Pubkey,
    s: TelemetrySample,
    reward: u64,
    record_bump: u8,
) -> TelemetryRecord {
    TelemetryRecord {
        device: device_address,
        nonce: s.nonce,
        timestamp: s.timestamp,
        distance_meters: (s.distance_cm / 100) as u32,
        vertical_drop_cm: s.vertical_drop_cm,
        airtime_ms: s.airtime_ms,
        reward_amount: reward,
        bump: record_bump,
    }
}

/// Outcome of `submit_telemetry`: the updated configuration and device (with
/// the processing lock held while the reward is transferred) and the
/// settlement, or the first check that fails.
pub open spec fn spec_submit_telemetry(
    config: GlobalConfig,
    d: Device,
    device_address: Pubkey,
    s: TelemetrySample,
    ix: Option<(Seq<u8>, Seq<u8>)>,
    sig_ix: u8,
    now: i64,
    slot: u64,
    treasury_amount: u64,
    record_bump: u8,
) -> Result<(GlobalConfig, Device, TelemetrySettlement), SnowboardDepinError> {
    if d.status != DeviceStatus::Active {
        Err(SnowboardDepinError::DeviceInactive)
    } else if d.processing_lock != 0 {
        Err(SnowboardDepinError::Reentrancy)
    } else {
        match spec_anti_fraud(d, s, now) {
            Err(e) => Err(e),
            Ok(_) => match spec_check_ed25519_instruction(
                ix,
                sig_ix,
                d.device_pubkey@,
                spec_telemetry_message(device_address@, s),
            ) {
                Err(e) => Err(e),
                Ok(_) => match spec_payout(config, d, s, slot, treasury_amount) {
                    Err(e) => Err(e),
                    Ok(reward) => {
                        let (emitted, distance) = spec_rotated_counters(config, d, slot);
                        let dist_m = s.distance_cm / 100;
                        if distance + dist_m > u64::MAX || d.total_distance_m + dist_m > u64::MAX
                            || d.total_rewards + reward > u64::MAX
                            || config.total_rewards_distributed + reward > u64::MAX {
                            Err(SnowboardDepinError::MathOverflow)
                        } else {
                            Ok(
                                (
                                    GlobalConfig {
                                        total_rewards_distributed: (config.total_rewards_distributed
                                            + reward) as u64,
                                        ..config
                                    },
                                    Device {
                                        processing_lock: 1,
                                        last_nonce: s.nonce,
                                        last_timestamp: s.timestamp,
                                        last_lat_e7: s.lat_e7,
                                        last_lon_e7: s.lon_e7,
                                        last_speed_cm_s: s.speed_cm_s,
                                        last_accel_milli_g: s.accel_milli_g,
                                        epoch_id: spec_epoch_id(config, slot),
                                        epoch_emitted: (emitted + reward) as u64,
                                        epoch_distance_m: (distance + dist_m) as u64,
                                        total_distance_m: (d.total_distance_m + dist_m) as u64,
                                        total_rewards: (d.total_rewards + reward) as u64,
                                        ..d
                                    },
                                    TelemetrySettlement {
                                        record: spec_record(device_address, s, reward, record_bump),
                                        reward,
                                    },
                                ),
                            )
                        }
                    },
                },
            },
        }
    }
}

fn epoch_of(config: &GlobalConfig, slot: u64) -> (e: u64)
    ensures
        e == spec_epoch_id(*config, slot),
{
    let len = if config.epoch_slots > 1 {
        config.epoch_slots
    } else {
        1
    };
    slot / len
}

fn payout(
    config: &GlobalConfig,
    device: &Device,
    sample: &TelemetrySample,
    slot: u64,
    treasury_amount: u64,
) -> (r: Result<u64, SnowboardDepinError>)
    ensures
        r == spec_payout(*config, *device, *sample, slot, treasury_amount),
{
    let epoch_id = epoch_of(config, slot);
    let (emitted, distance) = if device.epoch_id != epoch_id {
        (0u64, 0u64)
    } else {
        (device.epoch_emitted, device.epoch_distance_m)
    };
    let raw = match reward_for(config, distance, sample) {
        Ok(v) => v,
        Err(e) => return Err(e),
    };
    let reward = if raw < config.max_payout_per_report {
        raw
    } else {
        config.max_payout_per_report
    };
    let next_emitted = match emitted.checked_add(reward) {
        Some(v) => v,
        None => return Err(SnowboardDepinError::MathOverflow),
    };
    if next_emitted > config.max_epoch_emission {
        return Err(SnowboardDepinError::RateLimitReached);
    }
    if treasury_amount < reward {
        return Err(SnowboardDepinError::InsufficientTreasury);
    }
    Ok(reward)
}

/// Settles a signed telemetry sample: checks the device, the anti-fraud rules
/// and the Ed25519 verify instruction at `ed25519_ix_index`, enters the epoch
/// of `slot`, computes the capped reward and books it. `now` is the cluster's
/// unix time, `treasury_amount` the treasury balance. On success the device's
/// processing lock is held until `release_processing_lock`, after the reward
/// transfer; on failure nothing changes.
pub fn submit_telemetry(
    config: &mut GlobalConfig,
    device: &mut Device,
    device_address: &Pubkey,
    sample: &TelemetrySample,
    sysvar_data: &[u8],
    ed25519_ix_index: u8,
    now: i64,
    slot: u64,
    treasury_amount: u64,
    record_bump: u8,
) -> (r: Result<TelemetrySettlement, SnowboardDepinError>)
    requires
        old(device).status == DeviceStatus::Active && old(device).processing_lock == 0
            && spec_sample_bounds(*old(device), *sample) is Ok ==> now + MAX_CLOCK_LEAD_SECS
            <= i64::MAX,
    ensures
        match spec_submit_telemetry(
            *old(config),
            *old(device),
            *device_address,
            *sample,
            sysvar_instruction_at(ed25519_ix_index as usize, sysvar_data@),
            ed25519_ix_index,
            now,
            slot,
            treasury_amount,
            record_bump,
        ) {
            Ok((c, d, st)) => r == Ok::<TelemetrySettlement, SnowboardDepinError>(st)
                && *final(config) == c && *final(device) == d,
            Err(e) => r == Err::<TelemetrySettlement, SnowboardDepinError>(e) && *final(config)
                == *old(config) && *final(device) == *old(device),
        },
{
    if device.status != DeviceStatus::Active {
        return Err(SnowboardDepinError::DeviceInactive);
    }
    if device.processing_lock != 0 {
        return Err(SnowboardDepinError::Reentrancy);
    }
    match apply_anti_fraud(device, sample, now) {
        Ok(()) => {},
        Err(e) => return Err(e),
    }
    let message = build_telemetry_message(device_address, sample);
    match verify_ed25519_signature(sysvar_data, ed25519_ix_index, &device.device_pubkey, &message) {
        Ok(()) => {},
        Err(e) => return Err(e),
    }
    let reward = match payout(config, device, sample, slot, treasury_amount) {
        Ok(v) => v,
        Err(e) => return Err(e),
    };
    let epoch_id = epoch_of(config, slot);
    let (emitted, distance) = if device.epoch_id != epoch_id {
        (0u64, 0u64)
    } else {
        (device.epoch_emitted, device.epoch_distance_m)
    };
    let dist_m = (sample.distance_cm as u64) / 100;
    let epoch_distance = match distance.checked_add(dist_m) {
        Some(v) => v,
        None => return Err(SnowboardDepinError::MathOverflow),
    };
    let total_distance = match device.total_distance_m.checked_add(dist_m) {
        Some(v) => v,
        None => return Err(SnowboardDepinError::MathOverflow),
    };
    let total_rewards = match device.total_rewards.checked_add(reward) {
        Some(v) => v,
        None => return Err(SnowboardDepinError::MathOverflow),
    };
    let distributed = match config.total_rewards_distributed.checked_add(reward) {
        Some(v) => v,
        None => return Err(SnowboardDepinError::MathOverflow),
    };
    device.processing_lock = 1;
    device.last_nonce = sample.nonce;
    device.last_timestamp = sample.timestamp;
    device.last_lat_e7 = sample.lat_e7;
    device.last_lon_e7 = sample.lon_e7;
    device.last_speed_cm_s = sample.speed_cm_s;
    device.last_accel_milli_g = sample.accel_milli_g;
    rotate_epoch(device, epoch_id);
    device.epoch_emitted = emitted + reward;
    device.epoch_distance_m = epoch_distance;
    device.total_distance_m = total_distance;
    device.total_rewards = total_rewards;
    config.total_rewards_distributed = distributed;
    let record = TelemetryRecord {
        device: *device_address,
        nonce: sample.nonce,
        timestamp: sample.timestamp,
        distance_meters: dist_m as u32,
        vertical_drop_cm: sample.vertical_drop_cm,
        airtime_ms: sample.airtime_ms,
        reward_amount: reward,
        bump: record_bump,
    };
    Ok(TelemetrySettlement { record, reward })
}

/// Releases the processing lock once the reward of a settled report has been
/// transferred.
pub fn release_processing_lock(device: &mut Device)
    ensures
        *final(device) == (Device { processing_lock: 0, ..*old(device) }),
{
    device.processing_lock = 0;
}


/// Prefix of signed raw hardware payloads: `SNOWBOARD_DEPIN_RAW`.
pub open spec fn spec_raw_prefix() -> Seq<u8> {
    seq![
        0x53u8, 0x4eu8, 0x4fu8, 0x57u8, 0x42u8, 0x4fu8, 0x41u8, 0x52u8, 0x44u8, 0x5fu8, 0x44u8,
        0x45u8, 0x50u8, 0x49u8, 0x4eu8, 0x5fu8, 0x52u8, 0x41u8, 0x57u8,
    ]
}

/// The message a device signs for a raw payload: the prefix, the device
/// account address and the payload.
pub open spec fn spec_raw_message(device_address: Seq<u8>, payload: Seq<u8>) -> Seq<u8> {
    spec_raw_prefix() + device_address + payload
}

fn build_raw_message(device_address: &Pubkey, payload: &[u8]) -> (msg: Vec<u8>)
    ensures
        msg@ == spec_raw_message(device_address@, payload@),
{
    let mut msg = vec![
        0x53u8, 0x4eu8, 0x4fu8, 0x57u8, 0x42u8, 0x4fu8, 0x41u8, 0x52u8, 0x44u8, 0x5fu8, 0x44u8,
        0x45u8, 0x50u8, 0x49u8, 0x4eu8, 0x5fu8, 0x52u8, 0x41u8, 0x57u8,
    ];
    assert(msg@ =~= spec_raw_prefix());
    push_bytes(&mut msg, device_address);
    push_bytes(&mut msg, payload);
    msg
}

/// Outcome of settling a decoded sample: like `submit_telemetry` but without
/// the processing lock and without updating the last acceleration; the
/// settled distance counts in the epoch distance, so it diminishes later
/// rewards of the epoch.
pub open spec fn spec_inner_settle(
    config: GlobalConfig,
    d: Device,
    device_address: Pubkey,
    s: TelemetrySample,
    now: i64,
    slot: u64,
    treasury_amount: u64,
    record_bump: u8,
) -> Result<(GlobalConfig, Device, TelemetrySettlement), SnowboardDepinError> {
    if d.status != DeviceStatus::Active {
        Err(SnowboardDepinError::DeviceInactive)
    } else {
        match spec_anti_fraud(d, s, now) {
            Err(e) => Err(e),
            Ok(_) => match spec_payout(config, d, s, slot, treasury_amount) {
                Err(e) => Err(e),
                Ok(reward) => {
                    let (emitted, distance) = spec_rotated_counters(config, d, slot);
                    let dist_m = s.distance_cm / 100;
                    if distance + dist_m > u64::MAX || d.total_distance_m + dist_m > u64::MAX
                        || d.total_rewards + reward > u64::MAX || config.total_rewards_distributed
                        + reward > u64::MAX {
                        Err(SnowboardDepinError::MathOverflow)
                    } else {
                        Ok(
                            (
                                GlobalConfig {
                                    total_rewards_distributed: (config.total_rewards_distributed
                                        + reward) as u64,
                                    ..config
                                },
                                Device {
                                    last_nonce: s.nonce,
                                    last_timestamp: s.timestamp,
                                    last_lat_e7: s.lat_e7,
                                    last_lon_e7: s.lon_e7,
                                    last_speed_cm_s: s.speed_cm_s,
                                    epoch_id: spec_epoch_id(config, slot),
                                    epoch_emitted: (emitted + reward) as u64,
                                    epoch_distance_m: (distance + dist_m) as u64,
                                    total_distance_m: (d.total_distance_m + dist_m) as u64,
                                    total_rewards: (d.total_rewards + reward) as u64,
                                    ..d
                                },
                                TelemetrySettlement {
                                    record: spec_record(device_address, s, reward, record_bump),
                                    reward,
                                },
                            ),
                        )
                    }
                },
            },
        }
    }
}

/// Outcome of `submit_decoded_telemetry`.
pub open spec fn spec_submit_decoded_telemetry(
    config: GlobalConfig,
    d: Device,
    device_address: Pubkey,
    adapter: HardwareAdapter,
    nonce: u64,
    payload: Seq<u8>,
    ix: Option<(Seq<u8>, Seq<u8>)>,
    sig_ix: u8,
    now: i64,
    slot: u64,
    treasury_amount: u64,
    record_bump: u8,
) -> Result<(GlobalConfig, Device, TelemetrySettlement), SnowboardDepinError> {
    if !adapter.active {
        Err(SnowboardDepinError::UnknownAdapter)
    } else {
        match spec_normalize(adapter, payload) {
            Err(e) => Err(e),
            Ok(s) => if s.nonce != nonce {
                Err(SnowboardDepinError::InvalidNonce)
            } else {
                match spec_check_ed25519_instruction(
                    ix,
                    sig_ix,
                    d.device_pubkey@,
                    spec_raw_message(device_address@, payload),
                ) {
                    Err(e) => Err(e),
                    Ok(_) => spec_inner_settle(
                        config,
                        d,
                        device_address,
                        s,
                        now,
                        slot,
                        treasury_amount,
                        record_bump,
                    ),
                }
            },
        }
    }
}

fn inner_settle(
    config: &mut GlobalConfig,
    device: &mut Device,
    device_address: &Pubkey,
    sample: &TelemetrySample,
    now: i64,
    slot: u64,
    treasury_amount: u64,
    record_bump: u8,
) -> (r: Result<TelemetrySettlement, SnowboardDepinError>)
    requires
        old(device).status == DeviceStatus::Active && spec_sample_bounds(*old(device), *sample)
            is Ok ==> now + MAX_CLOCK_LEAD_SECS <= i64::MAX,
    ensures
        match spec_inner_settle(
            *old(config),
            *old(device),
            *device_address,
            *sample,
            now,
            slot,
            treasury_amount,
            record_bump,
        ) {
            Ok((c, d, st)) => r == Ok::<TelemetrySettlement, SnowboardDepinError>(st)
                && *final(config) == c && *final(device) == d,
            Err(e) => r == Err::<TelemetrySettlement, SnowboardDepinError>(e) && *final(config)
                == *old(config) && *final(device) == *old(device),
        },
{
    if device.status != DeviceStatus::Active {
        return Err(SnowboardDepinError::DeviceInactive);
    }
    match apply_anti_fraud(device, sample, now) {
        Ok(()) => {},
        Err(e) => return Err(e),
    }
    let reward = match payout(config, device, sample, slot, treasury_amount) {
        Ok(v) => v,
        Err(e) => return Err(e),
    };
    let epoch_id = epoch_of(config, slot);
    let (emitted, distance) = if device.epoch_id != epoch_id {
        (0u64, 0u64)
    } else {
        (device.epoch_emitted, device.epoch_distance_m)
    };
    let dist_m = (sample.distance_cm as u64) / 100;
    let epoch_distance = match distance.checked_add(dist_m) {
        Some(v) => v,
        None => return Err(SnowboardDepinError::MathOverflow),
    };
    let total_distance = match device.total_distance_m.checked_add(dist_m) {
        Some(v) => v,
        None => return Err(SnowboardDepinError::MathOverflow),
    };
    let total_rewards = match device.total_rewards.checked_add(reward) {
        Some(v) => v,
        None => return Err(SnowboardDepinError::MathOverflow),
    };
    let distributed = match config.total_rewards_distributed.checked_add(reward) {
        Some(v) => v,
        None => return Err(SnowboardDepinError::MathOverflow),
    };
    device.last_nonce = sample.nonce;
    device.last_timestamp = sample.timestamp;
    device.last_lat_e7 = sample.lat_e7;
    device.last_lon_e7 = sample.lon_e7;
    device.last_speed_cm_s = sample.speed_cm_s;
    rotate_epoch(device, epoch_id);
    device.epoch_emitted = emitted + reward;
    device.epoch_distance_m = epoch_distance;
    device.total_distance_m = total_distance;
    device.total_rewards = total_rewards;
    config.total_rewards_distributed = distributed;
    let record = TelemetryRecord {
        device: *device_address,
        nonce: sample.nonce,
        timestamp: sample.timestamp,
        distance_meters: dist_m as u32,
        vertical_drop_cm: sample.vertical_drop_cm,
        airtime_ms: sample.airtime_ms,
        reward_amount: reward,
        bump: record_bump,
    };
    Ok(TelemetrySettlement { record, reward })
}

/// Settles a raw hardware payload: decodes it with the brand's adapter,
/// checks that it carries `nonce`, that the Ed25519 verify instruction at
/// `ed25519_ix_index` signs the raw payload, then settles the sample as
/// `spec_inner_settle` says. On failure nothing changes.
pub fn submit_decoded_telemetry(
    config: &mut GlobalConfig,
    device: &mut Device,
    device_address: &Pubkey,
    adapter: &HardwareAdapter,
    nonce: u64,
    payload: &[u8],
    sysvar_data: &[u8],
    ed25519_ix_index: u8,
    now: i64,
    slot: u64,
    treasury_amount: u64,
    record_bump: u8,
) -> (r: Result<TelemetrySettlement, SnowboardDepinError>)
    requires
        forall|s: TelemetrySample|
            spec_normalize(*adapter, payload@) == Ok::<TelemetrySample, SnowboardDepinError>(s)
                && old(device).status == DeviceStatus::Active && #[trigger] spec_sample_bounds(
                *old(device),
                s,
            ) is Ok ==> now + MAX_CLOCK_LEAD_SECS <= i64::MAX,
    ensures
        match spec_submit_decoded_telemetry(
            *old(config),
            *old(device),
            *device_address,
            *adapter,
            nonce,
            payload@,
            sysvar_instruction_at(ed25519_ix_index as usize, sysvar_data@),
            ed25519_ix_index,
            now,
            slot,
            treasury_amount,
            record_bump,
        ) {
            Ok((c, d, st)) => r == Ok::<TelemetrySettlement, SnowboardDepinError>(st)
                && *final(config) == c && *final(device) == d,
            Err(e) => r == Err::<TelemetrySettlement, SnowboardDepinError>(e) && *final(config)
                == *old(config) && *final(device) == *old(device),
        },
{
    if !adapter.active {
        return Err(SnowboardDepinError::UnknownAdapter);
    }
    let sample = match normalize(adapter, payload) {
        Ok(s) => s,
        Err(e) => return Err(e),
    };
    if sample.nonce != nonce {
        return Err(SnowboardDepinError::InvalidNonce);
    }
    let raw_msg = build_raw_message(device_address, payload);
    match verify_ed25519_signature(sysvar_data, ed25519_ix_index, &device.device_pubkey, &raw_msg) {
        Ok(()) => {},
        Err(e) => return Err(e),
    }
    inner_settle(config, device, device_address, &sample, now, slot, treasury_amount, record_bump)
}


/// A sample that passes the anti-fraud checks is newer than the last report
/// and within the physical bounds.
pub proof fn lemma_accepted_sample_is_plausible(d: Device, s: TelemetrySample, now: i64)
    requires
        spec_anti_fraud(d, s, now) is Ok,
    ensures
        s.nonce > d.last_nonce,
        0 < s.distance_cm <= MAX_DISTANCE_CM,
        s.speed_cm_s <= MAX_SPEED_CM_S,
        s.accel_milli_g <= MAX_ACCEL_MILLI_G,
        s.imu_delta <= MAX_IMU_DELTA,
        s.timestamp <= now + MAX_CLOCK_LEAD_SECS,
        d.last_timestamp > 0 ==> d.last_timestamp < s.timestamp <= d.last_timestamp
            + MAX_SAMPLE_DT_SECS,
{
}

/// Diminishing returns: the reward never exceeds the sum of its parts, and
/// the more distance the device has covered in the epoch, the smaller it is.
pub proof fn lemma_diminishing_returns(
    config: GlobalConfig,
    covered: u64,
    more_covered: u64,
    s: TelemetrySample,
)
    requires
        covered <= more_covered,
        spec_reward(config, covered, s) is Ok,
        spec_reward(config, more_covered, s) is Ok,
    ensures
        spec_reward(config, more_covered, s)->Ok_0 <= spec_reward(config, covered, s)->Ok_0,
        spec_reward(config, covered, s)->Ok_0 <= (s.distance_cm / 100) * config.reward_per_meter
            + s.vertical_drop_cm * config.reward_per_drop_cm + s.airtime_ms
            * config.reward_per_airtime_ms,
{
    let raw = (s.distance_cm / 100) * config.reward_per_meter + s.vertical_drop_cm
        * config.reward_per_drop_cm + s.airtime_ms * config.reward_per_airtime_ms;
    let k = DIMINISH_K as int;
    let a = k + covered;
    let b = k + more_covered;
    assert(raw >= 0) by (nonlinear_arith)
        requires
            raw == (s.distance_cm / 100) * config.reward_per_meter + s.vertical_drop_cm
                * config.reward_per_drop_cm + s.airtime_ms * config.reward_per_airtime_ms,
            s.distance_cm >= 0,
            config.reward_per_meter >= 0,
            s.vertical_drop_cm >= 0,
            config.reward_per_drop_cm >= 0,
            s.airtime_ms >= 0,
            config.reward_per_airtime_ms >= 0,
    ;
    assert((raw * k) / b <= (raw * k) / a) by (nonlinear_arith)
        requires
            raw >= 0,
            k > 0,
            k <= a <= b,
    {
        vstd::arithmetic::div_mod::lemma_div_is_ordered_by_denominator(raw * k, a, b);
    }
    assert((raw * k) / a <= raw) by (nonlinear_arith)
        requires
            raw >= 0,
            k > 0,
            k <= a,
    {
        vstd::arithmetic::div_mod::lemma_div_is_ordered_by_denominator(raw * k, k, a);
        vstd::arithmetic::div_mod::lemma_div_multiples_vanish(raw, k);
    }
}

/// What a settled report guarantees: the payout is capped per report, covered
/// by the treasury, and added to the device's epoch emission (which starts
/// from zero in a new epoch) and to the device's and the program's totals; the
/// epoch emission stays within the epoch limit, so within one epoch the
/// rewards of a device's settled reports never sum past that limit. The
/// sample's distance is added to the epoch distance in the same way.
pub proof fn lemma_settlement_respects_limits(
    config: GlobalConfig,
    d: Device,
    device_address: Pubkey,
    s: TelemetrySample,
    ix: Option<(Seq<u8>, Seq<u8>)>,
    sig_ix: u8,
    now: i64,
    slot: u64,
    treasury_amount: u64,
    record_bump: u8,
)
    requires
        spec_submit_telemetry(
            config,
            d,
            device_address,
            s,
            ix,
            sig_ix,
            now,
            slot,
            treasury_amount,
            record_bump,
        ) is Ok,
    ensures
        ({
            let (c, d2, st) = spec_submit_telemetry(
                config,
                d,
                device_address,
                s,
                ix,
                sig_ix,
                now,
                slot,
                treasury_amount,
                record_bump,
            )->Ok_0;
            &&& st.reward <= config.max_payout_per_report
            &&& st.reward <= treasury_amount
            &&& d2.epoch_emitted <= config.max_epoch_emission
            &&& d2.last_nonce == s.nonce > d.last_nonce
            &&& d2.epoch_id == spec_epoch_id(config, slot)
            &&& d.epoch_id == d2.epoch_id ==> d2.epoch_emitted == d.epoch_emitted + st.reward
            &&& d.epoch_id == d2.epoch_id ==> d2.epoch_distance_m == d.epoch_distance_m
                + s.distance_cm / 100
            &&& d.epoch_id != d2.epoch_id ==> d2.epoch_distance_m == s.distance_cm / 100
            &&& d.epoch_id != d2.epoch_id ==> d2.epoch_emitted == st.reward
            &&& d2.total_rewards == d.total_rewards + st.reward
            &&& c.total_rewards_distributed == config.total_rewards_distributed + st.reward
            &&& st.record.reward_amount == st.reward
            &&& st.record.nonce == s.nonce
        }),
{
}

/// The same guarantees for a report settled from a raw hardware payload; its
/// distance, too, counts in the epoch distance that diminishes later rewards.
pub proof fn lemma_decoded_settlement_respects_limits(
    config: GlobalConfig,
    d: Device,
    device_address: Pubkey,
    adapter: HardwareAdapter,
    nonce: u64,
    payload: Seq<u8>,
    ix: Option<(Seq<u8>, Seq<u8>)>,
    sig_ix: u8,
    now: i64,
    slot: u64,
    treasury_amount: u64,
    record_bump: u8,
)
    requires
        spec_submit_decoded_telemetry(
            config,
            d,
            device_address,
            adapter,
            nonce,
            payload,
            ix,
            sig_ix,
            now,
            slot,
            treasury_amount,
            record_bump,
        ) is Ok,
    ensures
        ({
            let (c, d2, st) = spec_submit_decoded_telemetry(
                config,
                d,
                device_address,
                adapter,
                nonce,
                payload,
                ix,
                sig_ix,
                now,
                slot,
                treasury_amount,
                record_bump,
            )->Ok_0;
            &&& st.reward <= config.max_payout_per_report
            &&& st.reward <= treasury_amount
            &&& d2.epoch_emitted <= config.max_epoch_emission
            &&& d2.last_nonce == nonce > d.last_nonce
            &&& d2.epoch_id == spec_epoch_id(config, slot)
            &&& d.epoch_id == d2.epoch_id ==> d2.epoch_emitted == d.epoch_emitted + st.reward
            &&& d.epoch_id == d2.epoch_id ==> d2.epoch_distance_m == d.epoch_distance_m
                + spec_normalize(adapter, payload)->Ok_0.distance_cm / 100
            &&& d.epoch_id != d2.epoch_id ==> d2.epoch_distance_m == spec_normalize(
                adapter,
                payload,
            )->Ok_0.distance_cm / 100
            &&& d.epoch_id != d2.epoch_id ==> d2.epoch_emitted == st.reward
            &&& d2.total_rewards == d.total_rewards + st.reward
            &&& c.total_rewards_distributed == config.total_rewards_distributed + st.reward
        }),
{
}

/// Replay protection: a settled report leaves the device at the sample's
/// nonce and timestamp. While the reward transfer is in flight (the lock) every
/// report is refused; after it, a report whose nonce is not above the settled
/// one is refused as a replay, and so is (with some error) one whose timestamp
/// is not later than a positive settled timestamp, whatever the clock, slot,
/// treasury or signature instruction.
pub proof fn lemma_settled_sample_cannot_be_replayed(
    config: GlobalConfig,
    d: Device,
    device_address: Pubkey,
    s: TelemetrySample,
    ix: Option<(Seq<u8>, Seq<u8>)>,
    sig_ix: u8,
    now: i64,
    slot: u64,
    treasury_amount: u64,
    record_bump: u8,
    s2: TelemetrySample,
    ix2: Option<(Seq<u8>, Seq<u8>)>,
    sig_ix2: u8,
    now2: i64,
    slot2: u64,
    treasury_amount2: u64,
    record_bump2: u8,
)
    requires
        spec_submit_telemetry(
            config,
            d,
            device_address,
            s,
            ix,
            sig_ix,
            now,
            slot,
            treasury_amount,
            record_bump,
        ) is Ok,
    ensures
        ({
            let (c, d2, st) = spec_submit_telemetry(
                config,
                d,
                device_address,
                s,
                ix,
                sig_ix,
                now,
                slot,
                treasury_amount,
                record_bump,
            )->Ok_0;
            let released = Device { processing_lock: 0, ..d2 };
            let again = spec_submit_telemetry(
                c,
                released,
                device_address,
                s2,
                ix2,
                sig_ix2,
                now2,
                slot2,
                treasury_amount2,
                record_bump2,
            );
            &&& d2.last_nonce == s.nonce
            &&& d2.last_timestamp == s.timestamp
            &&& spec_submit_telemetry(
                c,
                d2,
                device_address,
                s2,
                ix2,
                sig_ix2,
                now2,
                slot2,
                treasury_amount2,
                record_bump2,
            ) == Err::<(GlobalConfig, Device, TelemetrySettlement), SnowboardDepinError>(
                SnowboardDepinError::Reentrancy,
            )
            &&& s2.nonce <= s.nonce ==> again == Err::<
                (GlobalConfig, Device, TelemetrySettlement),
                SnowboardDepinError,
            >(SnowboardDepinError::ReplayDetected)
            &&& s.timestamp > 0 && s2.timestamp <= s.timestamp ==> again is Err
        }),
{
}

/// Replay protection for raw payloads: after a payload with nonce `nonce` has
/// been settled, no payload whose nonce is not above it is settled again.
pub proof fn lemma_settled_payload_cannot_be_replayed(
    config: GlobalConfig,
    d: Device,
    device_address: Pubkey,
    adapter: HardwareAdapter,
    nonce: u64,
    payload: Seq<u8>,
    ix: Option<(Seq<u8>, Seq<u8>)>,
    sig_ix: u8,
    now: i64,
    slot: u64,
    treasury_amount: u64,
    record_bump: u8,
    nonce2: u64,
    payload2: Seq<u8>,
    ix2: Option<(Seq<u8>, Seq<u8>)>,
    sig_ix2: u8,
    now2: i64,
    slot2: u64,
    treasury_amount2: u64,
    record_bump2: u8,
)
    requires
        spec_submit_decoded_telemetry(
            config,
            d,
            device_address,
            adapter,
            nonce,
            payload,
            ix,
            sig_ix,
            now,
            slot,
            treasury_amount,
            record_bump,
        ) is Ok,
        nonce2 <= nonce,
    ensures
        ({
            let (c, d2, st) = spec_submit_decoded_telemetry(
                config,
                d,
                device_address,
                adapter,
                nonce,
                payload,
                ix,
                sig_ix,
                now,
                slot,
                treasury_amount,
                record_bump,
            )->Ok_0;
            &&& d2.last_nonce == nonce
            &&& spec_submit_decoded_telemetry(
                c,
                d2,
                device_address,
                adapter,
                nonce2,
                payload2,
                ix2,
                sig_ix2,
                now2,
                slot2,
                treasury_amount2,
                record_bump2,
            ) is Err
        }),
{
}

/// The reward a settled report pays, from its inputs: the distance, drop and
/// airtime parts at the configured rates, scaled by `K / (K + covered)` where
/// `covered` is the distance the device has covered in the report's epoch
/// (zero when the report opens a new epoch), then capped per report.
pub open spec fn spec_expected_payout(config: GlobalConfig, d: Device, s: TelemetrySample, slot: u64) -> int {
    let epoch = if config.epoch_slots == 0 {
        slot as int
    } else {
        slot as int / config.epoch_slots as int
    };
    let covered: int = if d.epoch_id as int == epoch {
        d.epoch_distance_m as int
    } else {
        0
    };
    let raw = (s.distance_cm as int / 100) * config.reward_per_meter + s.vertical_drop_cm
        * config.reward_per_drop_cm + s.airtime_ms * config.reward_per_airtime_ms;
    let full = raw * 50_000 / (50_000 + covered);
    if full < config.max_payout_per_report {
        full
    } else {
        config.max_payout_per_report as int
    }
}

/// Payout of a signed report: the reward is diminished only by distance
/// covered in the report's own epoch, and capped per report.
pub proof fn lemma_payout_diminished_within_epoch(
    config: GlobalConfig,
    d: Device,
    device_address: Pubkey,
    s: TelemetrySample,
    ix: Option<(Seq<u8>, Seq<u8>)>,
    sig_ix: u8,
    now: i64,
    slot: u64,
    treasury_amount: u64,
    record_bump: u8,
)
    requires
        spec_submit_telemetry(
            config,
            d,
            device_address,
            s,
            ix,
            sig_ix,
            now,
            slot,
            treasury_amount,
            record_bump,
        ) is Ok,
    ensures
        spec_submit_telemetry(
            config,
            d,
            device_address,
            s,
            ix,
            sig_ix,
            now,
            slot,
            treasury_amount,
            record_bump,
        )->Ok_0.2.reward == spec_expected_payout(config, d, s, slot),
{
}

/// Payout of a report settled from a raw payload: the same rule, on the
/// decoded sample.
pub proof fn lemma_decoded_payout_diminished_within_epoch(
    config: GlobalConfig,
    d: Device,
    device_address: Pubkey,
    adapter: HardwareAdapter,
    nonce: u64,
    payload: Seq<u8>,
    ix: Option<(Seq<u8>, Seq<u8>)>,
    sig_ix: u8,
    now: i64,
    slot: u64,
    treasury_amount: u64,
    record_bump: u8,
)
    requires
        spec_submit_decoded_telemetry(
            config,
            d,
            device_address,
            adapter,
            nonce,
            payload,
            ix,
            sig_ix,
            now,
            slot,
            treasury_amount,
            record_bump,
        ) is Ok,
    ensures
        spec_submit_decoded_telemetry(
            config,
            d,
            device_address,
            adapter,
            nonce,
            payload,
            ix,
            sig_ix,
            now,
            slot,
            treasury_amount,
            record_bump,
        )->Ok_0.2.reward == spec_expected_payout(
            config,
            d,
            spec_normalize(adapter, payload)->Ok_0,
            slot,
        ),
{
}

/// The anti-fraud verdict, in full: a sample is accepted exactly when its
/// nonce is new, its distance, speed, acceleration and IMU delta are within
/// bounds, its timestamp is at most 30 s ahead of the clock, and, after a
/// first report, it is strictly later than the last one by at most
/// `MAX_SAMPLE_DT_SECS` and the Manhattan travel (1.11 cm per 1e-7 degree)
/// is within the distance reachable at the mean of the two speeds plus 50 m.
pub proof fn lemma_anti_fraud_verdict(d: Device, s: TelemetrySample, now: i64)
    ensures
        spec_anti_fraud(d, s, now) is Ok <==> {
            let dlat = if s.lat_e7 >= d.last_lat_e7 {
                s.lat_e7 - d.last_lat_e7
            } else {
                d.last_lat_e7 - s.lat_e7
            };
            let dlon = if s.lon_e7 >= d.last_lon_e7 {
                s.lon_e7 - d.last_lon_e7
            } else {
                d.last_lon_e7 - s.lon_e7
            };
            let dt = s.timestamp - d.last_timestamp;
            &&& s.nonce > d.last_nonce
            &&& 0 < s.distance_cm <= MAX_DISTANCE_CM
            &&& s.speed_cm_s <= MAX_SPEED_CM_S
            &&& s.accel_milli_g <= MAX_ACCEL_MILLI_G
            &&& s.imu_delta <= MAX_IMU_DELTA
            &&& s.timestamp <= now + MAX_CLOCK_LEAD_SECS
            &&& d.last_timestamp > 0 ==> {
                &&& 0 < dt <= MAX_SAMPLE_DT_SECS
                &&& (dlat + dlon) * 111 / 100 <= (s.speed_cm_s + d.last_speed_cm_s) * dt / 2 + 5_000
            }
        },
{
}

} // verus!
