use anchor_lang::solana_program::ed25519_program;
use anchor_lang::solana_program::sysvar::instructions::{
    construct_instructions_data, store_current_index, BorrowedInstruction,
};
use snowboard_depin::crypto::build_telemetry_message;
use snowboard_depin::errors::SnowboardDepinError;
use snowboard_depin::miii_points_engine::{
    apply_anti_fraud, compute_reward, deactivate_device, initialize, register_device,
    release_processing_lock, rotate_epoch, submit_decoded_telemetry, submit_telemetry,
    update_reward_rate,
};
use snowboard_depin::adapters::register_adapter;
use snowboard_depin::state::{
    Device, DeviceStatus, GlobalConfig, HardwareAdapter, PayloadFormat, TelemetrySample,
};
use snowboard_depin::universal_decoder::BINARY_MAGIC;

const DEVICE_KEY: [u8; 32] = [5u8; 32];
const DEVICE_ADDR: [u8; 32] = [6u8; 32];

fn ed25519_data(pk: &[u8; 32], msg: &[u8]) -> Vec<u8> {
    let mut d = vec![1u8, 0];
    d.extend_from_slice(&48u16.to_le_bytes());
    d.extend_from_slice(&u16::MAX.to_le_bytes());
    d.extend_from_slice(&16u16.to_le_bytes());
    d.extend_from_slice(&u16::MAX.to_le_bytes());
    d.extend_from_slice(&112u16.to_le_bytes());
    d.extend_from_slice(&(msg.len() as u16).to_le_bytes());
    d.extend_from_slice(&u16::MAX.to_le_bytes());
    d.extend_from_slice(pk);
    d.extend_from_slice(&[0u8; 64]);
    d.extend_from_slice(msg);
    d
}

fn signed_sysvar(pk: &[u8; 32], msg: &[u8]) -> Vec<u8> {
    let data = ed25519_data(pk, msg);
    let ix = BorrowedInstruction { program_id: &ed25519_program::ID, accounts: vec![], data: &data };
    let mut d = construct_instructions_data(&[ix]);
    store_current_index(&mut d, 1);
    d
}

fn config() -> GlobalConfig {
    initialize([1u8; 32], [2u8; 32], [3u8; 32], [4u8; 32], 0, 100, 1, 2, 3)
}

fn device() -> Device {
    Device {
        owner: [7u8; 32],
        device_pubkey: DEVICE_KEY,
        device_id: "board-1".to_string(),
        status: DeviceStatus::Active,
        last_nonce: 0,
        last_timestamp: 0,
        last_lat_e7: 0,
        last_lon_e7: 0,
        last_speed_cm_s: 0,
        last_accel_milli_g: 0,
        epoch_id: 0,
        epoch_emitted: 0,
        epoch_distance_m: 0,
        total_distance_m: 0,
        total_rewards: 0,
        processing_lock: 0,
        bump: 9,
    }
}

fn sample() -> TelemetrySample {
    TelemetrySample {
        nonce: 7,
        timestamp: 1_700_000_000,
        lat_e7: 450_000_000,
        lon_e7: -1_200_000_000,
        altitude_cm: 180_000,
        speed_cm_s: 800,
        accel_milli_g: 1200,
        imu_delta: 100,
        distance_cm: 25_000,
        vertical_drop_cm: 400,
        airtime_ms: 1500,
    }
}

#[test]
fn initialize_uses_defaults() {
    let c = config();
    assert_eq!(c.reward_per_meter, 1_000);
    assert_eq!(c.reward_per_drop_cm, 2);
    assert_eq!(c.reward_per_airtime_ms, 5);
    assert_eq!(c.max_payout_per_report, 50_000_000);
    assert_eq!(c.max_epoch_emission, 500_000_000);
    assert_eq!(c.epoch_slots, 216_000);
    assert_eq!(c.genesis_slot, 100);
    assert_eq!(c.stake_pool, [0u8; 32]);
    assert_eq!(c.total_devices, 0);
    let c2 = initialize([1u8; 32], [2u8; 32], [3u8; 32], [4u8; 32], 77, 0, 0, 0, 0);
    assert_eq!(c2.reward_per_meter, 77);
}

#[test]
fn register_device_checks_id_bytes() {
    let mut c = config();
    let d = register_device(&mut c, [7u8; 32], "board-1".to_string(), DEVICE_KEY, 4).unwrap();
    assert_eq!(c.total_devices, 1);
    assert_eq!(d.status, DeviceStatus::Active);
    assert_eq!(d.device_id, "board-1");
    assert_eq!(d.bump, 4);
    assert_eq!(d.last_nonce, 0);
    assert_eq!(
        register_device(&mut c, [7u8; 32], String::new(), DEVICE_KEY, 4).err(),
        Some(SnowboardDepinError::InvalidDeviceId)
    );
    // 33 characters, 66 bytes
    let wide: String = std::iter::repeat('é').take(33).collect();
    assert_eq!(
        register_device(&mut c, [7u8; 32], wide, DEVICE_KEY, 4).err(),
        Some(SnowboardDepinError::InvalidDeviceId)
    );
    let max: String = std::iter::repeat('a').take(64).collect();
    assert!(register_device(&mut c, [7u8; 32], max, DEVICE_KEY, 4).is_ok());
    assert_eq!(c.total_devices, 2);
}

#[test]
fn register_device_counter_overflow() {
    let mut c = config();
    c.total_devices = u64::MAX;
    assert_eq!(
        register_device(&mut c, [7u8; 32], "x".to_string(), DEVICE_KEY, 4).err(),
        Some(SnowboardDepinError::MathOverflow)
    );
    assert_eq!(c.total_devices, u64::MAX);
}

#[test]
fn reward_rate_must_be_positive() {
    let mut c = config();
    assert_eq!(update_reward_rate(&mut c, 0), Err(SnowboardDepinError::InvalidRewardRate));
    assert_eq!(c.reward_per_meter, 1_000);
    assert_eq!(update_reward_rate(&mut c, 5), Ok(()));
    assert_eq!(c.reward_per_meter, 5);
}

#[test]
fn deactivate_and_rotate() {
    let mut d = device();
    deactivate_device(&mut d);
    assert_eq!(d.status, DeviceStatus::Inactive);
    d.epoch_emitted = 5;
    d.epoch_distance_m = 6;
    rotate_epoch(&mut d, 0);
    assert_eq!((d.epoch_emitted, d.epoch_distance_m), (5, 6));
    rotate_epoch(&mut d, 3);
    assert_eq!((d.epoch_id, d.epoch_emitted, d.epoch_distance_m), (3, 0, 0));
}

#[test]
fn reward_formula() {
    let c = config();
    let mut d = device();
    // 250 m * 1000 + 400 cm * 2 + 1500 ms * 5
    assert_eq!(compute_reward(&c, &d, &sample()), Ok(258_300));
    d.epoch_distance_m = 50_000;
    assert_eq!(compute_reward(&c, &d, &sample()), Ok(129_150));
    d.epoch_distance_m = u64::MAX;
    assert_eq!(compute_reward(&c, &d, &sample()), Err(SnowboardDepinError::MathOverflow));
}

#[test]
fn anti_fraud_rules() {
    let now = 1_700_000_000;
    let mut d = device();
    assert_eq!(apply_anti_fraud(&d, &sample(), now), Ok(()));
    d.last_nonce = 7;
    assert_eq!(apply_anti_fraud(&d, &sample(), now), Err(SnowboardDepinError::ReplayDetected));
    let d = device();
    let s = TelemetrySample { distance_cm: 0, ..sample() };
    assert_eq!(apply_anti_fraud(&d, &s, now), Err(SnowboardDepinError::InvalidDistance));
    let s = TelemetrySample { distance_cm: 10_000_001, ..sample() };
    assert_eq!(apply_anti_fraud(&d, &s, now), Err(SnowboardDepinError::InvalidDistance));
    let s = TelemetrySample { speed_cm_s: 5_001, ..sample() };
    assert_eq!(apply_anti_fraud(&d, &s, now), Err(SnowboardDepinError::SpeedThresholdExceeded));
    let s = TelemetrySample { accel_milli_g: 8_001, ..sample() };
    assert_eq!(apply_anti_fraud(&d, &s, now), Err(SnowboardDepinError::AccelerationCapExceeded));
    let s = TelemetrySample { imu_delta: 12_001, ..sample() };
    assert_eq!(apply_anti_fraud(&d, &s, now), Err(SnowboardDepinError::ImuDeltaThresholdExceeded));
    assert_eq!(apply_anti_fraud(&d, &sample(), now - 30), Ok(()));
    assert_eq!(
        apply_anti_fraud(&d, &sample(), now - 31),
        Err(SnowboardDepinError::InvalidTimestamp)
    );
}

#[test]
fn anti_fraud_continuity() {
    let now = 1_700_000_100;
    let mut d = device();
    d.last_timestamp = 1_700_000_000;
    d.last_lat_e7 = 450_000_000;
    d.last_lon_e7 = -1_200_000_000;
    d.last_speed_cm_s = 800;
    let s = TelemetrySample { timestamp: 1_700_000_000, ..sample() };
    assert_eq!(apply_anti_fraud(&d, &s, now), Err(SnowboardDepinError::ReplayDetected));
    let s = TelemetrySample { timestamp: 1_700_000_121, ..sample() };
    assert_eq!(apply_anti_fraud(&d, &s, now + 100), Err(SnowboardDepinError::InvalidTimestamp));
    // 10 s at 800 cm/s: 8000 cm, plus 5000 cm slack; 13000 cm / 1.11 cm per unit
    let ok = TelemetrySample { timestamp: 1_700_000_010, lat_e7: 450_000_000 + 11_711, ..sample() };
    assert_eq!(apply_anti_fraud(&d, &ok, now), Ok(()));
    let far = TelemetrySample { timestamp: 1_700_000_010, lat_e7: 450_000_000 + 11_713, ..sample() };
    assert_eq!(apply_anti_fraud(&d, &far, now), Err(SnowboardDepinError::SpatialContinuityFailed));
}

#[test]
fn submit_telemetry_settles_and_locks() {
    let mut c = config();
    let mut d = device();
    let s = sample();
    let msg = build_telemetry_message(&DEVICE_ADDR, &s);
    let sysvar = signed_sysvar(&DEVICE_KEY, &msg);
    let slot = 216_000 * 3 + 5;
    let st = submit_telemetry(&mut c, &mut d, &DEVICE_ADDR, &s, &sysvar, 0, s.timestamp, slot, 1_000_000, 8)
        .unwrap();
    assert_eq!(st.reward, 258_300);
    assert_eq!(st.record.device, DEVICE_ADDR);
    assert_eq!(st.record.nonce, 7);
    assert_eq!(st.record.distance_meters, 250);
    assert_eq!(st.record.vertical_drop_cm, 400);
    assert_eq!(st.record.airtime_ms, 1500);
    assert_eq!(st.record.reward_amount, 258_300);
    assert_eq!(st.record.bump, 8);
    assert_eq!(d.processing_lock, 1);
    assert_eq!(d.last_nonce, 7);
    assert_eq!(d.last_accel_milli_g, 1200);
    assert_eq!(d.epoch_id, 3);
    assert_eq!(d.epoch_emitted, 258_300);
    assert_eq!(d.epoch_distance_m, 250);
    assert_eq!(d.total_distance_m, 250);
    assert_eq!(d.total_rewards, 258_300);
    assert_eq!(c.total_rewards_distributed, 258_300);
    // a second submission while the transfer is in flight
    let again = submit_telemetry(&mut c, &mut d, &DEVICE_ADDR, &s, &sysvar, 0, s.timestamp, slot, 1_000_000, 8);
    assert_eq!(again, Err(SnowboardDepinError::Reentrancy));
    release_processing_lock(&mut d);
    assert_eq!(d.processing_lock, 0);
    let again = submit_telemetry(&mut c, &mut d, &DEVICE_ADDR, &s, &sysvar, 0, s.timestamp, slot, 1_000_000, 8);
    assert_eq!(again, Err(SnowboardDepinError::ReplayDetected));
    assert_eq!(c.total_rewards_distributed, 258_300);
}

#[test]
fn submit_telemetry_caps_and_limits() {
    let s = sample();
    let msg = build_telemetry_message(&DEVICE_ADDR, &s);
    let sysvar = signed_sysvar(&DEVICE_KEY, &msg);
    // per-report cap
    let mut c = config();
    c.max_payout_per_report = 1_000;
    let mut d = device();
    let st = submit_telemetry(&mut c, &mut d, &DEVICE_ADDR, &s, &sysvar, 0, s.timestamp, 0, 5_000, 0).unwrap();
    assert_eq!(st.reward, 1_000);
    // epoch limit
    let mut c = config();
    c.max_epoch_emission = 258_299;
    let mut d = device();
    let r = submit_telemetry(&mut c, &mut d, &DEVICE_ADDR, &s, &sysvar, 0, s.timestamp, 0, 1_000_000, 0);
    assert_eq!(r, Err(SnowboardDepinError::RateLimitReached));
    assert_eq!(d.last_nonce, 0);
    // treasury
    let mut c = config();
    let mut d = device();
    let r = submit_telemetry(&mut c, &mut d, &DEVICE_ADDR, &s, &sysvar, 0, s.timestamp, 0, 258_299, 0);
    assert_eq!(r, Err(SnowboardDepinError::InsufficientTreasury));
    // inactive device
    let mut d = device();
    d.status = DeviceStatus::Inactive;
    let r = submit_telemetry(&mut c, &mut d, &DEVICE_ADDR, &s, &sysvar, 0, s.timestamp, 0, 1_000_000, 0);
    assert_eq!(r, Err(SnowboardDepinError::DeviceInactive));
}

#[test]
fn submit_telemetry_checks_signature() {
    let s = sample();
    let msg = build_telemetry_message(&[9u8; 32], &s);
    let sysvar = signed_sysvar(&DEVICE_KEY, &msg);
    let mut c = config();
    let mut d = device();
    let r = submit_telemetry(&mut c, &mut d, &DEVICE_ADDR, &s, &sysvar, 0, s.timestamp, 0, 1_000_000, 0);
    assert_eq!(r, Err(SnowboardDepinError::Ed25519MessageMismatch));
    assert_eq!(d.last_nonce, 0);
}

fn binary_payload(nonce: u64) -> Vec<u8> {
    let s = sample();
    let mut p = Vec::from(BINARY_MAGIC);
    p.extend_from_slice(&nonce.to_le_bytes());
    p.extend_from_slice(&s.timestamp.to_le_bytes());
    p.extend_from_slice(&s.lat_e7.to_le_bytes());
    p.extend_from_slice(&s.lon_e7.to_le_bytes());
    p.extend_from_slice(&s.altitude_cm.to_le_bytes());
    p.extend_from_slice(&s.speed_cm_s.to_le_bytes());
    p.extend_from_slice(&s.accel_milli_g.to_le_bytes());
    p.extend_from_slice(&s.imu_delta.to_le_bytes());
    p.extend_from_slice(&s.distance_cm.to_le_bytes());
    p.extend_from_slice(&s.vertical_drop_cm.to_le_bytes());
    p.extend_from_slice(&s.airtime_ms.to_le_bytes());
    p
}

fn raw_message(payload: &[u8]) -> Vec<u8> {
    let mut m = b"SNOWBOARD_DEPIN_RAW".to_vec();
    m.extend_from_slice(&DEVICE_ADDR);
    m.extend_from_slice(payload);
    m
}

#[test]
fn submit_decoded_telemetry_settles() {
    let adapter: HardwareAdapter =
        register_adapter([1u8; 32], 3, PayloadFormat::BinaryV1, 1, 1, 1, 1, 0).unwrap();
    let payload = binary_payload(7);
    let sysvar = signed_sysvar(&DEVICE_KEY, &raw_message(&payload));
    let mut c = config();
    let mut d = device();
    d.epoch_distance_m = 10;
    let st = submit_decoded_telemetry(
        &mut c, &mut d, &DEVICE_ADDR, &adapter, 7, &payload, &sysvar, 0, 1_700_000_000, 0, 1_000_000, 2,
    )
    .unwrap();
    // diminished by the 10 m already covered this epoch
    assert_eq!(st.reward, 258_300 * 50_000 / 50_010);
    assert_eq!(d.last_nonce, 7);
    assert_eq!(d.processing_lock, 0);
    // the settled 250 m join the epoch distance; the acceleration stays as it was
    assert_eq!(d.epoch_distance_m, 260);
    assert_eq!(d.last_accel_milli_g, 0);
    assert_eq!(d.total_distance_m, 250);
    let again = submit_decoded_telemetry(
        &mut c, &mut d, &DEVICE_ADDR, &adapter, 7, &payload, &sysvar, 0, 1_700_000_000, 0, 1_000_000, 2,
    );
    assert_eq!(again, Err(SnowboardDepinError::ReplayDetected));
}

#[test]
fn submit_decoded_telemetry_rejections() {
    let adapter = register_adapter([1u8; 32], 3, PayloadFormat::BinaryV1, 1, 1, 1, 1, 0).unwrap();
    let payload = binary_payload(7);
    let sysvar = signed_sysvar(&DEVICE_KEY, &raw_message(&payload));
    let mut c = config();
    let mut d = device();
    let r = submit_decoded_telemetry(
        &mut c, &mut d, &DEVICE_ADDR, &adapter, 8, &payload, &sysvar, 0, 1_700_000_000, 0, 1_000_000, 2,
    );
    assert_eq!(r, Err(SnowboardDepinError::InvalidNonce));
    let inactive = HardwareAdapter { active: false, ..adapter };
    let r = submit_decoded_telemetry(
        &mut c, &mut d, &DEVICE_ADDR, &inactive, 7, &payload, &sysvar, 0, 1_700_000_000, 0, 1_000_000, 2,
    );
    assert_eq!(r, Err(SnowboardDepinError::UnknownAdapter));
    let other = binary_payload(9);
    let r = submit_decoded_telemetry(
        &mut c, &mut d, &DEVICE_ADDR, &adapter, 9, &other, &sysvar, 0, 1_700_000_000, 0, 1_000_000, 2,
    );
    assert_eq!(r, Err(SnowboardDepinError::Ed25519MessageMismatch));
    assert_eq!(d.last_nonce, 0);
}

#[test]
fn register_adapter_requires_positive_scales() {
    let a = register_adapter([1u8; 32], 3, PayloadFormat::TaggedMap, 1, 2, 3, 4, 5).unwrap();
    assert!(a.active);
    assert_eq!((a.brand_id, a.distance_scale, a.speed_scale, a.drop_scale, a.airtime_scale, a.bump), (3, 1, 2, 3, 4, 5));
    assert_eq!(
        register_adapter([1u8; 32], 3, PayloadFormat::TaggedMap, 1, 0, 3, 4, 5),
        Err(SnowboardDepinError::InvalidPayload)
    );
}
