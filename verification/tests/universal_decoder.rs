use snowboard_depin::errors::SnowboardDepinError;
use snowboard_depin::state::{HardwareAdapter, PayloadFormat};
use snowboard_depin::universal_decoder::{normalize, BINARY_MAGIC};

fn adapter() -> HardwareAdapter {
    HardwareAdapter {
        admin: [0u8; 32],
        brand_id: 1,
        format: PayloadFormat::BinaryV1,
        distance_scale: 1,
        speed_scale: 1,
        drop_scale: 1,
        airtime_scale: 1,
        active: true,
        bump: 0,
    }
}

fn tagged_adapter() -> HardwareAdapter {
    HardwareAdapter { format: PayloadFormat::TaggedMap, ..adapter() }
}

fn binary_payload() -> Vec<u8> {
    let mut p = Vec::from(BINARY_MAGIC);
    p.extend_from_slice(&7u64.to_le_bytes());
    p.extend_from_slice(&1_700_000_000i64.to_le_bytes());
    p.extend_from_slice(&450_000_000i32.to_le_bytes());
    p.extend_from_slice(&(-1_200_000_000i32).to_le_bytes());
    p.extend_from_slice(&180_000i32.to_le_bytes());
    p.extend_from_slice(&800u32.to_le_bytes());
    p.extend_from_slice(&1200u32.to_le_bytes());
    p.extend_from_slice(&100u32.to_le_bytes());
    p.extend_from_slice(&25_000u32.to_le_bytes());
    p.extend_from_slice(&400u32.to_le_bytes());
    p.extend_from_slice(&1500u32.to_le_bytes());
    p
}

#[test]
fn binary_v1_roundtrip_fields() {
    let mut p = Vec::from(BINARY_MAGIC);
    p.extend_from_slice(&7u64.to_le_bytes());
    p.extend_from_slice(&1_700_000_000i64.to_le_bytes());
    p.extend_from_slice(&450_000_000i32.to_le_bytes());
    p.extend_from_slice(&(-1_200_000_000i32).to_le_bytes());
    p.extend_from_slice(&180_000i32.to_le_bytes());
    p.extend_from_slice(&800u32.to_le_bytes());
    p.extend_from_slice(&1200u32.to_le_bytes());
    p.extend_from_slice(&100u32.to_le_bytes());
    p.extend_from_slice(&25_000u32.to_le_bytes());
    p.extend_from_slice(&400u32.to_le_bytes());
    p.extend_from_slice(&1500u32.to_le_bytes());
    let s = normalize(&adapter(), &p).unwrap();
    assert_eq!(s.nonce, 7);
    assert_eq!(s.distance_cm, 25_000);
    assert_eq!(s.speed_cm_s, 800);
}

#[test]
fn binary_magic_is_sbd1() {
    assert_eq!(&BINARY_MAGIC, b"SBD1");
}

#[test]
fn binary_v1_decodes_every_field() {
    let s = normalize(&adapter(), &binary_payload()).unwrap();
    assert_eq!(s.nonce, 7);
    assert_eq!(s.timestamp, 1_700_000_000);
    assert_eq!(s.lat_e7, 450_000_000);
    assert_eq!(s.lon_e7, -1_200_000_000);
    assert_eq!(s.altitude_cm, 180_000);
    assert_eq!(s.speed_cm_s, 800);
    assert_eq!(s.accel_milli_g, 1200);
    assert_eq!(s.imu_delta, 100);
    assert_eq!(s.distance_cm, 25_000);
    assert_eq!(s.vertical_drop_cm, 400);
    assert_eq!(s.airtime_ms, 1500);
}

#[test]
fn binary_v1_applies_scales() {
    let a = HardwareAdapter {
        distance_scale: 10,
        speed_scale: 2,
        drop_scale: 3,
        airtime_scale: 0,
        ..adapter()
    };
    let s = normalize(&a, &binary_payload()).unwrap();
    assert_eq!(s.speed_cm_s, 1600);
    assert_eq!(s.distance_cm, 250_000);
    assert_eq!(s.vertical_drop_cm, 1200);
    // a zero scale counts as one
    assert_eq!(s.airtime_ms, 1500);
    // unscaled fields are untouched
    assert_eq!(s.accel_milli_g, 1200);
}

#[test]
fn binary_v1_scale_overflow_is_math_overflow() {
    let a = HardwareAdapter { distance_scale: u32::MAX, ..adapter() };
    assert_eq!(normalize(&a, &binary_payload()), Err(SnowboardDepinError::MathOverflow));
}

#[test]
fn binary_v1_rejects_short_payload() {
    let p = binary_payload();
    assert_eq!(normalize(&adapter(), &p[..55]), Err(SnowboardDepinError::InvalidPayload));
}

#[test]
fn binary_v1_rejects_wrong_magic() {
    let mut p = binary_payload();
    p[3] = b'2';
    assert_eq!(normalize(&adapter(), &p), Err(SnowboardDepinError::DecodeFailed));
}

#[test]
fn binary_v1_ignores_trailing_bytes() {
    let mut p = binary_payload();
    p.extend_from_slice(&[9, 9, 9]);
    assert_eq!(normalize(&adapter(), &p).unwrap().nonce, 7);
}

#[test]
fn inactive_adapter_is_unknown() {
    let a = HardwareAdapter { active: false, ..adapter() };
    assert_eq!(normalize(&a, &binary_payload()), Err(SnowboardDepinError::UnknownAdapter));
}

#[test]
fn empty_or_oversized_payload_is_invalid() {
    assert_eq!(normalize(&adapter(), &[]), Err(SnowboardDepinError::InvalidPayload));
    let big = vec![0u8; 257];
    assert_eq!(normalize(&tagged_adapter(), &big), Err(SnowboardDepinError::InvalidPayload));
}

#[test]
fn tagged_map_decodes_entries_of_every_width() {
    let mut p = vec![1u8, 1, 42];
    p.extend_from_slice(&[2, 8]);
    p.extend_from_slice(&1_700_000_000u64.to_le_bytes());
    p.extend_from_slice(&[3, 4]);
    p.extend_from_slice(&(-5i32 as u32).to_le_bytes());
    p.extend_from_slice(&[6, 2]);
    p.extend_from_slice(&300u16.to_le_bytes());
    p.extend_from_slice(&[9, 4]);
    p.extend_from_slice(&12_345u32.to_le_bytes());
    let a = HardwareAdapter { speed_scale: 2, ..tagged_adapter() };
    let s = normalize(&a, &p).unwrap();
    assert_eq!(s.nonce, 42);
    assert_eq!(s.timestamp, 1_700_000_000);
    assert_eq!(s.lat_e7, -5);
    assert_eq!(s.speed_cm_s, 600);
    assert_eq!(s.distance_cm, 12_345);
    assert_eq!(s.lon_e7, 0);
    assert_eq!(s.airtime_ms, 0);
}

#[test]
fn tagged_map_skips_unknown_keys_and_trailing_byte() {
    let p = vec![99u8, 3, 1, 2, 3, 1, 1, 5, 7];
    let s = normalize(&tagged_adapter(), &p).unwrap();
    assert_eq!(s.nonce, 5);
}

#[test]
fn tagged_map_later_entries_win() {
    let p = vec![1u8, 1, 5, 1, 1, 6];
    assert_eq!(normalize(&tagged_adapter(), &p).unwrap().nonce, 6);
}

#[test]
fn tagged_map_without_nonce_fails() {
    let p = vec![9u8, 1, 5];
    assert_eq!(normalize(&tagged_adapter(), &p), Err(SnowboardDepinError::DecodeFailed));
}

#[test]
fn tagged_map_bad_width_fails() {
    let p = vec![1u8, 3, 1, 0, 0];
    assert_eq!(normalize(&tagged_adapter(), &p), Err(SnowboardDepinError::DecodeFailed));
}

#[test]
fn tagged_map_truncated_value_is_invalid() {
    let p = vec![1u8, 8, 1, 0];
    assert_eq!(normalize(&tagged_adapter(), &p), Err(SnowboardDepinError::InvalidPayload));
}

#[test]
fn tagged_map_scale_overflow() {
    let a = HardwareAdapter { airtime_scale: 1000, ..tagged_adapter() };
    let mut p = vec![1u8, 1, 1, 11, 4];
    p.extend_from_slice(&10_000_000u32.to_le_bytes());
    assert_eq!(normalize(&a, &p), Err(SnowboardDepinError::MathOverflow));
}

#[test]
fn tagged_map_truncates_wide_values() {
    // an 8-byte value for a 32-bit field keeps its low 32 bits
    let mut p = vec![1u8, 1, 1, 7, 8];
    p.extend_from_slice(&0x1_0000_0007u64.to_le_bytes());
    assert_eq!(normalize(&tagged_adapter(), &p).unwrap().accel_milli_g, 7);
}
