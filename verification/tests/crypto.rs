use anchor_lang::solana_program::ed25519_program;
use anchor_lang::solana_program::pubkey::Pubkey as SolPubkey;
use anchor_lang::solana_program::sysvar::instructions::{
    construct_instructions_data, store_current_index, BorrowedInstruction,
};
use snowboard_depin::crypto::{
    build_motion_message, build_telemetry_message, bytes_equal, verify_ed25519_signature,
};
use snowboard_depin::errors::SnowboardDepinError;
use snowboard_depin::state::{MotionProof, TelemetrySample};

fn ed25519_data(pk: &[u8; 32], msg: &[u8]) -> Vec<u8> {
    let pk_off: u16 = 16;
    let sig_off: u16 = 48;
    let msg_off: u16 = 112;
    let mut d = vec![1u8, 0];
    d.extend_from_slice(&sig_off.to_le_bytes());
    d.extend_from_slice(&u16::MAX.to_le_bytes());
    d.extend_from_slice(&pk_off.to_le_bytes());
    d.extend_from_slice(&u16::MAX.to_le_bytes());
    d.extend_from_slice(&msg_off.to_le_bytes());
    d.extend_from_slice(&(msg.len() as u16).to_le_bytes());
    d.extend_from_slice(&u16::MAX.to_le_bytes());
    d.extend_from_slice(pk);
    d.extend_from_slice(&[7u8; 64]);
    d.extend_from_slice(msg);
    d
}

fn sysvar(ixs: &[(SolPubkey, Vec<u8>)], current: u16) -> Vec<u8> {
    let borrowed: Vec<BorrowedInstruction> = ixs
        .iter()
        .map(|(pid, data)| BorrowedInstruction { program_id: pid, accounts: vec![], data })
        .collect();
    let mut d = construct_instructions_data(&borrowed);
    store_current_index(&mut d, current);
    d
}

fn sample() -> TelemetrySample {
    TelemetrySample {
        nonce: 1,
        timestamp: 2,
        lat_e7: -3,
        lon_e7: 4,
        altitude_cm: 5,
        speed_cm_s: 6,
        accel_milli_g: 7,
        imu_delta: 8,
        distance_cm: 9,
        vertical_drop_cm: 10,
        airtime_ms: 11,
    }
}

#[test]
fn telemetry_message_layout() {
    let device = [0xabu8; 32];
    let s = sample();
    let msg = build_telemetry_message(&device, &s);
    let mut expected = b"SNOWBOARD_DEPIN_TELEM".to_vec();
    expected.extend_from_slice(&device);
    expected.extend_from_slice(&s.nonce.to_le_bytes());
    expected.extend_from_slice(&s.timestamp.to_le_bytes());
    expected.extend_from_slice(&s.lat_e7.to_le_bytes());
    expected.extend_from_slice(&s.lon_e7.to_le_bytes());
    expected.extend_from_slice(&s.altitude_cm.to_le_bytes());
    expected.extend_from_slice(&s.speed_cm_s.to_le_bytes());
    expected.extend_from_slice(&s.accel_milli_g.to_le_bytes());
    expected.extend_from_slice(&s.imu_delta.to_le_bytes());
    expected.extend_from_slice(&s.distance_cm.to_le_bytes());
    expected.extend_from_slice(&s.vertical_drop_cm.to_le_bytes());
    expected.extend_from_slice(&s.airtime_ms.to_le_bytes());
    assert_eq!(msg, expected);
    assert_eq!(msg.len(), 21 + 32 + 52);
}

#[test]
fn motion_message_layout() {
    let device = [1u8; 32];
    let p = MotionProof {
        nonce: 9,
        timestamp: -1,
        trick_id: 0x0102,
        airtime_ms: 700,
        rotation_deg: 720,
        confidence: 95,
    };
    let msg = build_motion_message(&device, &p);
    let mut expected = b"SNOWBOARD_DEPIN_MOTION".to_vec();
    expected.extend_from_slice(&device);
    expected.extend_from_slice(&9u64.to_le_bytes());
    expected.extend_from_slice(&(-1i64).to_le_bytes());
    expected.extend_from_slice(&0x0102u16.to_le_bytes());
    expected.extend_from_slice(&700u32.to_le_bytes());
    expected.extend_from_slice(&720u16.to_le_bytes());
    expected.push(95);
    assert_eq!(msg, expected);
}

#[test]
fn bytes_equal_compares_contents() {
    assert!(bytes_equal(&[1, 2, 3], &[1, 2, 3]));
    assert!(!bytes_equal(&[1, 2, 3], &[1, 2, 4]));
    assert!(!bytes_equal(&[1, 2], &[1, 2, 3]));
    assert!(bytes_equal(&[], &[]));
}

#[test]
fn ed25519_signature_accepted() {
    let pk = [3u8; 32];
    let msg = b"hello motion".to_vec();
    let data = sysvar(&[(ed25519_program::ID, ed25519_data(&pk, &msg))], 1);
    assert_eq!(verify_ed25519_signature(&data, 0, &pk, &msg), Ok(()));
}

#[test]
fn ed25519_signature_found_at_any_index() {
    let pk = [3u8; 32];
    let msg = b"payload".to_vec();
    let other = SolPubkey::new_from_array([9u8; 32]);
    let data = sysvar(
        &[(other, vec![1, 2, 3]), (ed25519_program::ID, ed25519_data(&pk, &msg))],
        2,
    );
    assert_eq!(verify_ed25519_signature(&data, 1, &pk, &msg), Ok(()));
    assert_eq!(
        verify_ed25519_signature(&data, 0, &pk, &msg),
        Err(SnowboardDepinError::InvalidSignature)
    );
}

#[test]
fn ed25519_missing_instruction() {
    let pk = [3u8; 32];
    let msg = b"m".to_vec();
    let data = sysvar(&[(ed25519_program::ID, ed25519_data(&pk, &msg))], 1);
    assert_eq!(
        verify_ed25519_signature(&data, 5, &pk, &msg),
        Err(SnowboardDepinError::InvalidEd25519Instruction)
    );
}

#[test]
fn ed25519_wrong_key_or_message() {
    let pk = [3u8; 32];
    let msg = b"m1".to_vec();
    let data = sysvar(&[(ed25519_program::ID, ed25519_data(&pk, &msg))], 1);
    assert_eq!(
        verify_ed25519_signature(&data, 0, &[4u8; 32], &msg),
        Err(SnowboardDepinError::Ed25519PubkeyMismatch)
    );
    assert_eq!(
        verify_ed25519_signature(&data, 0, &pk, b"m2"),
        Err(SnowboardDepinError::Ed25519MessageMismatch)
    );
}

#[test]
fn ed25519_malformed_data() {
    let pk = [3u8; 32];
    let msg = b"m".to_vec();
    let short = sysvar(&[(ed25519_program::ID, vec![1u8; 10])], 1);
    assert_eq!(
        verify_ed25519_signature(&short, 0, &pk, &msg),
        Err(SnowboardDepinError::InvalidEd25519Instruction)
    );
    let mut two_sigs = ed25519_data(&pk, &msg);
    two_sigs[0] = 2;
    let data = sysvar(&[(ed25519_program::ID, two_sigs)], 1);
    assert_eq!(
        verify_ed25519_signature(&data, 0, &pk, &msg),
        Err(SnowboardDepinError::InvalidEd25519Instruction)
    );
    let mut far = ed25519_data(&pk, &msg);
    far[6] = 0xff;
    let data = sysvar(&[(ed25519_program::ID, far)], 1);
    assert_eq!(
        verify_ed25519_signature(&data, 0, &pk, &msg),
        Err(SnowboardDepinError::InvalidEd25519Instruction)
    );
}

#[test]
fn ed25519_program_id_bytes() {
    let expected: [u8; 32] = [
        3, 125, 70, 214, 124, 147, 251, 190, 18, 249, 66, 143, 131, 141, 64, 255, 5, 112, 116,
        73, 39, 244, 138, 100, 252, 202, 112, 68, 128, 0, 0, 0,
    ];
    assert_eq!(ed25519_program::ID.to_bytes(), expected);
}

#[test]
fn distinct_samples_sign_distinct_messages() {
    let device = [0xabu8; 32];
    let a = sample();
    let b = TelemetrySample { lat_e7: a.lat_e7 + 1, ..a };
    assert_ne!(build_telemetry_message(&device, &a), build_telemetry_message(&device, &b));
    assert_ne!(build_telemetry_message(&device, &a), build_telemetry_message(&[0xacu8; 32], &a));
}

fn with_index_fields(d: &[u8], sig: u16, key: u16, msg: u16) -> Vec<u8> {
    let mut d = d.to_vec();
    d[4..6].copy_from_slice(&sig.to_le_bytes());
    d[8..10].copy_from_slice(&key.to_le_bytes());
    d[14..16].copy_from_slice(&msg.to_le_bytes());
    d
}

#[test]
fn ed25519_fields_must_refer_to_the_instruction_itself() {
    let pk = [3u8; 32];
    let msg = b"telemetry".to_vec();
    let other = SolPubkey::new_from_array([9u8; 32]);
    let base = ed25519_data(&pk, &msg);
    // Fields naming the instruction's own position are accepted.
    let own = with_index_fields(&base, 1, 1, 1);
    let data = sysvar(&[(other, vec![0]), (ed25519_program::ID, own)], 2);
    assert_eq!(verify_ed25519_signature(&data, 1, &pk, &msg), Ok(()));
    // Any field naming another instruction is refused.
    for (s, k, m) in [(0u16, 0xffffu16, 0xffffu16), (0xffff, 0, 0xffff), (0xffff, 0xffff, 0), (0x1234, 0x1234, 0x1234)] {
        let d = with_index_fields(&base, s, k, m);
        let data = sysvar(&[(other, vec![0]), (ed25519_program::ID, d)], 2);
        assert_eq!(
            verify_ed25519_signature(&data, 1, &pk, &msg),
            Err(SnowboardDepinError::InvalidEd25519Instruction)
        );
    }
}
