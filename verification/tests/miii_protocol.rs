use anchor_lang::solana_program::ed25519_program;
use anchor_lang::solana_program::pubkey::Pubkey as SolPubkey;
use anchor_lang::solana_program::sysvar::instructions::{
    construct_instructions_data, store_current_index, BorrowedInstruction,
};
use snowboard_depin::miii_protocol::{
    read_u16_le, record_motion, register_device, set_device_status, transfer_device, CustomError,
    DeviceRegistry,
};

const KEY: [u8; 32] = [5u8; 32];
const OWNER: [u8; 32] = [6u8; 32];
const NOW: i64 = 1_700_000_000;

fn message(seq: u64, ts: i64, trick: u8, g: u32) -> Vec<u8> {
    let mut m = b"MIII_MOTION_V1".to_vec();
    m.extend_from_slice(&KEY);
    m.extend_from_slice(&seq.to_le_bytes());
    m.extend_from_slice(&ts.to_le_bytes());
    m.push(trick);
    m.extend_from_slice(&g.to_le_bytes());
    m
}

fn ed25519_data(pk: &[u8; 32], msg: &[u8]) -> Vec<u8> {
    let mut d = vec![1u8, 0];
    d.extend_from_slice(&48u16.to_le_bytes());
    d.extend_from_slice(&u16::MAX.to_le_bytes());
    d.extend_from_slice(&16u16.to_le_bytes());
    d.extend_from_slice(&u16::MAX.to_le_bytes());
    d.extend_from_slice(&112u16.to_le_bytes());
    d.extend_from_slice(&(msg.len() as u16).to_le_bytes());
    d.extend_from_slice(&u16::MAX.to_le_bytes());
    d.extend_from_slice(pk);
    d.extend_from_slice(&[0u8; 64]);
    d.extend_from_slice(msg);
    d
}

/// The ed25519 instruction at index 0, the motion instruction at index 1.
fn sysvar_with(data: Vec<u8>) -> Vec<u8> {
    let program = SolPubkey::new_from_array([42u8; 32]);
    let ixs = [
        BorrowedInstruction { program_id: &ed25519_program::ID, accounts: vec![], data: &data },
        BorrowedInstruction { program_id: &program, accounts: vec![], data: &[] },
    ];
    let mut d = construct_instructions_data(&ixs);
    store_current_index(&mut d, 1);
    d
}

fn registry() -> DeviceRegistry {
    register_device(&OWNER, &KEY, 3).unwrap()
}

#[test]
fn register_rejects_zero_key() {
    assert_eq!(register_device(&OWNER, &[0u8; 32], 3), Err(CustomError::InvalidDevice));
    let r = registry();
    assert!(r.is_active);
    assert_eq!((r.owner, r.device_pubkey, r.sequence, r.last_timestamp, r.bump), (OWNER, KEY, 0, 0, 3));
}

#[test]
fn status_and_transfer() {
    let mut r = registry();
    set_device_status(&mut r, false);
    assert!(!r.is_active);
    assert_eq!(transfer_device(&mut r, &[0u8; 32]), Err(CustomError::InvalidOwner));
    assert_eq!(r.owner, OWNER);
    assert_eq!(transfer_device(&mut r, &[9u8; 32]), Ok(OWNER));
    assert_eq!(r.owner, [9u8; 32]);
}

#[test]
fn record_motion_in_sequence() {
    let mut r = registry();
    let sysvar = sysvar_with(ed25519_data(&KEY, &message(0, NOW, 4, 845)));
    let ev = record_motion(&mut r, &OWNER, 4, 845, NOW, 0, NOW + 60, &sysvar, 2).unwrap();
    assert_eq!((ev.device, ev.user, ev.trick_type, ev.g_force, ev.timestamp, ev.sequence, ev.bump), (KEY, OWNER, 4, 845, NOW, 0, 2));
    assert_eq!(r.sequence, 1);
    assert_eq!(r.last_timestamp, NOW);
    // replay of the same motion
    assert_eq!(record_motion(&mut r, &OWNER, 4, 845, NOW, 0, NOW, &sysvar, 2), Err(CustomError::InvalidSequence));
    // the next motion must be later
    let sysvar1 = sysvar_with(ed25519_data(&KEY, &message(1, NOW, 4, 845)));
    assert_eq!(record_motion(&mut r, &OWNER, 4, 845, NOW, 1, NOW, &sysvar1, 2), Err(CustomError::TimestampNotIncreasing));
    let sysvar1 = sysvar_with(ed25519_data(&KEY, &message(1, NOW + 1, 0, 1500)));
    assert!(record_motion(&mut r, &OWNER, 0, 1500, NOW + 1, 1, NOW, &sysvar1, 2).is_ok());
    assert_eq!(r.sequence, 2);
}

#[test]
fn record_motion_rejections() {
    let sysvar = sysvar_with(ed25519_data(&KEY, &message(0, NOW, 4, 845)));
    let mut r = registry();
    assert_eq!(record_motion(&mut r, &[1u8; 32], 4, 845, NOW, 0, NOW, &sysvar, 2), Err(CustomError::UnauthorizedUser));
    assert_eq!(record_motion(&mut r, &OWNER, 4, 845, NOW, 0, NOW + 61, &sysvar, 2), Err(CustomError::InvalidTimestamp));
    assert_eq!(record_motion(&mut r, &OWNER, 4, 845, NOW, 0, NOW - 61, &sysvar, 2), Err(CustomError::InvalidTimestamp));
    assert_eq!(record_motion(&mut r, &OWNER, 4, 845, i64::MIN, 0, NOW, &sysvar, 2), Err(CustomError::TimestampOverflow));
    assert_eq!(record_motion(&mut r, &OWNER, 4, 1501, NOW, 0, NOW, &sysvar, 2), Err(CustomError::PhysicsLimitExceeded));
    assert_eq!(record_motion(&mut r, &OWNER, 5, 845, NOW, 0, NOW, &sysvar, 2), Err(CustomError::InvalidSignedMessage));
    let other_key = sysvar_with(ed25519_data(&[8u8; 32], &message(0, NOW, 4, 845)));
    assert_eq!(record_motion(&mut r, &OWNER, 4, 845, NOW, 0, NOW, &other_key, 2), Err(CustomError::InvalidDeviceSignature));
    let mut padded = ed25519_data(&KEY, &message(0, NOW, 4, 845));
    padded[1] = 1;
    assert_eq!(record_motion(&mut r, &OWNER, 4, 845, NOW, 0, NOW, &sysvar_with(padded), 2), Err(CustomError::InvalidEd25519Instruction));
    let mut elsewhere = ed25519_data(&KEY, &message(0, NOW, 4, 845));
    elsewhere[4] = 0;
    assert_eq!(record_motion(&mut r, &OWNER, 4, 845, NOW, 0, NOW, &sysvar_with(elsewhere), 2), Err(CustomError::InvalidEd25519Instruction));
    assert_eq!(r.sequence, 0);
    set_device_status(&mut r, false);
    assert_eq!(record_motion(&mut r, &OWNER, 4, 845, NOW, 0, NOW, &sysvar, 2), Err(CustomError::DeviceInactive));
}

#[test]
fn record_motion_needs_a_preceding_instruction() {
    let data = ed25519_data(&KEY, &message(0, NOW, 4, 845));
    let ixs = [BorrowedInstruction { program_id: &ed25519_program::ID, accounts: vec![], data: &data }];
    let mut sysvar = construct_instructions_data(&ixs);
    store_current_index(&mut sysvar, 0);
    let mut r = registry();
    assert_eq!(record_motion(&mut r, &OWNER, 4, 845, NOW, 0, NOW, &sysvar, 2), Err(CustomError::MissingEd25519Instruction));
}

#[test]
fn record_motion_sequence_overflow() {
    let mut r = registry();
    r.sequence = u64::MAX;
    let sysvar = sysvar_with(ed25519_data(&KEY, &message(u64::MAX, NOW, 4, 845)));
    assert_eq!(record_motion(&mut r, &OWNER, 4, 845, NOW, u64::MAX, NOW, &sysvar, 2), Err(CustomError::Overflow));
    assert_eq!(r.sequence, u64::MAX);
}

#[test]
fn read_u16_le_bounds() {
    let data = [0x34u8, 0x12, 0xff];
    assert_eq!(read_u16_le(&data, 0), Ok(0x1234));
    assert_eq!(read_u16_le(&data, 1), Ok(0xff12));
    assert_eq!(read_u16_le(&data, 2), Err(CustomError::InvalidEd25519Instruction));
    assert_eq!(read_u16_le(&data, usize::MAX), Err(CustomError::InvalidEd25519Instruction));
}
