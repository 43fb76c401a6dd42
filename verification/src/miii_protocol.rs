//! The motion registry: devices register an Ed25519 key, and each motion they
//! sign is recorded once, in sequence, after the Ed25519 verify instruction
//! placed just before it in the transaction has been checked.

use vstd::prelude::*;
use vstd::slice::slice_subrange;
use crate::crypto::{
    bytes_equal, ed25519_program_id, load_current_index, load_instruction_at, push_bytes,
    push_i64_le, push_u32_le, push_u64_le, read_u16_at, spec_current_index,
    spec_ed25519_program_id, spec_i64_le, spec_loaded, spec_u16_at, sysvar_instruction_at,
    SysvarInstruction,
};
use crate::state::{is_default_key, keys_equal, spec_default_key, Pubkey};
use vstd::bytes::{
    lemma_auto_spec_u32_to_from_le_bytes, lemma_auto_spec_u64_to_from_le_bytes,
    spec_u32_to_le_bytes, spec_u64_from_le_bytes, spec_u64_to_le_bytes,
};

verus! {

/// Largest difference, in seconds, between a motion timestamp and the cluster clock.
pub const MOTION_CLOCK_TOLERANCE: i64 = 60;

/// 15.00 G, in hundredths of G.
pub const MAX_G_FORCE: u32 = 1500;

/// Largest trick identifier.
pub const MAX_TRICK_TYPE: u8 = 255;

/// Value of an Ed25519 offsets field that points into the verify instruction itself.
pub const CURRENT_INSTRUCTION: u16 = 0xffff;

/// Errors of the motion registry.
#[derive(Debug, Clone, Copy, PartialEq, Eq, Structural)]
pub enum CustomError {
    DeviceInactive,
    UnauthorizedUser,
    UnauthorizedOwner,
    InvalidDevice,
    InvalidTimestamp,
    TimestampNotIncreasing,
    InvalidSequence,
    PhysicsLimitExceeded,
    InvalidTrickType,
    InvalidOwner,
    TimestampOverflow,
    Overflow,
    MissingEd25519Instruction,
    InvalidEd25519Instruction,
    InvalidDeviceSignature,
    InvalidSignedMessage,
}

/// A registered physical device.
#[derive(Debug, Clone, Copy, PartialEq, Eq)]
pub struct DeviceRegistry {
    /// Current owner of the physical device.
    pub owner: Pubkey,
    /// Ed25519 public key controlled by the physical device.
    pub device_pubkey: Pubkey,
    /// Whether the device may record motions.
    pub is_active: bool,
    /// Next expected motion sequence.
    pub sequence: u64,
    /// Timestamp of the last recorded motion, 0 before the first.
    pub last_timestamp: i64,
    pub bump: u8,
}

/// One recorded motion.
#[derive(Debug, Clone, Copy, PartialEq, Eq)]
pub struct MotionEvent {
    pub device: Pubkey,
    pub user: Pubkey,
    pub trick_type: u8,
    /// G-force in hundredths of G.
    pub g_force: u32,
    pub timestamp: i64,
    pub sequence: u64,
    pub bump: u8,
}

/// Registers a device key; the all-zero key is refused.
pub fn register_device(owner: &Pubkey, device_pubkey: &Pubkey, bump: u8) -> (r: Result<
    DeviceRegistry,
    CustomError,
>)
    ensures
        device_pubkey@ == spec_default_key() ==> r == Err::<DeviceRegistry, CustomError>(
            CustomError::InvalidDevice,
        ),
        device_pubkey@ != spec_default_key() ==> r == Ok::<DeviceRegistry, CustomError>(
            DeviceRegistry {
                owner: *owner,
                device_pubkey: *device_pubkey,
                is_active: true,
                sequence: 0,
                last_timestamp: 0,
                bump,
            },
        ),
{
    if is_default_key(device_pubkey) {
        return Err(CustomError::InvalidDevice);
    }
    Ok(
        DeviceRegistry {
            owner: *owner,
            device_pubkey: *device_pubkey,
            is_active: true,
            sequence: 0,
            last_timestamp: 0,
            bump,
        },
    )
}

/// Enables or disables a device.
pub fn set_device_status(registry: &mut DeviceRegistry, active: bool)
    ensures
        *final(registry) == (DeviceRegistry { is_active: active, ..*old(registry) }),
{
    registry.is_active = active;
}

/// Hands a device to a new owner and returns the previous owner; the all-zero
/// key is refused and leaves the device unchanged.
pub fn transfer_device(registry: &mut DeviceRegistry, new_owner: &Pubkey) -> (r: Result<
    Pubkey,
    CustomError,
>)
    ensures
        new_owner@ == spec_default_key() ==> r == Err::<Pubkey, CustomError>(
            CustomError::InvalidOwner,
        ) && *final(registry) == *old(registry),
        new_owner@ != spec_default_key() ==> r == Ok::<Pubkey, CustomError>(old(registry).owner)
            && *final(registry) == (DeviceRegistry { owner: *new_owner, ..*old(registry) }),
{
    if is_default_key(new_owner) {
        return Err(CustomError::InvalidOwner);
    }
    let previous_owner = registry.owner;
    registry.owner = *new_owner;
    Ok(previous_owner)
}

/// Domain separator of signed motion data: `MIII_MOTION_V1`.
pub open spec fn spec_motion_domain() -> Seq<u8> {
    seq![
        0x4du8, 0x49u8, 0x49u8, 0x49u8, 0x5fu8, 0x4du8, 0x4fu8, 0x54u8, 0x49u8, 0x4fu8, 0x4eu8,
        0x5fu8, 0x56u8, 0x31u8,
    ]
}

/// The exact bytes a device signs for a motion: domain, device key, sequence,
/// timestamp, trick type and g-force.
pub open spec fn spec_motion_message(
    device_pubkey: Seq<u8>,
    sequence: u64,
    timestamp: i64,
    trick_type: u8,
    g_force: u32,
) -> Seq<u8> {
    spec_motion_domain() + device_pubkey + spec_u64_to_le_bytes(sequence) + spec_i64_le(timestamp)
        + seq![trick_type] + spec_u32_to_le_bytes(g_force)
}

fn build_motion_message(
    device_pubkey: &Pubkey,
    sequence: u64,
    timestamp: i64,
    trick_type: u8,
    g_force: u32,
) -> (msg: Vec<u8>)
    ensures
        msg@ == spec_motion_message(device_pubkey@, sequence, timestamp, trick_type, g_force),
{
    let mut msg = vec![
        0x4du8, 0x49u8, 0x49u8, 0x49u8, 0x5fu8, 0x4du8, 0x4fu8, 0x54u8, 0x49u8, 0x4fu8, 0x4eu8,
        0x5fu8, 0x56u8, 0x31u8,
    ];
    assert(msg@ =~= spec_motion_domain());
    push_bytes(&mut msg, device_pubkey);
    push_u64_le(&mut msg, sequence);
    push_i64_le(&mut msg, timestamp);
    let ghost before = msg@;
    msg.push(trick_type);
    assert(msg@ =~= before + seq![trick_type]);
    push_u32_le(&mut msg, g_force);
    msg
}

/// The instruction just before the executing one, if there is one.
pub open spec fn spec_previous_instruction(sysvar_data: Seq<u8>) -> Option<(Seq<u8>, Seq<u8>)> {
    let current = spec_current_index(sysvar_data);
    if current == 0 {
        None
    } else {
        sysvar_instruction_at((current - 1) as usize, sysvar_data)
    }
}

/// Loads the instruction just before the executing one.
pub fn previous_instruction(sysvar_data: &[u8]) -> (r: Option<SysvarInstruction>)
    requires
        sysvar_data@.len() >= 2,
    ensures
        spec_loaded(r) == spec_previous_instruction(sysvar_data@),
{
    let current = load_current_index(sysvar_data);
    if current == 0 {
        return None;
    }
    load_instruction_at((current - 1) as usize, sysvar_data)
}

/// Checks that an Ed25519 verify instruction carries one signature whose key,
/// signature and message all lie inside it, by `expected_pubkey` over exactly
/// `expected_message`.
pub open spec fn spec_check_ed25519_instruction(
    ix: Option<(Seq<u8>, Seq<u8>)>,
    expected_pubkey: Seq<u8>,
    expected_message: Seq<u8>,
) -> Result<(), CustomError> {
    match ix {
        None => Err(CustomError::MissingEd25519Instruction),
        Some((program_id, d)) => {
            if program_id != spec_ed25519_program_id() || d.len() < 16 || d[0] != 1 || d[1] != 0 {
                Err(CustomError::InvalidEd25519Instruction)
            } else {
                let signature_offset = spec_u16_at(d, 2);
                let public_key_offset = spec_u16_at(d, 6);
                let message_offset = spec_u16_at(d, 10);
                let message_size = spec_u16_at(d, 12);
                if spec_u16_at(d, 4) != 0xffff || spec_u16_at(d, 8) != 0xffff || spec_u16_at(d, 14)
                    != 0xffff {
                    Err(CustomError::InvalidEd25519Instruction)
                } else if signature_offset + 64 > d.len() || public_key_offset + 32 > d.len() {
                    Err(CustomError::InvalidEd25519Instruction)
                } else if d.subrange(public_key_offset, public_key_offset + 32) != expected_pubkey {
                    Err(CustomError::InvalidDeviceSignature)
                } else if message_offset + message_size > d.len() {
                    Err(CustomError::InvalidEd25519Instruction)
                } else if d.subrange(message_offset, message_offset + message_size)
                    != expected_message {
                    Err(CustomError::InvalidSignedMessage)
                } else {
                    Ok(())
                }
            }
        },
    }
}

/// Checks a loaded instruction against the device key and the motion message.
pub fn check_ed25519_instruction(
    ix: &Option<SysvarInstruction>,
    expected_pubkey: &Pubkey,
    expected_message: &[u8],
) -> (r: Result<(), CustomError>)
    ensures
        r == spec_check_ed25519_instruction(spec_loaded(*ix), expected_pubkey@, expected_message@),
{
    let ix = match ix {
        None => return Err(CustomError::MissingEd25519Instruction),
        Some(ix) => ix,
    };
    let ed_id = ed25519_program_id();
    if !bytes_equal(&ix.program_id, &ed_id) {
        return Err(CustomError::InvalidEd25519Instruction);
    }
    let data = ix.data.as_slice();
    if data.len() < 16 {
        return Err(CustomError::InvalidEd25519Instruction);
    }
    if data[0] != 1 {
        return Err(CustomError::InvalidEd25519Instruction);
    }
    if data[1] != 0 {
        return Err(CustomError::InvalidEd25519Instruction);
    }
    let signature_offset = match read_u16_le(data, 2) {
        Ok(v) => v as usize,
        Err(e) => return Err(e),
    };
    let signature_instruction_index = match read_u16_le(data, 4) {
        Ok(v) => v,
        Err(e) => return Err(e),
    };
    let public_key_offset = match read_u16_le(data, 6) {
        Ok(v) => v as usize,
        Err(e) => return Err(e),
    };
    let public_key_instruction_index = match read_u16_le(data, 8) {
        Ok(v) => v,
        Err(e) => return Err(e),
    };
    let message_data_offset = match read_u16_le(data, 10) {
        Ok(v) => v as usize,
        Err(e) => return Err(e),
    };
    let message_data_size = match read_u16_le(data, 12) {
        Ok(v) => v as usize,
        Err(e) => return Err(e),
    };
    let message_instruction_index = match read_u16_le(data, 14) {
        Ok(v) => v,
        Err(e) => return Err(e),
    };
    if signature_instruction_index != CURRENT_INSTRUCTION {
        return Err(CustomError::InvalidEd25519Instruction);
    }
    if public_key_instruction_index != CURRENT_INSTRUCTION {
        return Err(CustomError::InvalidEd25519Instruction);
    }
    if message_instruction_index != CURRENT_INSTRUCTION {
        return Err(CustomError::InvalidEd25519Instruction);
    }
    let signature_end = signature_offset + 64;
    if signature_end > data.len() {
        return Err(CustomError::InvalidEd25519Instruction);
    }
    let public_key_end = public_key_offset + 32;
    if public_key_end > data.len() {
        return Err(CustomError::InvalidEd25519Instruction);
    }
    let public_key_bytes = slice_subrange(data, public_key_offset, public_key_end);
    if !bytes_equal(public_key_bytes, expected_pubkey) {
        return Err(CustomError::InvalidDeviceSignature);
    }
    let message_end = message_data_offset + message_data_size;
    if message_end > data.len() {
        return Err(CustomError::InvalidEd25519Instruction);
    }
    let signed_message = slice_subrange(data, message_data_offset, message_end);
    if !bytes_equal(signed_message, expected_message) {
        return Err(CustomError::InvalidSignedMessage);
    }
    Ok(())
}

/// Reads the little-endian `u16` at `offset` of `data`; fails with
/// `InvalidEd25519Instruction` where the two bytes do not lie in `data`.
pub fn read_u16_le(data: &[u8], offset: usize) -> (r: Result<u16, CustomError>)
    ensures
        match r {
            Ok(v) => offset + 2 <= data@.len() && v as int == spec_u16_at(data@, offset as int),
            Err(e) => offset + 2 > data@.len() && e == CustomError::InvalidEd25519Instruction,
        },
{
    let n = data.len();
    let end = match offset.checked_add(2) {
        Some(end) => end,
        None => return Err(CustomError::InvalidEd25519Instruction),
    };
    if end > n {
        return Err(CustomError::InvalidEd25519Instruction);
    }
    Ok(read_u16_at(data, offset))
}

/// Checks that the instruction just before the executing one verifies the
/// device's signature over the motion message.
pub fn verify_ed25519_signature(
    instructions_sysvar: &[u8],
    expected_pubkey: &Pubkey,
    expected_message: &[u8],
) -> (r: Result<(), CustomError>)
    requires
        instructions_sysvar@.len() >= 2,
    ensures
        r == spec_check_ed25519_instruction(
            spec_previous_instruction(instructions_sysvar@),
            expected_pubkey@,
            expected_message@,
        ),
{
    let ix = previous_instruction(instructions_sysvar);
    check_ed25519_instruction(&ix, expected_pubkey, expected_message)
}


/// The checks made on a motion before its signature is looked at.
pub open spec fn spec_motion_precheck(
    registry: DeviceRegistry,
    user: Seq<u8>,
    trick_type: u8,
    g_force: u32,
    timestamp: i64,
    sequence: u64,
    current_time: i64,
) -> Result<(), CustomError> {
    let delta = current_time - timestamp;
    if !registry.is_active {
        Err(CustomError::DeviceInactive)
    } else if registry.owner@ != user {
        Err(CustomError::UnauthorizedUser)
    } else if sequence != registry.sequence {
        Err(CustomError::InvalidSequence)
    } else if delta < i64::MIN || delta > i64::MAX {
        Err(CustomError::TimestampOverflow)
    } else if delta < -MOTION_CLOCK_TOLERANCE || delta > MOTION_CLOCK_TOLERANCE {
        Err(CustomError::InvalidTimestamp)
    } else if registry.last_timestamp != 0 && timestamp <= registry.last_timestamp {
        Err(CustomError::TimestampNotIncreasing)
    } else if g_force > MAX_G_FORCE {
        Err(CustomError::PhysicsLimitExceeded)
    } else if trick_type > MAX_TRICK_TYPE {
        Err(CustomError::InvalidTrickType)
    } else {
        Ok(())
    }
}

/// The outcome of recording a motion: the updated registry and the recorded
/// event, or the first check that fails. `ix` is the instruction placed just
/// before the executing one.
pub open spec fn spec_record_motion(
    registry: DeviceRegistry,
    user: Pubkey,
    trick_type: u8,
    g_force: u32,
    timestamp: i64,
    sequence: u64,
    current_time: i64,
    ix: Option<(Seq<u8>, Seq<u8>)>,
    event_bump: u8,
) -> Result<(DeviceRegistry, MotionEvent), CustomError> {
    match spec_motion_precheck(
        registry,
        user@,
        trick_type,
        g_force,
        timestamp,
        sequence,
        current_time,
    ) {
        Err(e) => Err(e),
        Ok(_) => match spec_check_ed25519_instruction(
            ix,
            registry.device_pubkey@,
            spec_motion_message(registry.device_pubkey@, sequence, timestamp, trick_type, g_force),
        ) {
            Err(e) => Err(e),
            Ok(_) => if registry.sequence + 1 > u64::MAX {
                Err(CustomError::Overflow)
            } else {
                Ok(
                    (
                        DeviceRegistry {
                            sequence: (registry.sequence + 1) as u64,
                            last_timestamp: timestamp,
                            ..registry
                        },
                        MotionEvent {
                            device: registry.device_pubkey,
                            user,
                            trick_type,
                            g_force,
                            timestamp,
                            sequence,
                            bump: event_bump,
                        },
                    ),
                )
            },
        },
    }
}

/// Records a signed motion of a registered device. `current_time` is the
/// cluster's unix time and `instructions_sysvar` the instructions sysvar data;
/// on any failure the registry is left as it was.
pub fn record_motion(
    registry: &mut DeviceRegistry,
    user: &Pubkey,
    trick_type: u8,
    g_force: u32,
    timestamp: i64,
    sequence: u64,
    current_time: i64,
    instructions_sysvar: &[u8],
    event_bump: u8,
) -> (r: Result<MotionEvent, CustomError>)
    requires
        spec_motion_precheck(
            *old(registry),
            user@,
            trick_type,
            g_force,
            timestamp,
            sequence,
            current_time,
        ) is Ok ==> instructions_sysvar@.len() >= 2,
    ensures
        match spec_record_motion(
            *old(registry),
            *user,
            trick_type,
            g_force,
            timestamp,
            sequence,
            current_time,
            spec_previous_instruction(instructions_sysvar@),
            event_bump,
        ) {
            Ok((next, event)) => r == Ok::<MotionEvent, CustomError>(event) && *final(registry)
                == next,
            Err(e) => r == Err::<MotionEvent, CustomError>(e) && *final(registry) == *old(
                registry,
            ),
        },
{
    if !registry.is_active {
        return Err(CustomError::DeviceInactive);
    }
    if !keys_equal(&registry.owner, user) {
        return Err(CustomError::UnauthorizedUser);
    }
    if sequence != registry.sequence {
        return Err(CustomError::InvalidSequence);
    }
    let delta = match current_time.checked_sub(timestamp) {
        Some(d) => d,
        None => return Err(CustomError::TimestampOverflow),
    };
    if !(delta >= -MOTION_CLOCK_TOLERANCE && delta <= MOTION_CLOCK_TOLERANCE) {
        return Err(CustomError::InvalidTimestamp);
    }
    if registry.last_timestamp != 0 {
        if !(timestamp > registry.last_timestamp) {
            return Err(CustomError::TimestampNotIncreasing);
        }
    }
    if g_force > MAX_G_FORCE {
        return Err(CustomError::PhysicsLimitExceeded);
    }
    if trick_type > MAX_TRICK_TYPE {
        return Err(CustomError::InvalidTrickType);
    }
    let message = build_motion_message(
        &registry.device_pubkey,
        sequence,
        timestamp,
        trick_type,
        g_force,
    );
    match verify_ed25519_signature(instructions_sysvar, &registry.device_pubkey, &message) {
        Ok(()) => {},
        Err(e) => return Err(e),
    }
    let next_sequence = match registry.sequence.checked_add(1) {
        Some(n) => n,
        None => return Err(CustomError::Overflow),
    };
    let event = MotionEvent {
        device: registry.device_pubkey,
        user: *user,
        trick_type,
        g_force,
        timestamp,
        sequence,
        bump: event_bump,
    };
    registry.sequence = next_sequence;
    registry.last_timestamp = timestamp;
    Ok(event)
}

/// Replay protection: once a motion with sequence `sequence` has been recorded,
/// no motion with that sequence is recorded again on the updated registry,
/// whatever its other fields, the clock or the accompanying instruction.
pub proof fn lemma_motion_replay_rejected(
    registry: DeviceRegistry,
    user: Pubkey,
    trick_type: u8,
    g_force: u32,
    timestamp: i64,
    sequence: u64,
    current_time: i64,
    ix: Option<(Seq<u8>, Seq<u8>)>,
    event_bump: u8,
    user2: Pubkey,
    trick_type2: u8,
    g_force2: u32,
    timestamp2: i64,
    current_time2: i64,
    ix2: Option<(Seq<u8>, Seq<u8>)>,
    event_bump2: u8,
)
    requires
        spec_record_motion(
            registry,
            user,
            trick_type,
            g_force,
            timestamp,
            sequence,
            current_time,
            ix,
            event_bump,
        ) is Ok,
    ensures
        ({
            let next = spec_record_motion(
                registry,
                user,
                trick_type,
                g_force,
                timestamp,
                sequence,
                current_time,
                ix,
                event_bump,
            )->Ok_0.0;
            spec_record_motion(
                next,
                user2,
                trick_type2,
                g_force2,
                timestamp2,
                sequence,
                current_time2,
                ix2,
                event_bump2,
            ) is Err
        }),
{
}

/// Recorded motions come from the active device's owner, lie within the clock
/// tolerance and the g-force limit, advance the sequence by one and carry
/// strictly increasing timestamps.
pub proof fn lemma_motion_sequence_and_time_advance(
    registry: DeviceRegistry,
    user: Pubkey,
    trick_type: u8,
    g_force: u32,
    timestamp: i64,
    sequence: u64,
    current_time: i64,
    ix: Option<(Seq<u8>, Seq<u8>)>,
    event_bump: u8,
)
    requires
        spec_record_motion(
            registry,
            user,
            trick_type,
            g_force,
            timestamp,
            sequence,
            current_time,
            ix,
            event_bump,
        ) is Ok,
    ensures
        ({
            let (next, event) = spec_record_motion(
                registry,
                user,
                trick_type,
                g_force,
                timestamp,
                sequence,
                current_time,
                ix,
                event_bump,
            )->Ok_0;
            &&& event.sequence == registry.sequence
            &&& next.sequence == registry.sequence + 1
            &&& registry.last_timestamp != 0 ==> next.last_timestamp > registry.last_timestamp
            &&& next.owner == registry.owner
            &&& next.device_pubkey == registry.device_pubkey
            &&& -MOTION_CLOCK_TOLERANCE <= current_time - timestamp <= MOTION_CLOCK_TOLERANCE
            &&& event.g_force <= MAX_G_FORCE
            &&& registry.is_active
            &&& registry.owner == user
        }),
{
}


/// Canonical framing: two motion messages of 32-byte device keys are equal
/// only for the same device and the same motion, so a device signature
/// authorises exactly one motion.
pub proof fn lemma_motion_message_is_canonical(
    pk1: Seq<u8>,
    sequence1: u64,
    timestamp1: i64,
    trick_type1: u8,
    g_force1: u32,
    pk2: Seq<u8>,
    sequence2: u64,
    timestamp2: i64,
    trick_type2: u8,
    g_force2: u32,
)
    requires
        pk1.len() == 32,
        pk2.len() == 32,
        spec_motion_message(pk1, sequence1, timestamp1, trick_type1, g_force1)
            == spec_motion_message(pk2, sequence2, timestamp2, trick_type2, g_force2),
    ensures
        pk1 == pk2,
        sequence1 == sequence2,
        timestamp1 == timestamp2,
        trick_type1 == trick_type2,
        g_force1 == g_force2,
{
    lemma_auto_spec_u64_to_from_le_bytes();
    lemma_auto_spec_u32_to_from_le_bytes();
    let m1 = spec_motion_message(pk1, sequence1, timestamp1, trick_type1, g_force1);
    let m2 = spec_motion_message(pk2, sequence2, timestamp2, trick_type2, g_force2);
    assert(m1.subrange(14, 46) =~= pk1);
    assert(m2.subrange(14, 46) =~= pk2);
    assert(m1.subrange(46, 54) =~= spec_u64_to_le_bytes(sequence1));
    assert(m2.subrange(46, 54) =~= spec_u64_to_le_bytes(sequence2));
    assert(m1.subrange(54, 62) =~= spec_i64_le(timestamp1));
    assert(m2.subrange(54, 62) =~= spec_i64_le(timestamp2));
    assert(m1[62] == trick_type1);
    assert(m2[62] == trick_type2);
    assert(m1.subrange(63, 67) =~= spec_u32_to_le_bytes(g_force1));
    assert(m2.subrange(63, 67) =~= spec_u32_to_le_bytes(g_force2));
    assert((timestamp1 as u64) as i64 == timestamp1) by (bit_vector);
    assert((timestamp2 as u64) as i64 == timestamp2) by (bit_vector);
    assert(spec_u64_from_le_bytes(spec_u64_to_le_bytes(timestamp1 as u64)) == timestamp1 as u64);
    assert(spec_u64_from_le_bytes(spec_u64_to_le_bytes(timestamp2 as u64)) == timestamp2 as u64);
}

/// What an accepted motion signature instruction guarantees: it belongs to
/// the Ed25519 program, carries one signature with zero padding, its
/// signature, key and message all lie in the instruction itself (fields
/// 0xFFFF), the signature fits, and the 32 bytes at its key offset are the
/// device key and the bytes at its message offset are the motion message.
pub proof fn lemma_accepted_motion_instruction_binds_key_and_message(
    ix: Option<(Seq<u8>, Seq<u8>)>,
    expected_pubkey: Seq<u8>,
    expected_message: Seq<u8>,
)
    requires
        spec_check_ed25519_instruction(ix, expected_pubkey, expected_message) is Ok,
    ensures
        ix is Some,
        ({
            let (program_id, d) = ix->Some_0;
            let key_at = spec_u16_at(d, 6);
            let msg_at = spec_u16_at(d, 10);
            let msg_len = spec_u16_at(d, 12);
            &&& program_id == spec_ed25519_program_id()
            &&& d.len() >= 16
            &&& d[0] == 1
            &&& d[1] == 0
            &&& spec_u16_at(d, 4) == 0xffff
            &&& spec_u16_at(d, 8) == 0xffff
            &&& spec_u16_at(d, 14) == 0xffff
            &&& spec_u16_at(d, 2) + 64 <= d.len()
            &&& key_at + 32 <= d.len()
            &&& d.subrange(key_at, key_at + 32) == expected_pubkey
            &&& msg_at + msg_len <= d.len()
            &&& d.subrange(msg_at, msg_at + msg_len) == expected_message
        }),
{
}

} // verus!
