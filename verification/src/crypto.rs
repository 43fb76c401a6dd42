//! Signed-message framing and checks of the Ed25519 verify instruction found
//! in the instructions sysvar.

use vstd::prelude::*;
use vstd::bytes::*;
use vstd::slice::{slice_subrange, slice_to_vec};
use crate::errors::SnowboardDepinError;
use crate::state::{MotionProof, Pubkey, TelemetrySample};

verus! {

/// Prefix of signed telemetry messages: `SNOWBOARD_DEPIN_TELEM`.
pub open spec fn spec_telem_prefix() -> Seq<u8> {
    seq![
        0x53u8, 0x4eu8, 0x4fu8, 0x57u8, 0x42u8, 0x4fu8, 0x41u8, 0x52u8, 0x44u8, 0x5fu8, 0x44u8,
        0x45u8, 0x50u8, 0x49u8, 0x4eu8, 0x5fu8, 0x54u8, 0x45u8, 0x4cu8, 0x45u8, 0x4du8,
    ]
}

/// Prefix of signed trick messages: `SNOWBOARD_DEPIN_MOTION`.
pub open spec fn spec_motion_prefix() -> Seq<u8> {
    seq![
        0x53u8, 0x4eu8, 0x4fu8, 0x57u8, 0x42u8, 0x4fu8, 0x41u8, 0x52u8, 0x44u8, 0x5fu8, 0x44u8,
        0x45u8, 0x50u8, 0x49u8, 0x4eu8, 0x5fu8, 0x4du8, 0x4fu8, 0x54u8, 0x49u8, 0x4fu8, 0x4eu8,
    ]
}

/// The bytes `SNOWBOARD_DEPIN_TELEM`.
pub fn telem_prefix() -> (v: Vec<u8>)
    ensures
        v@ == spec_telem_prefix(),
{
    let v = vec![
        0x53u8, 0x4eu8, 0x4fu8, 0x57u8, 0x42u8, 0x4fu8, 0x41u8, 0x52u8, 0x44u8, 0x5fu8, 0x44u8,
        0x45u8, 0x50u8, 0x49u8, 0x4eu8, 0x5fu8, 0x54u8, 0x45u8, 0x4cu8, 0x45u8, 0x4du8,
    ];
    assert(v@ =~= spec_telem_prefix());
    v
}

/// The bytes `SNOWBOARD_DEPIN_MOTION`.
pub fn motion_prefix() -> (v: Vec<u8>)
    ensures
        v@ == spec_motion_prefix(),
{
    let v = vec![
        0x53u8, 0x4eu8, 0x4fu8, 0x57u8, 0x42u8, 0x4fu8, 0x41u8, 0x52u8, 0x44u8, 0x5fu8, 0x44u8,
        0x45u8, 0x50u8, 0x49u8, 0x4eu8, 0x5fu8, 0x4du8, 0x4fu8, 0x54u8, 0x49u8, 0x4fu8, 0x4eu8,
    ];
    assert(v@ =~= spec_motion_prefix());
    v
}

pub open spec fn spec_i64_le(x: i64) -> Seq<u8> {
    spec_u64_to_le_bytes(x as u64)
}

pub open spec fn spec_i32_le(x: i32) -> Seq<u8> {
    spec_u32_to_le_bytes(x as u32)
}

/// The canonical telemetry message that a device signs: the prefix, the
/// device account address, then every sample field little-endian.
pub open spec fn spec_telemetry_message(device: Seq<u8>, s: TelemetrySample) -> Seq<u8> {
    spec_telem_prefix() + device + spec_u64_to_le_bytes(s.nonce) + spec_i64_le(s.timestamp)
        + spec_i32_le(s.lat_e7) + spec_i32_le(s.lon_e7) + spec_i32_le(s.altitude_cm)
        + spec_u32_to_le_bytes(s.speed_cm_s) + spec_u32_to_le_bytes(s.accel_milli_g)
        + spec_u32_to_le_bytes(s.imu_delta) + spec_u32_to_le_bytes(s.distance_cm)
        + spec_u32_to_le_bytes(s.vertical_drop_cm) + spec_u32_to_le_bytes(s.airtime_ms)
}

/// The canonical trick message that a device signs.
pub open spec fn spec_motion_message(device: Seq<u8>, p: MotionProof) -> Seq<u8> {
    spec_motion_prefix() + device + spec_u64_to_le_bytes(p.nonce) + spec_i64_le(p.timestamp)
        + spec_u16_to_le_bytes(p.trick_id) + spec_u32_to_le_bytes(p.airtime_ms)
        + spec_u16_to_le_bytes(p.rotation_deg) + seq![p.confidence]
}

/// Appends the little-endian bytes of a `u64`.
pub(crate) fn push_u64_le(msg: &mut Vec<u8>, x: u64)
    ensures
        final(msg)@ == old(msg)@ + spec_u64_to_le_bytes(x),
{
    let mut b = u64_to_le_bytes(x);
    msg.append(&mut b);
}

/// Appends the little-endian bytes of an `i64`.
pub(crate) fn push_i64_le(msg: &mut Vec<u8>, x: i64)
    ensures
        final(msg)@ == old(msg)@ + spec_i64_le(x),
{
    let mut b = u64_to_le_bytes(x as u64);
    msg.append(&mut b);
}

/// Appends the little-endian bytes of a `u32`.
pub(crate) fn push_u32_le(msg: &mut Vec<u8>, x: u32)
    ensures
        final(msg)@ == old(msg)@ + spec_u32_to_le_bytes(x),
{
    let mut b = u32_to_le_bytes(x);
    msg.append(&mut b);
}

/// Appends the little-endian bytes of an `i32`.
pub(crate) fn push_i32_le(msg: &mut Vec<u8>, x: i32)
    ensures
        final(msg)@ == old(msg)@ + spec_i32_le(x),
{
    let mut b = u32_to_le_bytes(x as u32);
    msg.append(&mut b);
}

/// Appends the little-endian bytes of a `u16`.
pub(crate) fn push_u16_le(msg: &mut Vec<u8>, x: u16)
    ensures
        final(msg)@ == old(msg)@ + spec_u16_to_le_bytes(x),
{
    let mut b = u16_to_le_bytes(x);
    msg.append(&mut b);
}

/// Appends a byte slice.
pub(crate) fn push_bytes(msg: &mut Vec<u8>, bytes: &[u8])
    ensures
        final(msg)@ == old(msg)@ + bytes@,
{
    let mut b = slice_to_vec(bytes);
    msg.append(&mut b);
}

/// Builds the message that a device signs for a telemetry sample.
pub fn build_telemetry_message(device: &[u8], sample: &TelemetrySample) -> (msg: Vec<u8>)
    ensures
        msg@ == spec_telemetry_message(device@, *sample),
{
    let mut msg = telem_prefix();
    push_bytes(&mut msg, device);
    push_u64_le(&mut msg, sample.nonce);
    push_i64_le(&mut msg, sample.timestamp);
    push_i32_le(&mut msg, sample.lat_e7);
    push_i32_le(&mut msg, sample.lon_e7);
    push_i32_le(&mut msg, sample.altitude_cm);
    push_u32_le(&mut msg, sample.speed_cm_s);
    push_u32_le(&mut msg, sample.accel_milli_g);
    push_u32_le(&mut msg, sample.imu_delta);
    push_u32_le(&mut msg, sample.distance_cm);
    push_u32_le(&mut msg, sample.vertical_drop_cm);
    push_u32_le(&mut msg, sample.airtime_ms);
    msg
}

/// Builds the message that a device signs for a trick report.
pub fn build_motion_message(device: &[u8], proof: &MotionProof) -> (msg: Vec<u8>)
    ensures
        msg@ == spec_motion_message(device@, *proof),
{
    let mut msg = motion_prefix();
    push_bytes(&mut msg, device);
    push_u64_le(&mut msg, proof.nonce);
    push_i64_le(&mut msg, proof.timestamp);
    push_u16_le(&mut msg, proof.trick_id);
    push_u32_le(&mut msg, proof.airtime_ms);
    push_u16_le(&mut msg, proof.rotation_deg);
    let ghost before = msg@;
    msg.push(proof.confidence);
    assert(msg@ =~= before + seq![proof.confidence]);
    msg
}


/// Byte-for-byte comparison of two slices.
pub fn bytes_equal(a: &[u8], b: &[u8]) -> (r: bool)
    ensures
        r == (a@ == b@),
{
    if a.len() != b.len() {
        return false;
    }
    let mut i: usize = 0;
    while i < a.len()
        invariant
            i <= a@.len(),
            a@.len() == b@.len(),
            forall|j: int| 0 <= j < i ==> a@[j] == b@[j],
        decreases a@.len() - i,
    {
        if a[i] != b[i] {
            return false;
        }
        i = i + 1;
    }
    assert(a@ =~= b@);
    true
}

/// Address of the native Ed25519 signature-verification program
/// (`Ed25519SigVerify111111111111111111111111111`).
pub open spec fn spec_ed25519_program_id() -> Seq<u8> {
    seq![
        3u8, 125u8, 70u8, 214u8, 124u8, 147u8, 251u8, 190u8, 18u8, 249u8, 66u8, 143u8, 131u8,
        141u8, 64u8, 255u8, 5u8, 112u8, 116u8, 73u8, 39u8, 244u8, 138u8, 100u8, 252u8, 202u8,
        112u8, 68u8, 128u8, 0u8, 0u8, 0u8,
    ]
}

/// Reads `solana_program::ed25519_program::ID`, which that crate declares as
/// `Ed25519SigVerify111111111111111111111111111`; the contract states the 32
/// bytes that this base58 string decodes to.
#[verifier::external_body]
pub(crate) fn ed25519_program_id() -> (id: Pubkey)
    ensures
        id@ == spec_ed25519_program_id(),
{
    anchor_lang::solana_program::ed25519_program::ID.to_bytes()
}

/// An instruction of the executing transaction, as the instructions sysvar
/// records it: the invoked program and the instruction data.
pub struct SysvarInstruction {
    pub program_id: Pubkey,
    pub data: Vec<u8>,
}

/// The program address and data bytes of a loaded instruction, if any.
pub open spec fn spec_loaded(ix: Option<SysvarInstruction>) -> Option<(Seq<u8>, Seq<u8>)> {
    match ix {
        Some(i) => Some((i.program_id@, i.data@)),
        None => None,
    }
}

/// What `solana_program::sysvar::instructions::load_instruction_at` finds at
/// `index` in the serialised instructions sysvar `sysvar_data`: the program
/// address and the data of that instruction, or nothing where the index is out
/// of range or the data is malformed.
pub uninterp spec fn sysvar_instruction_at(index: usize, sysvar_data: Seq<u8>) -> Option<(Seq<u8>, Seq<u8>)>;

/// Calls `solana_program::sysvar::instructions::load_instruction_at`, which
/// deserialises the instruction at `index` from the instructions sysvar data.
/// The contract names its result and says nothing of the sysvar layout; the
/// instruction's account list is dropped.
#[verifier::external_body]
#[allow(deprecated)]
pub(crate) fn load_instruction_at(index: usize, sysvar_data: &[u8]) -> (r: Option<SysvarInstruction>)
    ensures
        spec_loaded(r) == sysvar_instruction_at(index, sysvar_data@),
{
    match anchor_lang::solana_program::sysvar::instructions::load_instruction_at(index, sysvar_data) {
        Ok(ix) => Some(SysvarInstruction { program_id: ix.program_id.to_bytes(), data: ix.data }),
        Err(_) => None,
    }
}

/// The index of the executing instruction: the little-endian `u16` in the last
/// two bytes of the instructions sysvar data.
pub open spec fn spec_current_index(sysvar_data: Seq<u8>) -> u16 {
    spec_u16_from_le_bytes(sysvar_data.subrange(sysvar_data.len() - 2, sysvar_data.len() as int))
}

/// Calls `solana_program::sysvar::instructions::load_current_index`, which
/// reads the little-endian `u16` in the last two bytes of the sysvar data (and
/// panics on data shorter than two bytes, which `requires` excludes).
#[verifier::external_body]
#[allow(deprecated)]
pub(crate) fn load_current_index(sysvar_data: &[u8]) -> (r: u16)
    requires
        sysvar_data@.len() >= 2,
    ensures
        r == spec_current_index(sysvar_data@),
{
    anchor_lang::solana_program::sysvar::instructions::load_current_index(sysvar_data)
}

/// The `u16` stored little-endian at byte `at` of `d`.
pub open spec fn spec_u16_at(d: Seq<u8>, at: int) -> int {
    spec_u16_from_le_bytes(d.subrange(at, at + 2)) as int
}

/// Reads the little-endian `u16` at byte `at`.
pub(crate) fn read_u16_at(d: &[u8], at: usize) -> (r: u16)
    requires
        at + 2 <= d@.len(),
    ensures
        r as int == spec_u16_at(d@, at as int),
{
    let n = d.len();
    assert(at + 2 <= n);
    u16_from_le_bytes(slice_subrange(d, at, at + 2))
}

/// Whether the instruction-index field at byte `at` of an Ed25519 verify
/// instruction refers to that instruction itself: `0xFFFF` (the current
/// instruction) or its own position `sig_ix_index`.
pub open spec fn spec_refers_to_itself(d: Seq<u8>, at: int, sig_ix_index: u8) -> bool {
    spec_u16_at(d, at) == 0xffff || spec_u16_at(d, at) == sig_ix_index as int
}

/// Checks that the Ed25519 verify instruction at position `sig_ix_index`
/// carries exactly one signature whose signature, key and message all lie in
/// that instruction, by `expected_pubkey` over `expected_message` (the
/// precompile itself has already checked the signature).
pub open spec fn spec_check_ed25519_instruction(
    ix: Option<(Seq<u8>, Seq<u8>)>,
    sig_ix_index: u8,
    expected_pubkey: Seq<u8>,
    expected_message: Seq<u8>,
) -> Result<(), SnowboardDepinError> {
    match ix {
        None => Err(SnowboardDepinError::InvalidEd25519Instruction),
        Some((program_id, d)) => {
            if program_id != spec_ed25519_program_id() {
                Err(SnowboardDepinError::InvalidSignature)
            } else if d.len() < 16 || d[0] != 1 {
                Err(SnowboardDepinError::InvalidEd25519Instruction)
            } else if !spec_refers_to_itself(d, 4, sig_ix_index) || !spec_refers_to_itself(
                d,
                8,
                sig_ix_index,
            ) || !spec_refers_to_itself(d, 14, sig_ix_index) {
                Err(SnowboardDepinError::InvalidEd25519Instruction)
            } else {
                let pubkey_offset = spec_u16_at(d, 6);
                let msg_offset = spec_u16_at(d, 10);
                let msg_size = spec_u16_at(d, 12);
                if d.len() < pubkey_offset + 32 || d.len() < msg_offset + msg_size {
                    Err(SnowboardDepinError::InvalidEd25519Instruction)
                } else if d.subrange(pubkey_offset, pubkey_offset + 32) != expected_pubkey {
                    Err(SnowboardDepinError::Ed25519PubkeyMismatch)
                } else if d.subrange(msg_offset, msg_offset + msg_size) != expected_message {
                    Err(SnowboardDepinError::Ed25519MessageMismatch)
                } else {
                    Ok(())
                }
            }
        },
    }
}

/// Checks a loaded instruction against the expected signer and message.
pub fn check_ed25519_instruction(
    ix: &Option<SysvarInstruction>,
    sig_ix_index: u8,
    expected_pubkey: &Pubkey,
    expected_message: &[u8],
) -> (r: Result<(), SnowboardDepinError>)
    ensures
        r == spec_check_ed25519_instruction(
            spec_loaded(*ix),
            sig_ix_index,
            expected_pubkey@,
            expected_message@,
        ),
{
    let ix = match ix {
        None => return Err(SnowboardDepinError::InvalidEd25519Instruction),
        Some(ix) => ix,
    };
    let ed_id = ed25519_program_id();
    if !bytes_equal(&ix.program_id, &ed_id) {
        return Err(SnowboardDepinError::InvalidSignature);
    }
    let d = ix.data.as_slice();
    if d.len() < 16 {
        return Err(SnowboardDepinError::InvalidEd25519Instruction);
    }
    if d[0] != 1 {
        return Err(SnowboardDepinError::InvalidEd25519Instruction);
    }
    let own = sig_ix_index as u16;
    let signature_ix = read_u16_at(d, 4);
    let pubkey_ix = read_u16_at(d, 8);
    let message_ix = read_u16_at(d, 14);
    if signature_ix != 0xffff && signature_ix != own {
        return Err(SnowboardDepinError::InvalidEd25519Instruction);
    }
    if pubkey_ix != 0xffff && pubkey_ix != own {
        return Err(SnowboardDepinError::InvalidEd25519Instruction);
    }
    if message_ix != 0xffff && message_ix != own {
        return Err(SnowboardDepinError::InvalidEd25519Instruction);
    }
    let pubkey_offset = read_u16_at(d, 6) as usize;
    let msg_offset = read_u16_at(d, 10) as usize;
    let msg_size = read_u16_at(d, 12) as usize;
    if d.len() < pubkey_offset + 32 {
        return Err(SnowboardDepinError::InvalidEd25519Instruction);
    }
    if d.len() < msg_offset + msg_size {
        return Err(SnowboardDepinError::InvalidEd25519Instruction);
    }
    let pubkey = slice_subrange(d, pubkey_offset, pubkey_offset + 32);
    if !bytes_equal(pubkey, expected_pubkey) {
        return Err(SnowboardDepinError::Ed25519PubkeyMismatch);
    }
    let message = slice_subrange(d, msg_offset, msg_offset + msg_size);
    if !bytes_equal(message, expected_message) {
        return Err(SnowboardDepinError::Ed25519MessageMismatch);
    }
    Ok(())
}

/// Loads the instruction at `sig_ix_index` from the instructions sysvar data
/// and checks that it is an Ed25519 verify instruction whose signature, key
/// and message lie in itself, by `expected_pubkey` over `expected_message`.
pub fn verify_ed25519_signature(
    sysvar_data: &[u8],
    sig_ix_index: u8,
    expected_pubkey: &Pubkey,
    expected_message: &[u8],
) -> (r: Result<(), SnowboardDepinError>)
    ensures
        r == spec_check_ed25519_instruction(
            sysvar_instruction_at(sig_ix_index as usize, sysvar_data@),
            sig_ix_index,
            expected_pubkey@,
            expected_message@,
        ),
{
    let ix = load_instruction_at(sig_ix_index as usize, sysvar_data);
    check_ed25519_instruction(&ix, sig_ix_index, expected_pubkey, expected_message)
}


/// Canonical framing: two telemetry messages for device addresses of the
/// same length are equal only for the same device and the same sample, so a
/// signature over one message authorises exactly one sample of one device.
pub proof fn lemma_telemetry_message_is_canonical(
    device1: Seq<u8>,
    s1: TelemetrySample,
    device2: Seq<u8>,
    s2: TelemetrySample,
)
    requires
        device1.len() == device2.len(),
        spec_telemetry_message(device1, s1) == spec_telemetry_message(device2, s2),
    ensures
        device1 == device2,
        s1 == s2,
{
    lemma_auto_spec_u64_to_from_le_bytes();
    lemma_auto_spec_u32_to_from_le_bytes();
    let m1 = spec_telemetry_message(device1, s1);
    let m2 = spec_telemetry_message(device2, s2);
    let b: int = 21 + device1.len() as int;
    assert(m1.subrange(21, b) =~= device1);
    assert(m2.subrange(21, b) =~= device2);
    assert(m1.subrange(b, b + 8) =~= spec_u64_to_le_bytes(s1.nonce));
    assert(m2.subrange(b, b + 8) =~= spec_u64_to_le_bytes(s2.nonce));
    assert(m1.subrange(b + 8, b + 16) =~= spec_i64_le(s1.timestamp));
    assert(m2.subrange(b + 8, b + 16) =~= spec_i64_le(s2.timestamp));
    assert(m1.subrange(b + 16, b + 20) =~= spec_i32_le(s1.lat_e7));
    assert(m2.subrange(b + 16, b + 20) =~= spec_i32_le(s2.lat_e7));
    assert(m1.subrange(b + 20, b + 24) =~= spec_i32_le(s1.lon_e7));
    assert(m2.subrange(b + 20, b + 24) =~= spec_i32_le(s2.lon_e7));
    assert(m1.subrange(b + 24, b + 28) =~= spec_i32_le(s1.altitude_cm));
    assert(m2.subrange(b + 24, b + 28) =~= spec_i32_le(s2.altitude_cm));
    assert(m1.subrange(b + 28, b + 32) =~= spec_u32_to_le_bytes(s1.speed_cm_s));
    assert(m2.subrange(b + 28, b + 32) =~= spec_u32_to_le_bytes(s2.speed_cm_s));
    assert(m1.subrange(b + 32, b + 36) =~= spec_u32_to_le_bytes(s1.accel_milli_g));
    assert(m2.subrange(b + 32, b + 36) =~= spec_u32_to_le_bytes(s2.accel_milli_g));
    assert(m1.subrange(b + 36, b + 40) =~= spec_u32_to_le_bytes(s1.imu_delta));
    assert(m2.subrange(b + 36, b + 40) =~= spec_u32_to_le_bytes(s2.imu_delta));
    assert(m1.subrange(b + 40, b + 44) =~= spec_u32_to_le_bytes(s1.distance_cm));
    assert(m2.subrange(b + 40, b + 44) =~= spec_u32_to_le_bytes(s2.distance_cm));
    assert(m1.subrange(b + 44, b + 48) =~= spec_u32_to_le_bytes(s1.vertical_drop_cm));
    assert(m2.subrange(b + 44, b + 48) =~= spec_u32_to_le_bytes(s2.vertical_drop_cm));
    assert(m1.subrange(b + 48, b + 52) =~= spec_u32_to_le_bytes(s1.airtime_ms));
    assert(m2.subrange(b + 48, b + 52) =~= spec_u32_to_le_bytes(s2.airtime_ms));
    let t1 = s1.timestamp;
    let t2 = s2.timestamp;
    assert((t1 as u64) as i64 == t1) by (bit_vector);
    assert((t2 as u64) as i64 == t2) by (bit_vector);
    let a1 = s1.lat_e7;
    let a2 = s2.lat_e7;
    assert((a1 as u32) as i32 == a1) by (bit_vector);
    assert((a2 as u32) as i32 == a2) by (bit_vector);
    let o1 = s1.lon_e7;
    let o2 = s2.lon_e7;
    assert((o1 as u32) as i32 == o1) by (bit_vector);
    assert((o2 as u32) as i32 == o2) by (bit_vector);
    let h1 = s1.altitude_cm;
    let h2 = s2.altitude_cm;
    assert((h1 as u32) as i32 == h1) by (bit_vector);
    assert((h2 as u32) as i32 == h2) by (bit_vector);
    assert(spec_u64_from_le_bytes(spec_u64_to_le_bytes(t1 as u64)) == t1 as u64);
    assert(spec_u64_from_le_bytes(spec_u64_to_le_bytes(t2 as u64)) == t2 as u64);
    assert(spec_u32_from_le_bytes(spec_u32_to_le_bytes(a1 as u32)) == a1 as u32);
    assert(spec_u32_from_le_bytes(spec_u32_to_le_bytes(a2 as u32)) == a2 as u32);
    assert(spec_u32_from_le_bytes(spec_u32_to_le_bytes(o1 as u32)) == o1 as u32);
    assert(spec_u32_from_le_bytes(spec_u32_to_le_bytes(o2 as u32)) == o2 as u32);
    assert(spec_u32_from_le_bytes(spec_u32_to_le_bytes(h1 as u32)) == h1 as u32);
    assert(spec_u32_from_le_bytes(spec_u32_to_le_bytes(h2 as u32)) == h2 as u32);
}

/// What an accepted Ed25519 verify instruction guarantees: it was loaded, it
/// belongs to the Ed25519 program, it carries one signature, its signature,
/// key and message fields name the instruction itself (0xFFFF or its own
/// position), and the 32 bytes at its key offset are `expected_pubkey` and the
/// bytes at its message offset are `expected_message`.
pub proof fn lemma_accepted_instruction_binds_key_and_message(
    ix: Option<(Seq<u8>, Seq<u8>)>,
    sig_ix_index: u8,
    expected_pubkey: Seq<u8>,
    expected_message: Seq<u8>,
)
    requires
        spec_check_ed25519_instruction(ix, sig_ix_index, expected_pubkey, expected_message) is Ok,
    ensures
        ix is Some,
        ({
            let (program_id, d) = ix->Some_0;
            let key_at = spec_u16_at(d, 6);
            let msg_at = spec_u16_at(d, 10);
            let msg_len = spec_u16_at(d, 12);
            &&& program_id == spec_ed25519_program_id()
            &&& d.len() >= 16
            &&& d[0] == 1
            &&& (spec_u16_at(d, 4) == 0xffff || spec_u16_at(d, 4) == sig_ix_index)
            &&& (spec_u16_at(d, 8) == 0xffff || spec_u16_at(d, 8) == sig_ix_index)
            &&& (spec_u16_at(d, 14) == 0xffff || spec_u16_at(d, 14) == sig_ix_index)
            &&& key_at + 32 <= d.len()
            &&& d.subrange(key_at, key_at + 32) == expected_pubkey
            &&& msg_at + msg_len <= d.len()
            &&& d.subrange(msg_at, msg_at + msg_len) == expected_message
        }),
{
}

} // verus!
