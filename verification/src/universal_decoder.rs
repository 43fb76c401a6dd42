//! Normalisation of brand-specific hardware payloads into telemetry samples.

use vstd::prelude::*;
use vstd::bytes::*;
use vstd::slice::slice_subrange;
use crate::constants::MAX_PAYLOAD_LEN;
use crate::errors::SnowboardDepinError;
use crate::state::{HardwareAdapter, PayloadFormat, TelemetrySample, spec_zero_sample};

verus! {

/// Magic of the `BinaryV1` format: the bytes `SBD1`.
pub open spec fn spec_binary_magic() -> Seq<u8> {
    seq![0x53u8, 0x42u8, 0x44u8, 0x31u8]
}

/// Magic of the `BinaryV1` format.
pub const BINARY_MAGIC: [u8; 4] = [0x53u8, 0x42u8, 0x44u8, 0x31u8];

/// Length of a `BinaryV1` payload: the magic and the packed sample fields.
pub const BINARY_V1_LEN: usize = 56;

pub open spec fn spec_i64_from_le_bytes(b: Seq<u8>) -> i64 {
    spec_u64_from_le_bytes(b) as i64
}

pub open spec fn spec_i32_from_le_bytes(b: Seq<u8>) -> i32 {
    spec_u32_from_le_bytes(b) as i32
}

/// `raw` times the adapter scale, where a scale of zero counts as one.
pub open spec fn spec_scale_u32(raw: u32, scale: u32) -> Result<u32, SnowboardDepinError> {
    let s: int = if scale == 0 { 1 } else { scale as int };
    if raw * s > u32::MAX {
        Err(SnowboardDepinError::MathOverflow)
    } else {
        Ok((raw * s) as u32)
    }
}

/// A little-endian unsigned integer of 1, 2, 4 or 8 bytes.
pub open spec fn spec_read_int_le(b: Seq<u8>) -> Result<u64, SnowboardDepinError> {
    if b.len() == 1 {
        Ok(b[0] as u64)
    } else if b.len() == 2 {
        Ok(spec_u16_from_le_bytes(b) as u64)
    } else if b.len() == 4 {
        Ok(spec_u32_from_le_bytes(b) as u64)
    } else if b.len() == 8 {
        Ok(spec_u64_from_le_bytes(b))
    } else {
        Err(SnowboardDepinError::DecodeFailed)
    }
}

/// Decoding of the `BinaryV1` format: `SBD1`, then the sample fields packed
/// little-endian in declaration order; the four measured quantities are scaled.
pub open spec fn spec_decode_binary_v1(a: HardwareAdapter, p: Seq<u8>) -> Result<
    TelemetrySample,
    SnowboardDepinError,
> {
    if p.len() < 56 {
        Err(SnowboardDepinError::InvalidPayload)
    } else if p.subrange(0, 4) != spec_binary_magic() {
        Err(SnowboardDepinError::DecodeFailed)
    } else {
        let speed = spec_scale_u32(spec_u32_from_le_bytes(p.subrange(32, 36)), a.speed_scale);
        let distance = spec_scale_u32(spec_u32_from_le_bytes(p.subrange(44, 48)), a.distance_scale);
        let drop = spec_scale_u32(spec_u32_from_le_bytes(p.subrange(48, 52)), a.drop_scale);
        let airtime = spec_scale_u32(spec_u32_from_le_bytes(p.subrange(52, 56)), a.airtime_scale);
        if speed is Err || distance is Err || drop is Err || airtime is Err {
            Err(SnowboardDepinError::MathOverflow)
        } else {
            Ok(
                TelemetrySample {
                    nonce: spec_u64_from_le_bytes(p.subrange(4, 12)),
                    timestamp: spec_i64_from_le_bytes(p.subrange(12, 20)),
                    lat_e7: spec_i32_from_le_bytes(p.subrange(20, 24)),
                    lon_e7: spec_i32_from_le_bytes(p.subrange(24, 28)),
                    altitude_cm: spec_i32_from_le_bytes(p.subrange(28, 32)),
                    speed_cm_s: speed->Ok_0,
                    accel_milli_g: spec_u32_from_le_bytes(p.subrange(36, 40)),
                    imu_delta: spec_u32_from_le_bytes(p.subrange(40, 44)),
                    distance_cm: distance->Ok_0,
                    vertical_drop_cm: drop->Ok_0,
                    airtime_ms: airtime->Ok_0,
                },
            )
        }
    }
}

/// The effect of one tagged entry `key`/`val` on the sample decoded so far.
/// Keys: 1 nonce, 2 timestamp, 3 latitude, 4 longitude, 5 altitude, 6 speed,
/// 7 acceleration, 8 IMU delta, 9 distance, 10 vertical drop, 11 airtime;
/// other keys are skipped.
pub open spec fn spec_apply_tag(
    a: HardwareAdapter,
    s: TelemetrySample,
    key: u8,
    val: Seq<u8>,
) -> Result<TelemetrySample, SnowboardDepinError> {
    if key < 1 || key > 11 {
        Ok(s)
    } else {
        match spec_read_int_le(val) {
            Err(e) => Err(e),
            Ok(v) => {
                if key == 1 {
                    Ok(TelemetrySample { nonce: v, ..s })
                } else if key == 2 {
                    Ok(TelemetrySample { timestamp: v as i64, ..s })
                } else if key == 3 {
                    Ok(TelemetrySample { lat_e7: v as i32, ..s })
                } else if key == 4 {
                    Ok(TelemetrySample { lon_e7: v as i32, ..s })
                } else if key == 5 {
                    Ok(TelemetrySample { altitude_cm: v as i32, ..s })
                } else if key == 6 {
                    match spec_scale_u32(v as u32, a.speed_scale) {
                        Err(e) => Err(e),
                        Ok(x) => Ok(TelemetrySample { speed_cm_s: x, ..s }),
                    }
                } else if key == 7 {
                    Ok(TelemetrySample { accel_milli_g: v as u32, ..s })
                } else if key == 8 {
                    Ok(TelemetrySample { imu_delta: v as u32, ..s })
                } else if key == 9 {
                    match spec_scale_u32(v as u32, a.distance_scale) {
                        Err(e) => Err(e),
                        Ok(x) => Ok(TelemetrySample { distance_cm: x, ..s }),
                    }
                } else if key == 10 {
                    match spec_scale_u32(v as u32, a.drop_scale) {
                        Err(e) => Err(e),
                        Ok(x) => Ok(TelemetrySample { vertical_drop_cm: x, ..s }),
                    }
                } else {
                    match spec_scale_u32(v as u32, a.airtime_scale) {
                        Err(e) => Err(e),
                        Ok(x) => Ok(TelemetrySample { airtime_ms: x, ..s }),
                    }
                }
            },
        }
    }
}

/// Decoding of the entries `[key:u8][len:u8][value]` that start at byte `i`,
/// on top of the sample `s`; a trailing single byte is ignored.
pub open spec fn spec_tagged_entries(
    a: HardwareAdapter,
    p: Seq<u8>,
    i: int,
    s: TelemetrySample,
) -> Result<TelemetrySample, SnowboardDepinError>
    decreases p.len() - i,
{
    if i < 0 || i + 2 > p.len() {
        Ok(s)
    } else {
        let key = p[i];
        let len = p[i + 1] as int;
        let j = i + 2;
        if j + len > p.len() {
            Err(SnowboardDepinError::InvalidPayload)
        } else {
            match spec_apply_tag(a, s, key, p.subrange(j, j + len)) {
                Err(e) => Err(e),
                Ok(s2) => spec_tagged_entries(a, p, j + len, s2),
            }
        }
    }
}

/// Decoding of the `TaggedMap` format; a sample without a nonce is refused.
pub open spec fn spec_decode_tagged_map(a: HardwareAdapter, p: Seq<u8>) -> Result<
    TelemetrySample,
    SnowboardDepinError,
> {
    match spec_tagged_entries(a, p, 0, spec_zero_sample()) {
        Err(e) => Err(e),
        Ok(s) => if s.nonce > 0 {
            Ok(s)
        } else {
            Err(SnowboardDepinError::DecodeFailed)
        },
    }
}

/// What `normalize` returns for a payload.
pub open spec fn spec_normalize(a: HardwareAdapter, p: Seq<u8>) -> Result<
    TelemetrySample,
    SnowboardDepinError,
> {
    if !a.active {
        Err(SnowboardDepinError::UnknownAdapter)
    } else if p.len() == 0 || p.len() > MAX_PAYLOAD_LEN {
        Err(SnowboardDepinError::InvalidPayload)
    } else {
        match a.format {
            PayloadFormat::BinaryV1 => spec_decode_binary_v1(a, p),
            PayloadFormat::TaggedMap => spec_decode_tagged_map(a, p),
        }
    }
}

/// Decodes a hardware payload with the adapter of its brand.
pub fn normalize(adapter: &HardwareAdapter, payload: &[u8]) -> (r: Result<
    TelemetrySample,
    SnowboardDepinError,
>)
    ensures
        r == spec_normalize(*adapter, payload@),
{
    if !adapter.active {
        return Err(SnowboardDepinError::UnknownAdapter);
    }
    if payload.len() == 0 || payload.len() > MAX_PAYLOAD_LEN {
        return Err(SnowboardDepinError::InvalidPayload);
    }
    match adapter.format {
        PayloadFormat::BinaryV1 => decode_binary_v1(adapter, payload),
        PayloadFormat::TaggedMap => decode_tagged_map(adapter, payload),
    }
}

fn decode_binary_v1(adapter: &HardwareAdapter, payload: &[u8]) -> (r: Result<
    TelemetrySample,
    SnowboardDepinError,
>)
    ensures
        r == spec_decode_binary_v1(*adapter, payload@),
{
    if payload.len() < BINARY_V1_LEN {
        return Err(SnowboardDepinError::InvalidPayload);
    }
    let p = payload;
    if !(p[0] == 0x53u8 && p[1] == 0x42u8 && p[2] == 0x44u8 && p[3] == 0x31u8) {
        assert(p@.subrange(0, 4) != spec_binary_magic()) by {
            if p@.subrange(0, 4) == spec_binary_magic() {
                assert(p@.subrange(0, 4)[0] == p@[0]);
                assert(p@.subrange(0, 4)[1] == p@[1]);
                assert(p@.subrange(0, 4)[2] == p@[2]);
                assert(p@.subrange(0, 4)[3] == p@[3]);
            }
        }
        return Err(SnowboardDepinError::DecodeFailed);
    }
    assert(p@.subrange(0, 4) =~= spec_binary_magic());
    let nonce = u64_from_le_bytes(slice_subrange(p, 4, 12));
    let timestamp = read_i64(slice_subrange(p, 12, 20));
    let lat_e7 = read_i32(slice_subrange(p, 20, 24));
    let lon_e7 = read_i32(slice_subrange(p, 24, 28));
    let altitude_cm = read_i32(slice_subrange(p, 28, 32));
    let speed = scale_u32(u32_from_le_bytes(slice_subrange(p, 32, 36)), adapter.speed_scale);
    let speed_cm_s = match speed {
        Ok(x) => x,
        Err(e) => return Err(e),
    };
    let accel_milli_g = u32_from_le_bytes(slice_subrange(p, 36, 40));
    let imu_delta = u32_from_le_bytes(slice_subrange(p, 40, 44));
    let distance = scale_u32(u32_from_le_bytes(slice_subrange(p, 44, 48)), adapter.distance_scale);
    let distance_cm = match distance {
        Ok(x) => x,
        Err(e) => return Err(e),
    };
    let drop = scale_u32(u32_from_le_bytes(slice_subrange(p, 48, 52)), adapter.drop_scale);
    let vertical_drop_cm = match drop {
        Ok(x) => x,
        Err(e) => return Err(e),
    };
    let air = scale_u32(u32_from_le_bytes(slice_subrange(p, 52, 56)), adapter.airtime_scale);
    let airtime_ms = match air {
        Ok(x) => x,
        Err(e) => return Err(e),
    };
    Ok(
        TelemetrySample {
            nonce,
            timestamp,
            lat_e7,
            lon_e7,
            altitude_cm,
            speed_cm_s,
            accel_milli_g,
            imu_delta,
            distance_cm,
            vertical_drop_cm,
            airtime_ms,
        },
    )
}

fn decode_tagged_map(adapter: &HardwareAdapter, payload: &[u8]) -> (r: Result<
    TelemetrySample,
    SnowboardDepinError,
>)
    requires
        payload@.len() <= MAX_PAYLOAD_LEN,
    ensures
        r == spec_decode_tagged_map(*adapter, payload@),
{
    let mut sample = TelemetrySample::default();
    let mut i: usize = 0;
    while i + 2 <= payload.len()
        invariant
            payload@.len() <= MAX_PAYLOAD_LEN,
            i <= payload@.len(),
            spec_tagged_entries(*adapter, payload@, 0, spec_zero_sample())
                == spec_tagged_entries(*adapter, payload@, i as int, sample),
        decreases payload@.len() - i,
    {
        let key = payload[i];
        let len = payload[i + 1] as usize;
        let j = i + 2;
        if j + len > payload.len() {
            return Err(SnowboardDepinError::InvalidPayload);
        }
        let val = slice_subrange(payload, j, j + len);
        let applied = apply_tag(adapter, sample, key, val);
        match applied {
            Ok(s2) => {
                sample = s2;
            },
            Err(e) => {
                return Err(e);
            },
        }
        i = j + len;
    }
    if sample.nonce > 0 {
        Ok(sample)
    } else {
        Err(SnowboardDepinError::DecodeFailed)
    }
}

fn apply_tag(adapter: &HardwareAdapter, s: TelemetrySample, key: u8, val: &[u8]) -> (r: Result<
    TelemetrySample,
    SnowboardDepinError,
>)
    ensures
        r == spec_apply_tag(*adapter, s, key, val@),
{
    if key < 1 || key > 11 {
        return Ok(s);
    }
    let v = match read_int_le(val) {
        Ok(v) => v,
        Err(e) => return Err(e),
    };
    let mut out = s;
    if key == 1 {
        out.nonce = v;
    } else if key == 2 {
        out.timestamp = v as i64;
    } else if key == 3 {
        out.lat_e7 = v as i32;
    } else if key == 4 {
        out.lon_e7 = v as i32;
    } else if key == 5 {
        out.altitude_cm = v as i32;
    } else if key == 6 {
        match scale_u32(v as u32, adapter.speed_scale) {
            Ok(x) => out.speed_cm_s = x,
            Err(e) => return Err(e),
        }
    } else if key == 7 {
        out.accel_milli_g = v as u32;
    } else if key == 8 {
        out.imu_delta = v as u32;
    } else if key == 9 {
        match scale_u32(v as u32, adapter.distance_scale) {
            Ok(x) => out.distance_cm = x,
            Err(e) => return Err(e),
        }
    } else if key == 10 {
        match scale_u32(v as u32, adapter.drop_scale) {
            Ok(x) => out.vertical_drop_cm = x,
            Err(e) => return Err(e),
        }
    } else {
        match scale_u32(v as u32, adapter.airtime_scale) {
            Ok(x) => out.airtime_ms = x,
            Err(e) => return Err(e),
        }
    }
    Ok(out)
}

fn scale_u32(raw: u32, scale: u32) -> (r: Result<u32, SnowboardDepinError>)
    ensures
        r == spec_scale_u32(raw, scale),
{
    let s = if scale == 0 {
        1
    } else {
        scale
    };
    match raw.checked_mul(s) {
        Some(x) => Ok(x),
        None => Err(SnowboardDepinError::MathOverflow),
    }
}

fn read_i64(b: &[u8]) -> (r: i64)
    requires
        b@.len() == 8,
    ensures
        r == spec_i64_from_le_bytes(b@),
{
    u64_from_le_bytes(b) as i64
}

fn read_i32(b: &[u8]) -> (r: i32)
    requires
        b@.len() == 4,
    ensures
        r == spec_i32_from_le_bytes(b@),
{
    u32_from_le_bytes(b) as i32
}

fn read_int_le(b: &[u8]) -> (r: Result<u64, SnowboardDepinError>)
    ensures
        r == spec_read_int_le(b@),
{
    if b.len() == 1 {
        Ok(b[0] as u64)
    } else if b.len() == 2 {
        Ok(u16_from_le_bytes(b) as u64)
    } else if b.len() == 4 {
        Ok(u32_from_le_bytes(b) as u64)
    } else if b.len() == 8 {
        Ok(u64_from_le_bytes(b))
    } else {
        Err(SnowboardDepinError::DecodeFailed)
    }
}


/// The `BinaryV1` encoding of a sample, as a device with unit scales produces it.
pub open spec fn spec_encode_binary_v1(s: TelemetrySample) -> Seq<u8> {
    spec_binary_magic() + spec_u64_to_le_bytes(s.nonce) + spec_u64_to_le_bytes(s.timestamp as u64)
        + spec_u32_to_le_bytes(s.lat_e7 as u32) + spec_u32_to_le_bytes(s.lon_e7 as u32)
        + spec_u32_to_le_bytes(s.altitude_cm as u32) + spec_u32_to_le_bytes(s.speed_cm_s)
        + spec_u32_to_le_bytes(s.accel_milli_g) + spec_u32_to_le_bytes(s.imu_delta)
        + spec_u32_to_le_bytes(s.distance_cm) + spec_u32_to_le_bytes(s.vertical_drop_cm)
        + spec_u32_to_le_bytes(s.airtime_ms)
}

/// Round trip of the binary format: for an active `BinaryV1` adapter whose
/// scales are all one (or zero, which counts as one), normalising the encoding
/// of any sample gives that sample back.
pub proof fn lemma_binary_v1_roundtrip(a: HardwareAdapter, s: TelemetrySample)
    requires
        a.active,
        a.format == PayloadFormat::BinaryV1,
        a.speed_scale <= 1,
        a.distance_scale <= 1,
        a.drop_scale <= 1,
        a.airtime_scale <= 1,
    ensures
        spec_normalize(a, spec_encode_binary_v1(s)) == Ok::<TelemetrySample, SnowboardDepinError>(s),
{
    lemma_auto_spec_u64_to_from_le_bytes();
    lemma_auto_spec_u32_to_from_le_bytes();
    let p = spec_encode_binary_v1(s);
    let f0 = spec_binary_magic();
    let f1 = spec_u64_to_le_bytes(s.nonce);
    let f2 = spec_u64_to_le_bytes(s.timestamp as u64);
    let f3 = spec_u32_to_le_bytes(s.lat_e7 as u32);
    let f4 = spec_u32_to_le_bytes(s.lon_e7 as u32);
    let f5 = spec_u32_to_le_bytes(s.altitude_cm as u32);
    let f6 = spec_u32_to_le_bytes(s.speed_cm_s);
    let f7 = spec_u32_to_le_bytes(s.accel_milli_g);
    let f8 = spec_u32_to_le_bytes(s.imu_delta);
    let f9 = spec_u32_to_le_bytes(s.distance_cm);
    let f10 = spec_u32_to_le_bytes(s.vertical_drop_cm);
    let f11 = spec_u32_to_le_bytes(s.airtime_ms);
    assert(p.len() == 56);
    assert(p.subrange(0, 4) =~= f0);
    assert(p.subrange(4, 12) =~= f1);
    assert(p.subrange(12, 20) =~= f2);
    assert(p.subrange(20, 24) =~= f3);
    assert(p.subrange(24, 28) =~= f4);
    assert(p.subrange(28, 32) =~= f5);
    assert(p.subrange(32, 36) =~= f6);
    assert(p.subrange(36, 40) =~= f7);
    assert(p.subrange(40, 44) =~= f8);
    assert(p.subrange(44, 48) =~= f9);
    assert(p.subrange(48, 52) =~= f10);
    assert(p.subrange(52, 56) =~= f11);
    let ts = s.timestamp;
    let lat = s.lat_e7;
    let lon = s.lon_e7;
    let alt = s.altitude_cm;
    assert((ts as u64) as i64 == ts) by (bit_vector);
    assert((lat as u32) as i32 == lat) by (bit_vector);
    assert((lon as u32) as i32 == lon) by (bit_vector);
    assert((alt as u32) as i32 == alt) by (bit_vector);
}

/// Whether the bytes of `p` from `i` on are whole `[key][len][value]` entries,
/// the last one ending exactly at the end of `p`.
pub open spec fn spec_whole_entries(p: Seq<u8>, i: int) -> bool
    decreases p.len() - i,
{
    if i < 0 || i > p.len() {
        false
    } else if i == p.len() {
        true
    } else if i + 2 > p.len() {
        false
    } else {
        let j = i + 2 + p[i + 1] as int;
        if j > p.len() {
            false
        } else {
            spec_whole_entries(p, j)
        }
    }
}

/// Decoding whole entries followed by more bytes: the entries are applied
/// first, then the walk goes on in the bytes that follow.
proof fn lemma_entries_then_rest(
    a: HardwareAdapter,
    p: Seq<u8>,
    q: Seq<u8>,
    i: int,
    s: TelemetrySample,
)
    requires
        spec_whole_entries(p, i),
    ensures
        spec_tagged_entries(a, p + q, i, s) == (match spec_tagged_entries(a, p, i, s) {
            Ok(t) => spec_tagged_entries(a, p + q, p.len() as int, t),
            Err(e) => Err(e),
        }),
    decreases p.len() - i,
{
    if i < p.len() {
        let len = p[i + 1] as int;
        let j = i + 2 + len;
        assert((p + q)[i] == p[i]);
        assert((p + q)[i + 1] == p[i + 1]);
        assert((p + q).subrange(i + 2, j) =~= p.subrange(i + 2, j));
        match spec_apply_tag(a, s, p[i], p.subrange(i + 2, j)) {
            Ok(s2) => {
                lemma_entries_then_rest(a, p, q, j, s2);
            },
            Err(_) => {},
        }
    }
}

/// Laws of the tagged-map format, for a payload `p` of whole entries that
/// decodes to `s`: an entry appended to it is applied on top of `s`, so a
/// later entry overrides an earlier one (for instance a one-byte nonce of 9)
/// and an entry with an unknown key is skipped; a lone trailing byte is
/// ignored.
pub proof fn lemma_tagged_map_append(
    a: HardwareAdapter,
    p: Seq<u8>,
    s: TelemetrySample,
    k: u8,
    v: Seq<u8>,
    x: u8,
    k2: u8,
    v2: Seq<u8>,
)
    requires
        spec_whole_entries(p, 0),
        spec_decode_tagged_map(a, p) == Ok::<TelemetrySample, SnowboardDepinError>(s),
        k < 1 || k > 11,
        v.len() <= 255,
        v2.len() <= 255,
    ensures
        spec_tagged_entries(a, p + (seq![k2, v2.len() as u8] + v2), 0, spec_zero_sample())
            == spec_apply_tag(a, s, k2, v2),
        spec_decode_tagged_map(a, p + (seq![k, v.len() as u8] + v)) == Ok::<
            TelemetrySample,
            SnowboardDepinError,
        >(s),
        spec_decode_tagged_map(a, p + seq![x]) == Ok::<TelemetrySample, SnowboardDepinError>(s),
        spec_decode_tagged_map(a, p + seq![1u8, 1u8, 9u8]) == Ok::<
            TelemetrySample,
            SnowboardDepinError,
        >(TelemetrySample { nonce: 9, ..s }),
{
    let z = spec_zero_sample();
    let n = p.len() as int;
    // An unknown key.
    let q1 = seq![k, v.len() as u8] + v;
    let pq1 = p + q1;
    lemma_entries_then_rest(a, p, q1, 0, z);
    assert(pq1[n] == k);
    assert(pq1[n + 1] == v.len() as u8);
    assert(pq1.len() == n + 2 + v.len());
    assert(spec_tagged_entries(a, pq1, n + 2 + v.len(), s) == Ok::<
        TelemetrySample,
        SnowboardDepinError,
    >(s));
    assert(spec_tagged_entries(a, pq1, n, s) == Ok::<TelemetrySample, SnowboardDepinError>(s));
    // Any appended entry.
    let q0 = seq![k2, v2.len() as u8] + v2;
    let pq0 = p + q0;
    lemma_entries_then_rest(a, p, q0, 0, z);
    assert(pq0[n] == k2);
    assert(pq0[n + 1] == v2.len() as u8);
    assert(pq0.len() == n + 2 + v2.len());
    assert(pq0.subrange(n + 2, n + 2 + v2.len()) =~= v2);
    match spec_apply_tag(a, s, k2, v2) {
        Ok(t) => {
            assert(spec_tagged_entries(a, pq0, n + 2 + v2.len(), t) == Ok::<
                TelemetrySample,
                SnowboardDepinError,
            >(t));
        },
        Err(_) => {},
    }
    // A lone trailing byte.
    let q2 = seq![x];
    lemma_entries_then_rest(a, p, q2, 0, z);
    assert(spec_tagged_entries(a, p + q2, n, s) == Ok::<TelemetrySample, SnowboardDepinError>(s));
    // A later nonce entry.
    let q3 = seq![1u8, 1u8, 9u8];
    let pq3 = p + q3;
    let s9 = TelemetrySample { nonce: 9, ..s };
    lemma_entries_then_rest(a, p, q3, 0, z);
    assert(pq3[n] == 1u8);
    assert(pq3[n + 1] == 1u8);
    assert(pq3.subrange(n + 2, n + 3) =~= seq![9u8]);
    assert(spec_read_int_le(seq![9u8]) == Ok::<u64, SnowboardDepinError>(9));
    assert(spec_apply_tag(a, s, 1, seq![9u8]) == Ok::<TelemetrySample, SnowboardDepinError>(s9));
    assert(spec_tagged_entries(a, pq3, n + 3, s9) == Ok::<TelemetrySample, SnowboardDepinError>(
        s9,
    ));
    assert(spec_tagged_entries(a, pq3, n, s) == Ok::<TelemetrySample, SnowboardDepinError>(s9));
}

/// The tagged-map laws as `normalize` shows them: for an active `TaggedMap`
/// adapter and a payload `p` of whole entries that normalises to `s`, an
/// appended entry with an unknown key is skipped, a lone trailing byte is
/// ignored, and an appended one-byte nonce of 9 overrides the nonce, as long
/// as the longer payload stays within the payload limit.
pub proof fn lemma_normalize_tagged_map_append(
    a: HardwareAdapter,
    p: Seq<u8>,
    s: TelemetrySample,
    k: u8,
    v: Seq<u8>,
    x: u8,
)
    requires
        a.active,
        a.format == PayloadFormat::TaggedMap,
        spec_whole_entries(p, 0),
        spec_normalize(a, p) == Ok::<TelemetrySample, SnowboardDepinError>(s),
        k < 1 || k > 11,
        v.len() <= 255,
    ensures
        p.len() + 2 + v.len() <= MAX_PAYLOAD_LEN ==> spec_normalize(
            a,
            p + (seq![k, v.len() as u8] + v),
        ) == Ok::<TelemetrySample, SnowboardDepinError>(s),
        p.len() + 1 <= MAX_PAYLOAD_LEN ==> spec_normalize(a, p + seq![x]) == Ok::<
            TelemetrySample,
            SnowboardDepinError,
        >(s),
        p.len() + 3 <= MAX_PAYLOAD_LEN ==> spec_normalize(a, p + seq![1u8, 1u8, 9u8]) == Ok::<
            TelemetrySample,
            SnowboardDepinError,
        >(TelemetrySample { nonce: 9, ..s }),
{
    lemma_tagged_map_append(a, p, s, k, v, x, k, v);
}

/// An entry with key `k` writes only the field that `k` names (1 nonce,
/// 2 timestamp, 3 latitude, 4 longitude, 5 altitude, 6 speed, 7 acceleration,
/// 8 IMU delta, 9 distance, 10 vertical drop, 11 airtime); every other field
/// keeps its value, and an unknown key changes nothing.
pub proof fn lemma_tag_writes_only_its_field(
    a: HardwareAdapter,
    s: TelemetrySample,
    k: u8,
    v: Seq<u8>,
)
    requires
        spec_apply_tag(a, s, k, v) is Ok,
    ensures
        ({
            let t = spec_apply_tag(a, s, k, v)->Ok_0;
            &&& k != 1 ==> t.nonce == s.nonce
            &&& k != 2 ==> t.timestamp == s.timestamp
            &&& k != 3 ==> t.lat_e7 == s.lat_e7
            &&& k != 4 ==> t.lon_e7 == s.lon_e7
            &&& k != 5 ==> t.altitude_cm == s.altitude_cm
            &&& k != 6 ==> t.speed_cm_s == s.speed_cm_s
            &&& k != 7 ==> t.accel_milli_g == s.accel_milli_g
            &&& k != 8 ==> t.imu_delta == s.imu_delta
            &&& k != 9 ==> t.distance_cm == s.distance_cm
            &&& k != 10 ==> t.vertical_drop_cm == s.vertical_drop_cm
            &&& k != 11 ==> t.airtime_ms == s.airtime_ms
        }),
{
}

/// One tagged-map entry: the key, the value's length, the value.
pub open spec fn spec_tag_entry(k: u8, v: Seq<u8>) -> Seq<u8> {
    seq![k, v.len() as u8] + v
}

/// The tagged-map encoding of a sample as a device with unit scales produces
/// it: every field under its key, the nonce and timestamp in 8 bytes, the
/// others in 4, little-endian.
pub open spec fn spec_encode_tagged_map(s: TelemetrySample) -> Seq<u8> {
    spec_tag_entry(1, spec_u64_to_le_bytes(s.nonce)) + (spec_tag_entry(
        2,
        spec_u64_to_le_bytes(s.timestamp as u64),
    ) + (spec_tag_entry(3, spec_u32_to_le_bytes(s.lat_e7 as u32)) + (spec_tag_entry(
        4,
        spec_u32_to_le_bytes(s.lon_e7 as u32),
    ) + (spec_tag_entry(5, spec_u32_to_le_bytes(s.altitude_cm as u32)) + (spec_tag_entry(
        6,
        spec_u32_to_le_bytes(s.speed_cm_s),
    ) + (spec_tag_entry(7, spec_u32_to_le_bytes(s.accel_milli_g)) + (spec_tag_entry(
        8,
        spec_u32_to_le_bytes(s.imu_delta),
    ) + (spec_tag_entry(9, spec_u32_to_le_bytes(s.distance_cm)) + (spec_tag_entry(
        10,
        spec_u32_to_le_bytes(s.vertical_drop_cm),
    ) + spec_tag_entry(11, spec_u32_to_le_bytes(s.airtime_ms)))))))))))
}

/// Walking the entries of `rest` placed after `e` is walking `rest` alone.
proof fn lemma_entries_after(
    a: HardwareAdapter,
    e: Seq<u8>,
    rest: Seq<u8>,
    i: int,
    t: TelemetrySample,
)
    requires
        0 <= i,
    ensures
        spec_tagged_entries(a, e + rest, e.len() + i, t) == spec_tagged_entries(a, rest, i, t),
    decreases rest.len() - i,
{
    let w = e + rest;
    let b = e.len() + i;
    if i + 2 <= rest.len() {
        assert(w[b] == rest[i]);
        assert(w[b + 1] == rest[i + 1]);
        let len = rest[i + 1] as int;
        if i + 2 + len <= rest.len() {
            assert(w.subrange(b + 2, b + 2 + len) =~= rest.subrange(i + 2, i + 2 + len));
            match spec_apply_tag(a, t, rest[i], rest.subrange(i + 2, i + 2 + len)) {
                Ok(t2) => {
                    lemma_entries_after(a, e, rest, i + 2 + len, t2);
                },
                Err(_) => {},
            }
        }
    }
}

/// Walking an entry followed by `rest`: the entry is applied, then `rest`.
proof fn lemma_entry_then(a: HardwareAdapter, k: u8, v: Seq<u8>, rest: Seq<u8>, t: TelemetrySample)
    requires
        v.len() <= 255,
    ensures
        spec_tagged_entries(a, spec_tag_entry(k, v) + rest, 0, t) == (match spec_apply_tag(
            a,
            t,
            k,
            v,
        ) {
            Ok(t2) => spec_tagged_entries(a, rest, 0, t2),
            Err(e) => Err(e),
        }),
{
    let e = spec_tag_entry(k, v);
    let w = e + rest;
    assert(w[0] == k);
    assert(w[1] == v.len() as u8);
    assert(w.subrange(2, 2 + v.len() as int) =~= v);
    match spec_apply_tag(a, t, k, v) {
        Ok(t2) => {
            lemma_entries_after(a, e, rest, 0, t2);
        },
        Err(_) => {},
    }
}

/// Round trip of the tagged-map format: for an active `TaggedMap` adapter
/// whose scales are all one (or zero, which counts as one), normalising the
/// tagged-map encoding of a sample with a nonce gives that sample back, each
/// field from its own entry.
pub proof fn lemma_tagged_map_roundtrip(a: HardwareAdapter, s: TelemetrySample)
    requires
        a.active,
        a.format == PayloadFormat::TaggedMap,
        a.speed_scale <= 1,
        a.distance_scale <= 1,
        a.drop_scale <= 1,
        a.airtime_scale <= 1,
        s.nonce > 0,
    ensures
        spec_normalize(a, spec_encode_tagged_map(s)) == Ok::<TelemetrySample, SnowboardDepinError>(
            s,
        ),
{
    lemma_auto_spec_u64_to_from_le_bytes();
    lemma_auto_spec_u32_to_from_le_bytes();
    let ts = s.timestamp;
    let lat = s.lat_e7;
    let lon = s.lon_e7;
    let alt = s.altitude_cm;
    assert((ts as u64) as i64 == ts) by (bit_vector);
    assert(((lat as u32) as u64) as i32 == lat) by (bit_vector);
    assert(((lon as u32) as u64) as i32 == lon) by (bit_vector);
    assert(((alt as u32) as u64) as i32 == alt) by (bit_vector);
    let b1 = spec_u64_to_le_bytes(s.nonce);
    let b2 = spec_u64_to_le_bytes(ts as u64);
    let b3 = spec_u32_to_le_bytes(lat as u32);
    let b4 = spec_u32_to_le_bytes(lon as u32);
    let b5 = spec_u32_to_le_bytes(alt as u32);
    let b6 = spec_u32_to_le_bytes(s.speed_cm_s);
    let b7 = spec_u32_to_le_bytes(s.accel_milli_g);
    let b8 = spec_u32_to_le_bytes(s.imu_delta);
    let b9 = spec_u32_to_le_bytes(s.distance_cm);
    let b10 = spec_u32_to_le_bytes(s.vertical_drop_cm);
    let b11 = spec_u32_to_le_bytes(s.airtime_ms);
    let r11 = spec_tag_entry(11, b11);
    let r10 = spec_tag_entry(10, b10) + r11;
    let r9 = spec_tag_entry(9, b9) + r10;
    let r8 = spec_tag_entry(8, b8) + r9;
    let r7 = spec_tag_entry(7, b7) + r8;
    let r6 = spec_tag_entry(6, b6) + r7;
    let r5 = spec_tag_entry(5, b5) + r6;
    let r4 = spec_tag_entry(4, b4) + r5;
    let r3 = spec_tag_entry(3, b3) + r4;
    let r2 = spec_tag_entry(2, b2) + r3;
    let r1 = spec_tag_entry(1, b1) + r2;
    assert(r1 == spec_encode_tagged_map(s));
    let z = spec_zero_sample();
    let t1 = TelemetrySample { nonce: s.nonce, ..z };
    let t2 = TelemetrySample { timestamp: ts, ..t1 };
    let t3 = TelemetrySample { lat_e7: lat, ..t2 };
    let t4 = TelemetrySample { lon_e7: lon, ..t3 };
    let t5 = TelemetrySample { altitude_cm: alt, ..t4 };
    let t6 = TelemetrySample { speed_cm_s: s.speed_cm_s, ..t5 };
    let t7 = TelemetrySample { accel_milli_g: s.accel_milli_g, ..t6 };
    let t8 = TelemetrySample { imu_delta: s.imu_delta, ..t7 };
    let t9 = TelemetrySample { distance_cm: s.distance_cm, ..t8 };
    let t10 = TelemetrySample { vertical_drop_cm: s.vertical_drop_cm, ..t9 };
    let t11 = TelemetrySample { airtime_ms: s.airtime_ms, ..t10 };
    assert(t11 == s);
    assert(spec_apply_tag(a, z, 1, b1) == Ok::<TelemetrySample, SnowboardDepinError>(t1));
    assert(spec_apply_tag(a, t1, 2, b2) == Ok::<TelemetrySample, SnowboardDepinError>(t2));
    assert(spec_apply_tag(a, t2, 3, b3) == Ok::<TelemetrySample, SnowboardDepinError>(t3));
    assert(spec_apply_tag(a, t3, 4, b4) == Ok::<TelemetrySample, SnowboardDepinError>(t4));
    assert(spec_apply_tag(a, t4, 5, b5) == Ok::<TelemetrySample, SnowboardDepinError>(t5));
    assert(spec_apply_tag(a, t5, 6, b6) == Ok::<TelemetrySample, SnowboardDepinError>(t6));
    assert(spec_apply_tag(a, t6, 7, b7) == Ok::<TelemetrySample, SnowboardDepinError>(t7));
    assert(spec_apply_tag(a, t7, 8, b8) == Ok::<TelemetrySample, SnowboardDepinError>(t8));
    assert(spec_apply_tag(a, t8, 9, b9) == Ok::<TelemetrySample, SnowboardDepinError>(t9));
    assert(spec_apply_tag(a, t9, 10, b10) == Ok::<TelemetrySample, SnowboardDepinError>(t10));
    assert(spec_apply_tag(a, t10, 11, b11) == Ok::<TelemetrySample, SnowboardDepinError>(t11));
    lemma_entry_then(a, 11, b11, Seq::empty(), t10);
    assert(r11 + Seq::<u8>::empty() =~= r11);
    assert(spec_tagged_entries(a, Seq::<u8>::empty(), 0, t11) == Ok::<
        TelemetrySample,
        SnowboardDepinError,
    >(t11));
    lemma_entry_then(a, 10, b10, r11, t9);
    lemma_entry_then(a, 9, b9, r10, t8);
    lemma_entry_then(a, 8, b8, r9, t7);
    lemma_entry_then(a, 7, b7, r8, t6);
    lemma_entry_then(a, 6, b6, r7, t5);
    lemma_entry_then(a, 5, b5, r6, t4);
    lemma_entry_then(a, 4, b4, r5, t3);
    lemma_entry_then(a, 3, b3, r4, t2);
    lemma_entry_then(a, 2, b2, r3, t1);
    lemma_entry_then(a, 1, b1, r2, z);
    assert(spec_tagged_entries(a, r1, 0, z) == Ok::<TelemetrySample, SnowboardDepinError>(s));
    assert(r1.len() == 74);
}

/// The effective multiplier of an adapter scale: zero counts as one.
pub open spec fn spec_effective_scale(scale: u32) -> int {
    if scale == 0 {
        1
    } else {
        scale as int
    }
}

/// Scaled decoding: for any adapter, a decoded `BinaryV1` sample's speed,
/// distance, drop and airtime are the raw little-endian `u32`s at bytes 32,
/// 44, 48 and 52 times the adapter's own scale for that quantity, and its
/// other fields are the raw values at their offsets, unscaled.
pub proof fn lemma_binary_v1_fields_scaled(a: HardwareAdapter, p: Seq<u8>)
    requires
        spec_normalize(a, p) is Ok,
        a.format == PayloadFormat::BinaryV1,
    ensures
        ({
            let t = spec_normalize(a, p)->Ok_0;
            &&& p.len() >= 56
            &&& t.nonce == spec_u64_from_le_bytes(p.subrange(4, 12))
            &&& t.timestamp as u64 == spec_u64_from_le_bytes(p.subrange(12, 20))
            &&& t.lat_e7 as u32 == spec_u32_from_le_bytes(p.subrange(20, 24))
            &&& t.lon_e7 as u32 == spec_u32_from_le_bytes(p.subrange(24, 28))
            &&& t.altitude_cm as u32 == spec_u32_from_le_bytes(p.subrange(28, 32))
            &&& t.speed_cm_s == spec_u32_from_le_bytes(p.subrange(32, 36)) * spec_effective_scale(
                a.speed_scale,
            )
            &&& t.accel_milli_g == spec_u32_from_le_bytes(p.subrange(36, 40))
            &&& t.imu_delta == spec_u32_from_le_bytes(p.subrange(40, 44))
            &&& t.distance_cm == spec_u32_from_le_bytes(p.subrange(44, 48)) * spec_effective_scale(
                a.distance_scale,
            )
            &&& t.vertical_drop_cm == spec_u32_from_le_bytes(p.subrange(48, 52))
                * spec_effective_scale(a.drop_scale)
            &&& t.airtime_ms == spec_u32_from_le_bytes(p.subrange(52, 56)) * spec_effective_scale(
                a.airtime_scale,
            )
        }),
{
    let t = spec_normalize(a, p)->Ok_0;
    let ts = t.timestamp;
    let lat = t.lat_e7;
    let lon = t.lon_e7;
    let alt = t.altitude_cm;
    let r2 = spec_u64_from_le_bytes(p.subrange(12, 20));
    let r3 = spec_u32_from_le_bytes(p.subrange(20, 24));
    let r4 = spec_u32_from_le_bytes(p.subrange(24, 28));
    let r5 = spec_u32_from_le_bytes(p.subrange(28, 32));
    assert(ts == r2 as i64);
    assert(lat == r3 as i32);
    assert(lon == r4 as i32);
    assert(alt == r5 as i32);
    assert((r2 as i64) as u64 == r2) by (bit_vector);
    assert((r3 as i32) as u32 == r3) by (bit_vector);
    assert((r4 as i32) as u32 == r4) by (bit_vector);
    assert((r5 as i32) as u32 == r5) by (bit_vector);
}

/// Scaled tagged entries: a 4-byte entry for speed (6), distance (9), drop
/// (10) or airtime (11) sets its field to the raw little-endian value times
/// the adapter's own scale for that quantity.
pub proof fn lemma_tagged_fields_scaled(a: HardwareAdapter, s: TelemetrySample, k: u8, v: Seq<u8>)
    requires
        spec_apply_tag(a, s, k, v) is Ok,
        v.len() == 4,
    ensures
        ({
            let t = spec_apply_tag(a, s, k, v)->Ok_0;
            let raw = spec_u32_from_le_bytes(v) as int;
            &&& k == 6 ==> t.speed_cm_s == raw * spec_effective_scale(a.speed_scale)
            &&& k == 9 ==> t.distance_cm == raw * spec_effective_scale(a.distance_scale)
            &&& k == 10 ==> t.vertical_drop_cm == raw * spec_effective_scale(a.drop_scale)
            &&& k == 11 ==> t.airtime_ms == raw * spec_effective_scale(a.airtime_scale)
            &&& k == 7 ==> t.accel_milli_g == raw
            &&& k == 8 ==> t.imu_delta == raw
        }),
{
    let raw = spec_u32_from_le_bytes(v);
    assert((raw as u64) as u32 == raw) by (bit_vector);
}

} // verus!
