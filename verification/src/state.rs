use vstd::prelude::*;

verus! {

/// A 32-byte account address or Ed25519 public key.
pub type Pubkey = [u8; 32];

/// The all-zero key, which stands for "no key set".
pub open spec fn spec_default_key() -> Seq<u8> {
    Seq::new(32, |i: int| 0u8)
}

/// The all-zero key as an array.
pub open spec fn spec_zero_key() -> Pubkey {
    vstd::array::spec_array_fill_for_copy_type::<u8, 32>(0u8)
}

/// The all-zero key.
pub fn default_key() -> (k: Pubkey)
    ensures
        k@ == spec_default_key(),
{
    let k: Pubkey = [0u8; 32];
    assert(k@ =~= spec_default_key());
    k
}

/// Byte-for-byte comparison of two keys.
pub fn keys_equal(a: &Pubkey, b: &Pubkey) -> (r: bool)
    ensures
        r == (a@ == b@),
{
    let mut i: usize = 0;
    while i < 32
        invariant
            i <= 32,
            a@.len() == 32,
            b@.len() == 32,
            forall|j: int| 0 <= j < i ==> a@[j] == b@[j],
        decreases 32 - i,
    {
        if a[i] != b[i] {
            return false;
        }
        i = i + 1;
    }
    assert(a@ =~= b@);
    true
}

/// Whether a key is the all-zero key.
pub fn is_default_key(k: &Pubkey) -> (r: bool)
    ensures
        r == (k@ == spec_default_key()),
{
    let z = default_key();
    keys_equal(k, &z)
}

/// Staking tier; a larger stake earns a larger reward multiplier.
#[derive(Debug, Clone, Copy, PartialEq, Eq, Structural)]
pub enum StakeTier {
    Flex,
    Core,
    Elite,
}

impl StakeTier {
    pub open spec fn spec_min_amount(self) -> u64 {
        match self {
            StakeTier::Flex => 1,
            StakeTier::Core => 10_000_000,
            StakeTier::Elite => 100_000_000,
        }
    }

    pub open spec fn spec_multiplier_bps(self) -> u64 {
        match self {
            StakeTier::Flex => 10_000,
            StakeTier::Core => 12_500,
            StakeTier::Elite => 16_000,
        }
    }

    /// The highest tier whose minimum stake `amount` reaches; `Flex` below that.
    pub open spec fn spec_from_amount(amount: u64) -> StakeTier {
        if amount >= StakeTier::Elite.spec_min_amount() {
            StakeTier::Elite
        } else if amount >= StakeTier::Core.spec_min_amount() {
            StakeTier::Core
        } else {
            StakeTier::Flex
        }
    }

    /// Minimum stake of the tier.
    pub fn min_amount(self) -> (r: u64)
        ensures
            r == self.spec_min_amount(),
    {
        match self {
            StakeTier::Flex => 1,
            StakeTier::Core => 10_000_000,
            StakeTier::Elite => 100_000_000,
        }
    }

    /// Reward multiplier of the tier, in basis points.
    pub fn multiplier_bps(self) -> (r: u64)
        ensures
            r == self.spec_multiplier_bps(),
    {
        match self {
            StakeTier::Flex => 10_000,
            StakeTier::Core => 12_500,
            StakeTier::Elite => 16_000,
        }
    }

    /// Tier earned by a stake of `amount`.
    pub fn from_amount(amount: u64) -> (r: StakeTier)
        ensures
            r == StakeTier::spec_from_amount(amount),
    {
        if amount >= StakeTier::Elite.min_amount() {
            StakeTier::Elite
        } else if amount >= StakeTier::Core.min_amount() {
            StakeTier::Core
        } else {
            StakeTier::Flex
        }
    }
}


/// Program-wide configuration of the points engine.
#[derive(Debug, Clone, Copy, PartialEq, Eq)]
pub struct GlobalConfig {
    pub admin: Pubkey,
    pub fusion_mint: Pubkey,
    pub treasury_vault: Pubkey,
    pub fee_vault: Pubkey,
    pub stake_pool: Pubkey,
    pub reward_per_meter: u64,
    pub reward_per_trick: u64,
    pub airtime_bps_per_ms: u64,
    pub rotation_bps_per_rev: u64,
    pub max_trick_multiplier_bps: u64,
    pub reward_per_drop_cm: u64,
    pub reward_per_airtime_ms: u64,
    pub max_payout_per_report: u64,
    pub max_epoch_emission: u64,
    pub epoch_slots: u64,
    pub total_devices: u64,
    pub total_rewards_distributed: u64,
    pub genesis_slot: u64,
    pub bump: u8,
    pub treasury_bump: u8,
    pub fee_vault_bump: u8,
}

#[derive(Debug, Clone, Copy, PartialEq, Eq, Structural)]
pub enum DeviceStatus {
    Active,
    Inactive,
}

/// A registered telemetry device and its running counters.
#[derive(Debug)]
pub struct Device {
    pub owner: Pubkey,
    pub device_pubkey: Pubkey,
    pub device_id: String,
    pub status: DeviceStatus,
    pub last_nonce: u64,
    pub last_timestamp: i64,
    pub last_lat_e7: i32,
    pub last_lon_e7: i32,
    pub last_speed_cm_s: u32,
    pub last_accel_milli_g: u32,
    pub epoch_id: u64,
    pub epoch_emitted: u64,
    pub epoch_distance_m: u64,
    pub total_distance_m: u64,
    pub total_rewards: u64,
    pub processing_lock: u8,
    pub bump: u8,
}

/// One settled telemetry report.
#[derive(Debug, Clone, Copy, PartialEq, Eq)]
pub struct TelemetryRecord {
    pub device: Pubkey,
    pub nonce: u64,
    pub timestamp: i64,
    pub distance_meters: u32,
    pub vertical_drop_cm: u32,
    pub airtime_ms: u32,
    pub reward_amount: u64,
    pub bump: u8,
}

/// One settled trick report.
#[derive(Debug, Clone, Copy, PartialEq, Eq)]
pub struct MotionRecord {
    pub device: Pubkey,
    pub nonce: u64,
    pub timestamp: i64,
    pub trick_id: u16,
    pub airtime_ms: u32,
    pub rotation_deg: u16,
    pub reward_amount: u64,
    pub bump: u8,
}

/// An achievement badge held by a device owner.
#[derive(Debug, Clone, Copy, PartialEq, Eq)]
pub struct Badge {
    pub owner: Pubkey,
    pub device: Pubkey,
    pub badge_id: u16,
    pub count: u64,
    pub last_awarded_at: i64,
    pub bump: u8,
}

/// The staking pool: total stake, reward index and emission schedule.
#[derive(Debug, Clone, Copy, PartialEq, Eq)]
pub struct StakePool {
    pub admin: Pubkey,
    pub fusion_mint: Pubkey,
    pub stake_vault: Pubkey,
    pub total_staked: u64,
    pub reward_index: u128,
    pub emission_per_slot: u64,
    pub last_update_slot: u64,
    pub last_halving_slot: u64,
    pub halving_interval_slots: u64,
    pub unbond_slots: u64,
    pub burn_bps: u16,
    pub staker_share_bps: u16,
    pub bump: u8,
    pub vault_bump: u8,
}

/// One owner's stake in the pool.
#[derive(Debug, Clone, Copy, PartialEq, Eq)]
pub struct StakePosition {
    pub owner: Pubkey,
    pub amount: u64,
    pub tier: StakeTier,
    pub reward_debt: u128,
    pub pending_unbond: u64,
    pub unbond_complete_slot: u64,
    pub bump: u8,
}

/// Wire format of a hardware brand's telemetry payloads.
#[derive(Debug, Clone, Copy, PartialEq, Eq, Structural)]
pub enum PayloadFormat {
    BinaryV1,
    TaggedMap,
}

/// A hardware brand's payload format and unit scales.
#[derive(Debug, Clone, Copy, PartialEq, Eq)]
pub struct HardwareAdapter {
    pub admin: Pubkey,
    pub brand_id: u16,
    pub format: PayloadFormat,
    pub distance_scale: u32,
    pub speed_scale: u32,
    pub drop_scale: u32,
    pub airtime_scale: u32,
    pub active: bool,
    pub bump: u8,
}

/// One telemetry sample, in the program's units.
#[derive(Debug, Clone, Copy, PartialEq, Eq, Structural)]
pub struct TelemetrySample {
    pub nonce: u64,
    pub timestamp: i64,
    pub lat_e7: i32,
    pub lon_e7: i32,
    pub altitude_cm: i32,
    pub speed_cm_s: u32,
    pub accel_milli_g: u32,
    pub imu_delta: u32,
    pub distance_cm: u32,
    pub vertical_drop_cm: u32,
    pub airtime_ms: u32,
}

/// The sample with every field zero.
pub open spec fn spec_zero_sample() -> TelemetrySample {
    TelemetrySample {
        nonce: 0,
        timestamp: 0,
        lat_e7: 0,
        lon_e7: 0,
        altitude_cm: 0,
        speed_cm_s: 0,
        accel_milli_g: 0,
        imu_delta: 0,
        distance_cm: 0,
        vertical_drop_cm: 0,
        airtime_ms: 0,
    }
}

impl Default for TelemetrySample {
    fn default() -> (s: TelemetrySample)
        ensures
            s == spec_zero_sample(),
    {
        TelemetrySample {
            nonce: 0,
            timestamp: 0,
            lat_e7: 0,
            lon_e7: 0,
            altitude_cm: 0,
            speed_cm_s: 0,
            accel_milli_g: 0,
            imu_delta: 0,
            distance_cm: 0,
            vertical_drop_cm: 0,
            airtime_ms: 0,
        }
    }
}

/// A signed trick report.
#[derive(Debug, Clone, Copy, PartialEq, Eq, Structural)]
pub struct MotionProof {
    pub nonce: u64,
    pub timestamp: i64,
    pub trick_id: u16,
    pub airtime_ms: u32,
    pub rotation_deg: u16,
    pub confidence: u8,
}

} // verus!
