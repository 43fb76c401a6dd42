use vstd::prelude::*;

verus! {

/// Errors of the telemetry points engine, the hardware decoder and the staking pool.
#[derive(Debug, Clone, Copy, PartialEq, Eq, Structural)]
pub enum SnowboardDepinError {
    InvalidDeviceId,
    DeviceInactive,
    UnauthorizedDevice,
    InvalidNonce,
    InvalidDistance,
    InvalidTimestamp,
    InsufficientTreasury,
    InvalidRecipient,
    InvalidMint,
    MathOverflow,
    InvalidEd25519Instruction,
    Ed25519PubkeyMismatch,
    Ed25519MessageMismatch,
    InvalidZkProof,
    InvalidSignature,
    InvalidRewardRate,
    SpeedThresholdExceeded,
    AccelerationCapExceeded,
    ImuDeltaThresholdExceeded,
    SpatialContinuityFailed,
    ReplayDetected,
    RateLimitReached,
    InsufficientStake,
    CooldownActive,
    NoUnbondPending,
    InsufficientStakeVault,
    UnknownAdapter,
    InvalidPayload,
    DecodeFailed,
    Reentrancy,
    InvalidMotionProof,
    ProofOfMotionFailed,
    BadgeAwardFailed,
    DeviceBlacklisted,
    SensorSlashed,
    SponsorClaimFailed,
    BatchTooLarge,
    HalvingNotDue,
    ZeroFee,
}

} // verus!
