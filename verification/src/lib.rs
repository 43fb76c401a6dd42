//! Verified core of the snowboard DePIN programs: hardware payload decoding,
//! signed-message framing and Ed25519 instruction checks, the telemetry
//! points engine, the motion staking pool and the motion registry.

pub mod adapters;
pub mod constants;
pub mod crypto;
pub mod errors;
pub mod miii_points_engine;
pub mod miii_protocol;
pub mod motion_staking_pool;
pub mod state;
pub mod universal_decoder;
