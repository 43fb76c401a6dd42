//! Registration of hardware brands and their payload formats.

use vstd::prelude::*;
use crate::errors::SnowboardDepinError;
use crate::state::{HardwareAdapter, PayloadFormat, Pubkey};

verus! {

/// Registers a brand's adapter, active from the start; every unit scale must
/// be positive.
pub fn register_adapter(
    admin: Pubkey,
    brand_id: u16,
    format: PayloadFormat,
    distance_scale: u32,
    speed_scale: u32,
    drop_scale: u32,
    airtime_scale: u32,
    bump: u8,
) -> (r: Result<HardwareAdapter, SnowboardDepinError>)
    ensures
        distance_scale > 0 && speed_scale > 0 && drop_scale > 0 && airtime_scale > 0 ==> r
            == Ok::<HardwareAdapter, SnowboardDepinError>(
            HardwareAdapter {
                admin,
                brand_id,
                format,
                distance_scale,
                speed_scale,
                drop_scale,
                airtime_scale,
                active: true,
                bump,
            },
        ),
        !(distance_scale > 0 && speed_scale > 0 && drop_scale > 0 && airtime_scale > 0) ==> r
            == Err::<HardwareAdapter, SnowboardDepinError>(SnowboardDepinError::InvalidPayload),
{
    if !(distance_scale > 0 && speed_scale > 0 && drop_scale > 0 && airtime_scale > 0) {
        return Err(SnowboardDepinError::InvalidPayload);
    }
    Ok(
        HardwareAdapter {
            admin,
            brand_id,
            format,
            distance_scale,
            speed_scale,
            drop_scale,
            airtime_scale,
            active: true,
            bump,
        },
    )
}

} // verus!
