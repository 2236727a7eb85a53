//! Platform services inside an Arm TrustZone trusted application on OP-TEE.

use vstd::prelude::*;

use crate::platform_result::PlatformResult;

verus! {

/// OP-TEE offers trusted applications no source of real time: the service
/// is always `Unavailable`.
pub fn platform_get_real_time() -> (r: PlatformResult<u128>)
    ensures
        r == PlatformResult::<u128>::Unavailable,
{
    PlatformResult::Unavailable
}

} // verus!
