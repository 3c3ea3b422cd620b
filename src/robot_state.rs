use vstd::prelude::*;

use crate::hal_call::{hal_status, status_result, HalResult};

verus! {

/// Whether the robot is browned out, from the HAL's flag and status.
pub fn is_browned_out(value: i32, status: i32) -> (r: HalResult<bool>)
    ensures
        r == status_result(value != 0, status),
{
    let v = hal_status(value, status)?;
    Ok(v != 0)
}

/// Whether the robot's outputs are enabled, from the HAL's flag and status.
pub fn is_system_active(value: i32, status: i32) -> (r: HalResult<bool>)
    ensures
        r == status_result(value != 0, status),
{
    let v = hal_status(value, status)?;
    Ok(v != 0)
}

} // verus!
