use vstd::prelude::*;

use crate::hal_call::{hal_status, status_result, HalResult};

verus! {

/// The FPGA version, from what the HAL returned and the status it reported.
pub fn get_version(value: i32, status: i32) -> (r: HalResult<i32>)
    ensures
        r == status_result(value, status),
{
    hal_status(value, status)
}

/// The FPGA revision, from what the HAL returned and the status it reported.
pub fn get_revision(value: i64, status: i32) -> (r: HalResult<i64>)
    ensures
        r == status_result(value, status),
{
    hal_status(value, status)
}

/// The FPGA clock in microseconds, from what the HAL returned and the status
/// it reported.
pub fn get_time_us(value: u64, status: i32) -> (r: HalResult<u64>)
    ensures
        r == status_result(value, status),
{
    hal_status(value, status)
}

/// Whether the user button is down, from the HAL's flag and status.
pub fn get_user_down(value: i32, status: i32) -> (r: HalResult<bool>)
    ensures
        r == status_result(value != 0, status),
{
    let v = hal_status(value, status)?;
    Ok(v != 0)
}

} // verus!
