//! The single-candidate policy: exactly one candidate is a target, zero or
//! several are reported.
use crate::error::FwUpdateError;
use vstd::prelude::*;

verus! {

/// Returns the one candidate of `devices`, or the error that says how many
/// there were.
pub fn extract_one_device<T>(devices: &[T]) -> (r: Result<&T, FwUpdateError>)
    ensures
        devices@.len() == 1 ==> (r matches Ok(d) && *d == devices@[0]),
        devices@.len() == 0 ==> r == Err::<&T, FwUpdateError>(FwUpdateError::NoDevices),
        devices@.len() >= 2 ==> r == Err::<&T, FwUpdateError>(
            FwUpdateError::MultipleDevicesFound(devices@.len() as usize),
        ),
{
    let n = devices.len();
    if n == 1 {
        Ok(&devices[0])
    } else if n == 0 {
        Err(FwUpdateError::NoDevices)
    } else {
        Err(FwUpdateError::MultipleDevicesFound(n))
    }
}

} // verus!
