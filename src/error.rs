//! The errors that resolving a flashing target reports.
use vstd::prelude::*;

verus! {

/// `std::io::Error`, carried opaquely: why the namespace could not be read.
#[verifier::external_type_specification]
#[verifier::external_body]
pub struct ExIoError(std::io::Error);

/// `rusb::Error`, carried opaquely: why the USB bus could not be enumerated.
#[verifier::external_type_specification]
#[verifier::external_body]
pub struct ExUsbError(rusb::Error);

/// Why no single flashing target could be resolved.
#[derive(Debug)]
pub enum FwUpdateError {
    /// No candidate matched the allow-list.
    NoDevices,
    /// More than one candidate matched; the count is carried.
    MultipleDevicesFound(usize),
    /// No mass-storage root device matched the allowed vendors.
    NoMsdDevices,
    /// The device namespace could not be read.
    IoError(std::io::Error),
    /// The USB bus could not be enumerated.
    UsbError(rusb::Error),
}

} // verus!
