//! The failures that the driver reports.

use vstd::prelude::*;

verus! {

/// Why an operation of the driver failed.
#[derive(Clone, Copy, Debug, PartialEq, Eq, Structural)]
pub enum DriverError {
    /// A command parameter is malformed. Raised before any transfer.
    InvalidArgument,
    /// The device could not be opened.
    DeviceUnavailable,
    /// The read deadline passed before the whole response arrived.
    Timeout,
    /// Any other failure of the transport, on sending or receiving.
    IoFailure,
}

/// How a single transfer on the line went wrong, as the transport saw it.
#[derive(Clone, Copy, Debug, PartialEq, Eq, Structural)]
pub enum TransportFault {
    /// The deadline passed.
    TimedOut,
    /// Anything else.
    Other,
}

impl DriverError {
    /// The error of a failed write. Whatever the fault, a frame that could
    /// not be written whole is a transport failure.
    pub open spec fn spec_send_failure(fault: TransportFault) -> DriverError {
        DriverError::IoFailure
    }

    /// The error of a failed read: a missed deadline is a timeout, anything
    /// else a transport failure.
    pub open spec fn spec_receive_failure(fault: TransportFault) -> DriverError {
        match fault {
            TransportFault::TimedOut => DriverError::Timeout,
            TransportFault::Other => DriverError::IoFailure,
        }
    }

    /// The error that a failed write is reported as.
    pub fn send_failure(fault: TransportFault) -> (error: DriverError)
        ensures
            error == Self::spec_send_failure(fault),
    {
        DriverError::IoFailure
    }

    /// The error that a failed read is reported as.
    pub fn receive_failure(fault: TransportFault) -> (error: DriverError)
        ensures
            error == Self::spec_receive_failure(fault),
    {
        match fault {
            TransportFault::TimedOut => DriverError::Timeout,
            TransportFault::Other => DriverError::IoFailure,
        }
    }

    /// The error that a failed attempt to open the device is reported as.
    pub fn open_failure() -> (error: DriverError)
        ensures
            error == DriverError::DeviceUnavailable,
    {
        DriverError::DeviceUnavailable
    }
}

} // verus!
