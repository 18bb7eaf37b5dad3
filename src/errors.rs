use vstd::prelude::*;

verus! {

/// The closed set of ways a device operation can fail.
#[derive(Debug, Clone, Copy, PartialEq, Eq, Structural)]
pub enum LedgerError {
    /// No matching device is present.
    DeviceUnavailable,
    /// Another session already holds the device.
    DeviceBusy,
    /// A transport-level write or read failed.
    IOFailure,
    /// The device replied, but the reply does not decode as an answer.
    MalformedResponse,
    /// The foreign-runtime bridge reported an error.
    BridgeFailure,
}

} // verus!
