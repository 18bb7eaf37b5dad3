//! Exclusive, verified session protocol for talking to a Ledger hardware device
//! over APDU messages, independent of the physical transport in use.

pub mod apdu;
pub mod errors;
pub mod session;
pub mod transport;

pub use apdu::{APDUAnswer, APDUCommand, CLA, MAX_DATA_LEN};
pub use errors::LedgerError;
pub use session::{BridgeLedger, Ledger, LedgerAsync, NativeLedger};
pub use transport::{
    classify_open, settle_reply, BridgeFault, BridgeHandle, BridgeTransport, DeviceHandle, IoFault,
    NativeTransport, OpenFault, Transport,
};
