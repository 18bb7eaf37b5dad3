use vstd::prelude::*;

use crate::apdu::{answer_result, decode_answer, APDUAnswer, APDUCommand};
use crate::errors::LedgerError;

verus! {

/// Failure of a single write or read on a native device handle.
#[derive(Debug, Clone, Copy, PartialEq, Eq, Structural)]
pub struct IoFault;

/// Why a native device handle could not be opened.
#[derive(Debug, Clone, Copy, PartialEq, Eq, Structural)]
pub enum OpenFault {
    /// No matching device is attached.
    NotFound,
    /// The device is already held exclusively by someone else.
    Busy,
}

/// An error value handed back across the foreign-runtime bridge.
#[derive(Debug, Clone, Copy, PartialEq, Eq, Structural)]
pub struct BridgeFault;

/// A blocking native device handle: the driver that opens the device and moves
/// whole messages to and from it.
pub trait DeviceHandle {
    /// Acquires the device exclusively.
    fn open(&mut self) -> Result<(), OpenFault>;

    /// Writes one encoded command.
    fn write(&mut self, bytes: &[u8]) -> Result<(), IoFault>;

    /// Reads back one complete, reassembled reply.
    fn read(&mut self) -> Result<Vec<u8>, IoFault>;

    /// Releases the device; never fails.
    fn close(&mut self);
}

/// A device handle reached through a foreign runtime (a browser or Node bridge),
/// which exchanges whole messages in one call.
pub trait BridgeHandle {
    /// Acquires the device.
    fn open(&mut self) -> Result<(), BridgeFault>;

    /// Sends one encoded command and returns the reply.
    fn exchange(&mut self, bytes: &[u8]) -> Result<Vec<u8>, BridgeFault>;

    /// Releases the device; never fails.
    fn close(&mut self);
}

/// One exchange as a transport saw it: the bytes sent, and either the reply
/// read back or the transport failure that stopped the exchange.
pub type Exchange = (Seq<u8>, Result<Seq<u8>, LedgerError>);

/// The outcome of an exchange, decided from what came back from the device.
pub open spec fn settle(reply: Result<Seq<u8>, LedgerError>) -> Result<(u16, Seq<u8>), LedgerError> {
    match reply {
        Ok(b) => decode_answer(b),
        Err(e) => Err(e),
    }
}

/// What came back from the device, seen through the bytes' view.
pub open spec fn reply_view(reply: Result<Vec<u8>, LedgerError>) -> Result<Seq<u8>, LedgerError> {
    match reply {
        Ok(b) => Ok(b@),
        Err(e) => Err(e),
    }
}

/// The error a session reports when a native device refuses to open.
pub open spec fn open_failure(f: OpenFault) -> LedgerError {
    match f {
        OpenFault::NotFound => LedgerError::DeviceUnavailable,
        OpenFault::Busy => LedgerError::DeviceBusy,
    }
}

/// Classifies a native open failure.
pub fn classify_open(f: OpenFault) -> (e: LedgerError)
    ensures
        e == open_failure(f),
{
    match f {
        OpenFault::NotFound => LedgerError::DeviceUnavailable,
        OpenFault::Busy => LedgerError::DeviceBusy,
    }
}

/// Turns what came back from the device into the caller's result: a transport
/// failure is passed on, a reply is decoded.
pub fn settle_reply(reply: Result<Vec<u8>, LedgerError>) -> (r: Result<APDUAnswer, LedgerError>)
    ensures
        answer_result(r) == settle(reply_view(reply)),
{
    match reply {
        Ok(b) => APDUAnswer::from_answer(b),
        Err(e) => Err(e),
    }
}

/// The capability every platform transport offers: open the device, exchange
/// one message at a time, release it.
pub trait Transport: Sized {
    /// The collaborator the transport drives.
    type Handle;

    /// The last exchange this transport performed, if any.
    spec fn last_exchange(&self) -> Option<Exchange>;

    /// The error kind this transport reports when the link fails mid-exchange.
    spec fn link_failure() -> LedgerError;

    /// The error kinds this transport reports when it cannot acquire the device.
    spec fn refuses_with(e: LedgerError) -> bool;

    /// Acquires exclusive access to the device behind `handle`.
    fn open(handle: Self::Handle) -> (r: Result<Self, LedgerError>)
        ensures
            r matches Ok(t) ==> t.last_exchange() is None,
            r matches Err(e) ==> Self::refuses_with(e),
    ;

    /// Sends `command` and waits for the complete reply. The bytes sent are the
    /// command's encoding, and the result is decided by the reply alone.
    fn exchange(&mut self, command: &APDUCommand) -> (r: Result<APDUAnswer, LedgerError>)
        requires
            command.wf(),
        ensures
            final(self).last_exchange() matches Some((sent, reply)) && {
                &&& sent == command.encoded()
                &&& reply matches Err(e) ==> e == Self::link_failure()
                &&& answer_result(r) == settle(reply)
            },
    ;

    /// Releases the device. Nothing is reported back: release always completes.
    fn close(self);
}

/// Transport over a blocking native device handle.
pub struct NativeTransport<D: DeviceHandle> {
    device: D,
    last: Ghost<Option<Exchange>>,
}

impl<D: DeviceHandle> Transport for NativeTransport<D> {
    type Handle = D;

    closed spec fn last_exchange(&self) -> Option<Exchange> {
        self.last@
    }

    open spec fn link_failure() -> LedgerError {
        LedgerError::IOFailure
    }

    open spec fn refuses_with(e: LedgerError) -> bool {
        e is DeviceUnavailable || e is DeviceBusy
    }

    fn open(handle: D) -> (r: Result<Self, LedgerError>) {
        let mut device = handle;
        match device.open() {
            Ok(()) => Ok(NativeTransport { device, last: Ghost(None) }),
            Err(f) => Err(classify_open(f)),
        }
    }

    fn exchange(&mut self, command: &APDUCommand) -> (r: Result<APDUAnswer, LedgerError>) {
        let bytes = command.serialize();
        let reply: Result<Vec<u8>, LedgerError> = match self.device.write(bytes.as_slice()) {
            Err(_) => Err(LedgerError::IOFailure),
            Ok(()) => match self.device.read() {
                Err(_) => Err(LedgerError::IOFailure),
                Ok(b) => Ok(b),
            },
        };
        self.last = Ghost(Some((bytes@, reply_view(reply))));
        settle_reply(reply)
    }

    fn close(self) {
        let mut device = self.device;
        device.close();
    }
}

/// Transport over a device handle reached through a foreign-runtime bridge.
/// Every error crossing the bridge is reported as a bridge failure.
pub struct BridgeTransport<B: BridgeHandle> {
    device: B,
    last: Ghost<Option<Exchange>>,
}

impl<B: BridgeHandle> Transport for BridgeTransport<B> {
    type Handle = B;

    closed spec fn last_exchange(&self) -> Option<Exchange> {
        self.last@
    }

    open spec fn link_failure() -> LedgerError {
        LedgerError::BridgeFailure
    }

    open spec fn refuses_with(e: LedgerError) -> bool {
        e is BridgeFailure
    }

    fn open(handle: B) -> (r: Result<Self, LedgerError>) {
        let mut device = handle;
        match device.open() {
            Ok(()) => Ok(BridgeTransport { device, last: Ghost(None) }),
            Err(_) => Err(LedgerError::BridgeFailure),
        }
    }

    fn exchange(&mut self, command: &APDUCommand) -> (r: Result<APDUAnswer, LedgerError>) {
        let bytes = command.serialize();
        let reply: Result<Vec<u8>, LedgerError> = match self.device.exchange(bytes.as_slice()) {
            Err(_) => Err(LedgerError::BridgeFailure),
            Ok(b) => Ok(b),
        };
        self.last = Ghost(Some((bytes@, reply_view(reply))));
        settle_reply(reply)
    }

    fn close(self) {
        let mut device = self.device;
        device.close();
    }
}

} // verus!
