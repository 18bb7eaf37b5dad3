use vstd::prelude::*;

use crate::apdu::{answer_bytes, answer_result, APDUAnswer, APDUCommand};
use crate::errors::LedgerError;
use crate::transport::{settle, BridgeTransport, Exchange, NativeTransport, Transport};

verus! {

/// A Ledger device connection: the one live session that owns a platform
/// transport. Operations on it run one at a time, since each takes the session
/// exclusively; `close` consumes it, so nothing can follow a close.
pub struct Ledger<T: Transport>(T);

/// A session over a blocking native device handle.
pub type NativeLedger<D> = Ledger<NativeTransport<D>>;

/// A session over a device reached through a foreign-runtime bridge.
pub type BridgeLedger<B> = Ledger<BridgeTransport<B>>;

/// The interface callers use to talk to the device. It is critical that the
/// device have only one connection active, so `init` acquires it exclusively.
pub trait LedgerAsync: Sized {
    /// The device collaborator a session is opened on.
    type Handle;

    /// The last exchange made on this session, if any.
    spec fn last_exchange(&self) -> Option<Exchange>;

    /// The error kind reported when the link fails mid-exchange.
    spec fn link_failure() -> LedgerError;

    /// The error kinds reported when the device cannot be acquired.
    spec fn refuses_with(e: LedgerError) -> bool;

    /// Opens the connection to the device. This fails if the device is absent or
    /// already in use by another session.
    fn init(handle: Self::Handle) -> (r: Result<Self, LedgerError>)
        ensures
            r matches Ok(s) ==> s.last_exchange() is None,
            r matches Err(e) ==> Self::refuses_with(e),
    ;

    /// Exchanges one packet with the device. The packet's encoding is sent as it
    /// is, and the answer is the device's reply, decoded and otherwise unchanged.
    fn exchange(&mut self, packet: &APDUCommand) -> (r: Result<APDUAnswer, LedgerError>)
        requires
            packet.wf(),
        ensures
            final(self).last_exchange() matches Some((sent, reply)) && {
                &&& sent == packet.encoded()
                &&& reply matches Err(e) ==> e == Self::link_failure()
                &&& answer_result(r) == settle(reply)
            },
    ;

    /// Consumes the connection, and releases the resources it holds.
    ///
    /// By default this simply drops the session.
    fn close(self) {
    }
}

impl<T: Transport> LedgerAsync for Ledger<T> {
    type Handle = T::Handle;

    closed spec fn last_exchange(&self) -> Option<Exchange> {
        self.0.last_exchange()
    }

    open spec fn link_failure() -> LedgerError {
        T::link_failure()
    }

    open spec fn refuses_with(e: LedgerError) -> bool {
        T::refuses_with(e)
    }

    fn init(handle: T::Handle) -> (r: Result<Self, LedgerError>) {
        let transport = T::open(handle)?;
        Ok(Ledger(transport))
    }

    fn exchange(&mut self, packet: &APDUCommand) -> (r: Result<APDUAnswer, LedgerError>) {
        self.0.exchange(packet)
    }

    fn close(self) {
        self.0.close();
    }
}

/// When the device replies with the wire form of an answer, the exchange returns
/// exactly that answer: the session passes answers through unchanged.
pub proof fn lemma_echoed_answer_passes_through(retcode: u16, data: Seq<u8>)
    ensures
        settle(Ok(answer_bytes(retcode, data))) == Ok::<(u16, Seq<u8>), LedgerError>((retcode, data)),
{
    crate::apdu::lemma_answer_round_trip(retcode, data);
}

/// A reply too short to hold a status word makes the exchange fail with a
/// malformed-response error.
pub proof fn lemma_truncated_reply_fails_malformed(b: Seq<u8>)
    requires
        b.len() < 2,
    ensures
        settle(Ok(b)) == Err::<(u16, Seq<u8>), LedgerError>(LedgerError::MalformedResponse),
{
}

/// On a native session, a failed write or read makes the exchange fail with an
/// I/O failure.
pub proof fn lemma_native_link_fault_is_io_failure<D: crate::transport::DeviceHandle>()
    ensures
        settle(Err(NativeLedger::<D>::link_failure())) == Err::<(u16, Seq<u8>), LedgerError>(LedgerError::IOFailure),
{
}

/// A native session is refused only because the device is absent or busy.
pub proof fn lemma_native_refusals<D: crate::transport::DeviceHandle>(e: LedgerError)
    requires
        NativeLedger::<D>::refuses_with(e),
    ensures
        e == LedgerError::DeviceUnavailable || e == LedgerError::DeviceBusy,
{
}

} // verus!
