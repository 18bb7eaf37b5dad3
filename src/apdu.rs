use vstd::prelude::*;

use crate::errors::LedgerError;

verus! {

/// Class byte that starts every command sent to the device.
pub const CLA: u8 = 0xE0;

/// Most payload bytes a single command can carry: its length travels in one byte.
pub const MAX_DATA_LEN: usize = 255;

/// A command for the device: instruction, two parameter bytes and a payload.
#[derive(Debug, Clone)]
pub struct APDUCommand {
    pub ins: u8,
    pub p1: u8,
    pub p2: u8,
    pub data: Vec<u8>,
}

/// A reply from the device: a status word and the payload that precedes it.
#[derive(Debug, Clone)]
pub struct APDUAnswer {
    pub retcode: u16,
    pub data: Vec<u8>,
}

/// Wire form of a command: class, instruction, parameters, payload length, payload.
pub open spec fn command_bytes(ins: u8, p1: u8, p2: u8, data: Seq<u8>) -> Seq<u8> {
    seq![CLA, ins, p1, p2, data.len() as u8] + data
}

/// Wire form of an answer: the payload followed by the status word, high byte first.
pub open spec fn answer_bytes(retcode: u16, data: Seq<u8>) -> Seq<u8> {
    data + seq![(retcode / 256) as u8, (retcode % 256) as u8]
}

/// What a reply from the device decodes to: the last two bytes are the status
/// word, everything before them is the payload. Fewer than two bytes is malformed.
pub open spec fn decode_answer(b: Seq<u8>) -> Result<(u16, Seq<u8>), LedgerError> {
    if b.len() < 2 {
        Err(LedgerError::MalformedResponse)
    } else {
        Ok((
            (b[b.len() - 2] as int * 256 + b[b.len() - 1] as int) as u16,
            b.subrange(0, b.len() - 2),
        ))
    }
}

/// An answer (or error) seen through the answer's view.
pub open spec fn answer_result(r: Result<APDUAnswer, LedgerError>) -> Result<(u16, Seq<u8>), LedgerError> {
    match r {
        Ok(a) => Ok(a@),
        Err(e) => Err(e),
    }
}

impl View for APDUAnswer {
    type V = (u16, Seq<u8>);

    open spec fn view(&self) -> (u16, Seq<u8>) {
        (self.retcode, self.data@)
    }
}

impl APDUCommand {
    /// A command whose payload length fits its one-byte length field.
    pub open spec fn wf(&self) -> bool {
        self.data@.len() <= MAX_DATA_LEN
    }

    pub open spec fn encoded(&self) -> Seq<u8> {
        command_bytes(self.ins, self.p1, self.p2, self.data@)
    }

    /// Encodes the command into the bytes written to the device.
    pub fn serialize(&self) -> (r: Vec<u8>)
        requires
            self.wf(),
        ensures
            r@ == self.encoded(),
    {
        let n: usize = self.data.len();
        let mut out: Vec<u8> = Vec::with_capacity(n + 5);
        out.push(CLA);
        out.push(self.ins);
        out.push(self.p1);
        out.push(self.p2);
        out.push(n as u8);
        let mut i: usize = 0;
        while i < n
            invariant
                n == self.data@.len(),
                i <= n,
                out@ == seq![CLA, self.ins, self.p1, self.p2, n as u8] + self.data@.subrange(0, i as int),
            decreases n - i,
        {
            out.push(self.data[i]);
            i = i + 1;
        }
        assert(self.data@.subrange(0, n as int) =~= self.data@);
        out
    }
}

impl APDUAnswer {
    /// The status word the device returned.
    pub fn retcode(&self) -> (r: u16)
        ensures
            r == self.retcode,
    {
        self.retcode
    }

    /// The payload the device returned, without the status word.
    pub fn data(&self) -> (r: &[u8])
        ensures
            r@ == self.data@,
    {
        self.data.as_slice()
    }

    /// Decodes a complete reply read back from the device.
    pub fn from_answer(response: Vec<u8>) -> (r: Result<APDUAnswer, LedgerError>)
        ensures
            answer_result(r) == decode_answer(response@),
    {
        let n: usize = response.len();
        if n < 2 {
            return Err(LedgerError::MalformedResponse);
        }
        let retcode: u16 = (response[n - 2] as u16) * 256 + (response[n - 1] as u16);
        let mut data = response;
        data.truncate(n - 2);
        assert(data@ =~= response@.subrange(0, n - 2));
        Ok(APDUAnswer { retcode, data })
    }

    /// Encodes the answer as the device sends it.
    pub fn serialize(&self) -> (r: Vec<u8>)
        ensures
            r@ == answer_bytes(self.retcode, self.data@),
    {
        let n: usize = self.data.len();
        let mut out: Vec<u8> = Vec::new();
        let mut i: usize = 0;
        while i < n
            invariant
                n == self.data@.len(),
                i <= n,
                out@ == self.data@.subrange(0, i as int),
            decreases n - i,
        {
            out.push(self.data[i]);
            i = i + 1;
        }
        out.push((self.retcode / 256) as u8);
        out.push((self.retcode % 256) as u8);
        assert(out@ =~= answer_bytes(self.retcode, self.data@));
        out
    }
}

/// Decoding the wire form of an answer gives back exactly that answer: a reply
/// that a device (or a stand-in for one) echoes passes through unchanged.
pub proof fn lemma_answer_round_trip(retcode: u16, data: Seq<u8>)
    ensures
        decode_answer(answer_bytes(retcode, data)) == Ok::<(u16, Seq<u8>), LedgerError>((retcode, data)),
{
    let b = answer_bytes(retcode, data);
    assert(b.subrange(0, b.len() - 2) =~= data);
}

/// A reply shorter than a status word never decodes: it is a malformed response.
pub proof fn lemma_truncated_reply_is_malformed(b: Seq<u8>)
    requires
        b.len() < 2,
    ensures
        decode_answer(b) == Err::<(u16, Seq<u8>), LedgerError>(LedgerError::MalformedResponse),
{
}

} // verus!
