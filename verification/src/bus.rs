use vstd::prelude::*;

verus! {

/// Failure of a bus transaction, as the transport reports it: no
/// acknowledgement, a timeout, or a lost arbitration. Never retried here;
/// the caller's next periodic firing starts over.
#[derive(Clone, Copy, Debug, PartialEq, Eq)]
pub enum TransportError {
    Nack,
    Timeout,
    ArbitrationLoss,
}

/// One bus transaction, as the contracts speak of it: the bytes written to a
/// device address, or the bytes a read returned.
pub enum Transaction {
    Write { addr: u8, data: Seq<u8> },
    Read { addr: u8, data: Seq<u8> },
}

/// A blocking transport addressed by a 7-bit device address.
///
/// `log()` is the history of transactions attempted on the bus, newest last.
/// Every call appends exactly one entry, whether or not the wire transaction
/// succeeded, so a caller's contract can pin down how many transactions a
/// protocol step costs.
pub trait Bus: Sized {
    spec fn log(&self) -> Seq<Transaction>;

    /// Write `data` to the device at `addr`.
    fn write(&mut self, addr: u8, data: &[u8]) -> (r: Result<(), TransportError>)
        ensures
            final(self).log() == old(self).log().push(
                Transaction::Write { addr, data: data@ },
            ),
    ;

    /// Read exactly `len` bytes from the device at `addr`.
    fn read(&mut self, addr: u8, len: usize) -> (r: Result<Vec<u8>, TransportError>)
        ensures
            final(self).log().len() == old(self).log().len() + 1,
            final(self).log().subrange(0, old(self).log().len() as int) == old(self).log(),
            r matches Ok(v) ==> v@.len() == len && final(self).log() == old(self).log().push(
                Transaction::Read { addr, data: v@ },
            ),
    ;
}

/// What the simulated bus answers to one read: bytes, or a transport failure.
#[derive(Debug)]
pub enum SimReply {
    Bytes(Vec<u8>),
    Fail(TransportError),
}

#[derive(Debug)]
enum RecordEntry {
    Write(u8, Vec<u8>),
    Read(u8, Vec<u8>),
}

impl RecordEntry {
    spec fn txn(self) -> Transaction {
        match self {
            RecordEntry::Write(addr, data) => Transaction::Write { addr, data: data@ },
            RecordEntry::Read(addr, data) => Transaction::Read { addr, data: data@ },
        }
    }
}

/// A scripted bus for driving the protocol off-target: writes always succeed,
/// reads consume the scripted replies in order. A read past the script's end,
/// or one whose length does not match the scripted bytes, times out.
pub struct SimBus {
    replies: Vec<SimReply>,
    cursor: usize,
    record: Vec<RecordEntry>,
}

fn copy_bytes(src: &[u8]) -> (out: Vec<u8>)
    ensures
        out@ == src@,
{
    let mut out: Vec<u8> = Vec::new();
    let mut i: usize = 0;
    while i < src.len()
        invariant
            i <= src@.len(),
            out@ == src@.take(i as int),
        decreases src@.len() - i,
    {
        out.push(src[i]);
        proof {
            assert(out@ =~= src@.take(i as int + 1));
        }
        i = i + 1;
    }
    proof {
        assert(out@ =~= src@);
    }
    out
}

impl SimBus {
    /// A bus that will answer successive reads with `replies`.
    pub fn new(replies: Vec<SimReply>) -> (b: SimBus)
        ensures
            b.log() == Seq::<Transaction>::empty(),
    {
        let b = SimBus { replies, cursor: 0, record: Vec::new() };
        proof {
            assert(b.log() =~= Seq::<Transaction>::empty());
        }
        b
    }

    /// How many transactions have been attempted on this bus.
    pub fn transaction_count(&self) -> (n: usize)
        ensures
            n == self.log().len(),
    {
        self.record.len()
    }

    /// The `i`-th recorded transaction: its device address, whether it was a
    /// write, and its bytes.
    pub fn recorded(&self, i: usize) -> (r: (u8, bool, Vec<u8>))
        requires
            i < self.log().len(),
        ensures
            match self.log()[i as int] {
                Transaction::Write { addr, data } => r.0 == addr && r.1 == true && r.2@ == data,
                Transaction::Read { addr, data } => r.0 == addr && r.1 == false && r.2@ == data,
            },
    {
        match &self.record[i] {
            RecordEntry::Write(addr, data) => (*addr, true, copy_bytes(data.as_slice())),
            RecordEntry::Read(addr, data) => (*addr, false, copy_bytes(data.as_slice())),
        }
    }
}

impl Bus for SimBus {
    closed spec fn log(&self) -> Seq<Transaction> {
        self.record@.map_values(|e: RecordEntry| e.txn())
    }

    fn write(&mut self, addr: u8, data: &[u8]) -> (r: Result<(), TransportError>) {
        let copied = copy_bytes(data);
        self.record.push(RecordEntry::Write(addr, copied));
        proof {
            assert(self.log() =~= old(self).log().push(Transaction::Write { addr, data: data@ }));
        }
        Ok(())
    }

    fn read(&mut self, addr: u8, len: usize) -> (r: Result<Vec<u8>, TransportError>) {
        let outcome: Result<Vec<u8>, TransportError> = if self.cursor < self.replies.len() {
            let idx = self.cursor;
            self.cursor = idx + 1;
            match &self.replies[idx] {
                SimReply::Bytes(bytes) => {
                    if bytes.len() == len {
                        Ok(copy_bytes(bytes.as_slice()))
                    } else {
                        Err(TransportError::Timeout)
                    }
                },
                SimReply::Fail(e) => Err(*e),
            }
        } else {
            Err(TransportError::Timeout)
        };
        let recorded: Vec<u8> = match &outcome {
            Ok(v) => copy_bytes(v.as_slice()),
            Err(_) => Vec::new(),
        };
        self.record.push(RecordEntry::Read(addr, recorded));
        proof {
            assert(self.log().subrange(0, old(self).log().len() as int) =~= old(self).log());
            if outcome is Ok {
                assert(self.log() =~= old(self).log().push(
                    Transaction::Read { addr, data: outcome.unwrap()@ },
                ));
            }
        }
        outcome
    }
}

} // verus!
