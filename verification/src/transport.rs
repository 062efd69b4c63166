//! The bus as the driver sees it: two kinds of transaction, each addressed
//! to one chip, and a record of every transaction asked for.

use vstd::prelude::*;

verus! {

/// A handle on a two-wire bus.
///
/// The chip address is an argument of every transaction, so several chips
/// of the same kind can share one bus. A transport reports any bus-level
/// failure as its `Error`. It may retry or time out as it sees fit; the
/// driver never does so on its behalf.
pub trait Transport {
    /// Any bus-level failure: no acknowledgement, a timeout, lost
    /// arbitration, an I/O fault.
    type Error;

    /// Carries out one write transaction: `payload` goes to the chip at
    /// `address`.
    fn write(&mut self, address: u8, payload: &[u8]) -> Result<(), Self::Error>;

    /// Carries out one write-then-read transaction: `payload` goes to the
    /// chip at `address`, and enough bytes to fill `reply` are read back
    /// before the bus is released.
    fn write_read<const N: usize>(
        &mut self,
        address: u8,
        payload: &[u8],
        reply: &mut [u8; N],
    ) -> Result<(), Self::Error>;
}

/// One transaction, as recorded in the trace of a `Bus`.
pub enum Exchange<E> {
    /// A write of `payload` to the chip at `address`, with what the
    /// transport reported.
    Write { address: u8, payload: Seq<u8>, outcome: Result<(), E> },
    /// A write of `payload` to the chip at `address`, followed in the same
    /// transaction by a read of `read_len` bytes. `reply` holds the bytes
    /// read, or the transport's error.
    WriteRead { address: u8, payload: Seq<u8>, read_len: nat, reply: Result<Seq<u8>, E> },
}

/// What a write-then-read brought back: the bytes now in the buffer, or the
/// transport's error.
pub open spec fn reply_of<E>(outcome: Result<(), E>, buffer: Seq<u8>) -> Result<Seq<u8>, E> {
    match outcome {
        Ok(()) => Ok(buffer),
        Err(e) => Err(e),
    }
}

/// That the trace `after` is the trace `before` and one write of `frame` to
/// the chip at `chip_addr`, with `outcome` as what the transport reported.
pub open spec fn wrote<E>(
    before: Seq<Exchange<E>>,
    after: Seq<Exchange<E>>,
    chip_addr: u8,
    frame: Seq<u8>,
    outcome: Result<(), E>,
) -> bool {
    after == before.push(Exchange::Write { address: chip_addr, payload: frame, outcome })
}

/// What the latest transaction of a trace read back: the bytes, or the
/// transport's error. Meant for a trace whose latest transaction is a
/// write-then-read.
pub open spec fn last_reply<E>(trace: Seq<Exchange<E>>) -> Result<Seq<u8>, E> {
    trace.last()->reply
}

/// That the trace `after` is the trace `before` and one write-then-read
/// with the chip at `chip_addr`: `request` written, `read_len` bytes read.
/// What was read is `last_reply(after)`; if the transport reported success
/// it holds `read_len` bytes.
pub open spec fn read_back<E>(
    before: Seq<Exchange<E>>,
    after: Seq<Exchange<E>>,
    chip_addr: u8,
    request: Seq<u8>,
    read_len: nat,
) -> bool {
    &&& after == before.push(
        Exchange::WriteRead {
            address: chip_addr,
            payload: request,
            read_len,
            reply: last_reply(after),
        },
    )
    &&& last_reply(after) matches Ok(bytes) ==> bytes.len() == read_len
}

/// A transport together with the record of what was asked of it.
///
/// The transport can be reached through `write` and `write_read` alone.
/// Each of them hands its arguments to the transport in a single call,
/// returns what that call returned, and appends one entry to the trace.
/// The trace is ghost: it costs nothing when the program runs.
pub struct Bus<T: Transport> {
    transport: T,
    trace: Ghost<Seq<Exchange<T::Error>>>,
}

impl<T: Transport> Bus<T> {
    /// Every transaction asked for since the transport was wrapped, oldest
    /// first.
    pub closed spec fn trace(&self) -> Seq<Exchange<T::Error>> {
        self.trace@
    }

    /// The transport inside, as the transactions so far have left it.
    pub closed spec fn transport(&self) -> T {
        self.transport
    }

    /// Wraps a transport. Nothing has been asked of it yet.
    pub fn new(transport: T) -> (bus: Self)
        ensures
            bus.transport() == transport,
            bus.trace() == Seq::<Exchange<T::Error>>::empty(),
    {
        Bus { transport, trace: Ghost(Seq::empty()) }
    }

    /// Gives the transport back.
    pub fn release(self) -> (transport: T)
        ensures
            transport == self.transport(),
    {
        self.transport
    }

    /// Writes `payload` to the chip at `address` in one transaction and
    /// returns what the transport reported.
    pub fn write(&mut self, address: u8, payload: &[u8]) -> (outcome: Result<(), T::Error>)
        ensures
            final(self).trace() == old(self).trace().push(
                Exchange::Write { address, payload: payload@, outcome },
            ),
    {
        let outcome = self.transport.write(address, payload);
        proof {
            self.trace@ = self.trace@.push(Exchange::Write { address, payload: payload@, outcome });
        }
        outcome
    }

    /// Writes `payload` to the chip at `address` and reads `N` bytes into
    /// `reply`, in one transaction, and returns what the transport
    /// reported.
    pub fn write_read<const N: usize>(
        &mut self,
        address: u8,
        payload: &[u8],
        reply: &mut [u8; N],
    ) -> (outcome: Result<(), T::Error>)
        ensures
            final(self).trace() == old(self).trace().push(
                Exchange::WriteRead {
                    address,
                    payload: payload@,
                    read_len: N as nat,
                    reply: reply_of(outcome, final(reply)@),
                },
            ),
    {
        let outcome = self.transport.write_read(address, payload, reply);
        proof {
            self.trace@ = self.trace@.push(
                Exchange::WriteRead {
                    address,
                    payload: payload@,
                    read_len: N as nat,
                    reply: reply_of(outcome, reply@),
                },
            );
        }
        outcome
    }
}

} // verus!
