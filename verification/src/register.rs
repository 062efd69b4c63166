//! Register transactions: a register value is written in one bus write, and
//! read in one write-then-read.

use crate::control::Control;
use crate::fault::Fault;
use crate::transport::last_reply;
use crate::transport::read_back;
use crate::transport::wrote;
use crate::transport::Bus;
use crate::transport::Transport;
use vstd::prelude::*;

verus! {

/// A register value that can be written to the chip.
pub trait WriteRegister {
    /// The bytes that a write of this value puts on the bus: the register's
    /// address, then the encoded value.
    spec fn frame(&self) -> Seq<u8>;

    /// Writes this value to the chip at `chip_addr`, in exactly one bus
    /// write of `frame()`, and returns what the transport reported: `Ok`
    /// if it reported success, and its own error otherwise. Nothing is
    /// retried.
    fn write<T: Transport>(&self, bus: &mut Bus<T>, chip_addr: u8) -> (outcome: Result<
        (),
        T::Error,
    >)
        ensures
            wrote(old(bus).trace(), final(bus).trace(), chip_addr, self.frame(), outcome),
    ;
}

/// A register value that can be read from the chip.
pub trait ReadRegister: Sized {
    /// The bytes written to select the register before it is read: the
    /// register's address.
    spec fn request() -> Seq<u8>;

    /// The number of bytes read back.
    spec fn reply_len() -> nat;

    /// The value that the bytes read back stand for.
    spec fn from_reply(reply: Seq<u8>) -> Self;

    /// Reads the register from the chip at `chip_addr`, in exactly one
    /// write-then-read of `request()` and `reply_len()` bytes. Returns the
    /// value decoded from the reply if the transport reported success, and
    /// the transport's own error otherwise. Nothing is retried.
    fn new<T: Transport>(bus: &mut Bus<T>, chip_addr: u8) -> (outcome: Result<Self, T::Error>)
        ensures
            read_back(
                old(bus).trace(),
                final(bus).trace(),
                chip_addr,
                Self::request(),
                Self::reply_len(),
            ),
            outcome == (match last_reply(final(bus).trace()) {
                Ok(bytes) => Ok(Self::from_reply(bytes)),
                Err(e) => Err(e),
            }),
    ;
}

impl WriteRegister for Control {
    open spec fn frame(&self) -> Seq<u8> {
        seq![Control::ADDRESS, self.byte()]
    }

    fn write<T: Transport>(&self, bus: &mut Bus<T>, chip_addr: u8) -> (outcome: Result<
        (),
        T::Error,
    >) {
        let frame: [u8; 2] = [Control::ADDRESS, self.encode()];
        assert(frame@ =~= self.frame());
        bus.write(chip_addr, &frame)
    }
}

impl WriteRegister for Fault {
    open spec fn frame(&self) -> Seq<u8> {
        seq![Fault::ADDRESS, self.byte()]
    }

    fn write<T: Transport>(&self, bus: &mut Bus<T>, chip_addr: u8) -> (outcome: Result<
        (),
        T::Error,
    >) {
        let frame: [u8; 2] = [Fault::ADDRESS, self.encode()];
        assert(frame@ =~= self.frame());
        bus.write(chip_addr, &frame)
    }
}

impl ReadRegister for Fault {
    open spec fn request() -> Seq<u8> {
        seq![Fault::ADDRESS]
    }

    open spec fn reply_len() -> nat {
        1
    }

    open spec fn from_reply(reply: Seq<u8>) -> Fault {
        Fault::from_byte(reply[0])
    }

    fn new<T: Transport>(bus: &mut Bus<T>, chip_addr: u8) -> (outcome: Result<Fault, T::Error>) {
        let request: [u8; 1] = [Fault::ADDRESS];
        let mut reply: [u8; 1] = [0];
        assert(request@ =~= Self::request());
        match bus.write_read(chip_addr, &request, &mut reply) {
            Ok(()) => Ok(Fault::decode(reply[0])),
            Err(e) => Err(e),
        }
    }
}

} // verus!
