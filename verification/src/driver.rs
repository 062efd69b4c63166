//! The driver proper: a bus, the address of one chip on it, and the named
//! operations on that chip.

use crate::control::Control;
use crate::fault::Fault;
use crate::register::ReadRegister;
use crate::register::WriteRegister;
use crate::transport::last_reply;
use crate::transport::read_back;
use crate::transport::wrote;
use crate::transport::Bus;
use crate::transport::Exchange;
use crate::transport::Transport;
use vstd::prelude::*;

verus! {

/// One motor-driver chip on a bus.
///
/// Every operation is a single bus transaction with the chip at the address
/// given at construction. Nothing is cached and nothing is retried.
pub struct Driver<T: Transport> {
    bus: Bus<T>,
    chip_addr: u8,
}

impl<T: Transport> Driver<T> {
    /// Every transaction this driver has asked of its bus, oldest first.
    pub closed spec fn trace(&self) -> Seq<Exchange<T::Error>> {
        self.bus.trace()
    }

    /// The bus address of the chip this driver talks to.
    pub closed spec fn chip_addr(&self) -> u8 {
        self.chip_addr
    }

    /// The transport inside, as the transactions so far have left it.
    pub closed spec fn transport(&self) -> T {
        self.bus.transport()
    }

    /// Takes over a transport to talk to the chip at `chip_addr`. No
    /// transaction is made.
    pub fn new(transport: T, chip_addr: u8) -> (driver: Self)
        ensures
            driver.transport() == transport,
            driver.chip_addr() == chip_addr,
            driver.trace() == Seq::<Exchange<T::Error>>::empty(),
    {
        Driver { bus: Bus::new(transport), chip_addr }
    }

    /// Gives the transport back.
    pub fn release(self) -> (transport: T)
        ensures
            transport == self.transport(),
    {
        self.bus.release()
    }

    /// Lets the motor coast: writes the coast preset to the Control
    /// register, in one transaction, and returns what the transport
    /// reported.
    pub fn coast(&mut self) -> (outcome: Result<(), T::Error>)
        ensures
            final(self).chip_addr() == old(self).chip_addr(),
            wrote(
                old(self).trace(),
                final(self).trace(),
                old(self).chip_addr(),
                Control::preset(false, false).frame(),
                outcome,
            ),
    {
        Control::coast().write(&mut self.bus, self.chip_addr)
    }

    /// Runs the motor forward at full speed: writes the forward preset to
    /// the Control register, in one transaction, and returns what the
    /// transport reported.
    pub fn forward(&mut self) -> (outcome: Result<(), T::Error>)
        ensures
            final(self).chip_addr() == old(self).chip_addr(),
            wrote(
                old(self).trace(),
                final(self).trace(),
                old(self).chip_addr(),
                Control::preset(true, false).frame(),
                outcome,
            ),
    {
        Control::forward().write(&mut self.bus, self.chip_addr)
    }

    /// Runs the motor in reverse at full speed: writes the reverse preset to
    /// the Control register, in one transaction, and returns what the
    /// transport reported.
    pub fn reverse(&mut self) -> (outcome: Result<(), T::Error>)
        ensures
            final(self).chip_addr() == old(self).chip_addr(),
            wrote(
                old(self).trace(),
                final(self).trace(),
                old(self).chip_addr(),
                Control::preset(false, true).frame(),
                outcome,
            ),
    {
        Control::reverse().write(&mut self.bus, self.chip_addr)
    }

    /// Brakes the motor: writes the brake preset to the Control register,
    /// in one transaction, and returns what the transport reported.
    pub fn brake(&mut self) -> (outcome: Result<(), T::Error>)
        ensures
            final(self).chip_addr() == old(self).chip_addr(),
            wrote(
                old(self).trace(),
                final(self).trace(),
                old(self).chip_addr(),
                Control::preset(true, true).frame(),
                outcome,
            ),
    {
        Control::brake().write(&mut self.bus, self.chip_addr)
    }

    /// Reads the Fault register, in one transaction. Returns the flags of
    /// the byte read, or the transport's error as it came.
    pub fn read_fault(&mut self) -> (outcome: Result<Fault, T::Error>)
        ensures
            final(self).chip_addr() == old(self).chip_addr(),
            read_back(
                old(self).trace(),
                final(self).trace(),
                old(self).chip_addr(),
                seq![Fault::ADDRESS],
                1,
            ),
            outcome == (match last_reply(final(self).trace()) {
                Ok(bytes) => Ok(Fault::from_byte(bytes[0])),
                Err(e) => Err(e),
            }),
    {
        Fault::new(&mut self.bus, self.chip_addr)
    }

    /// Acknowledges a latched fault: writes the Fault register with `clear`
    /// set and every other flag unset, in one transaction, and returns what
    /// the transport reported.
    pub fn clear_fault(&mut self) -> (outcome: Result<(), T::Error>)
        ensures
            final(self).chip_addr() == old(self).chip_addr(),
            wrote(
                old(self).trace(),
                final(self).trace(),
                old(self).chip_addr(),
                Fault::acknowledgement().frame(),
                outcome,
            ),
    {
        let acknowledgement = Fault {
            clear: true,
            i_limit: false,
            ots: false,
            uvlo: false,
            ocp: false,
            fault: false,
        };
        acknowledgement.write(&mut self.bus, self.chip_addr)
    }
}

} // verus!
