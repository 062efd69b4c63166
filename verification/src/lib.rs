//! Register-level driver for a single-chip H-bridge motor driver on a
//! two-wire bus.
//!
//! The chip has two registers. The Control register, write-only, selects the
//! bridge mode and the output voltage; the Fault register reports latched
//! fault conditions and is written to acknowledge them. `Control` and
//! `Fault` are the two register values with their byte layouts, `Transport`
//! is what the driver needs of a bus, and `Driver` binds a bus and a chip
//! address into the named operations.

pub mod bits;
pub mod control;
pub mod driver;
pub mod fault;
pub mod register;
pub mod transport;
pub mod voltage;

pub use control::Control;
pub use driver::Driver;
pub use fault::Fault;
pub use register::ReadRegister;
pub use register::WriteRegister;
pub use transport::Bus;
pub use transport::Exchange;
pub use transport::Transport;
