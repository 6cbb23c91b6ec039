//! Interrupt-driven transmit driver for the nRF52 UARTE peripheral
//! (universal asynchronous receiver/transmitter with EasyDMA).
//!
//! The driver decides; it never touches memory-mapped registers itself.
//! Every operation takes the register values it depends on as plain
//! arguments and returns the ordered register operations to perform, so the
//! whole protocol is stated in contracts and proved.

pub mod baud;
pub mod lemmas;
pub mod regs;
pub mod pinmux;
pub mod registers;
pub mod uart;
