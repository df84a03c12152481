//! Register-level driver for the HUSB238 USB Power-Delivery sink controller.
//!
//! The chip answers on the two-wire bus at a fixed seven-bit address. Every
//! operation is one bus transaction: a write of `[register, value]`, or a
//! write of `[register]` immediately followed by a one-byte read. The raw
//! bytes are decoded by total functions, so the only failures are those of
//! the bus itself.
pub mod codec;
pub mod driver;
pub mod registers;
pub mod tables;

pub use driver::{Bus, Husb238};
pub use registers::{
    Command, Current, Register, SrcPdo, Voltage, HUSB238_ADDR, SRC_PDO_MASK, STATUS0_CURRENT_MASK,
    STATUS0_VOLTAGE_MASK,
};
