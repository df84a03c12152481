//! The driver: one bus transaction per operation, through a transport that the
//! platform supplies.
use vstd::prelude::*;

use crate::codec::{
    actual_of, actual_voltage_and_current, decode_detection, decode_pd_status0, decode_src_pdo,
    detection_of, go_command_frame, read_frame, src_pdo_frame, status0_of,
};
use crate::registers::{Command, Current, Register, SrcPdo, Voltage, HUSB238_ADDR};

verus! {

/// A two-wire bus with seven-bit addresses.
///
/// `write` sends `bytes` to the device at `address`. `write_read` sends
/// `bytes` and then, without releasing the bus, reads as many bytes as
/// `buffer` holds. Each reports the transport's own failure, which the
/// driver hands on unchanged.
///
/// The verified code cannot be bounded by embedded-hal's `I2c` trait, so the
/// two primitives are declared here and an embedded-hal bus is adapted to
/// them by the code around the library.
pub trait Bus {
    type Error;

    fn write(&mut self, address: u8, bytes: &[u8]) -> Result<(), Self::Error>;

    fn write_read(&mut self, address: u8, bytes: &[u8], buffer: &mut [u8]) -> Result<(), Self::Error>;
}

/// Driver of one chip, owning the bus it is reached through.
pub struct Husb238<B> {
    i2c: B,
}

impl<B> Husb238<B> {
    /// The bus the driver talks through.
    pub closed spec fn bus(&self) -> B {
        self.i2c
    }
}

impl<B: Bus> Husb238<B> {
    pub fn new(i2c: B) -> (r: Self)
        ensures
            r.bus() == i2c,
    {
        Husb238 { i2c }
    }

    /// Writes the register's address and reads back its one-byte value.
    fn read_register(&mut self, register: &Register) -> (r: Result<u8, B::Error>) {
        let mut buf = [0u8; 1];
        let frame = read_frame(register);
        match self.i2c.write_read(HUSB238_ADDR, &frame, &mut buf) {
            Ok(()) => Ok(buf[0]),
            Err(e) => Err(e),
        }
    }

    /// Voltage and current from `PdStatus0`, in millivolts and milliamperes;
    /// the voltage is absent when nothing is attached or the field is
    /// reserved. One bus transaction, as for `get_pd_status0`.
    pub fn get_actual_voltage_and_current(&mut self) -> (r: Result<(Option<u32>, u32), B::Error>)
        ensures
            r is Ok ==> exists|raw: u8| r->Ok_0 == actual_of(#[trigger] status0_of(raw)),
    {
        match self.get_pd_status0() {
            Ok(status) => Ok(actual_voltage_and_current(status)),
            Err(e) => Err(e),
        }
    }

    /// Voltage and current from `PdStatus0`, as enumerations.
    pub fn get_pd_status0(&mut self) -> (r: Result<(Voltage, Current), B::Error>)
        ensures
            r is Ok ==> exists|raw: u8| r->Ok_0 == #[trigger] status0_of(raw),
    {
        match self.read_register(&Register::PdStatus0) {
            Ok(raw) => Ok(decode_pd_status0(raw)),
            Err(e) => Err(e),
        }
    }

    /// The profile currently selected in `SrcPdo`.
    pub fn get_src_pdo(&mut self) -> (r: Result<SrcPdo, B::Error>)
        ensures
            r is Ok ==> exists|raw: u8| r->Ok_0 == #[trigger] SrcPdo::decode(raw & 0xF0),
    {
        match self.read_register(&Register::SrcPdo) {
            Ok(raw) => Ok(decode_src_pdo(raw)),
            Err(e) => Err(e),
        }
    }

    /// Selects the profile to negotiate with one write to `SrcPdo`.
    pub fn set_src_pdo(&mut self, src_pdo: SrcPdo) -> (r: Result<(), B::Error>) {
        let frame = src_pdo_frame(src_pdo);
        self.i2c.write(HUSB238_ADDR, &frame)
    }

    /// Triggers a command with one write to `GoCommand`.
    pub fn go_command(&mut self, command: Command) -> (r: Result<(), B::Error>) {
        let frame = go_command_frame(&command);
        self.i2c.write(HUSB238_ADDR, &frame)
    }

    /// The current offered on the rail whose detection register is given, or
    /// `None` when the source does not offer that rail.
    fn get_detection_status(&mut self, src_pdo: Register) -> (r: Result<Option<Current>, B::Error>)
        ensures
            r is Ok ==> exists|raw: u8| r->Ok_0 == #[trigger] detection_of(raw),
    {
        match self.read_register(&src_pdo) {
            Ok(raw) => Ok(decode_detection(raw)),
            Err(e) => Err(e),
        }
    }

    /// Whether the source offers 5 V, and with which current.
    pub fn get_5v_status(&mut self) -> (r: Result<Option<Current>, B::Error>)
        ensures
            r is Ok ==> exists|raw: u8| r->Ok_0 == #[trigger] detection_of(raw),
    {
        self.get_detection_status(Register::SrcPdo5V)
    }

    /// Whether the source offers 9 V, and with which current.
    pub fn get_9v_status(&mut self) -> (r: Result<Option<Current>, B::Error>)
        ensures
            r is Ok ==> exists|raw: u8| r->Ok_0 == #[trigger] detection_of(raw),
    {
        self.get_detection_status(Register::SrcPdo9V)
    }

    /// Whether the source offers 12 V, and with which current.
    pub fn get_12v_status(&mut self) -> (r: Result<Option<Current>, B::Error>)
        ensures
            r is Ok ==> exists|raw: u8| r->Ok_0 == #[trigger] detection_of(raw),
    {
        self.get_detection_status(Register::SrcPdo12V)
    }

    /// Whether the source offers 15 V, and with which current.
    pub fn get_15v_status(&mut self) -> (r: Result<Option<Current>, B::Error>)
        ensures
            r is Ok ==> exists|raw: u8| r->Ok_0 == #[trigger] detection_of(raw),
    {
        self.get_detection_status(Register::SrcPdo15V)
    }

    /// Whether the source offers 18 V, and with which current.
    pub fn get_18v_status(&mut self) -> (r: Result<Option<Current>, B::Error>)
        ensures
            r is Ok ==> exists|raw: u8| r->Ok_0 == #[trigger] detection_of(raw),
    {
        self.get_detection_status(Register::SrcPdo18V)
    }

    /// Whether the source offers 20 V, and with which current.
    pub fn get_20v_status(&mut self) -> (r: Result<Option<Current>, B::Error>)
        ensures
            r is Ok ==> exists|raw: u8| r->Ok_0 == #[trigger] detection_of(raw),
    {
        self.get_detection_status(Register::SrcPdo20V)
    }
}

} // verus!
