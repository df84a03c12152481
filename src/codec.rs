//! The bytes that go over the bus for each operation, and their decoding.
use vstd::prelude::*;

use crate::registers::{
    Command, Current, Register, SrcPdo, Voltage, SRC_PDO_MASK, STATUS0_CURRENT_MASK,
    STATUS0_VOLTAGE_MASK,
};

verus! {

/// Voltage and current of a `PdStatus0` byte: high and low nibble.
pub open spec fn status0_of(raw: u8) -> (Voltage, Current) {
    (Voltage::decode(raw & 0xF0), Current::decode(raw & 0x0F))
}

/// Current offered on a rail, from that rail's detection byte: present only
/// when bit 7 is set, then read from bits 0 to 3.
pub open spec fn detection_of(raw: u8) -> Option<Current> {
    if raw >= 0x80 {
        Some(Current::decode(raw & 0x0F))
    } else {
        None
    }
}

/// Numeric voltage (millivolts) and current (milliamperes) of a status.
pub open spec fn actual_of(status: (Voltage, Current)) -> (Option<u32>, u32) {
    (status.0.spec_millivolts(), status.1.spec_milliamps())
}

/// Bytes written to address a register before reading it.
pub fn read_frame(register: &Register) -> (r: [u8; 1])
    ensures
        r@ == seq![register.spec_addr()],
{
    let r = [register.addr()];
    assert(r@ =~= seq![register.spec_addr()]);
    r
}

/// Bytes written to select a source profile.
pub fn src_pdo_frame(src_pdo: SrcPdo) -> (r: [u8; 2])
    ensures
        r@ == seq![Register::SrcPdo.spec_addr(), src_pdo.spec_bits()],
{
    let r = [Register::SrcPdo.addr(), src_pdo.bits()];
    assert(r@ =~= seq![Register::SrcPdo.spec_addr(), src_pdo.spec_bits()]);
    r
}

/// Bytes written to trigger a command.
pub fn go_command_frame(command: &Command) -> (r: [u8; 2])
    ensures
        r@ == seq![Register::GoCommand.spec_addr(), command.spec_bits()],
{
    let r = [Register::GoCommand.addr(), command.bits()];
    assert(r@ =~= seq![Register::GoCommand.spec_addr(), command.spec_bits()]);
    r
}

/// Splits a `PdStatus0` byte into voltage and current.
pub fn decode_pd_status0(raw: u8) -> (r: (Voltage, Current))
    ensures
        r == status0_of(raw),
{
    (Voltage::from(raw & STATUS0_VOLTAGE_MASK), Current::from(raw & STATUS0_CURRENT_MASK))
}

/// Reads the selected profile out of a `SrcPdo` byte.
pub fn decode_src_pdo(raw: u8) -> (r: SrcPdo)
    ensures
        r == SrcPdo::decode(raw & 0xF0),
{
    SrcPdo::from(raw & SRC_PDO_MASK)
}

/// Reads a rail's detection byte.
pub fn decode_detection(raw: u8) -> (r: Option<Current>)
    ensures
        r == detection_of(raw),
{
    assert(raw & 0x80 != 0 <==> raw >= 0x80) by (bit_vector);
    if raw & 0x80 != 0 {
        Some(Current::from(raw & 0x0F))
    } else {
        None
    }
}

/// Voltage in millivolts (absent when unattached or reserved) and current
/// in milliamperes.
pub fn actual_voltage_and_current(status: (Voltage, Current)) -> (r: (Option<u32>, u32))
    ensures
        r == actual_of(status),
{
    (status.0.millivolts(), status.1.milliamps())
}

} // verus!
