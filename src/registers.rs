//! Register map of the chip and the encodings of its fields.
use vstd::prelude::*;

verus! {

/// Seven-bit bus address of the chip.
pub const HUSB238_ADDR: u8 = 0x08;

/// Mask of the selected-profile field in the `SrcPdo` register.
pub const SRC_PDO_MASK: u8 = 0xF0;

/// Mask of the voltage field in the `PdStatus0` register.
pub const STATUS0_VOLTAGE_MASK: u8 = 0xF0;

/// Mask of the current field in the `PdStatus0` register.
pub const STATUS0_CURRENT_MASK: u8 = 0x0F;

/// Negotiated voltage, as reported in the high nibble of `PdStatus0`.
#[derive(PartialEq, Eq, Structural, Clone, Copy, Debug)]
pub enum Voltage {
    Unattached,
    _5v,
    _9v,
    _12v,
    _15v,
    _18v,
    _20v,
    /// Any value of the field that the chip leaves undefined.
    Reserved,
}

impl Voltage {
    /// Decoding of a status byte whose low nibble has been masked off.
    pub open spec fn decode(value: u8) -> Voltage {
        if value == 0x00 {
            Voltage::Unattached
        } else if value == 0x10 {
            Voltage::_5v
        } else if value == 0x20 {
            Voltage::_9v
        } else if value == 0x30 {
            Voltage::_12v
        } else if value == 0x40 {
            Voltage::_15v
        } else if value == 0x50 {
            Voltage::_18v
        } else if value == 0x60 {
            Voltage::_20v
        } else {
            Voltage::Reserved
        }
    }

    /// The raw field value that stands for this voltage.
    pub open spec fn spec_bits(self) -> u8 {
        match self {
            Voltage::Unattached => 0x00,
            Voltage::_5v => 0x10,
            Voltage::_9v => 0x20,
            Voltage::_12v => 0x30,
            Voltage::_15v => 0x40,
            Voltage::_18v => 0x50,
            Voltage::_20v => 0x60,
            Voltage::Reserved => 0x70,
        }
    }

    /// Human-readable label.
    pub open spec fn name(self) -> &'static str {
        match self {
            Voltage::Unattached => "Unattached",
            Voltage::_5v => "5V",
            Voltage::_9v => "9V",
            Voltage::_12v => "12V",
            Voltage::_15v => "15V",
            Voltage::_18v => "18V",
            Voltage::_20v => "20V",
            Voltage::Reserved => "Reserved",
        }
    }

    /// The voltage in millivolts, absent when no contract is in force.
    pub open spec fn spec_millivolts(self) -> Option<u32> {
        match self {
            Voltage::_5v => Some(5000),
            Voltage::_9v => Some(9000),
            Voltage::_12v => Some(12000),
            Voltage::_15v => Some(15000),
            Voltage::_18v => Some(18000),
            Voltage::_20v => Some(20000),
            _ => None,
        }
    }

    pub fn bits(&self) -> (r: u8)
        ensures
            r == self.spec_bits(),
    {
        match self {
            Voltage::Unattached => 0x00,
            Voltage::_5v => 0x10,
            Voltage::_9v => 0x20,
            Voltage::_12v => 0x30,
            Voltage::_15v => 0x40,
            Voltage::_18v => 0x50,
            Voltage::_20v => 0x60,
            Voltage::Reserved => 0x70,
        }
    }

    pub fn label(&self) -> (r: &'static str)
        ensures
            r == self.name(),
    {
        match self {
            Voltage::Unattached => "Unattached",
            Voltage::_5v => "5V",
            Voltage::_9v => "9V",
            Voltage::_12v => "12V",
            Voltage::_15v => "15V",
            Voltage::_18v => "18V",
            Voltage::_20v => "20V",
            Voltage::Reserved => "Reserved",
        }
    }

    pub fn millivolts(&self) -> (r: Option<u32>)
        ensures
            r == self.spec_millivolts(),
    {
        match self {
            Voltage::_5v => Some(5000),
            Voltage::_9v => Some(9000),
            Voltage::_12v => Some(12000),
            Voltage::_15v => Some(15000),
            Voltage::_18v => Some(18000),
            Voltage::_20v => Some(20000),
            _ => None,
        }
    }
}

impl From<u8> for Voltage {
    fn from(value: u8) -> (r: Voltage) {
        match value {
            0x00 => Voltage::Unattached,
            0x10 => Voltage::_5v,
            0x20 => Voltage::_9v,
            0x30 => Voltage::_12v,
            0x40 => Voltage::_15v,
            0x50 => Voltage::_18v,
            0x60 => Voltage::_20v,
            _ => Voltage::Reserved,
        }
    }
}

impl vstd::std_specs::convert::FromSpecImpl<u8> for Voltage {
    open spec fn obeys_from_spec() -> bool {
        true
    }

    open spec fn from_spec(value: u8) -> Voltage {
        Voltage::decode(value)
    }
}

impl From<Voltage> for &'static str {
    fn from(v: Voltage) -> (r: &'static str) {
        v.label()
    }
}

impl vstd::std_specs::convert::FromSpecImpl<Voltage> for &'static str {
    open spec fn obeys_from_spec() -> bool {
        true
    }

    open spec fn from_spec(v: Voltage) -> &'static str {
        v.name()
    }
}


/// Current step of the chip, as reported in a four-bit field.
///
/// The sixteen steps are not evenly spaced; every value of the field names
/// one of them.
#[derive(PartialEq, Eq, Structural, Clone, Copy, Debug)]
pub enum Current {
    _0_5a,
    _0_7a,
    _1_0a,
    _1_25a,
    _1_5a,
    _1_75a,
    _2_0a,
    _2_25a,
    _2_5a,
    _2_75a,
    _3_0a,
    _3_25a,
    _3_5a,
    _4_0a,
    _4_5a,
    _5_0a,
}

impl Current {
    /// Decoding of the low nibble of a byte; the high nibble is not read.
    pub open spec fn decode(value: u8) -> Current {
        let n = value & 0x0F;
        if n == 0x00 {
            Current::_0_5a
        } else if n == 0x01 {
            Current::_0_7a
        } else if n == 0x02 {
            Current::_1_0a
        } else if n == 0x03 {
            Current::_1_25a
        } else if n == 0x04 {
            Current::_1_5a
        } else if n == 0x05 {
            Current::_1_75a
        } else if n == 0x06 {
            Current::_2_0a
        } else if n == 0x07 {
            Current::_2_25a
        } else if n == 0x08 {
            Current::_2_5a
        } else if n == 0x09 {
            Current::_2_75a
        } else if n == 0x0A {
            Current::_3_0a
        } else if n == 0x0B {
            Current::_3_25a
        } else if n == 0x0C {
            Current::_3_5a
        } else if n == 0x0D {
            Current::_4_0a
        } else if n == 0x0E {
            Current::_4_5a
        } else {
            Current::_5_0a
        }
    }

    /// The four-bit field value that stands for this step.
    pub open spec fn spec_bits(self) -> u8 {
        match self {
            Current::_0_5a => 0x00,
            Current::_0_7a => 0x01,
            Current::_1_0a => 0x02,
            Current::_1_25a => 0x03,
            Current::_1_5a => 0x04,
            Current::_1_75a => 0x05,
            Current::_2_0a => 0x06,
            Current::_2_25a => 0x07,
            Current::_2_5a => 0x08,
            Current::_2_75a => 0x09,
            Current::_3_0a => 0x0A,
            Current::_3_25a => 0x0B,
            Current::_3_5a => 0x0C,
            Current::_4_0a => 0x0D,
            Current::_4_5a => 0x0E,
            Current::_5_0a => 0x0F,
        }
    }

    /// Human-readable label.
    pub open spec fn name(self) -> &'static str {
        match self {
            Current::_0_5a => "0.5A",
            Current::_0_7a => "0.7A",
            Current::_1_0a => "1.0A",
            Current::_1_25a => "1.25A",
            Current::_1_5a => "1.5A",
            Current::_1_75a => "1.75A",
            Current::_2_0a => "2.0A",
            Current::_2_25a => "2.25A",
            Current::_2_5a => "2.5A",
            Current::_2_75a => "2.75A",
            Current::_3_0a => "3.0A",
            Current::_3_25a => "3.25A",
            Current::_3_5a => "3.5A",
            Current::_4_0a => "4.0A",
            Current::_4_5a => "4.5A",
            Current::_5_0a => "5.0A",
        }
    }

    /// The current in milliamperes.
    pub open spec fn spec_milliamps(self) -> u32 {
        match self {
            Current::_0_5a => 500,
            Current::_0_7a => 700,
            Current::_1_0a => 1000,
            Current::_1_25a => 1250,
            Current::_1_5a => 1500,
            Current::_1_75a => 1750,
            Current::_2_0a => 2000,
            Current::_2_25a => 2250,
            Current::_2_5a => 2500,
            Current::_2_75a => 2750,
            Current::_3_0a => 3000,
            Current::_3_25a => 3250,
            Current::_3_5a => 3500,
            Current::_4_0a => 4000,
            Current::_4_5a => 4500,
            Current::_5_0a => 5000,
        }
    }

    pub fn bits(&self) -> (r: u8)
        ensures
            r == self.spec_bits(),
    {
        match self {
            Current::_0_5a => 0x00,
            Current::_0_7a => 0x01,
            Current::_1_0a => 0x02,
            Current::_1_25a => 0x03,
            Current::_1_5a => 0x04,
            Current::_1_75a => 0x05,
            Current::_2_0a => 0x06,
            Current::_2_25a => 0x07,
            Current::_2_5a => 0x08,
            Current::_2_75a => 0x09,
            Current::_3_0a => 0x0A,
            Current::_3_25a => 0x0B,
            Current::_3_5a => 0x0C,
            Current::_4_0a => 0x0D,
            Current::_4_5a => 0x0E,
            Current::_5_0a => 0x0F,
        }
    }

    pub fn label(&self) -> (r: &'static str)
        ensures
            r == self.name(),
    {
        match self {
            Current::_0_5a => "0.5A",
            Current::_0_7a => "0.7A",
            Current::_1_0a => "1.0A",
            Current::_1_25a => "1.25A",
            Current::_1_5a => "1.5A",
            Current::_1_75a => "1.75A",
            Current::_2_0a => "2.0A",
            Current::_2_25a => "2.25A",
            Current::_2_5a => "2.5A",
            Current::_2_75a => "2.75A",
            Current::_3_0a => "3.0A",
            Current::_3_25a => "3.25A",
            Current::_3_5a => "3.5A",
            Current::_4_0a => "4.0A",
            Current::_4_5a => "4.5A",
            Current::_5_0a => "5.0A",
        }
    }

    pub fn milliamps(&self) -> (r: u32)
        ensures
            r == self.spec_milliamps(),
    {
        match self {
            Current::_0_5a => 500,
            Current::_0_7a => 700,
            Current::_1_0a => 1000,
            Current::_1_25a => 1250,
            Current::_1_5a => 1500,
            Current::_1_75a => 1750,
            Current::_2_0a => 2000,
            Current::_2_25a => 2250,
            Current::_2_5a => 2500,
            Current::_2_75a => 2750,
            Current::_3_0a => 3000,
            Current::_3_25a => 3250,
            Current::_3_5a => 3500,
            Current::_4_0a => 4000,
            Current::_4_5a => 4500,
            Current::_5_0a => 5000,
        }
    }
}

impl From<u8> for Current {
    fn from(value: u8) -> (r: Current) {
        match value & 0x0F {
            0x00 => Current::_0_5a,
            0x01 => Current::_0_7a,
            0x02 => Current::_1_0a,
            0x03 => Current::_1_25a,
            0x04 => Current::_1_5a,
            0x05 => Current::_1_75a,
            0x06 => Current::_2_0a,
            0x07 => Current::_2_25a,
            0x08 => Current::_2_5a,
            0x09 => Current::_2_75a,
            0x0A => Current::_3_0a,
            0x0B => Current::_3_25a,
            0x0C => Current::_3_5a,
            0x0D => Current::_4_0a,
            0x0E => Current::_4_5a,
            _ => Current::_5_0a,
        }
    }
}

impl vstd::std_specs::convert::FromSpecImpl<u8> for Current {
    open spec fn obeys_from_spec() -> bool {
        true
    }

    open spec fn from_spec(value: u8) -> Current {
        Current::decode(value)
    }
}

impl From<Current> for &'static str {
    fn from(c: Current) -> (r: &'static str) {
        c.label()
    }
}

impl vstd::std_specs::convert::FromSpecImpl<Current> for &'static str {
    open spec fn obeys_from_spec() -> bool {
        true
    }

    open spec fn from_spec(c: Current) -> &'static str {
        c.name()
    }
}

/// Source profile selected for negotiation, held in the high nibble of the
/// `SrcPdo` register.
///
/// The encodings of 15 V, 18 V and 20 V differ from those of [`Voltage`].
#[derive(PartialEq, Eq, Structural, Clone, Copy, Debug)]
pub enum SrcPdo {
    NotSelected,
    _5v,
    _9v,
    _12v,
    _15v,
    _18v,
    _20v,
    /// Any value of the field that the chip leaves undefined.
    Reserved,
}

impl SrcPdo {
    /// Decoding of a profile byte whose low nibble has been masked off.
    pub open spec fn decode(value: u8) -> SrcPdo {
        if value == 0x00 {
            SrcPdo::NotSelected
        } else if value == 0x10 {
            SrcPdo::_5v
        } else if value == 0x20 {
            SrcPdo::_9v
        } else if value == 0x30 {
            SrcPdo::_12v
        } else if value == 0x80 {
            SrcPdo::_15v
        } else if value == 0x90 {
            SrcPdo::_18v
        } else if value == 0xA0 {
            SrcPdo::_20v
        } else {
            SrcPdo::Reserved
        }
    }

    /// The raw field value that stands for this profile.
    pub open spec fn spec_bits(self) -> u8 {
        match self {
            SrcPdo::NotSelected => 0x00,
            SrcPdo::_5v => 0x10,
            SrcPdo::_9v => 0x20,
            SrcPdo::_12v => 0x30,
            SrcPdo::_15v => 0x80,
            SrcPdo::_18v => 0x90,
            SrcPdo::_20v => 0xA0,
            SrcPdo::Reserved => 0xF0,
        }
    }

    /// Human-readable label.
    pub open spec fn name(self) -> &'static str {
        match self {
            SrcPdo::NotSelected => "NotSelected",
            SrcPdo::_5v => "5V",
            SrcPdo::_9v => "9V",
            SrcPdo::_12v => "12V",
            SrcPdo::_15v => "15V",
            SrcPdo::_18v => "18V",
            SrcPdo::_20v => "20V",
            SrcPdo::Reserved => "Reserved",
        }
    }

    /// The profile's voltage in millivolts, absent when none is selected.
    pub open spec fn spec_millivolts(self) -> Option<u32> {
        match self {
            SrcPdo::_5v => Some(5000),
            SrcPdo::_9v => Some(9000),
            SrcPdo::_12v => Some(12000),
            SrcPdo::_15v => Some(15000),
            SrcPdo::_18v => Some(18000),
            SrcPdo::_20v => Some(20000),
            _ => None,
        }
    }

    pub fn bits(&self) -> (r: u8)
        ensures
            r == self.spec_bits(),
    {
        match self {
            SrcPdo::NotSelected => 0x00,
            SrcPdo::_5v => 0x10,
            SrcPdo::_9v => 0x20,
            SrcPdo::_12v => 0x30,
            SrcPdo::_15v => 0x80,
            SrcPdo::_18v => 0x90,
            SrcPdo::_20v => 0xA0,
            SrcPdo::Reserved => 0xF0,
        }
    }

    pub fn label(&self) -> (r: &'static str)
        ensures
            r == self.name(),
    {
        match self {
            SrcPdo::NotSelected => "NotSelected",
            SrcPdo::_5v => "5V",
            SrcPdo::_9v => "9V",
            SrcPdo::_12v => "12V",
            SrcPdo::_15v => "15V",
            SrcPdo::_18v => "18V",
            SrcPdo::_20v => "20V",
            SrcPdo::Reserved => "Reserved",
        }
    }
}

impl From<u8> for SrcPdo {
    fn from(value: u8) -> (r: SrcPdo) {
        match value {
            0x00 => SrcPdo::NotSelected,
            0x10 => SrcPdo::_5v,
            0x20 => SrcPdo::_9v,
            0x30 => SrcPdo::_12v,
            0x80 => SrcPdo::_15v,
            0x90 => SrcPdo::_18v,
            0xA0 => SrcPdo::_20v,
            _ => SrcPdo::Reserved,
        }
    }
}

impl vstd::std_specs::convert::FromSpecImpl<u8> for SrcPdo {
    open spec fn obeys_from_spec() -> bool {
        true
    }

    open spec fn from_spec(value: u8) -> SrcPdo {
        SrcPdo::decode(value)
    }
}

impl From<SrcPdo> for &'static str {
    fn from(p: SrcPdo) -> (r: &'static str) {
        p.label()
    }
}

impl vstd::std_specs::convert::FromSpecImpl<SrcPdo> for &'static str {
    open spec fn obeys_from_spec() -> bool {
        true
    }

    open spec fn from_spec(p: SrcPdo) -> &'static str {
        p.name()
    }
}

/// One-shot command written to the `GoCommand` register.
pub enum Command {
    Request,
    GetSrcCap,
    HardReset,
}

impl Command {
    /// The byte that triggers this command.
    pub open spec fn spec_bits(self) -> u8 {
        match self {
            Command::Request => 0x01,
            Command::GetSrcCap => 0x04,
            Command::HardReset => 0x10,
        }
    }

    pub fn bits(&self) -> (r: u8)
        ensures
            r == self.spec_bits(),
    {
        match self {
            Command::Request => 0x01,
            Command::GetSrcCap => 0x04,
            Command::HardReset => 0x10,
        }
    }
}

/// Registers of the chip.
pub enum Register {
    PdStatus0,
    PdStatus1,
    SrcPdo5V,
    SrcPdo9V,
    SrcPdo12V,
    SrcPdo15V,
    SrcPdo18V,
    SrcPdo20V,
    SrcPdo,
    GoCommand,
}

impl Register {
    /// The register's address on the chip.
    pub open spec fn spec_addr(self) -> u8 {
        match self {
            Register::PdStatus0 => 0x00,
            Register::PdStatus1 => 0x01,
            Register::SrcPdo5V => 0x02,
            Register::SrcPdo9V => 0x03,
            Register::SrcPdo12V => 0x04,
            Register::SrcPdo15V => 0x05,
            Register::SrcPdo18V => 0x06,
            Register::SrcPdo20V => 0x07,
            Register::SrcPdo => 0x08,
            Register::GoCommand => 0x09,
        }
    }

    pub fn addr(&self) -> (r: u8)
        ensures
            r == self.spec_addr(),
    {
        match self {
            Register::PdStatus0 => 0x00,
            Register::PdStatus1 => 0x01,
            Register::SrcPdo5V => 0x02,
            Register::SrcPdo9V => 0x03,
            Register::SrcPdo12V => 0x04,
            Register::SrcPdo15V => 0x05,
            Register::SrcPdo18V => 0x06,
            Register::SrcPdo20V => 0x07,
            Register::SrcPdo => 0x08,
            Register::GoCommand => 0x09,
        }
    }
}

} // verus!
