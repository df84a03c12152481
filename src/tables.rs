//! Facts about the chip's encoding tables, proved from the decoders.
use vstd::prelude::*;

use crate::registers::{Current, SrcPdo, Voltage};

verus! {

/// Labels of the sixteen current steps, by field value.
pub open spec fn current_labels() -> Seq<Seq<char>> {
    seq![
        "0.5A"@, "0.7A"@, "1.0A"@, "1.25A"@, "1.5A"@, "1.75A"@, "2.0A"@, "2.25A"@,
        "2.5A"@, "2.75A"@, "3.0A"@, "3.25A"@, "3.5A"@, "4.0A"@, "4.5A"@, "5.0A"@,
    ]
}

/// Milliamperes of the sixteen current steps, by field value.
pub open spec fn current_milliamps() -> Seq<u32> {
    seq![
        500u32, 700, 1000, 1250, 1500, 1750, 2000, 2250,
        2500, 2750, 3000, 3250, 3500, 4000, 4500, 5000,
    ]
}

/// Every value of the four-bit current field decodes to a step whose label
/// and milliamperes are the table's entries at that value, and which encodes
/// back to the same value.
pub proof fn current_field_round_trip(n: u8)
    requires
        n < 16,
    ensures
        Current::decode(n).spec_bits() == n,
        Current::decode(n).name()@ == current_labels()[n as int],
        Current::decode(n).spec_milliamps() == current_milliamps()[n as int],
{
    assert(n & 0x0F == n) by (bit_vector)
        requires
            n < 16,
    ;
}

/// Decoding the voltage field is total: each attached voltage has its own
/// field value and decodes from it, and every other value of the high nibble
/// decodes to `Reserved`.
pub proof fn voltage_field_total(raw: u8)
    ensures
        (raw & 0xF0) < 0x70 ==> Voltage::decode(raw & 0xF0).spec_bits() == raw & 0xF0,
        Voltage::decode(raw & 0xF0) == Voltage::Reserved <==> (raw & 0xF0) >= 0x70,
{
    let h = raw & 0xF0;
    assert(h % 16 == 0) by (bit_vector)
        requires
            h == raw & 0xF0,
    ;
}

/// The profile field shares the status voltage field's encoding up to 12 V
/// and departs from it above: 15, 18 and 20 V are 0x80, 0x90 and 0xA0 in a
/// profile byte, where a status byte has 0x40, 0x50 and 0x60, and those three
/// values are `Reserved` in a profile byte.
pub proof fn profile_field_differs_from_status(raw: u8)
    ensures
        ({
            let h = raw & 0xF0;
            &&& h <= 0x30 ==> SrcPdo::decode(h).spec_millivolts() == Voltage::decode(
                h,
            ).spec_millivolts()
            &&& (SrcPdo::decode(h) == SrcPdo::_15v <==> h == 0x80)
            &&& (SrcPdo::decode(h) == SrcPdo::_18v <==> h == 0x90)
            &&& (SrcPdo::decode(h) == SrcPdo::_20v <==> h == 0xA0)
            &&& (Voltage::decode(h) == Voltage::_15v <==> h == 0x40)
            &&& (Voltage::decode(h) == Voltage::_18v <==> h == 0x50)
            &&& (Voltage::decode(h) == Voltage::_20v <==> h == 0x60)
            &&& (0x40 <= h && h <= 0x60) ==> SrcPdo::decode(h) == SrcPdo::Reserved
        }),
{
}

} // verus!
