use husb238::codec::{
    actual_voltage_and_current, decode_detection, decode_pd_status0, decode_src_pdo,
    go_command_frame, read_frame, src_pdo_frame,
};
use husb238::{Command, Current, Register, SrcPdo, Voltage};

const CURRENT_TABLE: [(Current, &str, u32); 16] = [
    (Current::_0_5a, "0.5A", 500),
    (Current::_0_7a, "0.7A", 700),
    (Current::_1_0a, "1.0A", 1000),
    (Current::_1_25a, "1.25A", 1250),
    (Current::_1_5a, "1.5A", 1500),
    (Current::_1_75a, "1.75A", 1750),
    (Current::_2_0a, "2.0A", 2000),
    (Current::_2_25a, "2.25A", 2250),
    (Current::_2_5a, "2.5A", 2500),
    (Current::_2_75a, "2.75A", 2750),
    (Current::_3_0a, "3.0A", 3000),
    (Current::_3_25a, "3.25A", 3250),
    (Current::_3_5a, "3.5A", 3500),
    (Current::_4_0a, "4.0A", 4000),
    (Current::_4_5a, "4.5A", 4500),
    (Current::_5_0a, "5.0A", 5000),
];

#[test]
fn current_nibbles_round_trip_to_table() {
    for n in 0u8..16 {
        let (step, label, milliamps) = CURRENT_TABLE[n as usize];
        let c = Current::from(n);
        assert_eq!(c, step);
        assert_eq!(c.bits(), n);
        let text: &str = c.into();
        assert_eq!(text, label);
        assert_eq!(c.milliamps(), milliamps);
    }
}

#[test]
fn current_reads_only_low_nibble() {
    assert_eq!(Current::from(0x36), Current::_2_0a);
}

#[test]
fn voltage_high_nibbles_decode_totally() {
    let expected = [
        Voltage::Unattached,
        Voltage::_5v,
        Voltage::_9v,
        Voltage::_12v,
        Voltage::_15v,
        Voltage::_18v,
        Voltage::_20v,
    ];
    for n in 0u8..16 {
        let v = Voltage::from(n << 4);
        if (n as usize) < expected.len() {
            assert_eq!(v, expected[n as usize]);
            assert_eq!(v.bits(), n << 4);
        } else {
            assert_eq!(v, Voltage::Reserved);
        }
    }
    assert_eq!(Voltage::from(0x51), Voltage::Reserved);
}

#[test]
fn profile_table_differs_from_voltage_table() {
    assert_eq!(SrcPdo::from(0x80), SrcPdo::_15v);
    assert_eq!(SrcPdo::from(0x90), SrcPdo::_18v);
    assert_eq!(SrcPdo::from(0xA0), SrcPdo::_20v);
    assert_eq!(SrcPdo::from(0x40), SrcPdo::Reserved);
    assert_eq!(SrcPdo::from(0x50), SrcPdo::Reserved);
    assert_eq!(SrcPdo::from(0x60), SrcPdo::Reserved);
    assert_eq!(Voltage::from(0x40), Voltage::_15v);
    assert_eq!(Voltage::from(0x80), Voltage::Reserved);
    assert_eq!(SrcPdo::_15v.bits(), 0x80);
    assert_eq!(SrcPdo::Reserved.bits(), 0xF0);
    assert_eq!(SrcPdo::from(0x00), SrcPdo::NotSelected);
}

#[test]
fn labels_of_voltages_and_profiles() {
    let a: &str = Voltage::Unattached.into();
    assert_eq!(a, "Unattached");
    let b: &str = SrcPdo::NotSelected.into();
    assert_eq!(b, "NotSelected");
    assert_eq!(SrcPdo::_20v.label(), "20V");
    assert_eq!(Voltage::Reserved.label(), "Reserved");
}

#[test]
fn millivolts_of_voltages() {
    assert_eq!(Voltage::_5v.millivolts(), Some(5000));
    assert_eq!(Voltage::_20v.millivolts(), Some(20000));
    assert_eq!(Voltage::Unattached.millivolts(), None);
    assert_eq!(Voltage::Reserved.millivolts(), None);
}

#[test]
fn status_byte_splits_into_nibbles() {
    assert_eq!(decode_pd_status0(0x58), (Voltage::_18v, Current::_2_5a));
    assert_eq!(actual_voltage_and_current((Voltage::_18v, Current::_2_5a)), (Some(18000), 2500));
    assert_eq!(decode_src_pdo(0x20), SrcPdo::_9v);
}

#[test]
fn detection_bytes() {
    assert_eq!(decode_detection(0x00), None);
    assert_eq!(decode_detection(0x7F), None);
    assert_eq!(decode_detection(0x83), Some(Current::_1_25a));
}

#[test]
fn frames_of_writes_and_reads() {
    assert_eq!(src_pdo_frame(SrcPdo::_12v), [0x08, 0x30]);
    assert_eq!(go_command_frame(&Command::Request), [0x09, 0x01]);
    assert_eq!(go_command_frame(&Command::GetSrcCap), [0x09, 0x04]);
    assert_eq!(go_command_frame(&Command::HardReset), [0x09, 0x10]);
    assert_eq!(read_frame(&Register::PdStatus0), [0x00]);
    assert_eq!(read_frame(&Register::SrcPdo20V), [0x07]);
    assert_eq!(Register::PdStatus1.addr(), 0x01);
}
