use j1939::SourceAddress;

#[test]
fn source_address_named_bytes() {
    assert_eq!(SourceAddress::from(0x00u8), SourceAddress::Engine1);
    assert_eq!(SourceAddress::from(0x03u8), SourceAddress::Transmission1);
    assert_eq!(SourceAddress::from(0x61u8), SourceAddress::FuelCellSystem);
    assert_eq!(SourceAddress::from(0xF9u8), SourceAddress::OffBoardDiagnosticServiceTool1);
    assert_eq!(SourceAddress::from(0xFEu8), SourceAddress::Null);
    assert_eq!(SourceAddress::from(0xFFu8), SourceAddress::Global);
    assert_eq!(u8::from(SourceAddress::Global), 0xFF);
    assert_eq!(u8::from(SourceAddress::Engine2), 0x01);
}

#[test]
fn source_address_reserved_and_dynamic_ranges() {
    assert_eq!(SourceAddress::from(0x62u8), SourceAddress::SAEReserved(0x62));
    assert_eq!(SourceAddress::from(0x7Fu8), SourceAddress::SAEReserved(0x7F));
    assert_eq!(SourceAddress::from(0x80u8), SourceAddress::Dynamic(0x80));
    assert_eq!(SourceAddress::from(0xF7u8), SourceAddress::Dynamic(0xF7));
    assert_eq!(u8::from(SourceAddress::Dynamic(0x90)), 0x90);
}

#[test]
fn source_address_every_byte_round_trips() {
    for value in 0..=255u8 {
        assert_eq!(u8::from(SourceAddress::from(value)), value);
    }
}
