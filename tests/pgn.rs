use j1939::PGN;

#[test]
fn pgn_to_le_bytes_request() {
    assert_eq!(PGN::Request.to_le_bytes(), [0x00, 0xEA, 0x00]);
    assert_eq!(PGN::Other(126720).to_le_bytes(), [0x00, 0xEF, 0x01]);
}

#[test]
fn pgn_from_le_bytes_masks_high_bits() {
    assert_eq!(PGN::from_le_bytes([0x00, 0xEA, 0xFC]), PGN::Request);
    assert_eq!(PGN::from_le_bytes([0x00, 0xEF, 0xFF]), PGN::Other(0x3EF00));
}

#[test]
fn pgn_round_trip_named() {
    let named = [
        PGN::TorqueSpeedControl1,
        PGN::ProprietarilyConfigurableMessage16,
        PGN::Transfer,
        PGN::Request,
        PGN::Request2,
        PGN::TransportProtocolDataTransfer,
        PGN::TransportProtocolConnectionManagement,
        PGN::AddressClaimed,
        PGN::ElectronicEngineController1,
        PGN::CommandedAddress,
        PGN::VehiclePosition,
        PGN::AcknowledgmentMessage,
        PGN::ComponentIdentification,
        PGN::WaterInFuelIndicator,
    ];
    for pgn in named {
        assert_eq!(PGN::from_le_bytes(pgn.to_le_bytes()), pgn);
    }
}

#[test]
fn pgn_round_trip_other_and_proprietary_b() {
    for value in [1u32, 126720, 0x3FFFF, 0x1FEF1] {
        let pgn = PGN::Other(value);
        assert_eq!(PGN::from_le_bytes(pgn.to_le_bytes()), pgn);
    }
    let pgn = PGN::ProprietaryB(65300);
    assert_eq!(PGN::from_le_bytes(pgn.to_le_bytes()), pgn);
}

#[test]
fn pgn_number_conversions() {
    assert_eq!(u32::from(PGN::Request), 59904);
    assert_eq!(u32::from(PGN::Other(0xFFFF_FFFF)), 0x3FFFF);
    assert_eq!(PGN::from(65300u32), PGN::ProprietaryB(65300));
    assert_eq!(PGN::from(0x4_EA00u32), PGN::Request);
    assert_eq!(PGN::from(61444u32), PGN::ElectronicEngineController1);
}
