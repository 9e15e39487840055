use j1939::protocol::{acknowledgement, address_claimed, commanded_address, request, request_from_pdu};
use j1939::{DecodeError, NameBuilder, PGN};

#[test]
fn protocol_request_frame() {
    let frame = request(0x20, 0x10, PGN::AddressClaimed);
    assert_eq!(frame.id().as_raw(), 0x18EA2010);
    assert_eq!(frame.pdu(), &[0x00, 0xEE, 0x00]);
}

#[test]
fn protocol_request_from_pdu() {
    assert_eq!(request_from_pdu(&[0x00, 0xEE, 0x00]), Ok(PGN::AddressClaimed));
    assert_eq!(request_from_pdu(&[0x00, 0xEE, 0x00, 0xFF]), Ok(PGN::AddressClaimed));
    assert_eq!(request_from_pdu(&[0x00, 0xEE]), Err(DecodeError::MalformedInput));
}

#[test]
fn protocol_acknowledgement_frame() {
    let frame = acknowledgement(0x10, PGN::Request);
    assert_eq!(frame.id().as_raw(), 0x18E8FF10);
    assert_eq!(frame.pdu(), &[0x01, 0xFF, 0xFF, 0xFF, 0xFF, 0x00, 0xEA, 0x00]);
}

#[test]
fn protocol_address_claimed_frame() {
    let name = NameBuilder::default()
        .identity_number(0xB0309)
        .manufacturer_code(0x122)
        .function_instance(2)
        .ecu_instance(1)
        .function(5)
        .vehicle_system(6)
        .vehicle_system_instance(5)
        .arbitrary_address(true)
        .build();
    let frame = address_claimed(0x10, &name);
    assert_eq!(frame.id().as_raw(), 0x18EEFF10);
    assert_eq!(frame.pdu(), &[0x09, 0x03, 0x4B, 0x24, 0x11, 0x05, 0x0C, 0x85]);
}

#[test]
fn protocol_commanded_address_frames() {
    let name = NameBuilder::default()
        .identity_number(0xB0309)
        .manufacturer_code(0x122)
        .function_instance(2)
        .ecu_instance(1)
        .function(5)
        .vehicle_system(6)
        .vehicle_system_instance(5)
        .arbitrary_address(true)
        .build();
    let frames = commanded_address(0x10, &name, 0x30);
    assert_eq!(frames[0].id().as_raw(), 0x1CECFF10);
    assert_eq!(frames[0].pdu(), &[0x20, 0x09, 0x00, 0x02, 0xFF, 0xD8, 0xFE, 0x00]);
    assert_eq!(frames[1].id().as_raw(), 0x1CEBFF10);
    assert_eq!(frames[1].pdu(), &[0x01, 0x09, 0x03, 0x4B, 0x24, 0x11, 0x05, 0x0C]);
    assert_eq!(frames[2].id().as_raw(), 0x1CEBFF10);
    assert_eq!(frames[2].pdu(), &[0x02, 0x85, 0x30, 0xFF, 0xFF, 0xFF, 0xFF, 0xFF]);
}
