use j1939::{FrameBuilder, Id, IdBuilder, PDUFormat, PDU_MAX_LENGTH, PDU_NOT_AVAILABLE, PGN};

#[test]
fn id_decode_1() {
    let id = Id::new(0x18EAFF00);

    assert_eq!(id.as_raw(), 0x18EAFF00);
    assert_eq!(id.priority(), 6);
    assert_eq!(id.data_page(), 0);
    assert_eq!(id.pgn_raw(), 59904);
    assert_eq!(id.pgn(), PGN::Request);
    assert_eq!(id.pdu_format(), PDUFormat::PDU1(234));
    assert!(id.is_broadcast());
    assert_eq!(id.pdu_specific(), 255);
    assert_eq!(id.destination_address(), Some(255));
    assert_eq!(id.group_extension(), None);
    assert_eq!(id.source_address(), 0);
}

#[test]
fn id_decode_2() {
    let id = Id::new(0x18EA687A);

    assert_eq!(id.as_raw(), 0x18EA687A);
    assert_eq!(id.priority(), 6);
    assert_eq!(id.data_page(), 0);
    assert_eq!(id.pgn_raw(), 59904);
    assert_eq!(id.pgn(), PGN::Request);
    assert_eq!(id.pdu_format(), PDUFormat::PDU1(234));
    assert!(!id.is_broadcast());
    assert_eq!(id.pdu_specific(), 104);
    assert_eq!(id.destination_address(), Some(0x68));
    assert_eq!(id.group_extension(), None);
    assert_eq!(id.source_address(), 0x7A);
}

#[test]
fn id_decode_3() {
    let id = Id::new(0xCFE6CEE);

    assert_eq!(id.as_raw(), 0xCFE6CEE);
    assert_eq!(id.priority(), 3);
    assert_eq!(id.data_page(), 0);
    assert_eq!(id.pgn_raw(), 65132);
    assert_eq!(id.pdu_format(), PDUFormat::PDU2(254));
    assert!(id.is_broadcast());
    assert_eq!(id.pdu_specific(), 108);
    assert_eq!(id.destination_address(), None);
    assert_eq!(id.group_extension(), Some(108));
    assert_eq!(id.source_address(), 238);
}

#[test]
fn id_decode_4() {
    let id = Id::new(0xDFE6CEE);

    assert_eq!(id.as_raw(), 0xDFE6CEE);
    assert_eq!(id.priority(), 3);
    assert_eq!(id.data_page(), 1);
    assert_eq!(id.pgn_raw(), 65132);
    assert_eq!(id.pdu_format(), PDUFormat::PDU2(254));
    assert!(id.is_broadcast());
    assert_eq!(id.pdu_specific(), 108);
    assert_eq!(id.destination_address(), None);
    assert_eq!(id.group_extension(), Some(108));
    assert_eq!(id.source_address(), 238);
}

#[test]
fn id_build_1() {
    let id = IdBuilder::from_pgn(PGN::Transfer)
        .priority(3)
        .sa(139)
        .build();

    assert_eq!(id, Id::new(0xCCA008B));
}

#[test]
fn id_build_2() {
    let id = IdBuilder::from_pgn(PGN::Transfer)
        .priority(3)
        .da(0x34)
        .sa(139)
        .build();

    assert_eq!(id, Id::new(0xCCA348B));
}

#[test]
fn id_build_3() {
    let id = IdBuilder::from_pgn(PGN::ElectronicEngineController1)
        .priority(3)
        .da(0)
        .sa(12)
        .build();

    assert_eq!(id, Id::new(0xCF0040C));
    assert_eq!(id.pgn_raw(), 61444);
}

#[test]
fn id_build_4() {
    let id = IdBuilder::from_pgn(PGN::VehicleElectricalPower1)
        .sa(234)
        .build();

    assert_eq!(id, Id::new(0x18FEF7EA));
}

#[test]
fn id_build_5() {
    let id = IdBuilder::from_pgn(PGN::Other(126720)).sa(234).build();

    assert_eq!(id, Id::new(0x19EF00EA));
}

#[test]
fn frame_build_1() {
    let frame = FrameBuilder::new(IdBuilder::from_pgn(PGN::Request).da(0x20).sa(0x10).build())
        .copy_from_slice(&[0x1, 0x2, 0x3])
        .build();

    assert_eq!(frame.id(), &Id::new(0x18EA2010));
    assert_eq!(frame.pdu(), &[0x1, 0x2, 0x3]);
    assert_eq!(frame.len(), 3);
    assert!(!frame.is_empty());
}

#[test]
fn frame_build_2() {
    let frame = FrameBuilder::new(
        IdBuilder::from_pgn(PGN::AddressClaimed)
            .priority(3)
            .sa(0x10)
            .build(),
    )
    .copy_from_slice(&[PDU_NOT_AVAILABLE; PDU_MAX_LENGTH])
    .build();

    assert_eq!(frame.id(), &Id::new(0xCEE0010));
    assert_eq!(frame.pdu(), &[PDU_NOT_AVAILABLE; PDU_MAX_LENGTH]);
    assert_eq!(frame.len(), PDU_MAX_LENGTH);
    assert!(!frame.is_empty());
}

#[test]
fn frame_build_3() {
    let frame = FrameBuilder::new(IdBuilder::from_pgn(PGN::Transfer).build()).build();

    assert_eq!(frame.id(), &Id::new(0x18CA0000));
    assert_eq!(frame.pdu(), &[]);
    assert_eq!(frame.len(), 0);
    assert!(frame.is_empty());
}

#[test]
fn frame_build_4() {
    let mut frame_builder =
        FrameBuilder::default().id(IdBuilder::from_pgn(PGN::Transfer).build());

    frame_builder
        .as_mut()
        .copy_from_slice(&[0x8, 0x7, 0x6, 0x5, 0x4, 0x3, 0x2, 0x1]);

    frame_builder = frame_builder.set_len(8);

    let frame = frame_builder.build();

    assert_eq!(frame.id(), &Id::new(0x18CA0000));
    assert_eq!(frame.pdu(), &[0x8, 0x7, 0x6, 0x5, 0x4, 0x3, 0x2, 0x1]);
    assert_eq!(frame.len(), PDU_MAX_LENGTH);
    assert!(!frame.is_empty());
}

#[test]
fn frame_build_5() {
    let frame = FrameBuilder::default()
        .id(IdBuilder::from_pgn(PGN::ElectronicEngineController2).build())
        .set_len(8)
        .build();

    assert_eq!(frame.pdu(), &[PDU_NOT_AVAILABLE; PDU_MAX_LENGTH]);
    assert_eq!(frame.len(), PDU_MAX_LENGTH);
    assert!(!frame.is_empty());
}

#[test]
fn id_new_masks_to_29_bits() {
    assert_eq!(Id::new(0xFFFF_FFFF).as_raw(), 0x1FFF_FFFF);
    assert_eq!(Id::new(0xE000_0000).as_raw(), 0);
    assert_eq!(Id::new(0x18EAFF00).as_raw(), 0x18EAFF00);
}

#[test]
fn id_build_round_trip_pdu1() {
    let id = IdBuilder::from_pgn(PGN::Request)
        .priority(3)
        .sa(0x21)
        .da(0x42)
        .build();

    assert_eq!(id.priority(), 3);
    assert_eq!(id.pgn_raw(), 59904);
    assert_eq!(id.source_address(), 0x21);
    assert_eq!(id.destination_address(), Some(0x42));
    assert_eq!(id.pdu_format(), PDUFormat::PDU1(0xEA));
}

#[test]
fn id_build_priority_is_clamped() {
    let id = IdBuilder::from_pgn(PGN::Request).priority(200).build();
    assert_eq!(id.priority(), 7);
    assert_eq!(id.as_raw(), 0x1CEA0000);
}

#[test]
fn id_build_pdu2_keeps_group_extension() {
    let id = IdBuilder::from_pgn(PGN::ElectronicEngineController1)
        .da(0x12)
        .sa(0x01)
        .build();

    assert_eq!(id.as_raw(), 0x18F00401);
    assert_eq!(id.group_extension(), Some(0x04));
    assert_eq!(id.destination_address(), None);
    assert!(id.is_broadcast());
}

#[test]
fn frame_from_raw_masks_identifier() {
    let frame = j1939::Frame::from_raw(0xFFEAFF00, [1, 2, 3, 4, 5, 6, 7, 8]);
    assert_eq!(frame.id().as_raw(), 0x1FEAFF00);
    assert_eq!(frame.pdu(), &[1, 2, 3, 4, 5, 6, 7, 8]);
    assert_eq!(frame.len(), 8);
}

#[test]
fn frame_builder_length_is_clamped() {
    let frame = FrameBuilder::new(Id::new(0)).set_len(20).build();
    assert_eq!(frame.len(), PDU_MAX_LENGTH);
    assert_eq!(frame.pdu(), &[PDU_NOT_AVAILABLE; PDU_MAX_LENGTH]);
}
