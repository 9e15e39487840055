use j1939::transport::{BroadcastTransport, TransportError};
use j1939::{FrameBuilder, Id, PGN};

#[test]
fn test_broadcast_transport() {
    let data = [0x01, 0x02, 0x03, 0x04, 0x05, 0x06, 0x07, 0x08, 0x09];

    let mut transport = BroadcastTransport::new(0x01, PGN::AddressClaimed).with_data(&data);

    let frame = transport.next_frame().unwrap();
    assert_eq!(frame.id().as_raw(), 0x1CECFF01);
    assert_eq!(frame.len(), 8);
    assert_eq!(
        frame.as_ref(),
        &[0x20, 0x09, 0x00, 0x02, 0xFF, 0x00, 0xEE, 0x00]
    );

    let frame = transport.next_frame().unwrap();
    assert_eq!(frame.id().as_raw(), 0x1CEBFF01);
    assert_eq!(frame.len(), 8);
    assert_eq!(
        frame.as_ref(),
        &[0x01, 0x01, 0x02, 0x03, 0x04, 0x05, 0x06, 0x07]
    );

    let frame = transport.next_frame().unwrap();
    assert_eq!(frame.id().as_raw(), 0x1CEBFF01);
    assert_eq!(frame.len(), 8);
    assert_eq!(
        frame.as_ref(),
        &[0x02, 0x08, 0x09, 0xFF, 0xFF, 0xFF, 0xFF, 0xFF]
    );
}

#[test]
fn test_broadcast_transport2() {
    let frame1 = [0x20, 0x09, 0x00, 0x02, 0xFF, 0x00, 0xEE, 0x00];
    let frame2 = [0x01, 0x01, 0x02, 0x03, 0x04, 0x05, 0x06, 0x07];
    let frame3 = [0x02, 0x08, 0x09, 0xFF, 0xFF, 0xFF, 0xFF, 0xFF];

    let mut transport = BroadcastTransport::new(0x01, PGN::AddressClaimed);

    assert_eq!(
        transport.from_frame(
            &FrameBuilder::new(Id::new(0x1CECFF01))
                .copy_from_slice(&frame1)
                .build(),
        ),
        Ok(())
    );
    assert_eq!(transport.len(), 0);
    assert_eq!(transport.packet_count(), 2);

    assert_eq!(
        transport.from_frame(
            &FrameBuilder::new(Id::new(0x1CEBFF01))
                .copy_from_slice(&frame2)
                .build(),
        ),
        Ok(())
    );
    assert_eq!(
        transport.from_frame(
            &FrameBuilder::new(Id::new(0x1CEBFF01))
                .copy_from_slice(&frame3)
                .build(),
        ),
        Ok(())
    );
    assert_eq!(transport.len(), 9);
    assert_eq!(
        transport.data(),
        &[0x01, 0x02, 0x03, 0x04, 0x05, 0x06, 0x07, 0x08, 0x09]
    );
}

fn frame_of(id: u32, pdu: &[u8]) -> j1939::Frame {
    FrameBuilder::new(Id::new(id)).copy_from_slice(pdu).build()
}

#[test]
fn transport_round_trip_nine_bytes() {
    let data = [1, 2, 3, 4, 5, 6, 7, 8, 9];
    let mut sender = BroadcastTransport::new(0x01, PGN::AddressClaimed).with_data(&data);
    assert_eq!(sender.packet_count(), 2);
    assert_eq!(sender.len(), 9);

    let bam = sender.next_frame().unwrap();
    assert_eq!(bam.pdu(), &[0x20, 9, 0, 2, 0xFF, 0x00, 0xEE, 0x00]);
    let first = sender.next_frame().unwrap();
    assert_eq!(first.pdu(), &[1, 1, 2, 3, 4, 5, 6, 7]);
    let second = sender.next_frame().unwrap();
    assert_eq!(second.pdu(), &[2, 8, 9, 0xFF, 0xFF, 0xFF, 0xFF, 0xFF]);

    let mut receiver = BroadcastTransport::new(0x01, PGN::Other(0));
    assert_eq!(receiver.from_frame(&bam), Ok(()));
    assert_eq!(receiver.from_frame(&first), Ok(()));
    assert_eq!(receiver.from_frame(&second), Ok(()));
    assert_eq!(receiver.data(), &[1, 2, 3, 4, 5, 6, 7, 8, 9]);
    assert_eq!(receiver.len(), 9);
    assert_eq!(receiver.packet_count(), 2);
}

#[test]
fn transport_next_frame_after_last_packet_fails() {
    let mut sender = BroadcastTransport::new(0x01, PGN::AddressClaimed).with_data(&[1, 2, 3]);
    assert!(sender.next_frame().is_ok());
    assert!(sender.next_frame().is_ok());
    assert_eq!(sender.next_frame().unwrap_err(), TransportError::Completed);
    assert_eq!(sender.next_frame().unwrap_err(), TransportError::Completed);
}

#[test]
fn transport_data_transfer_without_session() {
    let mut receiver = BroadcastTransport::new(0x01, PGN::AddressClaimed);
    let frame = frame_of(0x1CEBFF01, &[0x01, 0x01, 0x02, 0x03, 0x04, 0x05, 0x06, 0x07]);
    assert_eq!(receiver.from_frame(&frame), Err(TransportError::ProtocolViolation));
    assert!(receiver.is_empty());
}

#[test]
fn transport_rejects_other_control_codes() {
    let mut receiver = BroadcastTransport::new(0x01, PGN::AddressClaimed);
    let rts = frame_of(0x1CEC2001, &[0x10, 0x09, 0x00, 0x02, 0xFF, 0x00, 0xEE, 0x00]);
    assert_eq!(receiver.from_frame(&rts), Err(TransportError::ProtocolViolation));
}

#[test]
fn transport_rejects_malformed_frames() {
    let mut receiver = BroadcastTransport::new(0x01, PGN::AddressClaimed);
    let short = frame_of(0x1CECFF01, &[0x20, 0x09, 0x00]);
    assert_eq!(receiver.from_frame(&short), Err(TransportError::MalformedInput));
    let too_long = frame_of(0x1CECFF01, &[0x20, 0xFA, 0x06, 0xFF, 0xFF, 0x00, 0xEE, 0x00]);
    assert_eq!(receiver.from_frame(&too_long), Err(TransportError::MalformedInput));
    let bam = frame_of(0x1CECFF01, &[0x20, 0x09, 0x00, 0x02, 0xFF, 0x00, 0xEE, 0x00]);
    assert_eq!(receiver.from_frame(&bam), Ok(()));
    let sequence_zero = frame_of(0x1CEBFF01, &[0x00, 0x01, 0x02]);
    assert_eq!(receiver.from_frame(&sequence_zero), Err(TransportError::MalformedInput));
    assert_eq!(receiver.len(), 0);
}

#[test]
fn transport_ignores_other_parameter_groups() {
    let mut receiver = BroadcastTransport::new(0x01, PGN::AddressClaimed);
    let frame = frame_of(0x18FEF100, &[1, 2, 3, 4, 5, 6, 7, 8]);
    assert_eq!(receiver.from_frame(&frame), Ok(()));
    assert_eq!(receiver.len(), 0);
}

#[test]
fn transport_length_is_bounded_by_declared_length() {
    let mut receiver = BroadcastTransport::new(0x01, PGN::AddressClaimed);
    let bam = frame_of(0x1CECFF01, &[0x20, 0x0A, 0x00, 0x02, 0xFF, 0x00, 0xEE, 0x00]);
    assert_eq!(receiver.from_frame(&bam), Ok(()));
    let second = frame_of(0x1CEBFF01, &[0x02, 8, 9, 10, 0xFF, 0xFF, 0xFF, 0xFF]);
    assert_eq!(receiver.from_frame(&second), Ok(()));
    assert_eq!(receiver.len(), 10);
    let first = frame_of(0x1CEBFF01, &[0x01, 1, 2, 3, 4, 5, 6, 7]);
    assert_eq!(receiver.from_frame(&first), Ok(()));
    assert_eq!(receiver.len(), 7);
    assert_eq!(receiver.data(), &[1, 2, 3, 4, 5, 6, 7]);
}

#[test]
fn transport_largest_payload() {
    let data = [0x5A; 1785];
    let mut sender = BroadcastTransport::new(0x22, PGN::Other(0xFE00)).with_data(&data);
    assert_eq!(sender.packet_count(), 255);
    let bam = sender.next_frame().unwrap();
    assert_eq!(bam.pdu(), &[0x20, 0xF9, 0x06, 0xFF, 0xFF, 0x00, 0xFE, 0x00]);
    let mut last = None;
    for _ in 0..255 {
        last = Some(sender.next_frame().unwrap());
    }
    assert_eq!(last.unwrap().pdu(), &[0xFF, 0x5A, 0x5A, 0x5A, 0x5A, 0x5A, 0x5A, 0x5A]);
    assert!(sender.next_frame().is_err());
}

#[test]
fn transport_empty_payload() {
    let mut sender = BroadcastTransport::new(0x22, PGN::AddressClaimed).with_data(&[]);
    assert!(sender.is_empty());
    assert_eq!(sender.packet_count(), 0);
    let bam = sender.next_frame().unwrap();
    assert_eq!(bam.pdu(), &[0x20, 0, 0, 0, 0xFF, 0x00, 0xEE, 0x00]);
    assert_eq!(sender.next_frame().unwrap_err(), TransportError::Completed);
}
