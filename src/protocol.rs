//! Frames of the network management and request protocol.
use vstd::prelude::*;

use crate::frame::{Frame, FrameBuilder};
use crate::id::{id_build_raw, IdBuilder};
use crate::name::{name_to_bytes, Name};
use crate::pgn::{pgn_number, pgn_of, pgn_wire_bytes, pgn_wire_number, PGN};
use crate::transport::{bam_payload, data_transfer_payload, BroadcastTransport};
use crate::{DecodeError, PDU_NOT_AVAILABLE, PGN_MAX_LENGTH};

verus! {

/// Create PGN request frame: from `sa` to `da`, carrying `pgn` in its three-byte wire form.
pub fn request(da: u8, sa: u8, pgn: PGN) -> (r: Frame)
    ensures
        r.spec_id()@ == id_build_raw(6, 59_904, sa, da),
        r@ == pgn_wire_bytes(pgn_number(pgn)),
{
    let pgn_bytes = pgn.to_le_bytes();
    let id = IdBuilder::from_pgn(PGN::Request).sa(sa).da(da).build();
    let frame = FrameBuilder::new(id).copy_from_slice(pgn_bytes.as_slice()).build();
    assert(frame@ =~= pgn_wire_bytes(pgn_number(pgn)));
    frame
}

/// Extract the requested PGN from the payload of a request; a payload shorter than three bytes
/// is malformed.
pub fn request_from_pdu(pdu: &[u8]) -> (r: Result<PGN, DecodeError>)
    ensures
        pdu@.len() < PGN_MAX_LENGTH ==> r == Err::<PGN, DecodeError>(DecodeError::MalformedInput),
        pdu@.len() >= PGN_MAX_LENGTH ==> r == Ok::<PGN, DecodeError>(
            pgn_of(pgn_wire_number(pdu@.subrange(0, 3))),
        ),
{
    if pdu.len() < PGN_MAX_LENGTH {
        return Err(DecodeError::MalformedInput);
    }
    let bytes = [pdu[0], pdu[1], pdu[2]];
    assert(bytes@ =~= pdu@.subrange(0, 3));
    Ok(PGN::from_le_bytes(bytes))
}

/// Create address claimed frame: from `sa` to the global address, carrying `name`.
pub fn address_claimed(sa: u8, name: &Name) -> (r: Frame)
    ensures
        r.spec_id()@ == id_build_raw(6, 60_928, sa, 0xff),
        r@ == name_to_bytes(*name),
{
    let id = IdBuilder::from_pgn(PGN::AddressClaimed).sa(sa).da(PDU_NOT_AVAILABLE).build();
    let bytes = name.to_bytes();
    let frame = FrameBuilder::new(id).copy_from_slice(bytes.as_slice()).build();
    assert(frame@ =~= name_to_bytes(*name));
    frame
}

/// Payload of a positive acknowledgement of `pgn`.
pub open spec fn acknowledgement_payload(pgn: PGN) -> Seq<u8> {
    let w = pgn_wire_bytes(pgn_number(pgn));
    seq![0x01u8, 0xffu8, 0xffu8, 0xffu8, 0xffu8, w[0], w[1], w[2]]
}

/// Create acknowledgment frame: from `sa` to the global address, acknowledging `pgn`.
pub fn acknowledgement(sa: u8, pgn: PGN) -> (r: Frame)
    ensures
        r.spec_id()@ == id_build_raw(6, 59_392, sa, 0xff),
        r@ == acknowledgement_payload(pgn),
{
    let pgn_bytes = pgn.to_le_bytes();
    let id = IdBuilder::from_pgn(PGN::AcknowledgmentMessage).sa(sa).da(PDU_NOT_AVAILABLE).build();
    let payload = [
        0x01,
        PDU_NOT_AVAILABLE,
        PDU_NOT_AVAILABLE,
        PDU_NOT_AVAILABLE,
        PDU_NOT_AVAILABLE,
        pgn_bytes[0],
        pgn_bytes[1],
        pgn_bytes[2],
    ];
    let frame = FrameBuilder::new(id).copy_from_slice(payload.as_slice()).build();
    assert(frame@ =~= acknowledgement_payload(pgn));
    frame
}

/// The nine bytes of a commanded address message: the NAME of the node, then its new address.
pub open spec fn commanded_address_data(name: Name, address: u8) -> Seq<u8> {
    name_to_bytes(name).push(address)
}

/// Assign address to node: the three broadcast transport frames that carry the node's NAME and
/// its new address, sent from `sa`.
pub fn commanded_address(sa: u8, name: &Name, address: u8) -> (r: [Frame; 3])
    ensures
        r[0].spec_id()@ == id_build_raw(7, 60_416, sa, 0xff),
        r[0]@ == bam_payload(9, PGN::CommandedAddress),
        r[1].spec_id()@ == id_build_raw(7, 60_160, sa, 0xff),
        r[1]@ == seq![1u8] + commanded_address_data(*name, address).subrange(0, 7),
        r[2].spec_id()@ == id_build_raw(7, 60_160, sa, 0xff),
        r[2]@ == seq![2u8] + commanded_address_data(*name, address).subrange(7, 9) + seq![
            0xffu8,
            0xffu8,
            0xffu8,
            0xffu8,
            0xffu8,
        ],
{
    let name_bytes = name.to_bytes();
    let data = [
        name_bytes[0],
        name_bytes[1],
        name_bytes[2],
        name_bytes[3],
        name_bytes[4],
        name_bytes[5],
        name_bytes[6],
        name_bytes[7],
        address,
    ];
    let ghost d = commanded_address_data(*name, address);
    assert(data@ =~= d);
    let mut transport = BroadcastTransport::new(sa, PGN::CommandedAddress).with_data(data.as_slice());
    let ghost buffer = transport@.buffer;
    assert(buffer.subrange(0, 9) =~= d);
    let frame0 = transport.next_frame().unwrap();
    let frame1 = transport.next_frame().unwrap();
    let frame2 = transport.next_frame().unwrap();
    assert(frame1@ =~= seq![1u8] + d.subrange(0, 7));
    assert(frame2@ =~= seq![2u8] + d.subrange(7, 9) + seq![0xffu8, 0xffu8, 0xffu8, 0xffu8, 0xffu8]);
    [frame0, frame1, frame2]
}

} // verus!
