//! Broadcast (BAM) transport: splits payloads of up to 1785 bytes into sequenced frames and
//! reassembles them on receipt.
use vstd::prelude::*;

use crate::frame::Frame;
use crate::id::{id_build_raw, id_is_pdu1, id_pgn_raw, IdBuilder};
use crate::pgn::{pgn_number, pgn_of, pgn_wire_bytes, pgn_wire_number, PGN};
use crate::{ID_BIT_MASK, PDU_MAX_LENGTH, PDU_NOT_AVAILABLE, TRANSPORT_MAX_LENGTH};

verus! {

/// Control codes of the transport connection management message.
#[derive(Clone, Copy, Debug, PartialEq, Eq, Structural)]
pub enum ConnectionManagement {
    RequestToSend,
    ClearToSend,
    EndOfMessageAcknowledgment,
    BroadcastAnnounceMessage,
    Abort,
}

pub open spec fn control_code(cm: ConnectionManagement) -> u8 {
    match cm {
        ConnectionManagement::RequestToSend => 0x10,
        ConnectionManagement::ClearToSend => 0x11,
        ConnectionManagement::EndOfMessageAcknowledgment => 0x13,
        ConnectionManagement::BroadcastAnnounceMessage => 0x20,
        ConnectionManagement::Abort => 0xff,
    }
}

impl ConnectionManagement {
    /// The control byte that carries this code on the wire.
    pub fn value(self) -> (r: u8)
        ensures
            r == control_code(self),
    {
        match self {
            ConnectionManagement::RequestToSend => 0x10,
            ConnectionManagement::ClearToSend => 0x11,
            ConnectionManagement::EndOfMessageAcknowledgment => 0x13,
            ConnectionManagement::BroadcastAnnounceMessage => 0x20,
            ConnectionManagement::Abort => 0xff,
        }
    }
}

/// Control byte of a broadcast announce message.
pub const BAM_CONTROL: u8 = 0x20;

/// Payload bytes carried by one data transfer frame.
pub const PACKET_PAYLOAD: usize = 7;

#[derive(Clone, Copy, Debug, PartialEq, Eq, Structural)]
pub enum BroadcastTransportState {
    /// The announce message has not been sent or received yet.
    ConnectionManagement,
    /// A session is open; a sender counts here the next packet to send.
    DataTransfer(u8),
}

/// Why a transport operation was refused.
#[derive(Clone, Copy, Debug, PartialEq, Eq, Structural)]
pub enum TransportError {
    /// A frame is shorter than its layout requires, or declares an impossible length or sequence.
    MalformedInput,
    /// A data transfer frame arrived with no open session, or a connection management frame
    /// carried a control code other than a broadcast announcement.
    ProtocolViolation,
    /// Every packet of the payload has already been sent.
    Completed,
}

/// What a transport session holds.
pub struct TransportView {
    pub source_address: u8,
    pub pgn: PGN,
    /// The whole reassembly buffer, 1785 bytes.
    pub buffer: Seq<u8>,
    /// The length declared by the announcement, or given to send.
    pub declared_len: nat,
    /// The number of bytes received so far (or given to send).
    pub len: nat,
    pub state: BroadcastTransportState,
}

/// Number of packets that carry `len` bytes, seven to a packet.
pub open spec fn packet_count_of(len: nat) -> nat {
    (len + 6) / 7
}

/// Identifier of the announcement that a sender with source address `sa` emits: priority 7,
/// connection management, to the global address.
pub open spec fn bam_id(sa: u8) -> u32 {
    id_build_raw(7, 60_416, sa, 0xff)
}

/// Identifier of the data transfer frames that a sender with source address `sa` emits:
/// priority 7, data transfer, to the global address.
pub open spec fn data_transfer_id(sa: u8) -> u32 {
    id_build_raw(7, 60_160, sa, 0xff)
}

/// Payload of the broadcast announce message for `len` bytes of parameter group `pgn`.
pub open spec fn bam_payload(len: nat, pgn: PGN) -> Seq<u8> {
    let w = pgn_wire_bytes(pgn_number(pgn));
    seq![
        BAM_CONTROL,
        (len % 256) as u8,
        (len / 256) as u8,
        packet_count_of(len) as u8,
        PDU_NOT_AVAILABLE,
        w[0],
        w[1],
        w[2],
    ]
}

/// Payload of the data transfer frame of packet `packet` (counted from zero): its one-based
/// sequence number, then the packet's seven bytes, with 0xFF past the end of the data.
pub open spec fn data_transfer_payload(buffer: Seq<u8>, len: nat, packet: nat) -> Seq<u8> {
    Seq::new(
        8,
        |i: int|
            if i == 0 {
                (packet + 1) as u8
            } else if packet * 7 + i - 1 < len {
                buffer[packet * 7 + i - 1]
            } else {
                PDU_NOT_AVAILABLE
            },
    )
}

/// `buffer` with `chunk` written from position `start` on.
pub open spec fn write_at(buffer: Seq<u8>, start: int, chunk: Seq<u8>) -> Seq<u8> {
    Seq::new(
        buffer.len(),
        |i: int|
            if start <= i < start + chunk.len() {
                chunk[i - start]
            } else {
                buffer[i]
            },
    )
}

/// Little-endian 16-bit length of an announcement, bytes 1 and 2.
pub open spec fn bam_declared_len(payload: Seq<u8>) -> nat {
    (payload[1] as nat) + 256 * (payload[2] as nat)
}

/// The session after `frame` was received in session `t`, and whether it was taken in.
pub open spec fn receive(t: TransportView, frame: Frame) -> (TransportView, Result<(), TransportError>) {
    receive_payload(t, frame.spec_id()@, frame@)
}

/// The session after a frame with identifier `id` and payload `b` was received in session `t`,
/// and whether it was taken in.
pub open spec fn receive_payload(t: TransportView, id: u32, b: Seq<u8>) -> (
    TransportView,
    Result<(), TransportError>,
) {
    let pgn = pgn_of(id_pgn_raw(id));
    if pgn == PGN::TransportProtocolConnectionManagement {
        if b.len() >= 1 && b[0] != BAM_CONTROL {
            (t, Err(TransportError::ProtocolViolation))
        } else if b.len() < 8 || bam_declared_len(b) > TRANSPORT_MAX_LENGTH {
            (t, Err(TransportError::MalformedInput))
        } else {
            (
                TransportView {
                    pgn: pgn_of(pgn_wire_number(b.subrange(5, 8))),
                    declared_len: bam_declared_len(b),
                    len: 0,
                    state: BroadcastTransportState::DataTransfer(0),
                    ..t
                },
                Ok(()),
            )
        }
    } else if pgn == PGN::TransportProtocolDataTransfer {
        if t.state == BroadcastTransportState::ConnectionManagement {
            (t, Err(TransportError::ProtocolViolation))
        } else if b.len() < 1 || b[0] == 0 {
            (t, Err(TransportError::MalformedInput))
        } else {
            let start = (b[0] as int - 1) * 7;
            let end = start + b.len() - 1;
            (
                TransportView {
                    buffer: write_at(t.buffer, start, b.subrange(1, b.len() as int)),
                    len: if end < t.declared_len { end as nat } else { t.declared_len },
                    ..t
                },
                Ok(()),
            )
        }
    } else {
        (t, Ok(()))
    }
}

/// Session `t` after it received, in order, the first `n` data transfer frames that a sender
/// from source `sa`, holding `len` bytes in `buffer`, emits.
pub open spec fn receive_packets(t: TransportView, sa: u8, buffer: Seq<u8>, len: nat, n: nat) -> TransportView
    decreases n,
{
    if n == 0 {
        t
    } else {
        let k = (n - 1) as nat;
        receive_payload(
            receive_packets(t, sa, buffer, len, k),
            data_transfer_id(sa),
            data_transfer_payload(buffer, len, k),
        ).0
    }
}

proof fn lemma_global_id_pgn(sa: u8, pgn: u32)
    requires
        pgn == 60_416 || pgn == 60_160,
    ensures
        id_pgn_raw(id_build_raw(7, pgn, sa, 0xff)) == pgn,
{
    let s = sa as u32;
    let base = ((7u8 as u32) << 26u32) | (pgn << 8u32) | s;
    assert(((base & 0x1fffffff) >> 16u32) & 0xff == pgn >> 8u32 && pgn >> 8u32 < 240) by (bit_vector)
        requires
            base == ((7u8 as u32) << 26u32) | (pgn << 8u32) | s,
            s <= 0xff,
            pgn == 60_416 || pgn == 60_160,
    ;
    assert(id_is_pdu1(base & ID_BIT_MASK));
    let raw = (base | ((0xffu8 as u32) << 8u32)) & ID_BIT_MASK;
    assert(raw == id_build_raw(7, pgn, sa, 0xff));
    assert((raw >> 8u32) & 0xff00 == pgn && ((raw >> 16u32) & 0xff) == pgn >> 8u32) by (bit_vector)
        requires
            base == ((7u8 as u32) << 26u32) | (pgn << 8u32) | s,
            raw == (base | ((0xffu8 as u32) << 8u32)) & 0x1fffffff,
            s <= 0xff,
            pgn == 60_416 || pgn == 60_160,
    ;
    assert(id_is_pdu1(raw));
}

proof fn lemma_transport_ids(sa: u8)
    ensures
        pgn_of(id_pgn_raw(bam_id(sa))) == PGN::TransportProtocolConnectionManagement,
        pgn_of(id_pgn_raw(data_transfer_id(sa))) == PGN::TransportProtocolDataTransfer,
{
    lemma_global_id_pgn(sa, 60_416);
    lemma_global_id_pgn(sa, 60_160);
    assert(60_416u32 & 0x3ffff == 60_416 && 60_160u32 & 0x3ffff == 60_160) by (bit_vector);
}

/// After `n` data transfer frames of a sender, an empty session that had announced the sender's
/// length holds the sender's bytes up to `min(len, 7 * n)`, and reports that many.
proof fn lemma_receive_packets(t: TransportView, sa: u8, buffer: Seq<u8>, len: nat, n: nat)
    requires
        len <= TRANSPORT_MAX_LENGTH,
        buffer.len() == TRANSPORT_MAX_LENGTH,
        t.buffer.len() == TRANSPORT_MAX_LENGTH,
        t.declared_len == len,
        t.len == 0,
        t.state != BroadcastTransportState::ConnectionManagement,
        n <= packet_count_of(len),
    ensures
        ({
            let r = receive_packets(t, sa, buffer, len, n);
            &&& r.buffer.len() == TRANSPORT_MAX_LENGTH
            &&& r.declared_len == len
            &&& r.state == t.state
            &&& r.pgn == t.pgn
            &&& r.source_address == t.source_address
            &&& r.len == if len <= 7 * n { len } else { 7 * n }
            &&& forall|i: int| 0 <= i < r.len ==> r.buffer[i] == buffer[i]
        }),
        n > 0 ==> receive_payload(
            receive_packets(t, sa, buffer, len, (n - 1) as nat),
            data_transfer_id(sa),
            data_transfer_payload(buffer, len, (n - 1) as nat),
        ).1 is Ok,
    decreases n,
{
    if n > 0 {
        let k = (n - 1) as nat;
        lemma_receive_packets(t, sa, buffer, len, k);
        lemma_transport_ids(sa);
        let prev = receive_packets(t, sa, buffer, len, k);
        let b = data_transfer_payload(buffer, len, k);
        assert(k + 1 <= 255);
        assert(b[0] == k + 1);
        let chunk = b.subrange(1, 8);
        let start = (b[0] as int - 1) * 7;
        assert(start == 7 * k);
        let r = receive_packets(t, sa, buffer, len, n);
        assert(r.len == if 7 * k + 7 < len { (7 * k + 7) as nat } else { len });
        assert(r.buffer == write_at(prev.buffer, 7 * k as int, chunk));
        assert forall|i: int| 0 <= i < r.len implies r.buffer[i] == buffer[i] by {
            if i >= 7 * k {
                assert(chunk[i - 7 * k] == b[i - 7 * k + 1]);
            }
        }
    }
}

/// Broadcast transport round trip: a session that receives, in order, the announcement and every
/// data transfer frame that a sender from source `sa` emits for `len` bytes of parameter group
/// `pgn` held in `buffer` takes in every frame and ends up holding exactly those bytes, with that
/// parameter group.
pub proof fn lemma_broadcast_round_trip(t: TransportView, sa: u8, pgn: PGN, buffer: Seq<u8>, len: nat)
    requires
        len <= TRANSPORT_MAX_LENGTH,
        buffer.len() == TRANSPORT_MAX_LENGTH,
        t.buffer.len() == TRANSPORT_MAX_LENGTH,
        pgn.is_canonical(),
    ensures
        ({
            let (opened, accepted) = receive_payload(t, bam_id(sa), bam_payload(len, pgn));
            let r = receive_packets(opened, sa, buffer, len, packet_count_of(len));
            &&& accepted is Ok
            &&& forall|k: nat|
                k < packet_count_of(len) ==> (#[trigger] receive_payload(
                    receive_packets(opened, sa, buffer, len, k),
                    data_transfer_id(sa),
                    data_transfer_payload(buffer, len, k),
                )).1 is Ok
            &&& r.pgn == pgn
            &&& r.declared_len == len
            &&& r.len == len
            &&& r.buffer.subrange(0, len as int) == buffer.subrange(0, len as int)
        }),
{
    lemma_transport_ids(sa);
    let b = bam_payload(len, pgn);
    assert(b.subrange(5, 8) =~= pgn_wire_bytes(pgn_number(pgn)));
    crate::pgn::lemma_pgn_wire_round_trip(pgn);
    assert(bam_declared_len(b) == len);
    let opened = receive_payload(t, bam_id(sa), b).0;
    let count = packet_count_of(len);
    vstd::arithmetic::div_mod::lemma_fundamental_div_mod(len as int + 6, 7);
    assert(7 * count >= len);
    lemma_receive_packets(opened, sa, buffer, len, count);
    assert forall|k: nat| k < count implies (#[trigger] receive_payload(
        receive_packets(opened, sa, buffer, len, k),
        data_transfer_id(sa),
        data_transfer_payload(buffer, len, k),
    )).1 is Ok by {
        lemma_receive_packets(opened, sa, buffer, len, k + 1);
    }
    let r = receive_packets(opened, sa, buffer, len, count);
    assert(r.buffer.subrange(0, len as int) =~= buffer.subrange(0, len as int));
}

pub struct BroadcastTransport {
    sa: u8,
    pgn: PGN,
    data: [u8; TRANSPORT_MAX_LENGTH],
    data_length: usize,
    tail: usize,
    state: BroadcastTransportState,
}

impl View for BroadcastTransport {
    type V = TransportView;

    closed spec fn view(&self) -> TransportView {
        TransportView {
            source_address: self.sa,
            pgn: self.pgn,
            buffer: self.data@,
            declared_len: self.data_length as nat,
            len: self.tail as nat,
            state: self.state,
        }
    }
}

impl BroadcastTransport {
    #[verifier::type_invariant]
    spec fn lengths_in_range(self) -> bool {
        self.tail <= self.data_length <= TRANSPORT_MAX_LENGTH
    }

    /// A session of source `sa` for parameter group `pgn`, with an empty buffer of
    /// not-available bytes.
    pub fn new(sa: u8, pgn: PGN) -> (r: Self)
        ensures
            r@ == (TransportView {
                source_address: sa,
                pgn,
                buffer: Seq::new(TRANSPORT_MAX_LENGTH as nat, |_i: int| PDU_NOT_AVAILABLE),
                declared_len: 0,
                len: 0,
                state: BroadcastTransportState::ConnectionManagement,
            }),
    {
        let r = Self {
            sa,
            pgn,
            data: [PDU_NOT_AVAILABLE; TRANSPORT_MAX_LENGTH],
            data_length: 0,
            tail: 0,
            state: BroadcastTransportState::ConnectionManagement,
        };
        assert(r.data@ =~= Seq::new(TRANSPORT_MAX_LENGTH as nat, |_i: int| PDU_NOT_AVAILABLE));
        r
    }

    /// Loads `data` as the payload to send.
    pub fn with_data(self, data: &[u8]) -> (r: Self)
        requires
            data@.len() <= TRANSPORT_MAX_LENGTH,
        ensures
            r@ == (TransportView {
                buffer: data@ + self@.buffer.subrange(data@.len() as int, TRANSPORT_MAX_LENGTH as int),
                declared_len: data@.len(),
                len: data@.len(),
                ..self@
            }),
    {
        proof {
            use_type_invariant(&self);
        }
        let mut buffer = self.data;
        let n = data.len();
        let mut i: usize = 0;
        while i < n
            invariant
                n == data@.len(),
                n <= TRANSPORT_MAX_LENGTH,
                i <= n,
                buffer@.len() == TRANSPORT_MAX_LENGTH,
                forall|k: int| 0 <= k < i ==> buffer@[k] == data@[k],
                forall|k: int| i <= k < TRANSPORT_MAX_LENGTH ==> buffer@[k] == self.data@[k],
            decreases n - i,
        {
            buffer[i] = data[i];
            i = i + 1;
        }
        assert(buffer@ =~= data@ + self.data@.subrange(n as int, TRANSPORT_MAX_LENGTH as int));
        Self { sa: self.sa, pgn: self.pgn, data: buffer, data_length: n, tail: n, state: self.state }
    }

    /// Returns the transport data received or loaded so far.
    pub fn data(&self) -> (r: &[u8])
        ensures
            r@ == self@.buffer.subrange(0, self@.len as int),
    {
        proof {
            use_type_invariant(self);
        }
        vstd::slice::slice_subrange(self.data.as_slice(), 0, self.tail)
    }

    /// Returns the length of the transport data.
    pub fn len(&self) -> (r: usize)
        ensures
            r == self@.len,
            r <= self@.declared_len,
            self@.declared_len <= TRANSPORT_MAX_LENGTH,
            self@.buffer.len() == TRANSPORT_MAX_LENGTH,
    {
        proof {
            use_type_invariant(self);
        }
        self.tail
    }

    /// Returns `true` if the transport data is empty.
    pub fn is_empty(&self) -> (r: bool)
        ensures
            r == (self@.len == 0),
    {
        self.tail == 0
    }

    /// Number of data transfer packets that carry the declared length.
    pub fn packet_count(&self) -> (r: usize)
        ensures
            r == packet_count_of(self@.declared_len),
            r <= 255,
    {
        proof {
            use_type_invariant(self);
        }
        let quotient = self.data_length / PACKET_PAYLOAD;
        let remainder = self.data_length % PACKET_PAYLOAD;
        if remainder > 0 {
            quotient + 1
        } else {
            quotient
        }
    }

    /// Emits the next frame to send: first the broadcast announcement, then one data transfer
    /// frame per packet. Once every packet is out the call fails with `Completed` and changes
    /// nothing.
    pub fn next_frame(&mut self) -> (r: Result<Frame, TransportError>)
        ensures
            match old(self)@.state {
                BroadcastTransportState::ConnectionManagement => {
                    &&& r is Ok
                    &&& r->Ok_0.spec_id()@ == bam_id(old(self)@.source_address)
                    &&& r->Ok_0@ == bam_payload(old(self)@.declared_len, old(self)@.pgn)
                    &&& final(self)@ == (TransportView {
                        state: BroadcastTransportState::DataTransfer(0),
                        ..old(self)@
                    })
                },
                BroadcastTransportState::DataTransfer(packet) => {
                    if packet < packet_count_of(old(self)@.declared_len) {
                        &&& r is Ok
                        &&& r->Ok_0.spec_id()@ == data_transfer_id(old(self)@.source_address)
                        &&& r->Ok_0@ == data_transfer_payload(
                            old(self)@.buffer,
                            old(self)@.declared_len,
                            packet as nat,
                        )
                        &&& final(self)@ == (TransportView {
                            state: BroadcastTransportState::DataTransfer((packet + 1) as u8),
                            ..old(self)@
                        })
                    } else {
                        &&& r == Err::<Frame, TransportError>(TransportError::Completed)
                        &&& final(self)@ == old(self)@
                    }
                },
            },
    {
        proof {
            use_type_invariant(&*self);
        }
        let packets = self.packet_count();
        match self.state {
            BroadcastTransportState::ConnectionManagement => {
                let length = self.data_length;
                let wire = self.pgn.to_le_bytes();
                let id = IdBuilder::from_pgn(PGN::TransportProtocolConnectionManagement)
                    .priority(7)
                    .sa(self.sa)
                    .da(0xff)
                    .build();
                let payload = [
                    ConnectionManagement::BroadcastAnnounceMessage.value(),
                    (length % 256) as u8,
                    (length / 256) as u8,
                    packets as u8,
                    PDU_NOT_AVAILABLE,
                    wire[0],
                    wire[1],
                    wire[2],
                ];
                let frame = Frame::new(id, payload);
                assert(frame@ =~= bam_payload(self@.declared_len, self@.pgn));
                self.state = BroadcastTransportState::DataTransfer(0);
                Ok(frame)
            },
            BroadcastTransportState::DataTransfer(packet) => {
                if packet as usize >= packets {
                    return Err(TransportError::Completed);
                }
                let id = IdBuilder::from_pgn(PGN::TransportProtocolDataTransfer)
                    .priority(7)
                    .sa(self.sa)
                    .da(0xff)
                    .build();
                let mut payload = [PDU_NOT_AVAILABLE; PDU_MAX_LENGTH];
                payload[0] = packet + 1;
                let start = packet as usize * PACKET_PAYLOAD;
                let mut i: usize = 0;
                while i < PACKET_PAYLOAD
                    invariant
                        (packet as nat) < packet_count_of(self.data_length as nat),
                        self.data_length <= TRANSPORT_MAX_LENGTH,
                        start == packet * 7,
                        i <= 7,
                        payload@.len() == 8,
                        payload@[0] == (packet + 1) as u8,
                        forall|k: int|
                            1 <= k < 8 ==> payload@[k] == if k <= i && start + k - 1
                                < self.data_length {
                                self.data@[start + k - 1]
                            } else {
                                PDU_NOT_AVAILABLE
                            },
                    decreases 7 - i,
                {
                    if start + i < self.data_length {
                        payload[i + 1] = self.data[start + i];
                    }
                    i = i + 1;
                }
                let frame = Frame::new(id, payload);
                assert(frame@ =~= data_transfer_payload(self@.buffer, self@.declared_len, packet as nat));
                self.state = BroadcastTransportState::DataTransfer(packet + 1);
                Ok(frame)
            },
        }
    }

    /// Takes in one received frame, dispatched by its parameter group: a broadcast announcement
    /// opens a session, a data transfer frame writes its bytes at `(sequence - 1) * 7`. Frames of
    /// other parameter groups change nothing.
    pub fn from_frame(&mut self, frame: &Frame) -> (r: Result<(), TransportError>)
        ensures
            (final(self)@, r) == receive(old(self)@, *frame),
    {
        proof {
            use_type_invariant(&*self);
        }
        let pgn = frame.id().pgn();
        let len = frame.len();
        if pgn == PGN::TransportProtocolConnectionManagement {
            if len >= 1 && frame.byte(0) != BAM_CONTROL {
                return Err(TransportError::ProtocolViolation);
            }
            if len < 8 {
                return Err(TransportError::MalformedInput);
            }
            let declared = frame.byte(1) as usize + 256 * frame.byte(2) as usize;
            if declared > TRANSPORT_MAX_LENGTH {
                return Err(TransportError::MalformedInput);
            }
            let wire = [frame.byte(5), frame.byte(6), frame.byte(7)];
            assert(wire@ =~= frame@.subrange(5, 8));
            self.pgn = PGN::from_le_bytes(wire);
            self.tail = 0;
            self.data_length = declared;
            self.state = BroadcastTransportState::DataTransfer(0);
            Ok(())
        } else if pgn == PGN::TransportProtocolDataTransfer {
            if let BroadcastTransportState::ConnectionManagement = self.state {
                return Err(TransportError::ProtocolViolation);
            }
            if len < 1 || frame.byte(0) == 0 {
                return Err(TransportError::MalformedInput);
            }
            let start = (frame.byte(0) as usize - 1) * PACKET_PAYLOAD;
            let end = start + (len - 1);
            let ghost before = self.data@;
            let ghost chunk = frame@.subrange(1, len as int);
            let mut i: usize = 1;
            while i < len
                invariant
                    len == frame@.len(),
                    1 <= i <= len <= 8,
                    start == (frame@[0] as int - 1) * 7,
                    frame@[0] >= 1,
                    end == start + len - 1,
                    end <= TRANSPORT_MAX_LENGTH,
                    chunk == frame@.subrange(1, len as int),
                    self.data@.len() == TRANSPORT_MAX_LENGTH,
                    self.tail <= self.data_length <= TRANSPORT_MAX_LENGTH,
                    forall|k: int|
                        0 <= k < TRANSPORT_MAX_LENGTH ==> self.data@[k] == if start <= k < start
                            + i - 1 {
                            chunk[k - start]
                        } else {
                            before[k]
                        },
                    self.sa == old(self).sa,
                    self.pgn == old(self).pgn,
                    self.data_length == old(self).data_length,
                    self.tail == old(self).tail,
                    self.state == old(self).state,
                    before == old(self).data@,
                decreases len - i,
            {
                self.data[start + i - 1] = frame.byte(i);
                i = i + 1;
            }
            assert(self.data@ =~= write_at(before, start as int, chunk));
            self.tail = if end < self.data_length { end } else { self.data_length };
            Ok(())
        } else {
            Ok(())
        }
    }
}

impl AsRef<[u8]> for BroadcastTransport {
    fn as_ref(&self) -> &[u8] {
        self.data()
    }
}

} // verus!
