//! The 29-bit CAN identifier of a J1939 frame, and a builder for it.
use vstd::prelude::*;

use crate::pgn::{pgn_number, PGN};
use crate::ID_BIT_MASK;

verus! {

/// Protocol Data Unit Format.
///
/// There are two different PDU formats. PDU1 format is used for sending messages with a specific
/// destination address. PDU2 format can only sent broadcasts. The PDU format byte in the identifier
/// determines the message format. If the PDU format byte is less than 240 (0xF0) then the format is
/// PDU1 and if it is greater than 239 it is PDU2.
#[derive(Debug, PartialEq, Eq, Structural)]
pub enum PDUFormat {
    PDU1(u8),
    PDU2(u8),
}

/// Priority field, bits 28-26.
pub open spec fn id_priority(raw: u32) -> u8 {
    (raw >> 26u32) as u8
}

/// Data page bit, bit 24.
pub open spec fn id_data_page(raw: u32) -> u8 {
    ((raw >> 24u32) & 0x1) as u8
}

/// PDU format byte, bits 23-16.
pub open spec fn id_pdu_format_byte(raw: u32) -> u8 {
    ((raw >> 16u32) & 0xff) as u8
}

/// PDU specific byte, bits 15-8.
pub open spec fn id_pdu_specific(raw: u32) -> u8 {
    ((raw >> 8u32) & 0xff) as u8
}

/// Source address byte, bits 7-0.
pub open spec fn id_source_address(raw: u32) -> u8 {
    (raw & 0xff) as u8
}

/// Whether the PDU format byte selects PDU1 (point to point).
pub open spec fn id_is_pdu1(raw: u32) -> bool {
    id_pdu_format_byte(raw) < 240
}

pub open spec fn id_pdu_format(raw: u32) -> PDUFormat {
    if id_is_pdu1(raw) {
        PDUFormat::PDU1(id_pdu_format_byte(raw))
    } else {
        PDUFormat::PDU2(id_pdu_format_byte(raw))
    }
}

/// The parameter group number: under PDU1 the PDU specific byte is an address and is zeroed.
pub open spec fn id_pgn_raw(raw: u32) -> u32 {
    if id_is_pdu1(raw) {
        (raw >> 8u32) & 0xff00
    } else {
        (raw >> 8u32) & 0xffff
    }
}

pub open spec fn id_destination_address(raw: u32) -> Option<u8> {
    if id_is_pdu1(raw) {
        Some(id_pdu_specific(raw))
    } else {
        None
    }
}

pub open spec fn id_group_extension(raw: u32) -> Option<u8> {
    if id_is_pdu1(raw) {
        None
    } else {
        Some(id_pdu_specific(raw))
    }
}

/// PDU2 frames are always broadcast; PDU1 frames are when sent to the global address.
pub open spec fn id_is_broadcast(raw: u32) -> bool {
    !id_is_pdu1(raw) || id_pdu_specific(raw) == 0xff
}

/// The identifier packed from a priority, a PGN and two addresses: the destination address goes
/// into the PDU specific byte only when the PGN selects the PDU1 format.
pub open spec fn id_build_raw(priority: u8, pgn: u32, sa: u8, da: u8) -> u32 {
    let base = ((priority as u32) << 26u32) | (pgn << 8u32) | (sa as u32);
    if id_is_pdu1(base & ID_BIT_MASK) {
        (base | ((da as u32) << 8u32)) & ID_BIT_MASK
    } else {
        base & ID_BIT_MASK
    }
}

/// Frame identifier: a 29-bit value.
#[derive(Clone, Copy, Debug, PartialEq, Eq, Structural)]
pub struct Id(u32);

impl View for Id {
    type V = u32;

    closed spec fn view(&self) -> u32 {
        self.0
    }
}

impl Id {
    #[verifier::type_invariant]
    spec fn masked(self) -> bool {
        self.0 & ID_BIT_MASK == self.0
    }

    /// Construct new Frame ID from raw integer.
    ///
    /// The ID is masked to 29 bits to ensure that the ID is within the valid range.
    pub fn new(id: u32) -> (r: Self)
        ensures
            r@ == id & ID_BIT_MASK,
    {
        assert((id & 0x1fffffff) & 0x1fffffff == id & 0x1fffffff) by (bit_vector);
        Self(id & ID_BIT_MASK)
    }

    /// Return ID as raw integer.
    pub fn as_raw(&self) -> (r: u32)
        ensures
            r == self@,
            r & ID_BIT_MASK == r,
    {
        proof {
            use_type_invariant(self);
        }
        self.0
    }

    /// Frame priority
    ///
    /// The priority ranges from 0 to 7, where 0 is the highest priority and 7 the lowest priority.
    ///
    /// Default priority for informational, proprietary, request and acknowledgement frames is 6.
    /// Default priority for control frames (e.g., speeding up or slowing down the vehicle) is 3.
    pub fn priority(&self) -> (r: u8)
        ensures
            r == id_priority(self@),
            r <= 7,
    {
        proof {
            use_type_invariant(self);
            let v = self.0;
            assert(v & 0x1fffffff == v ==> (v >> 26u32) <= 7) by (bit_vector);
        }
        (self.0 >> 26) as u8
    }

    /// Data page (DP)
    ///
    /// Returns the data page bit of the frame ID.
    pub fn data_page(&self) -> (r: u8)
        ensures
            r == id_data_page(self@),
            r <= 1,
    {
        let v = self.0;
        assert((v >> 24u32) & 0x1 <= 1) by (bit_vector);
        ((self.0 >> 24) & 0x1) as u8
    }

    /// Parameter Group Number (PGN)
    ///
    /// Returns the parameter group number of the frame ID.
    pub fn pgn(&self) -> (r: PGN)
        ensures
            r == crate::pgn::pgn_of(id_pgn_raw(self@)),
    {
        PGN::from(self.pgn_raw())
    }

    /// Parameter Group Number
    ///
    /// Returns the raw parameter group number of the frame ID.
    pub fn pgn_raw(&self) -> (r: u32)
        ensures
            r == id_pgn_raw(self@),
    {
        match self.pdu_format() {
            PDUFormat::PDU1(_) => (self.0 >> 8) & 0xff00,
            PDUFormat::PDU2(_) => (self.0 >> 8) & 0xffff,
        }
    }

    /// PDU Format (PF)
    ///
    /// Returns the PDU format of the frame ID.
    pub fn pdu_format(&self) -> (r: PDUFormat)
        ensures
            r == id_pdu_format(self@),
    {
        let format = ((self.0 >> 16) & 0xff) as u8;
        if format < 240 {
            PDUFormat::PDU1(format)
        } else {
            PDUFormat::PDU2(format)
        }
    }

    /// Test if the frame is a broadcast frame
    ///
    /// Returns true if the frame is a broadcast frame, false otherwise.
    pub fn is_broadcast(&self) -> (r: bool)
        ensures
            r == id_is_broadcast(self@),
    {
        match self.pdu_format() {
            PDUFormat::PDU1(_) => self.pdu_specific() == 0xff,
            PDUFormat::PDU2(_) => true,
        }
    }

    /// Frame Destination Address (DA)
    ///
    /// Returns the destination address of the frame ID.
    ///
    /// The destination address is only available on PDU1 frames.
    pub fn destination_address(&self) -> (r: Option<u8>)
        ensures
            r == id_destination_address(self@),
    {
        match self.pdu_format() {
            PDUFormat::PDU1(_) => Some(self.pdu_specific()),
            PDUFormat::PDU2(_) => None,
        }
    }

    /// Frame Group Extension (GE)
    ///
    /// Returns the group extension of the frame ID.
    ///
    /// The group extension is only available on PDU2 frames.
    pub fn group_extension(&self) -> (r: Option<u8>)
        ensures
            r == id_group_extension(self@),
    {
        match self.pdu_format() {
            PDUFormat::PDU2(_) => Some(self.pdu_specific()),
            PDUFormat::PDU1(_) => None,
        }
    }

    /// PDU Specific (PS)
    ///
    /// Returns the PDU specific value of the frame ID.
    pub fn pdu_specific(&self) -> (r: u8)
        ensures
            r == id_pdu_specific(self@),
    {
        ((self.0 >> 8) & 0xff) as u8
    }

    /// Device Source Address (SA)
    ///
    /// Returns the source address of the frame ID.
    pub fn source_address(&self) -> (r: u8)
        ensures
            r == id_source_address(self@),
    {
        (self.0 & 0xff) as u8
    }
}

/// Builder of a frame identifier from a PGN, a priority and two addresses.
pub struct IdBuilder {
    /// Message priority.
    priority: u8,
    /// Parameter group number.
    pgn: u32,
    /// Source address.
    source_address: u8,
    /// Destination address.
    destination_address: u8,
}

impl IdBuilder {
    #[verifier::type_invariant]
    spec fn in_range(self) -> bool {
        self.priority <= 7 && self.pgn <= 0x3ffff
    }

    /// The priority the identifier will carry.
    pub closed spec fn spec_priority(self) -> u8 {
        self.priority
    }

    /// The 18-bit parameter group number the identifier will carry.
    pub closed spec fn spec_pgn(self) -> u32 {
        self.pgn
    }

    pub closed spec fn spec_source_address(self) -> u8 {
        self.source_address
    }

    pub closed spec fn spec_destination_address(self) -> u8 {
        self.destination_address
    }

    /// Construct ID builder from PGN.
    pub fn from_pgn(pgn: PGN) -> (r: Self)
        ensures
            r.spec_priority() == 6,
            r.spec_pgn() == pgn_number(pgn),
            r.spec_source_address() == 0,
            r.spec_destination_address() == 0,
    {
        let number = u32::from(pgn);
        assert(number <= 0x3ffff) by {
            match pgn {
                PGN::ProprietaryB(v) => {
                    assert(v & 0x3ffff <= 0x3ffff) by (bit_vector);
                },
                PGN::Other(v) => {
                    assert(v & 0x3ffff <= 0x3ffff) by (bit_vector);
                },
                _ => {},
            }
        }
        Self { priority: 6, pgn: number, source_address: 0, destination_address: 0 }
    }

    /// Set the priority; values above 7 are clamped to 7.
    pub fn priority(self, priority: u8) -> (r: Self)
        ensures
            r.spec_priority() == if priority <= 7 { priority } else { 7 },
            r.spec_pgn() == self.spec_pgn(),
            r.spec_source_address() == self.spec_source_address(),
            r.spec_destination_address() == self.spec_destination_address(),
    {
        proof {
            use_type_invariant(&self);
        }
        let p = if priority <= 7 { priority } else { 7 };
        Self { priority: p, ..self }
    }

    /// Set the sender address.
    pub fn sa(self, address: u8) -> (r: Self)
        ensures
            r.spec_priority() == self.spec_priority(),
            r.spec_pgn() == self.spec_pgn(),
            r.spec_source_address() == address,
            r.spec_destination_address() == self.spec_destination_address(),
    {
        proof {
            use_type_invariant(&self);
        }
        Self { source_address: address, ..self }
    }

    /// Set the destination address.
    pub fn da(self, address: u8) -> (r: Self)
        ensures
            r.spec_priority() == self.spec_priority(),
            r.spec_pgn() == self.spec_pgn(),
            r.spec_source_address() == self.spec_source_address(),
            r.spec_destination_address() == address,
    {
        proof {
            use_type_invariant(&self);
        }
        Self { destination_address: address, ..self }
    }

    /// Build frame ID.
    pub fn build(self) -> (r: Id)
        ensures
            r@ == id_build_raw(
                self.spec_priority(),
                self.spec_pgn(),
                self.spec_source_address(),
                self.spec_destination_address(),
            ),
    {
        let mut id = (self.priority as u32) << 26 | self.pgn << 8 | self.source_address as u32;
        if let PDUFormat::PDU1(_) = Id::new(id).pdu_format() {
            id = id | (self.destination_address as u32) << 8;
        }
        Id::new(id)
    }
}

/// An identifier built from a priority, a PDU1 parameter group and two addresses gives back,
/// through its accessors, the priority, the parameter group number and both addresses.
///
/// A PDU1 parameter group here has a zero low byte, a PDU format byte below 240 and no data page
/// bits.
pub proof fn lemma_build_round_trip(priority: u8, pgn: PGN, sa: u8, da: u8)
    requires
        priority <= 7,
        pgn_number(pgn) & 0xff == 0,
        pgn_number(pgn) < 0xf000,
    ensures
        ({
            let raw = id_build_raw(priority, pgn_number(pgn), sa, da);
            &&& id_priority(raw) == priority
            &&& id_pgn_raw(raw) == pgn_number(pgn)
            &&& id_source_address(raw) == sa
            &&& id_destination_address(raw) == Some(da)
            &&& id_pdu_format(raw) == PDUFormat::PDU1(#[verifier::truncate] ((pgn_number(pgn) >> 8u32) as u8))
        }),
{
    let n = pgn_number(pgn);
    let base = ((priority as u32) << 26u32) | (n << 8u32) | (sa as u32);
    assert(((base & 0x1fffffff) >> 16u32) & 0xff == n >> 8u32 && n >> 8u32 < 240) by (bit_vector)
        requires
            base == ((priority as u32) << 26u32) | (n << 8u32) | (sa as u32),
            priority <= 7,
            n & 0xff == 0,
            n < 0xf000,
    ;
    assert(id_is_pdu1(base & ID_BIT_MASK));
    let raw = (base | ((da as u32) << 8u32)) & 0x1fffffff;
    assert(raw == id_build_raw(priority, n, sa, da));
    assert(raw >> 26u32 == priority as u32 && (raw >> 8u32) & 0xff00 == n && raw & 0xff == sa as u32
        && (raw >> 8u32) & 0xff == da as u32 && (raw >> 16u32) & 0xff == n >> 8u32
        && n >> 8u32 < 240) by (bit_vector)
        requires
            base == ((priority as u32) << 26u32) | (n << 8u32) | (sa as u32),
            raw == (base | ((da as u32) << 8u32)) & 0x1fffffff,
            priority <= 7,
            n & 0xff == 0,
            n < 0xf000,
    ;
    assert(id_is_pdu1(raw));
}

} // verus!
