//! Decoding and encoding of SAE J1939 messages.
use vstd::prelude::*;

pub mod can;
pub mod decode;
pub mod diagnostic;
mod frame;
mod id;
mod name;
mod pgn;
pub mod protocol;
pub mod sa;
pub mod slots;
pub mod spn;
pub mod transport;

pub use frame::{Frame, FrameBuilder};
pub use id::{
    id_build_raw, id_data_page, id_destination_address, id_group_extension, id_is_broadcast,
    id_is_pdu1, id_pdu_format, id_pdu_format_byte, id_pdu_specific, id_pgn_raw, id_priority,
    id_source_address, lemma_build_round_trip, Id, IdBuilder, PDUFormat,
};
pub use name::{
    lemma_bytes_round_trip, lemma_from_bytes_in_range, lemma_name_round_trip, name_from_bytes,
    name_to_bytes, Name, NameBuilder,
};
pub use pgn::{
    lemma_pgn_wire_round_trip, lemma_wire_number_of_bytes, pgn_number, pgn_of, pgn_wire_bytes,
    pgn_wire_number, PGN,
};
pub use sa::{
    address_number, address_of, lemma_address_byte_round_trip, lemma_source_address_round_trip,
    SourceAddress,
};

verus! {

/// Maximum number of bytes in a PGN.
pub const PGN_MAX_LENGTH: usize = 3;

/// Maximum number of bytes in a PDU.
pub const PDU_MAX_LENGTH: usize = 8;

/// PDU error byte.
pub const PDU_ERROR: u8 = 0xfe;

/// PDU not available byte.
pub const PDU_NOT_AVAILABLE: u8 = 0xff;

/// ASCII delimiter for variable length fields.
pub const FIELD_DELIMITER: u8 = 0x2a;

/// Largest payload that the broadcast transport carries: 255 packets of seven bytes.
pub const TRANSPORT_MAX_LENGTH: usize = 1785;

/// 29-bit identifier mask.
pub const ID_BIT_MASK: u32 = 0x1fffffff;

/// Why a payload could not be decoded.
#[derive(Clone, Copy, Debug, PartialEq, Eq, Structural)]
pub enum DecodeError {
    /// The payload is shorter than the layout it is decoded with.
    MalformedInput,
}

} // verus!
