//! Acceptance filters for a CAN controller.
use vstd::prelude::*;

verus! {

/// CAN bus filter: a frame passes when its identifier, masked, equals the filter.
pub struct BitMaskFilter {
    /// CAN bus filter.
    pub filter: u32,
    /// CAN bus filter mask.
    pub mask: u32,
}

/// Create bitmask filter for destination address: the PDU specific byte must be `address`.
pub fn destination_address_filter(address: u8) -> (r: BitMaskFilter)
    ensures
        r.filter == address as u32 * 256,
        r.mask == 0xff00,
{
    BitMaskFilter { filter: (address as u32) * 256, mask: 0xff00 }
}

/// Create bitmask filter for source address: the low byte must be `address`.
pub fn source_address_filter(address: u8) -> (r: BitMaskFilter)
    ensures
        r.filter == address as u32,
        r.mask == 0xff,
{
    BitMaskFilter { filter: address as u32, mask: 0xff }
}

} // verus!
