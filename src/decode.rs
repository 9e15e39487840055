//! Decoders of single parameters.
use vstd::prelude::*;

use crate::PDU_NOT_AVAILABLE;

verus! {

/// Source address of the controlling device for engine control (SPN 1483); the not-available
/// byte decodes to `None`.
pub fn spn1483(value: u8) -> (r: Option<u8>)
    ensures
        r == if value == PDU_NOT_AVAILABLE { None } else { Some(value) },
{
    if value != PDU_NOT_AVAILABLE {
        Some(value)
    } else {
        None
    }
}

} // verus!
