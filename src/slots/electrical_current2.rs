//! Electrical current: 1 A per bit, 0 to 250 A.
use vstd::prelude::*;

use super::{dec_u8, enc_u8, slot_dec_u8, slot_enc_u8, Resolution};

verus! {

/// The transfer function, counted in whole units.
pub open spec fn resolution() -> Resolution {
    Resolution { den: 1, scale: 1, offset: 0, lower: 0, upper: 250 }
}

fn res() -> (r: Resolution)
    ensures
        r == resolution(),
        r.wf(),
{
    Resolution { den: 1, scale: 1, offset: 0, lower: 0, upper: 250 }
}

/// Decodes the raw value; all bits set is not available.
pub fn dec(value: u8) -> (r: Option<u8>)
    ensures
        r == slot_dec_u8(resolution(), value),
{
    dec_u8(&res(), value)
}

/// Encodes the value; `None` becomes all bits set.
pub fn enc(value: Option<u8>) -> (r: u8)
    ensures
        r == slot_enc_u8(resolution(), value),
{
    enc_u8(&res(), value)
}

/// A value within the limits that is a whole number of raw steps, and whose raw form is not all
/// ones, survives encoding and decoding.
pub proof fn lemma_round_trip(v: u8)
    requires
        resolution().represents(v as int),
        resolution().encode_value(v as int) < 255,
    ensures
        slot_dec_u8(resolution(), slot_enc_u8(resolution(), Some(v))) == Some(v),
{
    super::lemma_u8_round_trip(resolution(), v);
}

} // verus!
