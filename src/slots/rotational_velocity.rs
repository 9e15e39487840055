//! Rotational velocity: 0.125 rpm per bit, 0 to 8031.875 rpm.
use vstd::prelude::*;

use super::{dec_u16, enc_u16, slot_dec_u16, slot_enc_u16, Resolution};

verus! {

/// The transfer function, counted in units of 1/8.
pub open spec fn resolution() -> Resolution {
    Resolution { den: 8, scale: 1, offset: 0, lower: 0, upper: 64_255 }
}

fn res() -> (r: Resolution)
    ensures
        r == resolution(),
        r.wf(),
{
    Resolution { den: 8, scale: 1, offset: 0, lower: 0, upper: 64_255 }
}

/// Decodes the raw value; all bits set is not available.
pub fn dec(value: [u8; 2]) -> (r: Option<u16>)
    ensures
        r == slot_dec_u16(resolution(), value@),
{
    dec_u16(&res(), value)
}

/// Encodes the value; `None` becomes all bits set.
pub fn enc(value: Option<u16>) -> (r: [u8; 2])
    ensures
        r@ == slot_enc_u16(resolution(), value),
{
    enc_u16(&res(), value)
}

/// A value within the limits that is a whole number of raw steps, and whose raw form is not all
/// ones, survives encoding and decoding.
pub proof fn lemma_round_trip(v: u16)
    requires
        resolution().represents(v as int),
        resolution().encode_value(v as int) < 65535,
    ensures
        slot_dec_u16(resolution(), slot_enc_u16(resolution(), Some(v))) == Some(v),
{
    super::lemma_u16_round_trip(resolution(), v);
}

} // verus!
