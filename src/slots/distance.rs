//! Distance: 0.125 km per bit, 0 to 526385151.9 km.
use vstd::prelude::*;

use super::{dec_u32, enc_u32, slot_dec_u32, slot_enc_u32, Resolution};

verus! {

/// The transfer function, counted in units of 1/40.
pub open spec fn resolution() -> Resolution {
    Resolution { den: 40, scale: 5, offset: 0, lower: 0, upper: 21_055_406_076 }
}

fn res() -> (r: Resolution)
    ensures
        r == resolution(),
        r.wf(),
{
    Resolution { den: 40, scale: 5, offset: 0, lower: 0, upper: 21_055_406_076 }
}

/// Decodes the raw value; all bits set is not available.
pub fn dec(value: [u8; 4]) -> (r: Option<u32>)
    ensures
        r == slot_dec_u32(resolution(), value@),
{
    dec_u32(&res(), value)
}

/// Encodes the value; `None` becomes all bits set.
pub fn enc(value: Option<u32>) -> (r: [u8; 4])
    ensures
        r@ == slot_enc_u32(resolution(), value),
{
    enc_u32(&res(), value)
}

/// A value within the limits that is a whole number of raw steps, and whose raw form is not all
/// ones, survives encoding and decoding.
pub proof fn lemma_round_trip(v: u32)
    requires
        resolution().represents(v as int),
        resolution().encode_value(v as int) < 0xffff_ffff,
    ensures
        slot_dec_u32(resolution(), slot_enc_u32(resolution(), Some(v))) == Some(v),
{
    super::lemma_u32_round_trip(resolution(), v);
}

} // verus!
