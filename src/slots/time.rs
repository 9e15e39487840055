//! Time: 0.05 h per bit, 0 to 210554060.75 h.
use vstd::prelude::*;

use super::{dec_u32, enc_u32, slot_dec_u32, slot_enc_u32, Resolution};

verus! {

/// The transfer function, counted in units of 1/20.
pub open spec fn resolution() -> Resolution {
    Resolution { den: 20, scale: 1, offset: 0, lower: 0, upper: 4_211_081_215 }
}

fn res() -> (r: Resolution)
    ensures
        r == resolution(),
        r.wf(),
{
    Resolution { den: 20, scale: 1, offset: 0, lower: 0, upper: 4_211_081_215 }
}

/// Decodes the raw value; all bits set is not available.
pub fn dec(value: [u8; 4]) -> (r: Option<u32>)
    ensures
        r == slot_dec_u32(resolution(), value@),
{
    dec_u32(&res(), value)
}

/// Encodes the value; `None` becomes all bits set.
pub fn enc(value: Option<u32>) -> (r: [u8; 4])
    ensures
        r@ == slot_enc_u32(resolution(), value),
{
    enc_u32(&res(), value)
}

/// A value within the limits that is a whole number of raw steps, and whose raw form is not all
/// ones, survives encoding and decoding.
pub proof fn lemma_round_trip(v: u32)
    requires
        resolution().represents(v as int),
        resolution().encode_value(v as int) < 0xffff_ffff,
    ensures
        slot_dec_u32(resolution(), slot_enc_u32(resolution(), Some(v))) == Some(v),
{
    super::lemma_u32_round_trip(resolution(), v);
}

} // verus!
