//! Temperature: 0.03125 degC per bit, offset -273 degC, -273 to 1735 degC.
use vstd::prelude::*;

use super::{dec_i16, enc_i16, slot_dec_i16, slot_enc_i16, Resolution};

verus! {

/// The transfer function, counted in units of 1/32.
pub open spec fn resolution() -> Resolution {
    Resolution { den: 32, scale: 1, offset: -8736i64, lower: -8736i64, upper: 55_520 }
}

fn res() -> (r: Resolution)
    ensures
        r == resolution(),
        r.wf(),
{
    Resolution { den: 32, scale: 1, offset: -8736i64, lower: -8736i64, upper: 55_520 }
}

/// Decodes the raw value; all bits set is not available.
pub fn dec(value: [u8; 2]) -> (r: Option<i16>)
    ensures
        r == slot_dec_i16(resolution(), value@),
{
    dec_i16(&res(), value)
}

/// Encodes the value; `None` becomes all bits set.
pub fn enc(value: Option<i16>) -> (r: [u8; 2])
    ensures
        r@ == slot_enc_i16(resolution(), value),
{
    enc_i16(&res(), value)
}

/// A value within the limits that is a whole number of raw steps, and whose raw form is not all
/// ones, survives encoding and decoding.
pub proof fn lemma_round_trip(v: i16)
    requires
        resolution().represents(v as int),
        resolution().encode_value(v as int) <= 32767,
    ensures
        slot_dec_i16(resolution(), slot_enc_i16(resolution(), Some(v))) == Some(v),
{
    super::lemma_i16_round_trip(resolution(), v);
}

} // verus!
