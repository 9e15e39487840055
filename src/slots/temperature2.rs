//! Temperature: 1 degC per bit, offset -40 degC, -40 to 127.5 degC.
use vstd::prelude::*;

use super::{dec_i8, enc_i8, slot_dec_i8, slot_enc_i8, Resolution};

verus! {

/// The transfer function, counted in units of 1/2.
pub open spec fn resolution() -> Resolution {
    Resolution { den: 2, scale: 2, offset: -80i64, lower: -80i64, upper: 255 }
}

fn res() -> (r: Resolution)
    ensures
        r == resolution(),
        r.wf(),
{
    Resolution { den: 2, scale: 2, offset: -80i64, lower: -80i64, upper: 255 }
}

/// Decodes the raw value; all bits set is not available.
pub fn dec(value: u8) -> (r: Option<i8>)
    ensures
        r == slot_dec_i8(resolution(), value),
{
    dec_i8(&res(), value)
}

/// Encodes the value; `None` becomes all bits set.
pub fn enc(value: Option<i8>) -> (r: u8)
    ensures
        r == slot_enc_i8(resolution(), value),
{
    enc_i8(&res(), value)
}

/// A value within the limits that is a whole number of raw steps, and whose raw form is not all
/// ones, survives encoding and decoding.
pub proof fn lemma_round_trip(v: i8)
    requires
        resolution().represents(v as int),
        resolution().encode_value(v as int) < 255,
    ensures
        slot_dec_i8(resolution(), slot_enc_i8(resolution(), Some(v))) == Some(v),
{
    super::lemma_i8_round_trip(resolution(), v);
}

} // verus!
