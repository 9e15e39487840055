//! Electrical current: 1 A per bit, offset -125 A, -125 to 125 A.
use vstd::prelude::*;

use super::{dec_i8, enc_i8, slot_dec_i8, slot_enc_i8, Resolution};

verus! {

/// The transfer function, counted in whole units.
pub open spec fn resolution() -> Resolution {
    Resolution { den: 1, scale: 1, offset: -125i64, lower: -125i64, upper: 125 }
}

fn res() -> (r: Resolution)
    ensures
        r == resolution(),
        r.wf(),
{
    Resolution { den: 1, scale: 1, offset: -125i64, lower: -125i64, upper: 125 }
}

/// Decodes the raw value; all bits set is not available.
pub fn dec(value: u8) -> (r: Option<i8>)
    ensures
        r == slot_dec_i8(resolution(), value),
{
    dec_i8(&res(), value)
}

/// Encodes the value; `None` becomes all bits set.
pub fn enc(value: Option<i8>) -> (r: u8)
    ensures
        r == slot_enc_i8(resolution(), value),
{
    enc_i8(&res(), value)
}

/// A value within the limits that is a whole number of raw steps, and whose raw form is not all
/// ones, survives encoding and decoding.
pub proof fn lemma_round_trip(v: i8)
    requires
        resolution().represents(v as int),
        resolution().encode_value(v as int) < 255,
    ensures
        slot_dec_i8(resolution(), slot_enc_i8(resolution(), Some(v))) == Some(v),
{
    super::lemma_i8_round_trip(resolution(), v);
}

} // verus!
