//! Slot codecs: the linear transfer functions that map raw parameter bytes to physical values
//! and back.
//!
//! A slot is described by a [`Resolution`]: a scale, an offset and two limits, all counted in
//! units of `1 / den` so that the arithmetic is exact on integers. Decoding scales and offsets
//! the raw value, clamps it to the limits and truncates toward zero; encoding clamps the value,
//! removes the offset and divides by the scale, truncating toward zero. A raw value with all bits
//! set means "not available".
use vstd::prelude::*;

use crate::PDU_NOT_AVAILABLE;

pub mod count;
pub mod distance;
pub mod electrical_current;
pub mod electrical_current2;
pub mod electrical_voltage;
pub mod liquid_fuel_usage;
pub mod position_level;
pub mod position_level2;
pub mod position_level3;
pub mod pressure;
pub mod pressure2;
pub mod pressure3;
pub mod pressure4;
pub mod rotational_velocity;
pub mod source_address;
pub mod temperature;
pub mod temperature2;
pub mod time;

verus! {

/// The two-bit boolean in the low bits of `value`: `0b00` is false, `0b01` is true, the rest is
/// not available.
pub open spec fn bool_of(value: u8) -> Option<bool> {
    if value & 0b11 == 0 {
        Some(false)
    } else if value & 0b11 == 1 {
        Some(true)
    } else {
        None
    }
}

pub open spec fn bool_bits(value: Option<bool>) -> u8 {
    match value {
        Some(false) => 0b00u8,
        Some(true) => 0b01u8,
        None => 0b11u8,
    }
}

/// Decodes a two-bit boolean; the higher bits are ignored.
pub fn bool_from_value(value: u8) -> (r: Option<bool>)
    ensures
        r == bool_of(value),
{
    let v = value & 0b11;
    if v == 0b00 {
        Some(false)
    } else if v == 0b01 {
        Some(true)
    } else {
        None
    }
}

/// Encodes a two-bit boolean; `None` becomes `0b11`.
pub fn bool_to_value(value: Option<bool>) -> (r: u8)
    ensures
        r == bool_bits(value),
        r <= 0b11,
{
    match value {
        Some(false) => 0b00,
        Some(true) => 0b01,
        None => 0b11,
    }
}

pub open spec fn clamp(x: int, lo: int, hi: int) -> int {
    if x < lo {
        lo
    } else if x > hi {
        hi
    } else {
        x
    }
}

/// Division that truncates toward zero.
pub open spec fn trunc_div(x: int, d: int) -> int {
    if x >= 0 {
        x / d
    } else {
        -((-x) / d)
    }
}

/// Transfer function of a slot, in units of `1 / den`: a physical value `p` stands for
/// `p * den`, one raw step is `scale` units, raw zero is `offset` units, and values are limited
/// to `lower ..= upper` units.
#[derive(Clone, Copy, Debug)]
pub struct Resolution {
    pub den: i64,
    pub scale: i64,
    pub offset: i64,
    pub lower: i64,
    pub upper: i64,
}

/// Largest raw magnitude a slot reads or writes: 32 bits.
pub const RAW_BOUND: i64 = 0x1_0000_0000;

impl Resolution {
    pub open spec fn wf(self) -> bool {
        &&& 0 < self.den <= 10_000
        &&& 0 < self.scale <= 10_000
        &&& self.offset <= self.lower <= self.upper
        &&& -0x100_0000_0000 <= self.offset
        &&& self.upper <= 0x100_0000_0000
    }

    /// The physical value of a raw value: scaled, offset, clamped, truncated toward zero.
    pub open spec fn decode_value(self, raw: int) -> int {
        trunc_div(clamp(raw * self.scale + self.offset, self.lower as int, self.upper as int), self.den as int)
    }

    /// The raw value of a physical value: clamped, offset removed, divided by the scale and
    /// truncated toward zero.
    pub open spec fn encode_value(self, v: int) -> int {
        (clamp(v * self.den, self.lower as int, self.upper as int) - self.offset) / (self.scale as int)
    }

    /// `v` lies within the limits and is a whole number of raw steps above the offset.
    pub open spec fn represents(self, v: int) -> bool {
        &&& self.lower <= v * self.den <= self.upper
        &&& (v * self.den - self.offset) % (self.scale as int) == 0
    }

    pub fn decode(&self, raw: i64) -> (r: i64)
        requires
            self.wf(),
            -RAW_BOUND <= raw <= RAW_BOUND,
        ensures
            r == self.decode_value(raw as int),
    {
        proof {
            let s = self.scale as int;
            let w = raw as int;
            assert(-0x1_0000_0000 * 10_000 <= w * s <= 0x1_0000_0000 * 10_000) by (nonlinear_arith)
                requires
                    0 < s <= 10_000,
                    -0x1_0000_0000 <= w <= 0x1_0000_0000,
            ;
        }
        let x = raw * self.scale + self.offset;
        let c = if x < self.lower {
            self.lower
        } else if x > self.upper {
            self.upper
        } else {
            x
        };
        if c >= 0 {
            c / self.den
        } else {
            -((-c) / self.den)
        }
    }

    pub fn encode(&self, v: i64) -> (r: i64)
        requires
            self.wf(),
            -RAW_BOUND <= v <= RAW_BOUND,
        ensures
            r == self.encode_value(v as int),
            r >= 0,
    {
        proof {
            let d = self.den as int;
            let w = v as int;
            assert(-0x1_0000_0000 * 10_000 <= w * d <= 0x1_0000_0000 * 10_000) by (nonlinear_arith)
                requires
                    0 < d <= 10_000,
                    -0x1_0000_0000 <= w <= 0x1_0000_0000,
            ;
        }
        let x = v * self.den;
        let c = if x < self.lower {
            self.lower
        } else if x > self.upper {
            self.upper
        } else {
            x
        };
        (c - self.offset) / self.scale
    }
}

/// Encoding a representable value and decoding the result gives the value back.
pub proof fn lemma_transfer_round_trip(res: Resolution, v: int)
    requires
        res.wf(),
        res.represents(v),
    ensures
        res.decode_value(res.encode_value(v)) == v,
        res.encode_value(v) >= 0,
{
    let d = res.den as int;
    let s = res.scale as int;
    let y = v * d - res.offset;
    assert(clamp(v * d, res.lower as int, res.upper as int) == v * d);
    let e = y / s;
    assert(y == s * e) by {
        vstd::arithmetic::div_mod::lemma_fundamental_div_mod(y, s);
    }
    assert(e >= 0) by {
        vstd::arithmetic::div_mod::lemma_div_pos_is_pos(y, s);
    }
    assert(e * s == s * e) by {
        vstd::arithmetic::mul::lemma_mul_is_commutative(e, s);
    }
    assert(e * s + res.offset == v * d);
    if v >= 0 {
        vstd::arithmetic::div_mod::lemma_div_by_multiple(v, d);
        assert(v * d >= 0) by (nonlinear_arith)
            requires
                v >= 0,
                d > 0,
        ;
    } else {
        vstd::arithmetic::div_mod::lemma_div_by_multiple(-v, d);
        assert(v * d < 0 && -(v * d) == (-v) * d) by (nonlinear_arith)
            requires
                v < 0,
                d > 0,
        ;
    }
}

/// Little-endian unsigned value of two bytes.
pub open spec fn le_u16(b: Seq<u8>) -> int {
    b[0] as int + 256 * b[1] as int
}

/// Little-endian two's complement value of two bytes.
pub open spec fn le_i16(b: Seq<u8>) -> int {
    if b[1] >= 128 {
        le_u16(b) - 65536
    } else {
        le_u16(b)
    }
}

/// Little-endian unsigned value of four bytes.
pub open spec fn le_u32(b: Seq<u8>) -> int {
    b[0] as int + 256 * b[1] as int + 65536 * b[2] as int + 16777216 * b[3] as int
}

/// The two little-endian bytes of `x`, taken modulo 2^16 (two's complement for negatives).
pub open spec fn le_bytes16(x: int) -> Seq<u8> {
    let u = if x < 0 { x + 65536 } else { x };
    seq![(u % 256) as u8, (u / 256) as u8]
}

/// The four little-endian bytes of `x`, for `0 <= x < 2^32`.
pub open spec fn le_bytes32(x: int) -> Seq<u8> {
    seq![(x % 256) as u8, ((x / 256) % 256) as u8, ((x / 65536) % 256) as u8, (x / 16777216) as u8]
}

/// A one-byte slot read as an unsigned byte.
pub open spec fn slot_dec_u8(res: Resolution, value: u8) -> Option<u8> {
    if value == PDU_NOT_AVAILABLE {
        None
    } else {
        Some(clamp(res.decode_value(value as int), 0, 255) as u8)
    }
}

pub open spec fn slot_enc_u8(res: Resolution, value: Option<u8>) -> u8 {
    match value {
        None => PDU_NOT_AVAILABLE,
        Some(v) => clamp(res.encode_value(v as int), 0, 255) as u8,
    }
}

/// A one-byte slot read as a signed byte.
pub open spec fn slot_dec_i8(res: Resolution, value: u8) -> Option<i8> {
    if value == PDU_NOT_AVAILABLE {
        None
    } else {
        Some(clamp(res.decode_value(value as int), -128, 127) as i8)
    }
}

pub open spec fn slot_enc_i8(res: Resolution, value: Option<i8>) -> u8 {
    match value {
        None => PDU_NOT_AVAILABLE,
        Some(v) => clamp(res.encode_value(v as int), 0, 255) as u8,
    }
}

/// A two-byte slot with an unsigned raw value.
pub open spec fn slot_dec_u16(res: Resolution, value: Seq<u8>) -> Option<u16> {
    if value == seq![PDU_NOT_AVAILABLE, PDU_NOT_AVAILABLE] {
        None
    } else {
        Some(clamp(res.decode_value(le_u16(value)), 0, 65535) as u16)
    }
}

pub open spec fn slot_enc_u16(res: Resolution, value: Option<u16>) -> Seq<u8> {
    match value {
        None => seq![PDU_NOT_AVAILABLE, PDU_NOT_AVAILABLE],
        Some(v) => le_bytes16(clamp(res.encode_value(v as int), 0, 65535)),
    }
}

/// A two-byte slot with a signed raw value.
pub open spec fn slot_dec_i16(res: Resolution, value: Seq<u8>) -> Option<i16> {
    if value == seq![PDU_NOT_AVAILABLE, PDU_NOT_AVAILABLE] {
        None
    } else {
        Some(clamp(res.decode_value(le_i16(value)), -32768, 32767) as i16)
    }
}

pub open spec fn slot_enc_i16(res: Resolution, value: Option<i16>) -> Seq<u8> {
    match value {
        None => seq![PDU_NOT_AVAILABLE, PDU_NOT_AVAILABLE],
        Some(v) => le_bytes16(clamp(res.encode_value(v as int), -32768, 32767)),
    }
}

/// A four-byte slot with an unsigned raw value.
pub open spec fn slot_dec_u32(res: Resolution, value: Seq<u8>) -> Option<u32> {
    if value == seq![PDU_NOT_AVAILABLE, PDU_NOT_AVAILABLE, PDU_NOT_AVAILABLE, PDU_NOT_AVAILABLE] {
        None
    } else {
        Some(clamp(res.decode_value(le_u32(value)), 0, 0xffff_ffff) as u32)
    }
}

pub open spec fn slot_enc_u32(res: Resolution, value: Option<u32>) -> Seq<u8> {
    match value {
        None => seq![PDU_NOT_AVAILABLE, PDU_NOT_AVAILABLE, PDU_NOT_AVAILABLE, PDU_NOT_AVAILABLE],
        Some(v) => le_bytes32(clamp(res.encode_value(v as int), 0, 0xffff_ffff)),
    }
}

fn saturate(x: i64, lo: i64, hi: i64) -> (r: i64)
    requires
        lo <= hi,
    ensures
        r == clamp(x as int, lo as int, hi as int),
{
    if x < lo {
        lo
    } else if x > hi {
        hi
    } else {
        x
    }
}

pub fn dec_u8(res: &Resolution, value: u8) -> (r: Option<u8>)
    requires
        res.wf(),
    ensures
        r == slot_dec_u8(*res, value),
{
    if value == PDU_NOT_AVAILABLE {
        return None;
    }
    Some(saturate(res.decode(value as i64), 0, 255) as u8)
}

pub fn enc_u8(res: &Resolution, value: Option<u8>) -> (r: u8)
    requires
        res.wf(),
    ensures
        r == slot_enc_u8(*res, value),
{
    match value {
        None => PDU_NOT_AVAILABLE,
        Some(v) => saturate(res.encode(v as i64), 0, 255) as u8,
    }
}

pub fn dec_i8(res: &Resolution, value: u8) -> (r: Option<i8>)
    requires
        res.wf(),
    ensures
        r == slot_dec_i8(*res, value),
{
    if value == PDU_NOT_AVAILABLE {
        return None;
    }
    Some(saturate(res.decode(value as i64), -128, 127) as i8)
}

pub fn enc_i8(res: &Resolution, value: Option<i8>) -> (r: u8)
    requires
        res.wf(),
    ensures
        r == slot_enc_i8(*res, value),
{
    match value {
        None => PDU_NOT_AVAILABLE,
        Some(v) => saturate(res.encode(v as i64), 0, 255) as u8,
    }
}

fn u16_to_le(x: i64) -> (r: [u8; 2])
    requires
        -32768 <= x <= 65535,
    ensures
        r@ == le_bytes16(x as int),
{
    let u = if x < 0 { x + 65536 } else { x };
    let r = [(u % 256) as u8, (u / 256) as u8];
    assert(r@ =~= le_bytes16(x as int));
    r
}

pub fn dec_u16(res: &Resolution, value: [u8; 2]) -> (r: Option<u16>)
    requires
        res.wf(),
    ensures
        r == slot_dec_u16(*res, value@),
{
    if value[0] == PDU_NOT_AVAILABLE && value[1] == PDU_NOT_AVAILABLE {
        assert(value@ =~= seq![PDU_NOT_AVAILABLE, PDU_NOT_AVAILABLE]);
        return None;
    }
    let raw = value[0] as i64 + 256 * value[1] as i64;
    Some(saturate(res.decode(raw), 0, 65535) as u16)
}

pub fn enc_u16(res: &Resolution, value: Option<u16>) -> (r: [u8; 2])
    requires
        res.wf(),
    ensures
        r@ == slot_enc_u16(*res, value),
{
    match value {
        None => {
            let r = [PDU_NOT_AVAILABLE, PDU_NOT_AVAILABLE];
            assert(r@ =~= seq![PDU_NOT_AVAILABLE, PDU_NOT_AVAILABLE]);
            r
        },
        Some(v) => u16_to_le(saturate(res.encode(v as i64), 0, 65535)),
    }
}

pub fn dec_i16(res: &Resolution, value: [u8; 2]) -> (r: Option<i16>)
    requires
        res.wf(),
    ensures
        r == slot_dec_i16(*res, value@),
{
    if value[0] == PDU_NOT_AVAILABLE && value[1] == PDU_NOT_AVAILABLE {
        assert(value@ =~= seq![PDU_NOT_AVAILABLE, PDU_NOT_AVAILABLE]);
        return None;
    }
    let unsigned = value[0] as i64 + 256 * value[1] as i64;
    let raw = if value[1] >= 128 { unsigned - 65536 } else { unsigned };
    Some(saturate(res.decode(raw), -32768, 32767) as i16)
}

pub fn enc_i16(res: &Resolution, value: Option<i16>) -> (r: [u8; 2])
    requires
        res.wf(),
    ensures
        r@ == slot_enc_i16(*res, value),
{
    match value {
        None => {
            let r = [PDU_NOT_AVAILABLE, PDU_NOT_AVAILABLE];
            assert(r@ =~= seq![PDU_NOT_AVAILABLE, PDU_NOT_AVAILABLE]);
            r
        },
        Some(v) => u16_to_le(saturate(res.encode(v as i64), -32768, 32767)),
    }
}

pub fn dec_u32(res: &Resolution, value: [u8; 4]) -> (r: Option<u32>)
    requires
        res.wf(),
    ensures
        r == slot_dec_u32(*res, value@),
{
    if value[0] == PDU_NOT_AVAILABLE && value[1] == PDU_NOT_AVAILABLE && value[2] == PDU_NOT_AVAILABLE
        && value[3] == PDU_NOT_AVAILABLE {
        assert(value@ =~= seq![PDU_NOT_AVAILABLE, PDU_NOT_AVAILABLE, PDU_NOT_AVAILABLE, PDU_NOT_AVAILABLE]);
        return None;
    }
    let raw = value[0] as i64 + 256 * value[1] as i64 + 65536 * value[2] as i64 + 16777216
        * value[3] as i64;
    Some(saturate(res.decode(raw), 0, 0xffff_ffff) as u32)
}

pub fn enc_u32(res: &Resolution, value: Option<u32>) -> (r: [u8; 4])
    requires
        res.wf(),
    ensures
        r@ == slot_enc_u32(*res, value),
{
    match value {
        None => {
            let r = [PDU_NOT_AVAILABLE, PDU_NOT_AVAILABLE, PDU_NOT_AVAILABLE, PDU_NOT_AVAILABLE];
            assert(r@ =~= seq![PDU_NOT_AVAILABLE, PDU_NOT_AVAILABLE, PDU_NOT_AVAILABLE, PDU_NOT_AVAILABLE]);
            r
        },
        Some(v) => {
            let x = saturate(res.encode(v as i64), 0, 0xffff_ffff);
            let r = [(x % 256) as u8, ((x / 256) % 256) as u8, ((x / 65536) % 256) as u8, (x / 16777216) as u8];
            assert(r@ =~= le_bytes32(x as int));
            r
        },
    }
}

/// A one-byte slot read as unsigned: a representable value whose raw form is not the
/// not-available byte survives encoding and decoding; `None` encodes to the not-available byte,
/// which decodes to `None`.
pub proof fn lemma_u8_round_trip(res: Resolution, v: u8)
    requires
        res.wf(),
        res.represents(v as int),
        res.encode_value(v as int) < 255,
    ensures
        slot_dec_u8(res, slot_enc_u8(res, Some(v))) == Some(v),
        slot_enc_u8(res, None) == PDU_NOT_AVAILABLE,
        slot_dec_u8(res, PDU_NOT_AVAILABLE) is None,
{
    lemma_transfer_round_trip(res, v as int);
}

/// A one-byte slot read as signed: as for the unsigned one.
pub proof fn lemma_i8_round_trip(res: Resolution, v: i8)
    requires
        res.wf(),
        res.represents(v as int),
        res.encode_value(v as int) < 255,
    ensures
        slot_dec_i8(res, slot_enc_i8(res, Some(v))) == Some(v),
        slot_enc_i8(res, None) == PDU_NOT_AVAILABLE,
        slot_dec_i8(res, PDU_NOT_AVAILABLE) is None,
{
    lemma_transfer_round_trip(res, v as int);
}

proof fn lemma_le_bytes16(x: int)
    requires
        0 <= x < 65536,
    ensures
        le_u16(le_bytes16(x)) == x,
        le_bytes16(x)[1] == x / 256,
{
    vstd::arithmetic::div_mod::lemma_fundamental_div_mod(x, 256);
}

/// A two-byte unsigned slot: a representable value whose raw form is not all ones survives
/// encoding and decoding; `None` and the all-ones bytes map to each other.
pub proof fn lemma_u16_round_trip(res: Resolution, v: u16)
    requires
        res.wf(),
        res.represents(v as int),
        res.encode_value(v as int) < 65535,
    ensures
        slot_dec_u16(res, slot_enc_u16(res, Some(v))) == Some(v),
        slot_enc_u16(res, None) == seq![PDU_NOT_AVAILABLE, PDU_NOT_AVAILABLE],
        slot_dec_u16(res, seq![PDU_NOT_AVAILABLE, PDU_NOT_AVAILABLE]) is None,
{
    lemma_transfer_round_trip(res, v as int);
    let e = res.encode_value(v as int);
    lemma_le_bytes16(e);
    let b = le_bytes16(e);
    if b == seq![PDU_NOT_AVAILABLE, PDU_NOT_AVAILABLE] {
        assert(b[0] == 255 && b[1] == 255);
        assert(false);
    }
}

/// A two-byte signed slot: a representable value whose raw form is not all ones survives
/// encoding and decoding; `None` and the all-ones bytes map to each other.
pub proof fn lemma_i16_round_trip(res: Resolution, v: i16)
    requires
        res.wf(),
        res.represents(v as int),
        res.encode_value(v as int) <= 32767,
    ensures
        slot_dec_i16(res, slot_enc_i16(res, Some(v))) == Some(v),
        slot_enc_i16(res, None) == seq![PDU_NOT_AVAILABLE, PDU_NOT_AVAILABLE],
        slot_dec_i16(res, seq![PDU_NOT_AVAILABLE, PDU_NOT_AVAILABLE]) is None,
{
    lemma_transfer_round_trip(res, v as int);
    let e = res.encode_value(v as int);
    lemma_le_bytes16(e);
    let b = le_bytes16(e);
    if b == seq![PDU_NOT_AVAILABLE, PDU_NOT_AVAILABLE] {
        assert(b[0] == 255 && b[1] == 255);
        assert(false);
    }
}

proof fn lemma_le_bytes32(x: int)
    requires
        0 <= x < 0x1_0000_0000,
    ensures
        le_u32(le_bytes32(x)) == x,
{
    let q1 = x / 256;
    let q2 = x / 65536;
    let q3 = x / 16777216;
    vstd::arithmetic::div_mod::lemma_fundamental_div_mod(x, 256);
    vstd::arithmetic::div_mod::lemma_fundamental_div_mod(q1, 256);
    vstd::arithmetic::div_mod::lemma_fundamental_div_mod(q2, 256);
    vstd::arithmetic::div_mod::lemma_div_denominator(x, 256, 256);
    vstd::arithmetic::div_mod::lemma_div_denominator(x, 65536, 256);
    assert(q1 / 256 == q2);
    assert(q2 / 256 == q3);
    vstd::arithmetic::div_mod::lemma_div_pos_is_pos(x, 16777216);
    assert(q3 < 256) by {
        vstd::arithmetic::div_mod::lemma_div_is_ordered(x, 0xffff_ffff, 16777216);
    }
}

/// A four-byte unsigned slot: a representable value whose raw form is not all ones survives
/// encoding and decoding; `None` and the all-ones bytes map to each other.
pub proof fn lemma_u32_round_trip(res: Resolution, v: u32)
    requires
        res.wf(),
        res.represents(v as int),
        res.encode_value(v as int) < 0xffff_ffff,
    ensures
        slot_dec_u32(res, slot_enc_u32(res, Some(v))) == Some(v),
        slot_enc_u32(res, None) == seq![
            PDU_NOT_AVAILABLE,
            PDU_NOT_AVAILABLE,
            PDU_NOT_AVAILABLE,
            PDU_NOT_AVAILABLE,
        ],
        slot_dec_u32(
            res,
            seq![PDU_NOT_AVAILABLE, PDU_NOT_AVAILABLE, PDU_NOT_AVAILABLE, PDU_NOT_AVAILABLE],
        ) is None,
{
    lemma_transfer_round_trip(res, v as int);
    let e = res.encode_value(v as int);
    lemma_le_bytes32(e);
    let b = le_bytes32(e);
    if b == seq![PDU_NOT_AVAILABLE, PDU_NOT_AVAILABLE, PDU_NOT_AVAILABLE, PDU_NOT_AVAILABLE] {
        assert(le_u32(b) == 0xffff_ffff);
        assert(false);
    }
}

} // verus!
