//! Active diagnostic trouble codes (DM1): lamp states and the first trouble code.
use vstd::prelude::*;

use crate::PDU_NOT_AVAILABLE;

verus! {

#[derive(Debug, Copy, Clone, PartialEq, Eq, Structural)]
pub enum LampStatus {
    Off,
    On,
    Error,
}

/// The lamp status in the two low bits of `value`; `0b11` is not available.
pub open spec fn lamp_status_of(value: u8) -> Option<LampStatus> {
    let v = value & 0b11;
    if v == 0 {
        Some(LampStatus::Off)
    } else if v == 1 {
        Some(LampStatus::On)
    } else if v == 2 {
        Some(LampStatus::Error)
    } else {
        None
    }
}

pub open spec fn lamp_status_bits(mode: Option<LampStatus>) -> u8 {
    match mode {
        Some(LampStatus::Off) => 0b00,
        Some(LampStatus::On) => 0b01,
        Some(LampStatus::Error) => 0b10,
        None => 0b11,
    }
}

impl LampStatus {
    /// Decodes the two low bits of `value`; the higher bits are ignored.
    pub fn from_value(value: u8) -> (r: Option<Self>)
        ensures
            r == lamp_status_of(value),
    {
        let v = value & 0b11;
        if v == 0 {
            Some(Self::Off)
        } else if v == 1 {
            Some(Self::On)
        } else if v == 2 {
            Some(Self::Error)
        } else {
            None
        }
    }

    /// Encodes a lamp status as two bits; `None` becomes `0b11`.
    pub fn to_value(mode: Option<Self>) -> (r: u8)
        ensures
            r == lamp_status_bits(mode),
            r <= 0b11,
    {
        match mode {
            Some(Self::Off) => 0b00,
            Some(Self::On) => 0b01,
            Some(Self::Error) => 0b10,
            None => 0b11,
        }
    }
}

#[derive(Debug, Copy, Clone, PartialEq, Eq, Structural)]
pub enum FlashStatus {
    Slow,
    Fast,
    Reserved,
}

/// The flash status in the two low bits of `value`; `0b11` is not available.
pub open spec fn flash_status_of(value: u8) -> Option<FlashStatus> {
    let v = value & 0b11;
    if v == 0 {
        Some(FlashStatus::Slow)
    } else if v == 1 {
        Some(FlashStatus::Fast)
    } else if v == 2 {
        Some(FlashStatus::Reserved)
    } else {
        None
    }
}

pub open spec fn flash_status_bits(mode: Option<FlashStatus>) -> u8 {
    match mode {
        Some(FlashStatus::Slow) => 0b00,
        Some(FlashStatus::Fast) => 0b01,
        Some(FlashStatus::Reserved) => 0b10,
        None => 0b11,
    }
}

impl FlashStatus {
    /// Decodes the two low bits of `value`; the higher bits are ignored.
    pub fn from_value(value: u8) -> (r: Option<Self>)
        ensures
            r == flash_status_of(value),
    {
        let v = value & 0b11;
        if v == 0 {
            Some(Self::Slow)
        } else if v == 1 {
            Some(Self::Fast)
        } else if v == 2 {
            Some(Self::Reserved)
        } else {
            None
        }
    }

    /// Encodes a flash status as two bits; `None` becomes `0b11`.
    pub fn to_value(mode: Option<Self>) -> (r: u8)
        ensures
            r == flash_status_bits(mode),
            r <= 0b11,
    {
        match mode {
            Some(Self::Slow) => 0b00,
            Some(Self::Fast) => 0b01,
            Some(Self::Reserved) => 0b10,
            None => 0b11,
        }
    }
}

pub struct Diagnostic1Message {
    pub protect_lamp: Option<LampStatus>,
    pub amber_warning_lamp: Option<LampStatus>,
    pub red_stop_lamp: Option<LampStatus>,
    pub malfunction_indicator_lamp: Option<LampStatus>,
    pub protect_lamp_flash: Option<FlashStatus>,
    pub amber_warning_lamp_flash: Option<FlashStatus>,
    pub red_stop_lamp_flash: Option<FlashStatus>,
    pub malfunction_indicator_lamp_flash: Option<FlashStatus>,
    /// Suspect parameter number, 19 bits.
    pub suspect_parameter_number: u32,
    /// Failure mode identifier, 5 bits.
    pub failure_mode_identifier: u8,
    /// SPN conversion method, 1 bit.
    pub spn_conversion_method: u8,
    /// Occurrence count, 7 bits.
    pub occurrence_count: u8,
}

/// Four two-bit fields packed into one byte, the first in the lowest bits.
pub open spec fn pack_pairs(a: u8, b: u8, c: u8, d: u8) -> u8 {
    a | (b << 2u8) | (c << 4u8) | (d << 6u8)
}

/// Suspect parameter number: bytes 2 and 3, then bits 5-7 of byte 4 as its bits 16-18.
pub open spec fn spn_of_bytes(pdu: Seq<u8>) -> u32 {
    (pdu[2] as u32) | ((pdu[3] as u32) << 8u32) | (((pdu[4] >> 5u8) as u32) << 16u32)
}

/// The message that the first six bytes of a DM1 payload carry.
pub open spec fn diagnostic_from_bytes(pdu: Seq<u8>) -> Diagnostic1Message {
    Diagnostic1Message {
        protect_lamp: lamp_status_of(pdu[0]),
        amber_warning_lamp: lamp_status_of(pdu[0] >> 2u8),
        red_stop_lamp: lamp_status_of(pdu[0] >> 4u8),
        malfunction_indicator_lamp: lamp_status_of(pdu[0] >> 6u8),
        protect_lamp_flash: flash_status_of(pdu[1]),
        amber_warning_lamp_flash: flash_status_of(pdu[1] >> 2u8),
        red_stop_lamp_flash: flash_status_of(pdu[1] >> 4u8),
        malfunction_indicator_lamp_flash: flash_status_of(pdu[1] >> 6u8),
        suspect_parameter_number: spn_of_bytes(pdu),
        failure_mode_identifier: pdu[4] & 0x1f,
        spn_conversion_method: pdu[5] >> 7u8,
        occurrence_count: pdu[5] & 0x7f,
    }
}

/// The DM1 payload of a message: numeric fields cut to their widths, the last two bytes not
/// available.
pub open spec fn diagnostic_to_bytes(m: Diagnostic1Message) -> Seq<u8> {
    seq![
        pack_pairs(
            lamp_status_bits(m.protect_lamp),
            lamp_status_bits(m.amber_warning_lamp),
            lamp_status_bits(m.red_stop_lamp),
            lamp_status_bits(m.malfunction_indicator_lamp),
        ),
        pack_pairs(
            flash_status_bits(m.protect_lamp_flash),
            flash_status_bits(m.amber_warning_lamp_flash),
            flash_status_bits(m.red_stop_lamp_flash),
            flash_status_bits(m.malfunction_indicator_lamp_flash),
        ),
        (m.suspect_parameter_number & 0xff) as u8,
        ((m.suspect_parameter_number >> 8u32) & 0xff) as u8,
        ((((m.suspect_parameter_number >> 16u32) & 0x7) as u8) << 5u8) | (m.failure_mode_identifier
            & 0x1f),
        ((m.spn_conversion_method & 0x01) << 7u8) | (m.occurrence_count & 0x7f),
        PDU_NOT_AVAILABLE,
        PDU_NOT_AVAILABLE,
    ]
}

proof fn lemma_pairs(a: u8, b: u8, c: u8, d: u8)
    requires
        a <= 3,
        b <= 3,
        c <= 3,
        d <= 3,
    ensures
        pack_pairs(a, b, c, d) & 0b11 == a,
        (pack_pairs(a, b, c, d) >> 2u8) & 0b11 == b,
        (pack_pairs(a, b, c, d) >> 4u8) & 0b11 == c,
        (pack_pairs(a, b, c, d) >> 6u8) & 0b11 == d,
{
    let p = pack_pairs(a, b, c, d);
    assert(p & 0b11 == a && (p >> 2u8) & 0b11 == b && (p >> 4u8) & 0b11 == c && (p >> 6u8) & 0b11
        == d) by (bit_vector)
        requires
            p == a | (b << 2u8) | (c << 4u8) | (d << 6u8),
            a <= 3,
            b <= 3,
            c <= 3,
            d <= 3,
    ;
}

/// Decoding the DM1 payload of a message whose numeric fields fit their widths gives the message
/// back.
pub proof fn lemma_diagnostic_round_trip(m: Diagnostic1Message)
    requires
        m.fields_in_range(),
    ensures
        diagnostic_from_bytes(diagnostic_to_bytes(m)) == m,
{
    let b = diagnostic_to_bytes(m);
    lemma_pairs(
        lamp_status_bits(m.protect_lamp),
        lamp_status_bits(m.amber_warning_lamp),
        lamp_status_bits(m.red_stop_lamp),
        lamp_status_bits(m.malfunction_indicator_lamp),
    );
    lemma_pairs(
        flash_status_bits(m.protect_lamp_flash),
        flash_status_bits(m.amber_warning_lamp_flash),
        flash_status_bits(m.red_stop_lamp_flash),
        flash_status_bits(m.malfunction_indicator_lamp_flash),
    );
    let spn = m.suspect_parameter_number;
    let fmi = m.failure_mode_identifier;
    let cm = m.spn_conversion_method;
    let oc = m.occurrence_count;
    let (b2, b3, b4, b5) = (b[2], b[3], b[4], b[5]);
    assert((b2 as u32) | ((b3 as u32) << 8u32) | (((b4 >> 5u8) as u32) << 16u32) == spn && b4 & 0x1f
        == fmi) by (bit_vector)
        requires
            spn <= 0x7ffff,
            fmi <= 0x1f,
            b2 == (spn & 0xff) as u8,
            b3 == ((spn >> 8u32) & 0xff) as u8,
            b4 == ((((spn >> 16u32) & 0x7) as u8) << 5u8) | (fmi & 0x1f),
    ;
    assert(b5 >> 7u8 == cm && b5 & 0x7f == oc) by (bit_vector)
        requires
            cm <= 1,
            oc <= 0x7f,
            b5 == ((cm & 0x01) << 7u8) | (oc & 0x7f),
    ;
    let r = diagnostic_from_bytes(b);
    assert(r.protect_lamp == m.protect_lamp);
    assert(r.malfunction_indicator_lamp_flash == m.malfunction_indicator_lamp_flash);
}

impl Diagnostic1Message {
    /// Every numeric field fits in its width on the wire.
    pub open spec fn fields_in_range(self) -> bool {
        &&& self.suspect_parameter_number <= 0x7ffff
        &&& self.failure_mode_identifier <= 0x1f
        &&& self.spn_conversion_method <= 1
        &&& self.occurrence_count <= 0x7f
    }

    /// Decodes the first six bytes of a DM1 payload: lamp states, flash states, and the first
    /// diagnostic trouble code.
    pub fn from_pdu(pdu: &[u8]) -> (r: Self)
        requires
            pdu@.len() >= 6,
        ensures
            r == diagnostic_from_bytes(pdu@),
    {
        Self {
            protect_lamp: LampStatus::from_value(pdu[0]),
            amber_warning_lamp: LampStatus::from_value(pdu[0] >> 2),
            red_stop_lamp: LampStatus::from_value(pdu[0] >> 4),
            malfunction_indicator_lamp: LampStatus::from_value(pdu[0] >> 6),
            protect_lamp_flash: FlashStatus::from_value(pdu[1]),
            amber_warning_lamp_flash: FlashStatus::from_value(pdu[1] >> 2),
            red_stop_lamp_flash: FlashStatus::from_value(pdu[1] >> 4),
            malfunction_indicator_lamp_flash: FlashStatus::from_value(pdu[1] >> 6),
            suspect_parameter_number: (pdu[2] as u32) | ((pdu[3] as u32) << 8) | (((pdu[4] >> 5) as u32)
                << 16),
            failure_mode_identifier: pdu[4] & 0x1f,
            spn_conversion_method: pdu[5] >> 7,
            occurrence_count: pdu[5] & 0x7f,
        }
    }

    /// Encodes the message as a DM1 payload; numeric fields are cut to their widths and the last
    /// two bytes are not available.
    pub fn to_pdu(&self) -> (r: [u8; 8])
        ensures
            r@ == diagnostic_to_bytes(*self),
    {
        let r = [
            LampStatus::to_value(self.protect_lamp) | LampStatus::to_value(self.amber_warning_lamp) << 2
                | LampStatus::to_value(self.red_stop_lamp) << 4 | LampStatus::to_value(
                self.malfunction_indicator_lamp,
            ) << 6,
            FlashStatus::to_value(self.protect_lamp_flash) | FlashStatus::to_value(
                self.amber_warning_lamp_flash,
            ) << 2 | FlashStatus::to_value(self.red_stop_lamp_flash) << 4 | FlashStatus::to_value(
                self.malfunction_indicator_lamp_flash,
            ) << 6,
            (self.suspect_parameter_number & 0xff) as u8,
            ((self.suspect_parameter_number >> 8) & 0xff) as u8,
            ((((self.suspect_parameter_number >> 16) & 0x7) as u8) << 5) | (self.failure_mode_identifier
                & 0x1f),
            ((self.spn_conversion_method & 0x01) << 7) | (self.occurrence_count & 0x7f),
            PDU_NOT_AVAILABLE,
            PDU_NOT_AVAILABLE,
        ];
        r
    }
}

} // verus!
