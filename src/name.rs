//! The 64-bit NAME that identifies an ECU during address claiming.
use vstd::prelude::*;

use crate::PDU_MAX_LENGTH;

verus! {

#[derive(PartialEq, Eq, Debug, Clone, Copy, Structural)]
pub struct Name {
    /// Identity number, 21 bits.
    pub identity_number: u32,
    /// Manufacturer code, 11 bits.
    pub manufacturer_code: u16,
    /// Function instance, 5 bits.
    pub function_instance: u8,
    /// ECU instance, 3 bits.
    pub ecu_instance: u8,
    /// Function.
    pub function: u8,
    /// Vehicle system, 7 bits.
    pub vehicle_system: u8,
    /// Vehicle system instance, 4 bits.
    pub vehicle_system_instance: u8,
    /// Industry group, 3 bits.
    pub industry_group: u8,
    /// Arbitrary address capable.
    pub arbitrary_address: bool,
}

/// The eight wire bytes of a NAME, little-endian: identity number in bits 0-20, manufacturer code
/// in bits 21-31, ECU instance in bits 32-34, function instance in bits 35-39, function in bits
/// 40-47, bit 48 reserved (written as zero), vehicle system in bits 49-55, vehicle system instance
/// in bits 56-59, industry group in bits 60-62 and the arbitrary address bit in bit 63, as SAE
/// J1939-81 lays it out. Each field is cut to its width.
pub open spec fn name_to_bytes(n: Name) -> Seq<u8> {
    seq![
        (n.identity_number & 0xff) as u8,
        ((n.identity_number >> 8u32) & 0xff) as u8,
        (((n.identity_number >> 16u32) & 0x1f) as u8) | (((n.manufacturer_code & 0x7) as u8) << 5u8),
        ((n.manufacturer_code >> 3u16) & 0xff) as u8,
        ((n.function_instance & 0x1f) << 3u8) | (n.ecu_instance & 0x7),
        n.function,
        (n.vehicle_system & 0x7f) << 1u8,
        (n.vehicle_system_instance & 0xf) | ((n.industry_group & 0x7) << 4u8) | (if n.arbitrary_address {
            0x80u8
        } else {
            0u8
        }),
    ]
}

/// The NAME that eight wire bytes carry; the reserved bit 48 is ignored.
pub open spec fn name_from_bytes(b: Seq<u8>) -> Name {
    Name {
        identity_number: (b[0] as u32) | ((b[1] as u32) << 8u32) | (((b[2] & 0x1f) as u32) << 16u32),
        manufacturer_code: ((b[2] >> 5u8) as u16) | ((b[3] as u16) << 3u16),
        function_instance: b[4] >> 3u8,
        ecu_instance: b[4] & 0x7,
        function: b[5],
        vehicle_system: b[6] >> 1u8,
        vehicle_system_instance: b[7] & 0xf,
        industry_group: (b[7] >> 4u8) & 0x7,
        arbitrary_address: b[7] >> 7u8 != 0,
    }
}

impl Name {
    /// Every field fits in its width on the wire.
    pub open spec fn fields_in_range(self) -> bool {
        &&& self.identity_number <= 0x1fffff
        &&& self.manufacturer_code <= 0x7ff
        &&& self.function_instance <= 0x1f
        &&& self.ecu_instance <= 0x7
        &&& self.vehicle_system <= 0x7f
        &&& self.vehicle_system_instance <= 0xf
        &&& self.industry_group <= 0x7
    }

    /// The NAME as eight little-endian wire bytes.
    pub fn to_bytes(self) -> (r: [u8; PDU_MAX_LENGTH])
        ensures
            r@ == name_to_bytes(self),
    {
        let aac: u8 = if self.arbitrary_address { 0x80 } else { 0 };
        let r = [
            (self.identity_number & 0xff) as u8,
            ((self.identity_number >> 8) & 0xff) as u8,
            (((self.identity_number >> 16) & 0x1f) as u8) | (((self.manufacturer_code & 0x7) as u8) << 5),
            ((self.manufacturer_code >> 3) & 0xff) as u8,
            ((self.function_instance & 0x1f) << 3) | (self.ecu_instance & 0x7),
            self.function,
            (self.vehicle_system & 0x7f) << 1,
            (self.vehicle_system_instance & 0xf) | ((self.industry_group & 0x7) << 4) | aac,
        ];
        assert(r@ =~= name_to_bytes(self));
        r
    }

    /// The NAME carried by eight little-endian wire bytes.
    pub fn from_bytes(bytes: [u8; PDU_MAX_LENGTH]) -> (r: Self)
        ensures
            r == name_from_bytes(bytes@),
            r.fields_in_range(),
    {
        let b = bytes;
        let r = Name {
            identity_number: (b[0] as u32) | ((b[1] as u32) << 8) | (((b[2] & 0x1f) as u32) << 16),
            manufacturer_code: ((b[2] >> 5) as u16) | ((b[3] as u16) << 3),
            function_instance: b[4] >> 3,
            ecu_instance: b[4] & 0x7,
            function: b[5],
            vehicle_system: b[6] >> 1u8,
            vehicle_system_instance: b[7] & 0xf,
            industry_group: (b[7] >> 4) & 0x7,
            arbitrary_address: b[7] >> 7 != 0,
        };
        proof {
            lemma_from_bytes_in_range(bytes@);
        }
        r
    }
}

/// A NAME read from wire bytes has every field within its width.
pub proof fn lemma_from_bytes_in_range(b: Seq<u8>)
    requires
        b.len() == 8,
    ensures
        name_from_bytes(b).fields_in_range(),
{
    let (b0, b1, b2, b3, b4, b6, b7) = (b[0], b[1], b[2], b[3], b[4], b[6], b[7]);
    assert((b0 as u32) | ((b1 as u32) << 8u32) | (((b2 & 0x1f) as u32) << 16u32) <= 0x1fffff)
        by (bit_vector);
    assert(((b2 >> 5u8) as u16) | ((b3 as u16) << 3u16) <= 0x7ff) by (bit_vector);
    assert(b4 >> 3u8 <= 0x1f && b4 & 0x7 <= 7 && b6 >> 1u8 <= 0x7f && b7 & 0xf <= 0xf
        && (b7 >> 4u8) & 0x7 <= 7) by (bit_vector);
}

/// Reading back the wire bytes of a NAME whose fields fit their widths gives that NAME.
pub proof fn lemma_name_round_trip(n: Name)
    requires
        n.fields_in_range(),
    ensures
        name_from_bytes(name_to_bytes(n)) == n,
{
    let id = n.identity_number;
    let mc = n.manufacturer_code;
    let fi = n.function_instance;
    let ecu = n.ecu_instance;
    let vs = n.vehicle_system;
    let vsi = n.vehicle_system_instance;
    let ig = n.industry_group;
    let aac: u8 = if n.arbitrary_address { 0x80u8 } else { 0u8 };
    let b = name_to_bytes(n);
    let b0 = (id & 0xff) as u8;
    let b1 = ((id >> 8u32) & 0xff) as u8;
    let b2 = (((id >> 16u32) & 0x1f) as u8) | (((mc & 0x7) as u8) << 5u8);
    let b3 = ((mc >> 3u16) & 0xff) as u8;
    let b4 = ((fi & 0x1f) << 3u8) | (ecu & 0x7);
    let b7 = (vsi & 0xf) | ((ig & 0x7) << 4u8) | aac;
    assert((b0 as u32) | ((b1 as u32) << 8u32) | (((b2 & 0x1f) as u32) << 16u32) == id) by (bit_vector)
        requires
            id <= 0x1fffff,
            b0 == (id & 0xff) as u8,
            b1 == ((id >> 8u32) & 0xff) as u8,
            b2 == (((id >> 16u32) & 0x1f) as u8) | (((mc & 0x7) as u8) << 5u8),
    ;
    assert(((b2 >> 5u8) as u16) | ((b3 as u16) << 3u16) == mc) by (bit_vector)
        requires
            mc <= 0x7ff,
            b2 == (((id >> 16u32) & 0x1f) as u8) | (((mc & 0x7) as u8) << 5u8),
            b3 == ((mc >> 3u16) & 0xff) as u8,
    ;
    assert(b4 >> 3u8 == fi && b4 & 0x7 == ecu) by (bit_vector)
        requires
            fi <= 0x1f,
            ecu <= 0x7,
            b4 == ((fi & 0x1f) << 3u8) | (ecu & 0x7),
    ;
    assert(((vs & 0x7f) << 1u8) >> 1u8 == vs) by (bit_vector)
        requires
            vs <= 0x7f,
    ;
    assert(b7 & 0xf == vsi && (b7 >> 4u8) & 0x7 == ig && (b7 >> 7u8 != 0) == (aac == 0x80u8))
        by (bit_vector)
        requires
            vsi <= 0xf,
            ig <= 0x7,
            aac == 0x80u8 || aac == 0u8,
            b7 == (vsi & 0xf) | ((ig & 0x7) << 4u8) | aac,
    ;
    assert(name_from_bytes(b) == n);
}

/// Writing out a NAME read from wire bytes gives those bytes back, when the reserved bit 48 is
/// clear.
pub proof fn lemma_bytes_round_trip(b: Seq<u8>)
    requires
        b.len() == 8,
        b[6] & 1 == 0,
    ensures
        name_to_bytes(name_from_bytes(b)) == b,
{
    let n = name_from_bytes(b);
    let (b0, b1, b2, b3, b4, b6, b7) = (b[0], b[1], b[2], b[3], b[4], b[6], b[7]);
    let id = n.identity_number;
    let mc = n.manufacturer_code;
    assert((id & 0xff) as u8 == b0 && ((id >> 8u32) & 0xff) as u8 == b1 && (((id >> 16u32) & 0x1f) as u8)
        | (((mc & 0x7) as u8) << 5u8) == b2 && ((mc >> 3u16) & 0xff) as u8 == b3) by (bit_vector)
        requires
            id == (b0 as u32) | ((b1 as u32) << 8u32) | (((b2 & 0x1f) as u32) << 16u32),
            mc == ((b2 >> 5u8) as u16) | ((b3 as u16) << 3u16),
    ;
    assert((((b4 >> 3u8) & 0x1f) << 3u8) | ((b4 & 0x7) & 0x7) == b4) by (bit_vector);
    assert(b6 & 1 == 0 ==> ((b6 >> 1u8) & 0x7f) << 1u8 == b6) by (bit_vector);
    assert(((b7 & 0xf) & 0xf) | ((((b7 >> 4u8) & 0x7) & 0x7) << 4u8) | (if b7 >> 7u8 != 0 {
        0x80u8
    } else {
        0u8
    }) == b7) by (bit_vector);
    assert(name_to_bytes(n) =~= b);
}

/// Builder of a NAME; every setter cuts its value to the field's width.
pub struct NameBuilder {
    identity_number: u32,
    manufacturer_code: u16,
    function_instance: u8,
    ecu_instance: u8,
    function: u8,
    vehicle_system: u8,
    vehicle_system_instance: u8,
    industry_group: u8,
    arbitrary_address: bool,
}

/// The NAME that the builder will build.
impl View for NameBuilder {
    type V = Name;

    closed spec fn view(&self) -> Name {
        Name {
            identity_number: self.identity_number,
            manufacturer_code: self.manufacturer_code,
            function_instance: self.function_instance,
            ecu_instance: self.ecu_instance,
            function: self.function,
            vehicle_system: self.vehicle_system,
            vehicle_system_instance: self.vehicle_system_instance,
            industry_group: self.industry_group,
            arbitrary_address: self.arbitrary_address,
        }
    }
}

impl Default for NameBuilder {
    fn default() -> (r: Self)
        ensures
            r@ == (Name {
                identity_number: 0,
                manufacturer_code: 0,
                function_instance: 0,
                ecu_instance: 0,
                function: 0,
                vehicle_system: 0,
                vehicle_system_instance: 0,
                industry_group: 0,
                arbitrary_address: false,
            }),
    {
        NameBuilder {
            identity_number: 0,
            manufacturer_code: 0,
            function_instance: 0,
            ecu_instance: 0,
            function: 0,
            vehicle_system: 0,
            vehicle_system_instance: 0,
            industry_group: 0,
            arbitrary_address: false,
        }
    }
}

impl NameBuilder {
    #[verifier::type_invariant]
    spec fn in_range(self) -> bool {
        self@.fields_in_range()
    }

    /// Set the identity number.
    pub fn identity_number(self, identity_number: u32) -> (r: Self)
        ensures
            r@ == (Name { identity_number: identity_number & 0x1fffff, ..self@ }),
    {
        proof {
            use_type_invariant(&self);
        }
        assert(identity_number & 0x1fffff <= 0x1fffff) by (bit_vector);
        Self { identity_number: identity_number & 0x1fffff, ..self }
    }

    /// Set the manufacturer code.
    pub fn manufacturer_code(self, manufacturer_code: u16) -> (r: Self)
        ensures
            r@ == (Name { manufacturer_code: manufacturer_code & 0x7ff, ..self@ }),
    {
        proof {
            use_type_invariant(&self);
        }
        assert(manufacturer_code & 0x7ff <= 0x7ff) by (bit_vector);
        Self { manufacturer_code: manufacturer_code & 0x7ff, ..self }
    }

    /// Set the function instance.
    pub fn function_instance(self, function_instance: u8) -> (r: Self)
        ensures
            r@ == (Name { function_instance: function_instance & 0x1f, ..self@ }),
    {
        proof {
            use_type_invariant(&self);
        }
        assert(function_instance & 0x1f <= 0x1f) by (bit_vector);
        Self { function_instance: function_instance & 0x1f, ..self }
    }

    /// Set the ECU instance.
    pub fn ecu_instance(self, ecu_instance: u8) -> (r: Self)
        ensures
            r@ == (Name { ecu_instance: ecu_instance & 0x7, ..self@ }),
    {
        proof {
            use_type_invariant(&self);
        }
        assert(ecu_instance & 0x7 <= 0x7) by (bit_vector);
        Self { ecu_instance: ecu_instance & 0x7, ..self }
    }

    /// Set the function.
    pub fn function(self, function: u8) -> (r: Self)
        ensures
            r@ == (Name { function, ..self@ }),
    {
        proof {
            use_type_invariant(&self);
        }
        Self { function, ..self }
    }

    /// Set the vehicle system.
    pub fn vehicle_system(self, vehicle_system: u8) -> (r: Self)
        ensures
            r@ == (Name { vehicle_system: vehicle_system & 0x7f, ..self@ }),
    {
        proof {
            use_type_invariant(&self);
        }
        assert(vehicle_system & 0x7f <= 0x7f) by (bit_vector);
        Self { vehicle_system: vehicle_system & 0x7f, ..self }
    }

    /// Set the vehicle system instance.
    pub fn vehicle_system_instance(self, vehicle_system_instance: u8) -> (r: Self)
        ensures
            r@ == (Name { vehicle_system_instance: vehicle_system_instance & 0xf, ..self@ }),
    {
        proof {
            use_type_invariant(&self);
        }
        assert(vehicle_system_instance & 0xf <= 0xf) by (bit_vector);
        Self { vehicle_system_instance: vehicle_system_instance & 0xf, ..self }
    }

    /// Set the industry group.
    pub fn industry_group(self, industry_group: u8) -> (r: Self)
        ensures
            r@ == (Name { industry_group: industry_group & 0x7, ..self@ }),
    {
        proof {
            use_type_invariant(&self);
        }
        assert(industry_group & 0x7 <= 0x7) by (bit_vector);
        Self { industry_group: industry_group & 0x7, ..self }
    }

    /// Set the arbitrary address.
    pub fn arbitrary_address(self, arbitrary_address: bool) -> (r: Self)
        ensures
            r@ == (Name { arbitrary_address, ..self@ }),
    {
        proof {
            use_type_invariant(&self);
        }
        Self { arbitrary_address, ..self }
    }

    /// Construct name.
    pub fn build(self) -> (r: Name)
        ensures
            r == self@,
            r.fields_in_range(),
    {
        proof {
            use_type_invariant(&self);
        }
        Name {
            identity_number: self.identity_number,
            manufacturer_code: self.manufacturer_code,
            function_instance: self.function_instance,
            ecu_instance: self.ecu_instance,
            function: self.function,
            vehicle_system: self.vehicle_system,
            vehicle_system_instance: self.vehicle_system_instance,
            industry_group: self.industry_group,
            arbitrary_address: self.arbitrary_address,
        }
    }
}

} // verus!
