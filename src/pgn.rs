//! Parameter group numbers and their three-byte wire form.
use vstd::prelude::*;

use crate::PGN_MAX_LENGTH;

verus! {

/// Parameter group number.
#[derive(PartialEq, Eq, Debug, Clone, Copy, Structural)]
pub enum PGN {
    /// TSC1 - Torque/Speed Control 1.
    TorqueSpeedControl1,
    /// PCM1 - Proprietarily Configurable Message 1.
    ProprietarilyConfigurableMessage1,
    /// PCM2 - Proprietarily Configurable Message 2.
    ProprietarilyConfigurableMessage2,
    /// PCM3 - Proprietarily Configurable Message 3.
    ProprietarilyConfigurableMessage3,
    /// PCM4 - Proprietarily Configurable Message 4.
    ProprietarilyConfigurableMessage4,
    /// PCM5 - Proprietarily Configurable Message 5.
    ProprietarilyConfigurableMessage5,
    /// PCM6 - Proprietarily Configurable Message 6.
    ProprietarilyConfigurableMessage6,
    /// PCM7 - Proprietarily Configurable Message 7.
    ProprietarilyConfigurableMessage7,
    /// PCM8 - Proprietarily Configurable Message 8.
    ProprietarilyConfigurableMessage8,
    /// PCM9 - Proprietarily Configurable Message 9.
    ProprietarilyConfigurableMessage9,
    /// PCM10 - Proprietarily Configurable Message 10.
    ProprietarilyConfigurableMessage10,
    /// PCM11 - Proprietarily Configurable Message 11.
    ProprietarilyConfigurableMessage11,
    /// PCM12 - Proprietarily Configurable Message 12.
    ProprietarilyConfigurableMessage12,
    /// PCM13 - Proprietarily Configurable Message 13.
    ProprietarilyConfigurableMessage13,
    /// PCM14 - Proprietarily Configurable Message 14.
    ProprietarilyConfigurableMessage14,
    /// PCM15 - Proprietarily Configurable Message 15.
    ProprietarilyConfigurableMessage15,
    /// PCM16 - Proprietarily Configurable Message 16.
    ProprietarilyConfigurableMessage16,
    /// XFER - Transfer.
    Transfer,
    /// EEC2 - Electronic Engine Controller 2.
    ElectronicEngineController2,
    /// EEC1 - Electronic Engine Controller 1.
    ElectronicEngineController1,
    /// ETC2 Electronic Transmission Controller 2
    ElectronicTransmissionController2,
    /// TI1 - TANK Information 1.
    TANKInformation1,
    /// TCO1 - Tachoraph.
    Tachoraph,
    /// EH - ECU History.
    ECUHistory,
    /// FD - Fan Drive.
    FanDrive,
    /// EEC4 - Electronic Engine Controller 4.
    ElectronicEngineController4,
    /// SOFT - Software Identification.
    SoftwareIdentification,
    /// IO - Idle Operation.
    IdleOperation,
    /// RQST - Request.
    Request,
    /// RQST2 - Request 2.
    Request2,
    /// TP.DT - Transport Protocol Data Transfer.
    TransportProtocolDataTransfer,
    /// TP.CM - Transport Protocol Connection Management.
    TransportProtocolConnectionManagement,
    /// AC - Address Claimed.
    AddressClaimed,
    /// PropA - Proprietary A.
    ProprietaryA,
    /// EBC1 - Electronic Brake Controller 1.
    ElectronicBrakeController1,
    /// ETC1 - Electronic Transmission Controller 1.
    ElectronicTransmissionController1,
    /// CA - Commanded Address.
    CommandedAddress,
    /// AUXIO - Auxiliary Input/Output Status.
    AuxiliaryInputOutputStatus,
    /// EEC3 - Electronic Engine Controller 3
    ElectronicEngineController3,
    /// VD - Vehicle Distance.
    VehicleDistance,
    /// EC - Engine Configuration.
    EngineConfiguration,
    /// SHUTDOWN - Shutdown.
    Shutdown,
    /// HOURS - Engine Hours, Revolutions.
    EngineHoursRevolutions,
    /// TD - Time / Date.
    TimeDate,
    /// VH - Vehicle Hours.
    VehicleHours,
    /// VDS - Vehicle Direction/Speed.
    VehicleDirectionSpeed,
    /// LFC - Fuel Consumption (Liquid).
    FuelConsumption,
    /// VW - Vehicle Weight.
    VehicleWeight,
    /// ET1 - Engine Temperature 1.
    EngineTemperature1,
    /// EFL/P1 - Engine Fluid Level/Pressure 1.
    EngineFluidLevelPressure1,
    /// PTO - Power Takeoff Information.
    PowerTakeoffInformation,
    /// CCVS - Cruise Control/Vehicle Speed.
    CruiseControlVehicleSpeed,
    /// LFE - Fuel Economy (Liquid).
    FuelEconomy,
    /// VP - Vehicle Position.
    VehiclePosition,
    /// AMB - Ambient Conditions.
    AmbientConditions,
    /// IC1 - Inlet/Exhaust Conditions 1.
    InletExhaustConditions1,
    /// VEP1 - Vehicle Electrical Power 1.
    VehicleElectricalPower1,
    /// TF - Transmission Fluids.
    TransmissionFluids,
    /// AI - Axle Information.
    AxleInformation,
    /// B - Brakes.
    Brakes,
    /// RF - Retarder fluids.
    RetarderFluids,
    /// DD - Dash Display.
    DashDisplay,
    /// A1 - Alternate Fuel 1.
    AlternateFuel1,
    /// AWPP - Auxiliary Water Pump Pressure.
    AuxiliaryWaterPumpPressure,
    /// WFI - Water in Fuel Indicator.
    WaterInFuelIndicator,
    /// ACKM - Acknowledgment Message.
    AcknowledgmentMessage,
    /// CI - Component Identification.
    ComponentIdentification,
    /// VI - Vehicle Identification.
    VehicleIdentification,
    /// PropB - Proprietary B.
    ProprietaryB(u32),
    /// Other PGN.
    Other(u32),
}

/// The number of a parameter group, reduced to its 18 significant bits.
pub open spec fn pgn_number(pgn: PGN) -> u32 {
    match pgn {
        PGN::TorqueSpeedControl1 => 0,
        PGN::ProprietarilyConfigurableMessage1 => 45_312,
        PGN::ProprietarilyConfigurableMessage2 => 45_568,
        PGN::ProprietarilyConfigurableMessage3 => 45_824,
        PGN::ProprietarilyConfigurableMessage4 => 46_080,
        PGN::ProprietarilyConfigurableMessage5 => 46_336,
        PGN::ProprietarilyConfigurableMessage6 => 46_592,
        PGN::ProprietarilyConfigurableMessage7 => 46_848,
        PGN::ProprietarilyConfigurableMessage8 => 47_104,
        PGN::ProprietarilyConfigurableMessage9 => 47_360,
        PGN::ProprietarilyConfigurableMessage10 => 47_616,
        PGN::ProprietarilyConfigurableMessage11 => 47_872,
        PGN::ProprietarilyConfigurableMessage12 => 48_128,
        PGN::ProprietarilyConfigurableMessage13 => 48_384,
        PGN::ProprietarilyConfigurableMessage14 => 48_640,
        PGN::ProprietarilyConfigurableMessage15 => 48_896,
        PGN::ProprietarilyConfigurableMessage16 => 49_152,
        PGN::Request2 => 51_456,
        PGN::Transfer => 51_712,
        PGN::AcknowledgmentMessage => 59_392,
        PGN::Request => 59_904,
        PGN::TransportProtocolDataTransfer => 60_160,
        PGN::TransportProtocolConnectionManagement => 60_416,
        PGN::AddressClaimed => 60_928,
        PGN::ProprietaryA => 61_184,
        PGN::ElectronicBrakeController1 => 61_441,
        PGN::ElectronicTransmissionController1 => 61_442,
        PGN::ElectronicEngineController1 => 61_444,
        PGN::ElectronicEngineController2 => 61_443,
        PGN::ElectronicTransmissionController2 => 61_445,
        PGN::TANKInformation1 => 65_110,
        PGN::Tachoraph => 65_132,
        PGN::ECUHistory => 65_201,
        PGN::FanDrive => 65_213,
        PGN::ElectronicEngineController4 => 65_214,
        PGN::CommandedAddress => 65_240,
        PGN::AuxiliaryInputOutputStatus => 65_241,
        PGN::SoftwareIdentification => 65_242,
        PGN::IdleOperation => 65_244,
        PGN::ElectronicEngineController3 => 65_247,
        PGN::VehicleDistance => 65_248,
        PGN::EngineConfiguration => 65_251,
        PGN::Shutdown => 65_252,
        PGN::EngineHoursRevolutions => 65_253,
        PGN::TimeDate => 65_254,
        PGN::VehicleHours => 65_255,
        PGN::VehicleDirectionSpeed => 65_256,
        PGN::FuelConsumption => 65_257,
        PGN::VehicleWeight => 65_258,
        PGN::ComponentIdentification => 65_259,
        PGN::VehicleIdentification => 65_260,
        PGN::EngineTemperature1 => 65_262,
        PGN::EngineFluidLevelPressure1 => 65_263,
        PGN::PowerTakeoffInformation => 65_264,
        PGN::CruiseControlVehicleSpeed => 65_265,
        PGN::FuelEconomy => 65_266,
        PGN::VehiclePosition => 65_267,
        PGN::AmbientConditions => 65_269,
        PGN::InletExhaustConditions1 => 65_270,
        PGN::VehicleElectricalPower1 => 65_271,
        PGN::TransmissionFluids => 65_272,
        PGN::AxleInformation => 65_273,
        PGN::Brakes => 65_274,
        PGN::RetarderFluids => 65_275,
        PGN::DashDisplay => 65_276,
        PGN::AlternateFuel1 => 65_277,
        PGN::AuxiliaryWaterPumpPressure => 65_278,
        PGN::WaterInFuelIndicator => 65_279,
        PGN::ProprietaryB(v) => v & 0x3ffff,
        PGN::Other(v) => v & 0x3ffff,
    }
}

/// The parameter group that an 18-bit number names; bits above bit 17 are ignored.
pub open spec fn pgn_of(value: u32) -> PGN {
    let v = value & 0x3ffff;
    if 65_280 <= v <= 65_535 {
        PGN::ProprietaryB(v)
    } else {
        match v {
            0 => PGN::TorqueSpeedControl1,
            45_312 => PGN::ProprietarilyConfigurableMessage1,
            45_568 => PGN::ProprietarilyConfigurableMessage2,
            45_824 => PGN::ProprietarilyConfigurableMessage3,
            46_080 => PGN::ProprietarilyConfigurableMessage4,
            46_336 => PGN::ProprietarilyConfigurableMessage5,
            46_592 => PGN::ProprietarilyConfigurableMessage6,
            46_848 => PGN::ProprietarilyConfigurableMessage7,
            47_104 => PGN::ProprietarilyConfigurableMessage8,
            47_360 => PGN::ProprietarilyConfigurableMessage9,
            47_616 => PGN::ProprietarilyConfigurableMessage10,
            47_872 => PGN::ProprietarilyConfigurableMessage11,
            48_128 => PGN::ProprietarilyConfigurableMessage12,
            48_384 => PGN::ProprietarilyConfigurableMessage13,
            48_640 => PGN::ProprietarilyConfigurableMessage14,
            48_896 => PGN::ProprietarilyConfigurableMessage15,
            49_152 => PGN::ProprietarilyConfigurableMessage16,
            51_456 => PGN::Request2,
            51_712 => PGN::Transfer,
            59_392 => PGN::AcknowledgmentMessage,
            59_904 => PGN::Request,
            60_160 => PGN::TransportProtocolDataTransfer,
            60_416 => PGN::TransportProtocolConnectionManagement,
            60_928 => PGN::AddressClaimed,
            61_184 => PGN::ProprietaryA,
            61_441 => PGN::ElectronicBrakeController1,
            61_442 => PGN::ElectronicTransmissionController1,
            61_443 => PGN::ElectronicEngineController2,
            61_444 => PGN::ElectronicEngineController1,
            61_445 => PGN::ElectronicTransmissionController2,
            65_110 => PGN::TANKInformation1,
            65_132 => PGN::Tachoraph,
            65_201 => PGN::ECUHistory,
            65_213 => PGN::FanDrive,
            65_214 => PGN::ElectronicEngineController4,
            65_240 => PGN::CommandedAddress,
            65_241 => PGN::AuxiliaryInputOutputStatus,
            65_242 => PGN::SoftwareIdentification,
            65_244 => PGN::IdleOperation,
            65_247 => PGN::ElectronicEngineController3,
            65_248 => PGN::VehicleDistance,
            65_251 => PGN::EngineConfiguration,
            65_252 => PGN::Shutdown,
            65_253 => PGN::EngineHoursRevolutions,
            65_254 => PGN::TimeDate,
            65_255 => PGN::VehicleHours,
            65_256 => PGN::VehicleDirectionSpeed,
            65_257 => PGN::FuelConsumption,
            65_258 => PGN::VehicleWeight,
            65_259 => PGN::ComponentIdentification,
            65_260 => PGN::VehicleIdentification,
            65_262 => PGN::EngineTemperature1,
            65_263 => PGN::EngineFluidLevelPressure1,
            65_264 => PGN::PowerTakeoffInformation,
            65_265 => PGN::CruiseControlVehicleSpeed,
            65_266 => PGN::FuelEconomy,
            65_267 => PGN::VehiclePosition,
            65_269 => PGN::AmbientConditions,
            65_270 => PGN::InletExhaustConditions1,
            65_271 => PGN::VehicleElectricalPower1,
            65_272 => PGN::TransmissionFluids,
            65_273 => PGN::AxleInformation,
            65_274 => PGN::Brakes,
            65_275 => PGN::RetarderFluids,
            65_276 => PGN::DashDisplay,
            65_277 => PGN::AlternateFuel1,
            65_278 => PGN::AuxiliaryWaterPumpPressure,
            65_279 => PGN::WaterInFuelIndicator,
            _ => PGN::Other(v),
        }
    }
}

/// The three little-endian bytes that carry a parameter group number on the wire: bits 0-7,
/// bits 8-15 and bits 16-17.
pub open spec fn pgn_wire_bytes(number: u32) -> Seq<u8> {
    seq![(number & 0xff) as u8, ((number >> 8u32) & 0xff) as u8, ((number >> 16u32) & 0x3) as u8]
}

/// The 18-bit number that three little-endian wire bytes carry; the unused high bits of the last
/// byte are masked out.
pub open spec fn pgn_wire_number(bytes: Seq<u8>) -> u32 {
    (bytes[0] as u32) | ((bytes[1] as u32) << 8u32) | (((bytes[2] & 0x3) as u32) << 16u32)
}

impl PGN {
    /// A parameter group is canonical when its own number decodes back to it: every named
    /// group, a proprietary-B group whose number lies in the proprietary-B range, and an
    /// `Other` group whose 18-bit number names no other group.
    pub open spec fn is_canonical(self) -> bool {
        match self {
            PGN::ProprietaryB(v) => 65_280 <= v <= 65_535,
            PGN::Other(v) => pgn_of(v) == PGN::Other(v),
            _ => true,
        }
    }

    /// Converts the PGN to its little-endian wire form.
    pub fn to_le_bytes(self) -> (r: [u8; PGN_MAX_LENGTH])
        ensures
            r@ == pgn_wire_bytes(pgn_number(self)),
    {
        let number = u32::from(self);
        let r = [(number & 0xff) as u8, ((number >> 8) & 0xff) as u8, ((number >> 16) & 0x3) as u8];
        assert(r@ =~= pgn_wire_bytes(pgn_number(self)));
        r
    }

    /// Creates a PGN from its little-endian wire form, ignoring the unused high bits.
    pub fn from_le_bytes(bytes: [u8; PGN_MAX_LENGTH]) -> (r: PGN)
        ensures
            r == pgn_of(pgn_wire_number(bytes@)),
    {
        let number = (bytes[0] as u32) | ((bytes[1] as u32) << 8) | (((bytes[2] & 0x3) as u32) << 16);
        PGN::from(number)
    }
}

/// Every number is at most 18 bits wide once reduced, so the wire form loses nothing.
pub proof fn lemma_wire_number_of_bytes(number: u32)
    ensures
        pgn_wire_number(pgn_wire_bytes(number)) == number & 0x3ffff,
{
    let b0 = (number & 0xff) as u8;
    let b1 = ((number >> 8u32) & 0xff) as u8;
    let b2 = ((number >> 16u32) & 0x3) as u8;
    assert((b0 as u32) | ((b1 as u32) << 8u32) | (((b2 & 0x3) as u32) << 16u32) == number & 0x3ffff)
        by (bit_vector)
        requires
            b0 == (number & 0xff) as u8,
            b1 == ((number >> 8u32) & 0xff) as u8,
            b2 == ((number >> 16u32) & 0x3) as u8,
    ;
}

/// Decoding the wire form of a canonical PGN gives back that PGN.
pub proof fn lemma_pgn_wire_round_trip(pgn: PGN)
    requires
        pgn.is_canonical(),
    ensures
        pgn_of(pgn_wire_number(pgn_wire_bytes(pgn_number(pgn)))) == pgn,
{
    lemma_wire_number_of_bytes(pgn_number(pgn));
    let n = pgn_number(pgn);
    match pgn {
        PGN::ProprietaryB(v) => {
            assert(v <= 65_535 ==> v & 0x3ffff == v) by (bit_vector);
            assert((v & 0x3ffff) & 0x3ffff == v & 0x3ffff) by (bit_vector);
        },
        PGN::Other(v) => {
            assert((v & 0x3ffff) & 0x3ffff == v & 0x3ffff) by (bit_vector);
        },
        _ => {
            assert(n <= 0x3ffff);
            assert(n <= 0x3ffff ==> n & 0x3ffff == n) by (bit_vector);
        },
    }
}

impl From<u32> for PGN {
    fn from(value: u32) -> PGN {
        let v = value & 0x3ffff;
        if 65_280 <= v && v <= 65_535 {
            return PGN::ProprietaryB(v);
        }
        match v {
            0 => PGN::TorqueSpeedControl1,
            45_312 => PGN::ProprietarilyConfigurableMessage1,
            45_568 => PGN::ProprietarilyConfigurableMessage2,
            45_824 => PGN::ProprietarilyConfigurableMessage3,
            46_080 => PGN::ProprietarilyConfigurableMessage4,
            46_336 => PGN::ProprietarilyConfigurableMessage5,
            46_592 => PGN::ProprietarilyConfigurableMessage6,
            46_848 => PGN::ProprietarilyConfigurableMessage7,
            47_104 => PGN::ProprietarilyConfigurableMessage8,
            47_360 => PGN::ProprietarilyConfigurableMessage9,
            47_616 => PGN::ProprietarilyConfigurableMessage10,
            47_872 => PGN::ProprietarilyConfigurableMessage11,
            48_128 => PGN::ProprietarilyConfigurableMessage12,
            48_384 => PGN::ProprietarilyConfigurableMessage13,
            48_640 => PGN::ProprietarilyConfigurableMessage14,
            48_896 => PGN::ProprietarilyConfigurableMessage15,
            49_152 => PGN::ProprietarilyConfigurableMessage16,
            51_456 => PGN::Request2,
            51_712 => PGN::Transfer,
            59_392 => PGN::AcknowledgmentMessage,
            59_904 => PGN::Request,
            60_160 => PGN::TransportProtocolDataTransfer,
            60_416 => PGN::TransportProtocolConnectionManagement,
            60_928 => PGN::AddressClaimed,
            61_184 => PGN::ProprietaryA,
            61_441 => PGN::ElectronicBrakeController1,
            61_442 => PGN::ElectronicTransmissionController1,
            61_443 => PGN::ElectronicEngineController2,
            61_444 => PGN::ElectronicEngineController1,
            61_445 => PGN::ElectronicTransmissionController2,
            65_110 => PGN::TANKInformation1,
            65_132 => PGN::Tachoraph,
            65_201 => PGN::ECUHistory,
            65_213 => PGN::FanDrive,
            65_214 => PGN::ElectronicEngineController4,
            65_240 => PGN::CommandedAddress,
            65_241 => PGN::AuxiliaryInputOutputStatus,
            65_242 => PGN::SoftwareIdentification,
            65_244 => PGN::IdleOperation,
            65_247 => PGN::ElectronicEngineController3,
            65_248 => PGN::VehicleDistance,
            65_251 => PGN::EngineConfiguration,
            65_252 => PGN::Shutdown,
            65_253 => PGN::EngineHoursRevolutions,
            65_254 => PGN::TimeDate,
            65_255 => PGN::VehicleHours,
            65_256 => PGN::VehicleDirectionSpeed,
            65_257 => PGN::FuelConsumption,
            65_258 => PGN::VehicleWeight,
            65_259 => PGN::ComponentIdentification,
            65_260 => PGN::VehicleIdentification,
            65_262 => PGN::EngineTemperature1,
            65_263 => PGN::EngineFluidLevelPressure1,
            65_264 => PGN::PowerTakeoffInformation,
            65_265 => PGN::CruiseControlVehicleSpeed,
            65_266 => PGN::FuelEconomy,
            65_267 => PGN::VehiclePosition,
            65_269 => PGN::AmbientConditions,
            65_270 => PGN::InletExhaustConditions1,
            65_271 => PGN::VehicleElectricalPower1,
            65_272 => PGN::TransmissionFluids,
            65_273 => PGN::AxleInformation,
            65_274 => PGN::Brakes,
            65_275 => PGN::RetarderFluids,
            65_276 => PGN::DashDisplay,
            65_277 => PGN::AlternateFuel1,
            65_278 => PGN::AuxiliaryWaterPumpPressure,
            65_279 => PGN::WaterInFuelIndicator,
            _ => PGN::Other(v),
        }
    }
}

impl vstd::std_specs::convert::FromSpecImpl<u32> for PGN {
    open spec fn obeys_from_spec() -> bool {
        true
    }

    open spec fn from_spec(v: u32) -> PGN {
        pgn_of(v)
    }
}

impl From<PGN> for u32 {
    fn from(pgn: PGN) -> u32 {
        match pgn {
            PGN::TorqueSpeedControl1 => 0,
            PGN::ProprietarilyConfigurableMessage1 => 45_312,
            PGN::ProprietarilyConfigurableMessage2 => 45_568,
            PGN::ProprietarilyConfigurableMessage3 => 45_824,
            PGN::ProprietarilyConfigurableMessage4 => 46_080,
            PGN::ProprietarilyConfigurableMessage5 => 46_336,
            PGN::ProprietarilyConfigurableMessage6 => 46_592,
            PGN::ProprietarilyConfigurableMessage7 => 46_848,
            PGN::ProprietarilyConfigurableMessage8 => 47_104,
            PGN::ProprietarilyConfigurableMessage9 => 47_360,
            PGN::ProprietarilyConfigurableMessage10 => 47_616,
            PGN::ProprietarilyConfigurableMessage11 => 47_872,
            PGN::ProprietarilyConfigurableMessage12 => 48_128,
            PGN::ProprietarilyConfigurableMessage13 => 48_384,
            PGN::ProprietarilyConfigurableMessage14 => 48_640,
            PGN::ProprietarilyConfigurableMessage15 => 48_896,
            PGN::ProprietarilyConfigurableMessage16 => 49_152,
            PGN::Request2 => 51_456,
            PGN::Transfer => 51_712,
            PGN::AcknowledgmentMessage => 59_392,
            PGN::Request => 59_904,
            PGN::TransportProtocolDataTransfer => 60_160,
            PGN::TransportProtocolConnectionManagement => 60_416,
            PGN::AddressClaimed => 60_928,
            PGN::ProprietaryA => 61_184,
            PGN::ElectronicBrakeController1 => 61_441,
            PGN::ElectronicTransmissionController1 => 61_442,
            PGN::ElectronicEngineController1 => 61_444,
            PGN::ElectronicEngineController2 => 61_443,
            PGN::ElectronicTransmissionController2 => 61_445,
            PGN::TANKInformation1 => 65_110,
            PGN::Tachoraph => 65_132,
            PGN::ECUHistory => 65_201,
            PGN::FanDrive => 65_213,
            PGN::ElectronicEngineController4 => 65_214,
            PGN::CommandedAddress => 65_240,
            PGN::AuxiliaryInputOutputStatus => 65_241,
            PGN::SoftwareIdentification => 65_242,
            PGN::IdleOperation => 65_244,
            PGN::ElectronicEngineController3 => 65_247,
            PGN::VehicleDistance => 65_248,
            PGN::EngineConfiguration => 65_251,
            PGN::Shutdown => 65_252,
            PGN::EngineHoursRevolutions => 65_253,
            PGN::TimeDate => 65_254,
            PGN::VehicleHours => 65_255,
            PGN::VehicleDirectionSpeed => 65_256,
            PGN::FuelConsumption => 65_257,
            PGN::VehicleWeight => 65_258,
            PGN::ComponentIdentification => 65_259,
            PGN::VehicleIdentification => 65_260,
            PGN::EngineTemperature1 => 65_262,
            PGN::EngineFluidLevelPressure1 => 65_263,
            PGN::PowerTakeoffInformation => 65_264,
            PGN::CruiseControlVehicleSpeed => 65_265,
            PGN::FuelEconomy => 65_266,
            PGN::VehiclePosition => 65_267,
            PGN::AmbientConditions => 65_269,
            PGN::InletExhaustConditions1 => 65_270,
            PGN::VehicleElectricalPower1 => 65_271,
            PGN::TransmissionFluids => 65_272,
            PGN::AxleInformation => 65_273,
            PGN::Brakes => 65_274,
            PGN::RetarderFluids => 65_275,
            PGN::DashDisplay => 65_276,
            PGN::AlternateFuel1 => 65_277,
            PGN::AuxiliaryWaterPumpPressure => 65_278,
            PGN::WaterInFuelIndicator => 65_279,
            PGN::ProprietaryB(v) => v & 0x3ffff,
            PGN::Other(v) => v & 0x3ffff,
        }
    }
}

impl vstd::std_specs::convert::FromSpecImpl<PGN> for u32 {
    open spec fn obeys_from_spec() -> bool {
        true
    }

    open spec fn from_spec(v: PGN) -> u32 {
        pgn_number(v)
    }
}

} // verus!
