//! Codecs of individual parameter groups: each reads and writes its signals at fixed byte
//! offsets through the slot codecs.
use vstd::prelude::*;

use crate::slots::{
    bool_bits, bool_from_value, bool_of, bool_to_value, count, distance, liquid_fuel_usage,
    position_level, position_level2, position_level3, pressure, pressure2, pressure3, pressure4,
    rotational_velocity, slot_dec_i16, slot_dec_i8, slot_dec_u16, slot_dec_u32, slot_dec_u8,
    slot_enc_i16, slot_enc_i8, slot_enc_u16, slot_enc_u32, slot_enc_u8, source_address,
    temperature, temperature2, time,
};
use crate::PDU_NOT_AVAILABLE;

verus! {

/// Bytes `i` and `i + 1` of a payload.
pub open spec fn pair(pdu: Seq<u8>, i: int) -> Seq<u8> {
    pdu.subrange(i, i + 2)
}

/// Bytes `i` to `i + 3` of a payload.
pub open spec fn quad(pdu: Seq<u8>, i: int) -> Seq<u8> {
    pdu.subrange(i, i + 4)
}

fn pair_at(pdu: &[u8], i: usize) -> (r: [u8; 2])
    requires
        i + 2 <= pdu@.len(),
    ensures
        r@ == pair(pdu@, i as int),
{
    let r = [pdu[i], pdu[i + 1]];
    assert(r@ =~= pair(pdu@, i as int));
    r
}

fn quad_at(pdu: &[u8], i: usize) -> (r: [u8; 4])
    requires
        i + 4 <= pdu@.len(),
    ensures
        r@ == quad(pdu@, i as int),
{
    let r = [pdu[i], pdu[i + 1], pdu[i + 2], pdu[i + 3]];
    assert(r@ =~= quad(pdu@, i as int));
    r
}

//
// Time/Date
//

pub struct TimeDate {
    /// Year.
    pub year: i32,
    /// Month.
    pub month: u32,
    /// Day.
    pub day: u32,
    /// Hour.
    pub hour: u32,
    /// Minute.
    pub minute: u32,
    /// Second.
    pub second: u32,
}

impl TimeDate {
    /// Seconds and days count in quarters; years count from 1985.
    pub fn from_pdu(pdu: &[u8]) -> (r: Self)
        requires
            pdu@.len() >= 6,
        ensures
            r.year == pdu@[5] as int + 1985,
            r.month == pdu@[3],
            r.day == pdu@[4] / 4,
            r.hour == pdu@[2],
            r.minute == pdu@[1],
            r.second == pdu@[0] / 4,
    {
        Self {
            year: pdu[5] as i32 + 1985,
            month: pdu[3] as u32,
            day: (pdu[4] / 4) as u32,
            hour: pdu[2] as u32,
            minute: pdu[1] as u32,
            second: (pdu[0] / 4) as u32,
        }
    }

    /// Every field is written modulo 256, the time zone bytes are not available.
    pub fn to_pdu(&self) -> (r: [u8; 8])
        ensures
            r@ == seq![
                ((self.second as int * 4) % 256) as u8,
                (self.minute % 256) as u8,
                (self.hour % 256) as u8,
                (self.month % 256) as u8,
                ((self.day as int * 4) % 256) as u8,
                ((self.year as int - 1985) % 256) as u8,
                0xffu8,
                0xffu8,
            ],
    {
        let year = ((self.year as i64 - 1985) % 256 + 256) % 256;
        proof {
            let y = self.year as int - 1985;
            assert(((y % 256) + 256) % 256 == y % 256) by (nonlinear_arith);
        }
        [
            ((self.second % 64) * 4) as u8,
            (self.minute % 256) as u8,
            (self.hour % 256) as u8,
            (self.month % 256) as u8,
            ((self.day % 64) * 4) as u8,
            year as u8,
            0xff,
            0xff,
        ]
    }
}

//
// Electronic Engine Controller 1
//

#[derive(Debug, Copy, Clone, PartialEq, Eq, Structural)]
pub enum EngineTorqueMode {
    NoRequest,
    AcceleratorPedal,
    CruiseControl,
    PTOGovernor,
    RoadSpeedGovernor,
    ASRControl,
    TransmissionControl,
    ABSControl,
    TorqueLimiting,
    HighSpeedGovernor,
    BrakingSystem,
    RemoteAccelerator,
    Other,
}

/// The engine torque mode in the low four bits of `value`; `0b1111` is not available.
pub open spec fn engine_torque_mode_of(value: u8) -> Option<EngineTorqueMode> {
    let v = value & 0b1111;
    if v == 0b1111 {
        None
    } else if v >= 0b1100 {
        Some(EngineTorqueMode::Other)
    } else {
        Some(
            match v {
                0 => EngineTorqueMode::NoRequest,
                1 => EngineTorqueMode::AcceleratorPedal,
                2 => EngineTorqueMode::CruiseControl,
                3 => EngineTorqueMode::PTOGovernor,
                4 => EngineTorqueMode::RoadSpeedGovernor,
                5 => EngineTorqueMode::ASRControl,
                6 => EngineTorqueMode::TransmissionControl,
                7 => EngineTorqueMode::ABSControl,
                8 => EngineTorqueMode::TorqueLimiting,
                9 => EngineTorqueMode::HighSpeedGovernor,
                10 => EngineTorqueMode::BrakingSystem,
                _ => EngineTorqueMode::RemoteAccelerator,
            },
        )
    }
}

pub open spec fn engine_torque_mode_bits(mode: EngineTorqueMode) -> u8 {
    match mode {
        EngineTorqueMode::NoRequest => 0b0000,
        EngineTorqueMode::AcceleratorPedal => 0b0001,
        EngineTorqueMode::CruiseControl => 0b0010,
        EngineTorqueMode::PTOGovernor => 0b0011,
        EngineTorqueMode::RoadSpeedGovernor => 0b0100,
        EngineTorqueMode::ASRControl => 0b0101,
        EngineTorqueMode::TransmissionControl => 0b0110,
        EngineTorqueMode::ABSControl => 0b0111,
        EngineTorqueMode::TorqueLimiting => 0b1000,
        EngineTorqueMode::HighSpeedGovernor => 0b1001,
        EngineTorqueMode::BrakingSystem => 0b1010,
        EngineTorqueMode::RemoteAccelerator => 0b1011,
        EngineTorqueMode::Other => 0b1111,
    }
}

impl EngineTorqueMode {
    /// Decodes the low four bits of `value`; the higher bits are ignored.
    pub fn from_value(value: u8) -> (r: Option<Self>)
        ensures
            r == engine_torque_mode_of(value),
    {
        let v = value & 0b1111;
        if v == 0b1111 {
            None
        } else if v >= 0b1100 {
            Some(Self::Other)
        } else {
            Some(
                match v {
                    0 => Self::NoRequest,
                    1 => Self::AcceleratorPedal,
                    2 => Self::CruiseControl,
                    3 => Self::PTOGovernor,
                    4 => Self::RoadSpeedGovernor,
                    5 => Self::ASRControl,
                    6 => Self::TransmissionControl,
                    7 => Self::ABSControl,
                    8 => Self::TorqueLimiting,
                    9 => Self::HighSpeedGovernor,
                    10 => Self::BrakingSystem,
                    _ => Self::RemoteAccelerator,
                },
            )
        }
    }

    pub fn to_value(mode: Self) -> (r: u8)
        ensures
            r == engine_torque_mode_bits(mode),
    {
        match mode {
            Self::NoRequest => 0b0000,
            Self::AcceleratorPedal => 0b0001,
            Self::CruiseControl => 0b0010,
            Self::PTOGovernor => 0b0011,
            Self::RoadSpeedGovernor => 0b0100,
            Self::ASRControl => 0b0101,
            Self::TransmissionControl => 0b0110,
            Self::ABSControl => 0b0111,
            Self::TorqueLimiting => 0b1000,
            Self::HighSpeedGovernor => 0b1001,
            Self::BrakingSystem => 0b1010,
            Self::RemoteAccelerator => 0b1011,
            Self::Other => 0b1111,
        }
    }
}

#[derive(Debug, Copy, Clone, PartialEq, Eq, Structural)]
pub enum EngineStarterMode {
    StartNotRequested,
    StarterActiveGearNotEngaged,
    StarterActiveGearEngaged,
    StartFinished,
    StarterInhibitedEngineRunning,
    StarterInhibitedEngineNotReady,
    StarterInhibitedTransmissionInhibited,
    StarterInhibitedActiveImmobilizer,
    StarterInhibitedOverHeat,
    StarterInhibitedReasonUnknown,
    Error,
    Reserved,
}

/// The engine starter mode in the low four bits of `value`; `0b1111` is not available.
pub open spec fn engine_starter_mode_of(value: u8) -> Option<EngineStarterMode> {
    let v = value & 0b1111;
    if v == 0b1111 {
        None
    } else {
        Some(
            match v {
                0 => EngineStarterMode::StartNotRequested,
                1 => EngineStarterMode::StarterActiveGearNotEngaged,
                2 => EngineStarterMode::StarterActiveGearEngaged,
                3 => EngineStarterMode::StartFinished,
                4 => EngineStarterMode::StarterInhibitedEngineRunning,
                5 => EngineStarterMode::StarterInhibitedEngineNotReady,
                6 => EngineStarterMode::StarterInhibitedTransmissionInhibited,
                7 => EngineStarterMode::StarterInhibitedActiveImmobilizer,
                8 => EngineStarterMode::StarterInhibitedOverHeat,
                9 | 10 | 11 => EngineStarterMode::Reserved,
                12 => EngineStarterMode::StarterInhibitedReasonUnknown,
                _ => EngineStarterMode::Error,
            },
        )
    }
}

pub open spec fn engine_starter_mode_bits(mode: EngineStarterMode) -> u8 {
    match mode {
        EngineStarterMode::StartNotRequested => 0b0000,
        EngineStarterMode::StarterActiveGearNotEngaged => 0b0001,
        EngineStarterMode::StarterActiveGearEngaged => 0b0010,
        EngineStarterMode::StartFinished => 0b0011,
        EngineStarterMode::StarterInhibitedEngineRunning => 0b0100,
        EngineStarterMode::StarterInhibitedEngineNotReady => 0b0101,
        EngineStarterMode::StarterInhibitedTransmissionInhibited => 0b0110,
        EngineStarterMode::StarterInhibitedActiveImmobilizer => 0b0111,
        EngineStarterMode::StarterInhibitedOverHeat => 0b1000,
        EngineStarterMode::Reserved => 0b1001,
        EngineStarterMode::StarterInhibitedReasonUnknown => 0b1100,
        EngineStarterMode::Error => 0b1101,
    }
}

impl EngineStarterMode {
    /// Decodes the low four bits of `value`; the higher bits are ignored.
    pub fn from_value(value: u8) -> (r: Option<Self>)
        ensures
            r == engine_starter_mode_of(value),
    {
        let v = value & 0b1111;
        if v == 0b1111 {
            None
        } else {
            Some(
                match v {
                    0 => Self::StartNotRequested,
                    1 => Self::StarterActiveGearNotEngaged,
                    2 => Self::StarterActiveGearEngaged,
                    3 => Self::StartFinished,
                    4 => Self::StarterInhibitedEngineRunning,
                    5 => Self::StarterInhibitedEngineNotReady,
                    6 => Self::StarterInhibitedTransmissionInhibited,
                    7 => Self::StarterInhibitedActiveImmobilizer,
                    8 => Self::StarterInhibitedOverHeat,
                    9 | 10 | 11 => Self::Reserved,
                    12 => Self::StarterInhibitedReasonUnknown,
                    _ => Self::Error,
                },
            )
        }
    }

    pub fn to_value(mode: Self) -> (r: u8)
        ensures
            r == engine_starter_mode_bits(mode),
    {
        match mode {
            Self::StartNotRequested => 0b0000,
            Self::StarterActiveGearNotEngaged => 0b0001,
            Self::StarterActiveGearEngaged => 0b0010,
            Self::StartFinished => 0b0011,
            Self::StarterInhibitedEngineRunning => 0b0100,
            Self::StarterInhibitedEngineNotReady => 0b0101,
            Self::StarterInhibitedTransmissionInhibited => 0b0110,
            Self::StarterInhibitedActiveImmobilizer => 0b0111,
            Self::StarterInhibitedOverHeat => 0b1000,
            Self::Reserved => 0b1001,
            Self::StarterInhibitedReasonUnknown => 0b1100,
            Self::Error => 0b1101,
        }
    }
}

pub struct ElectronicEngineController1Message {
    /// Engine Torque Mode - SPN 899.
    pub engine_torque_mode: Option<EngineTorqueMode>,
    /// Driver's Demand Engine - Percent Torque.
    pub driver_demand: Option<u8>,
    /// Actual Engine - Percent Torque.
    pub actual_engine: Option<u8>,
    /// Engine Speed.
    pub rpm: Option<u16>,
    /// Source Address of Controlling Device for Engine Control - SPN 1483.
    pub source_addr: Option<u8>,
    /// Engine Starter Mode - SPN 1675.
    pub starter_mode: Option<EngineStarterMode>,
}

impl ElectronicEngineController1Message {
    pub fn from_pdu(pdu: &[u8]) -> (r: Self)
        requires
            pdu@.len() >= 7,
        ensures
            r.engine_torque_mode == engine_torque_mode_of(pdu@[0]),
            r.driver_demand == slot_dec_u8(position_level2::resolution(), pdu@[1]),
            r.actual_engine == slot_dec_u8(position_level2::resolution(), pdu@[2]),
            r.rpm == slot_dec_u16(rotational_velocity::resolution(), pair(pdu@, 3)),
            r.source_addr == slot_dec_u8(source_address::resolution(), pdu@[5]),
            r.starter_mode == engine_starter_mode_of(pdu@[6]),
    {
        Self {
            engine_torque_mode: EngineTorqueMode::from_value(pdu[0]),
            driver_demand: position_level2::dec(pdu[1]),
            actual_engine: position_level2::dec(pdu[2]),
            rpm: rotational_velocity::dec(pair_at(pdu, 3)),
            source_addr: source_address::dec(pdu[5]),
            starter_mode: EngineStarterMode::from_value(pdu[6]),
        }
    }

    pub fn to_pdu(&self) -> (r: [u8; 8])
        ensures
            r@ == seq![
                match self.engine_torque_mode {
                    Some(m) => engine_torque_mode_bits(m),
                    None => PDU_NOT_AVAILABLE,
                },
                slot_enc_u8(position_level2::resolution(), self.driver_demand),
                slot_enc_u8(position_level2::resolution(), self.actual_engine),
                slot_enc_u16(rotational_velocity::resolution(), self.rpm)[0],
                slot_enc_u16(rotational_velocity::resolution(), self.rpm)[1],
                slot_enc_u8(source_address::resolution(), self.source_addr),
                match self.starter_mode {
                    Some(m) => engine_starter_mode_bits(m),
                    None => PDU_NOT_AVAILABLE,
                },
                PDU_NOT_AVAILABLE,
            ],
    {
        let torque_mode = match self.engine_torque_mode {
            Some(m) => EngineTorqueMode::to_value(m),
            None => PDU_NOT_AVAILABLE,
        };
        let starter_mode = match self.starter_mode {
            Some(m) => EngineStarterMode::to_value(m),
            None => PDU_NOT_AVAILABLE,
        };
        let rpm = rotational_velocity::enc(self.rpm);
        [
            torque_mode,
            position_level2::enc(self.driver_demand),
            position_level2::enc(self.actual_engine),
            rpm[0],
            rpm[1],
            source_address::enc(self.source_addr),
            starter_mode,
            PDU_NOT_AVAILABLE,
        ]
    }
}

//
// Electronic Engine Controller 2
//

pub struct ElectronicEngineController2Message {
    /// Switch signal which indicates the state of the accelerator pedal 1 low
    /// idle switch.
    pub accelerator_pedal1_low_idle_switch: Option<bool>,
    /// Switch signal which indicates whether the accelerator pedal kickdown
    /// switch is opened or closed.
    pub accelerator_pedal_kickdown_switch: Option<bool>,
    /// Status (active or not active) of the system used to limit maximum
    /// vehicle velocity.
    pub road_speed_limit_status: Option<bool>,
    /// The ratio of actual position of the analog engine speed/torque request
    /// input device (such as an accelerator pedal or throttle lever) to the
    /// maximum position of the input device.
    pub accelerator_pedal_position1: Option<u8>,
    /// The ratio of actual engine percent torque (indicated) to maximum
    /// indicated torque available at the current engine speed, clipped to zero
    /// torque during engine braking.
    pub percent_load_at_current_speed: Option<u8>,
    /// The ratio of actual position of the remote analog engine speed/torque
    /// request input device (such as an accelerator pedal or throttle lever) to
    /// the maximum position of the input device.
    pub remote_accelerator_pedal_position: Option<u8>,
}

impl ElectronicEngineController2Message {
    pub fn from_pdu(pdu: &[u8]) -> (r: Self)
        requires
            pdu@.len() >= 4,
        ensures
            r.accelerator_pedal1_low_idle_switch == bool_of(pdu@[0]),
            r.accelerator_pedal_kickdown_switch == bool_of(pdu@[0] >> 2u8),
            r.road_speed_limit_status == bool_of(pdu@[0] >> 4u8),
            r.accelerator_pedal_position1 == slot_dec_u8(position_level2::resolution(), pdu@[1]),
            r.percent_load_at_current_speed == slot_dec_u8(position_level3::resolution(), pdu@[2]),
            r.remote_accelerator_pedal_position == slot_dec_u8(position_level::resolution(), pdu@[3]),
    {
        Self {
            accelerator_pedal1_low_idle_switch: bool_from_value(pdu[0]),
            accelerator_pedal_kickdown_switch: bool_from_value(pdu[0] >> 2),
            road_speed_limit_status: bool_from_value(pdu[0] >> 4),
            accelerator_pedal_position1: position_level2::dec(pdu[1]),
            percent_load_at_current_speed: position_level3::dec(pdu[2]),
            remote_accelerator_pedal_position: position_level::dec(pdu[3]),
        }
    }

    pub fn to_pdu(&self) -> (r: [u8; 8])
        ensures
            r@ == seq![
                bool_bits(self.accelerator_pedal1_low_idle_switch) | (bool_bits(
                    self.accelerator_pedal_kickdown_switch,
                ) << 2u8) | (bool_bits(self.road_speed_limit_status) << 4u8),
                slot_enc_u8(position_level2::resolution(), self.accelerator_pedal_position1),
                slot_enc_u8(position_level3::resolution(), self.percent_load_at_current_speed),
                slot_enc_u8(position_level::resolution(), self.remote_accelerator_pedal_position),
                PDU_NOT_AVAILABLE,
                PDU_NOT_AVAILABLE,
                PDU_NOT_AVAILABLE,
                PDU_NOT_AVAILABLE,
            ],
    {
        [
            bool_to_value(self.accelerator_pedal1_low_idle_switch) | bool_to_value(
                self.accelerator_pedal_kickdown_switch,
            ) << 2 | bool_to_value(self.road_speed_limit_status) << 4,
            position_level2::enc(self.accelerator_pedal_position1),
            position_level3::enc(self.percent_load_at_current_speed),
            position_level::enc(self.remote_accelerator_pedal_position),
            PDU_NOT_AVAILABLE,
            PDU_NOT_AVAILABLE,
            PDU_NOT_AVAILABLE,
            PDU_NOT_AVAILABLE,
        ]
    }
}

//
// Electronic Engine Controller 3
//

pub struct ElectronicEngineController3Message {
    /// The calculated torque that indicates the amount of torque required by
    /// the basic engine itself added by the loss torque of accessories.
    pub nominal_friction_percent_torque: Option<u8>,
    /// An indication by the engine of the optimal operating speed of the engine
    /// for the current existing conditions.
    pub engines_desired_operating_speed: Option<u16>,
    /// This byte is utilized in transmission gear selection routines and
    /// indicates the engine's preference of lower versus higher engine speeds
    /// should its desired speed not be achievable.
    pub engines_desired_operating_speed_asymmetry_adjustment: Option<u8>,
}

impl ElectronicEngineController3Message {
    pub fn from_pdu(pdu: &[u8]) -> (r: Self)
        requires
            pdu@.len() >= 4,
        ensures
            r.nominal_friction_percent_torque == slot_dec_u8(position_level2::resolution(), pdu@[0]),
            r.engines_desired_operating_speed == slot_dec_u16(
                rotational_velocity::resolution(),
                pair(pdu@, 1),
            ),
            r.engines_desired_operating_speed_asymmetry_adjustment == slot_dec_u8(
                count::resolution(),
                pdu@[3],
            ),
    {
        Self {
            nominal_friction_percent_torque: position_level2::dec(pdu[0]),
            engines_desired_operating_speed: rotational_velocity::dec(pair_at(pdu, 1)),
            engines_desired_operating_speed_asymmetry_adjustment: count::dec(pdu[3]),
        }
    }

    pub fn to_pdu(&self) -> (r: [u8; 8])
        ensures
            r@ == seq![
                slot_enc_u8(position_level2::resolution(), self.nominal_friction_percent_torque),
                slot_enc_u16(rotational_velocity::resolution(), self.engines_desired_operating_speed)[0],
                slot_enc_u16(rotational_velocity::resolution(), self.engines_desired_operating_speed)[1],
                slot_enc_u8(count::resolution(), self.engines_desired_operating_speed_asymmetry_adjustment),
                PDU_NOT_AVAILABLE,
                PDU_NOT_AVAILABLE,
                PDU_NOT_AVAILABLE,
                PDU_NOT_AVAILABLE,
            ],
    {
        let speed = rotational_velocity::enc(self.engines_desired_operating_speed);
        [
            position_level2::enc(self.nominal_friction_percent_torque),
            speed[0],
            speed[1],
            count::enc(self.engines_desired_operating_speed_asymmetry_adjustment),
            PDU_NOT_AVAILABLE,
            PDU_NOT_AVAILABLE,
            PDU_NOT_AVAILABLE,
            PDU_NOT_AVAILABLE,
        ]
    }
}

//
// Torque Speed Control 1
//

#[derive(Debug, Copy, Clone, PartialEq, Eq, Structural)]
pub enum OverrideControlMode {
    OverrideDisabled,
    SpeedControl,
    TorqueControl,
    SpeedTorqueLimitControl,
}

/// The override control mode in the low two bits of `value`.
pub open spec fn override_control_mode_of(value: u8) -> OverrideControlMode {
    let v = value & 0b11;
    if v == 0 {
        OverrideControlMode::OverrideDisabled
    } else if v == 1 {
        OverrideControlMode::SpeedControl
    } else if v == 2 {
        OverrideControlMode::TorqueControl
    } else {
        OverrideControlMode::SpeedTorqueLimitControl
    }
}

pub open spec fn override_control_mode_bits(mode: OverrideControlMode) -> u8 {
    match mode {
        OverrideControlMode::OverrideDisabled => 0b00,
        OverrideControlMode::SpeedControl => 0b01,
        OverrideControlMode::TorqueControl => 0b10,
        OverrideControlMode::SpeedTorqueLimitControl => 0b11,
    }
}

impl OverrideControlMode {
    /// Decodes the low two bits of `value`; the higher bits are ignored.
    pub fn from_value(value: u8) -> (r: Self)
        ensures
            r == override_control_mode_of(value),
    {
        let v = value & 0b11;
        if v == 0 {
            OverrideControlMode::OverrideDisabled
        } else if v == 1 {
            OverrideControlMode::SpeedControl
        } else if v == 2 {
            OverrideControlMode::TorqueControl
        } else {
            OverrideControlMode::SpeedTorqueLimitControl
        }
    }

    pub fn to_value(mode: Self) -> (r: u8)
        ensures
            r == override_control_mode_bits(mode),
            r <= 0b11,
    {
        match mode {
            OverrideControlMode::OverrideDisabled => 0b00,
            OverrideControlMode::SpeedControl => 0b01,
            OverrideControlMode::TorqueControl => 0b10,
            OverrideControlMode::SpeedTorqueLimitControl => 0b11,
        }
    }
}

#[derive(Debug, Copy, Clone, PartialEq, Eq, Structural)]
pub enum RequestedSpeedControlCondition {
    TransientOptimizedDriveLineDisengaged,
    StabilityOptimizedDriveLineDisengaged,
    StabilityOptimizedDriveLineEngaged1,
    StabilityOptimizedDriveLineEngaged2,
}

/// The requested speed control condition in the low two bits of `value`.
pub open spec fn speed_control_condition_of(value: u8) -> RequestedSpeedControlCondition {
    let v = value & 0b11;
    if v == 0 {
        RequestedSpeedControlCondition::TransientOptimizedDriveLineDisengaged
    } else if v == 1 {
        RequestedSpeedControlCondition::StabilityOptimizedDriveLineDisengaged
    } else if v == 2 {
        RequestedSpeedControlCondition::StabilityOptimizedDriveLineEngaged1
    } else {
        RequestedSpeedControlCondition::StabilityOptimizedDriveLineEngaged2
    }
}

pub open spec fn speed_control_condition_bits(condition: RequestedSpeedControlCondition) -> u8 {
    match condition {
        RequestedSpeedControlCondition::TransientOptimizedDriveLineDisengaged => 0b00,
        RequestedSpeedControlCondition::StabilityOptimizedDriveLineDisengaged => 0b01,
        RequestedSpeedControlCondition::StabilityOptimizedDriveLineEngaged1 => 0b10,
        RequestedSpeedControlCondition::StabilityOptimizedDriveLineEngaged2 => 0b11,
    }
}

impl RequestedSpeedControlCondition {
    /// Decodes the low two bits of `value`; the higher bits are ignored.
    pub fn from_value(value: u8) -> (r: Self)
        ensures
            r == speed_control_condition_of(value),
    {
        let v = value & 0b11;
        if v == 0 {
            RequestedSpeedControlCondition::TransientOptimizedDriveLineDisengaged
        } else if v == 1 {
            RequestedSpeedControlCondition::StabilityOptimizedDriveLineDisengaged
        } else if v == 2 {
            RequestedSpeedControlCondition::StabilityOptimizedDriveLineEngaged1
        } else {
            RequestedSpeedControlCondition::StabilityOptimizedDriveLineEngaged2
        }
    }

    pub fn to_value(condition: Self) -> (r: u8)
        ensures
            r == speed_control_condition_bits(condition),
            r <= 0b11,
    {
        match condition {
            RequestedSpeedControlCondition::TransientOptimizedDriveLineDisengaged => 0b00,
            RequestedSpeedControlCondition::StabilityOptimizedDriveLineDisengaged => 0b01,
            RequestedSpeedControlCondition::StabilityOptimizedDriveLineEngaged1 => 0b10,
            RequestedSpeedControlCondition::StabilityOptimizedDriveLineEngaged2 => 0b11,
        }
    }
}

#[derive(Debug, Copy, Clone, PartialEq, Eq, Structural)]
pub enum OverrideControlModePriority {
    HighestPriority,
    HighPriority,
    MediumPriority,
    LowPriority,
}

/// The override control mode priority in the low two bits of `value`.
pub open spec fn control_mode_priority_of(value: u8) -> OverrideControlModePriority {
    let v = value & 0b11;
    if v == 0 {
        OverrideControlModePriority::HighestPriority
    } else if v == 1 {
        OverrideControlModePriority::HighPriority
    } else if v == 2 {
        OverrideControlModePriority::MediumPriority
    } else {
        OverrideControlModePriority::LowPriority
    }
}

pub open spec fn control_mode_priority_bits(priority: OverrideControlModePriority) -> u8 {
    match priority {
        OverrideControlModePriority::HighestPriority => 0b00,
        OverrideControlModePriority::HighPriority => 0b01,
        OverrideControlModePriority::MediumPriority => 0b10,
        OverrideControlModePriority::LowPriority => 0b11,
    }
}

impl OverrideControlModePriority {
    /// Decodes the low two bits of `value`; the higher bits are ignored.
    pub fn from_value(value: u8) -> (r: Self)
        ensures
            r == control_mode_priority_of(value),
    {
        let v = value & 0b11;
        if v == 0 {
            OverrideControlModePriority::HighestPriority
        } else if v == 1 {
            OverrideControlModePriority::HighPriority
        } else if v == 2 {
            OverrideControlModePriority::MediumPriority
        } else {
            OverrideControlModePriority::LowPriority
        }
    }

    pub fn to_value(priority: Self) -> (r: u8)
        ensures
            r == control_mode_priority_bits(priority),
            r <= 0b11,
    {
        match priority {
            OverrideControlModePriority::HighestPriority => 0b00,
            OverrideControlModePriority::HighPriority => 0b01,
            OverrideControlModePriority::MediumPriority => 0b10,
            OverrideControlModePriority::LowPriority => 0b11,
        }
    }
}

pub struct TorqueSpeedControl1Message {
    /// Override control mode - SPN 695.
    pub override_control_mode: OverrideControlMode,
    /// Requested speed control conditions - SPN 696.
    pub speed_control_condition: RequestedSpeedControlCondition,
    /// Override control mode priority - SPN 897.
    pub control_mode_priority: OverrideControlModePriority,
    /// Requested speed or speed limit - SPN 898.
    pub speed: Option<u16>,
    /// Requested torque or torque limit - SPN 518.
    pub torque: Option<u8>,
}

impl TorqueSpeedControl1Message {
    pub fn from_pdu(pdu: &[u8]) -> (r: Self)
        requires
            pdu@.len() >= 4,
        ensures
            r.override_control_mode == override_control_mode_of(pdu@[0]),
            r.speed_control_condition == speed_control_condition_of(pdu@[0] >> 2u8),
            r.control_mode_priority == control_mode_priority_of(pdu@[0] >> 4u8),
            r.speed == slot_dec_u16(rotational_velocity::resolution(), pair(pdu@, 1)),
            r.torque == slot_dec_u8(position_level2::resolution(), pdu@[3]),
    {
        Self {
            override_control_mode: OverrideControlMode::from_value(pdu[0]),
            speed_control_condition: RequestedSpeedControlCondition::from_value(pdu[0] >> 2),
            control_mode_priority: OverrideControlModePriority::from_value(pdu[0] >> 4),
            speed: rotational_velocity::dec(pair_at(pdu, 1)),
            torque: position_level2::dec(pdu[3]),
        }
    }

    pub fn to_pdu(&self) -> (r: [u8; 8])
        ensures
            r@ == seq![
                override_control_mode_bits(self.override_control_mode) | (speed_control_condition_bits(
                    self.speed_control_condition,
                ) << 2u8) | (control_mode_priority_bits(self.control_mode_priority) << 4u8),
                slot_enc_u16(rotational_velocity::resolution(), self.speed)[0],
                slot_enc_u16(rotational_velocity::resolution(), self.speed)[1],
                slot_enc_u8(position_level2::resolution(), self.torque),
                PDU_NOT_AVAILABLE,
                PDU_NOT_AVAILABLE,
                PDU_NOT_AVAILABLE,
                PDU_NOT_AVAILABLE,
            ],
    {
        let speed = rotational_velocity::enc(self.speed);
        [
            OverrideControlMode::to_value(self.override_control_mode)
                | RequestedSpeedControlCondition::to_value(self.speed_control_condition) << 2
                | OverrideControlModePriority::to_value(self.control_mode_priority) << 4,
            speed[0],
            speed[1],
            position_level2::enc(self.torque),
            PDU_NOT_AVAILABLE,
            PDU_NOT_AVAILABLE,
            PDU_NOT_AVAILABLE,
            PDU_NOT_AVAILABLE,
        ]
    }
}

//
// Ambient Conditions
//

pub struct AmbientConditionsMessage {
    /// Barometric pressure, 0.5 kPa per bit.
    pub barometric_pressure: Option<u8>,
    pub cab_interior_temperature: Option<i16>,
    pub ambient_air_temperature: Option<i16>,
    pub air_inlet_temperature: Option<i8>,
    pub road_surface_temperature: Option<i16>,
}

impl AmbientConditionsMessage {
    pub fn from_pdu(pdu: &[u8]) -> (r: Self)
        requires
            pdu@.len() >= 8,
        ensures
            r.barometric_pressure == if pdu@[0] == PDU_NOT_AVAILABLE {
                None
            } else {
                Some(pdu@[0] / 2)
            },
            r.cab_interior_temperature == slot_dec_i16(temperature::resolution(), pair(pdu@, 1)),
            r.ambient_air_temperature == slot_dec_i16(temperature::resolution(), pair(pdu@, 3)),
            r.air_inlet_temperature == slot_dec_i8(temperature2::resolution(), pdu@[5]),
            r.road_surface_temperature == slot_dec_i16(temperature::resolution(), pair(pdu@, 6)),
    {
        Self {
            barometric_pressure: if pdu[0] != PDU_NOT_AVAILABLE {
                Some(pdu[0] / 2)
            } else {
                None
            },
            cab_interior_temperature: temperature::dec(pair_at(pdu, 1)),
            ambient_air_temperature: temperature::dec(pair_at(pdu, 3)),
            air_inlet_temperature: temperature2::dec(pdu[5]),
            road_surface_temperature: temperature::dec(pair_at(pdu, 6)),
        }
    }

    /// The barometric pressure is written doubled, saturating at 255.
    pub fn to_pdu(&self) -> (r: [u8; 8])
        ensures
            r@ == seq![
                match self.barometric_pressure {
                    Some(p) => if p <= 127 {
                        (2 * p) as u8
                    } else {
                        255u8
                    },
                    None => PDU_NOT_AVAILABLE,
                },
                slot_enc_i16(temperature::resolution(), self.cab_interior_temperature)[0],
                slot_enc_i16(temperature::resolution(), self.cab_interior_temperature)[1],
                slot_enc_i16(temperature::resolution(), self.ambient_air_temperature)[0],
                slot_enc_i16(temperature::resolution(), self.ambient_air_temperature)[1],
                slot_enc_i8(temperature2::resolution(), self.air_inlet_temperature),
                slot_enc_i16(temperature::resolution(), self.road_surface_temperature)[0],
                slot_enc_i16(temperature::resolution(), self.road_surface_temperature)[1],
            ],
    {
        let pressure = match self.barometric_pressure {
            Some(p) => if p <= 127 {
                2 * p
            } else {
                255
            },
            None => PDU_NOT_AVAILABLE,
        };
        let cab = temperature::enc(self.cab_interior_temperature);
        let ambient = temperature::enc(self.ambient_air_temperature);
        let road = temperature::enc(self.road_surface_temperature);
        [
            pressure,
            cab[0],
            cab[1],
            ambient[0],
            ambient[1],
            temperature2::enc(self.air_inlet_temperature),
            road[0],
            road[1],
        ]
    }
}

//
// Engine Fluid Level/Pressure 1
//

pub struct EngineFluidLevelPressure1Message {
    pub fuel_delivery_pressure: Option<u8>,
    pub extended_crankcase_blow_by_pressure: Option<u8>,
    pub engine_oil_level: Option<u8>,
    pub engine_oil_pressure: Option<u8>,
    pub crankcase_pressure: Option<i16>,
    pub coolant_pressure: Option<u8>,
    pub coolant_level: Option<u8>,
}

impl EngineFluidLevelPressure1Message {
    pub fn from_pdu(pdu: &[u8]) -> (r: Self)
        requires
            pdu@.len() >= 8,
        ensures
            r.fuel_delivery_pressure == slot_dec_u8(pressure::resolution(), pdu@[0]),
            r.extended_crankcase_blow_by_pressure == slot_dec_u8(pressure2::resolution(), pdu@[1]),
            r.engine_oil_level == slot_dec_u8(position_level::resolution(), pdu@[2]),
            r.engine_oil_pressure == slot_dec_u8(pressure::resolution(), pdu@[3]),
            r.crankcase_pressure == slot_dec_i16(pressure4::resolution(), pair(pdu@, 4)),
            r.coolant_pressure == slot_dec_u8(pressure3::resolution(), pdu@[6]),
            r.coolant_level == slot_dec_u8(position_level::resolution(), pdu@[7]),
    {
        Self {
            fuel_delivery_pressure: pressure::dec(pdu[0]),
            extended_crankcase_blow_by_pressure: pressure2::dec(pdu[1]),
            engine_oil_level: position_level::dec(pdu[2]),
            engine_oil_pressure: pressure::dec(pdu[3]),
            crankcase_pressure: pressure4::dec(pair_at(pdu, 4)),
            coolant_pressure: pressure3::dec(pdu[6]),
            coolant_level: position_level::dec(pdu[7]),
        }
    }

    pub fn to_pdu(&self) -> (r: [u8; 8])
        ensures
            r@ == seq![
                slot_enc_u8(pressure::resolution(), self.fuel_delivery_pressure),
                slot_enc_u8(pressure2::resolution(), self.extended_crankcase_blow_by_pressure),
                slot_enc_u8(position_level::resolution(), self.engine_oil_level),
                slot_enc_u8(pressure::resolution(), self.engine_oil_pressure),
                slot_enc_i16(pressure4::resolution(), self.crankcase_pressure)[0],
                slot_enc_i16(pressure4::resolution(), self.crankcase_pressure)[1],
                slot_enc_u8(pressure3::resolution(), self.coolant_pressure),
                slot_enc_u8(position_level::resolution(), self.coolant_level),
            ],
    {
        let crankcase = pressure4::enc(self.crankcase_pressure);
        [
            pressure::enc(self.fuel_delivery_pressure),
            pressure2::enc(self.extended_crankcase_blow_by_pressure),
            position_level::enc(self.engine_oil_level),
            pressure::enc(self.engine_oil_pressure),
            crankcase[0],
            crankcase[1],
            pressure3::enc(self.coolant_pressure),
            position_level::enc(self.coolant_level),
        ]
    }
}

//
// Fuel Consumption (Liquid)
//

pub struct FuelConsumptionMessage {
    pub trip_fuel: Option<u32>,
    pub total_fuel_used: Option<u32>,
}

impl FuelConsumptionMessage {
    pub fn from_pdu(pdu: &[u8]) -> (r: Self)
        requires
            pdu@.len() >= 8,
        ensures
            r.trip_fuel == slot_dec_u32(liquid_fuel_usage::resolution(), quad(pdu@, 0)),
            r.total_fuel_used == slot_dec_u32(liquid_fuel_usage::resolution(), quad(pdu@, 4)),
    {
        Self {
            trip_fuel: liquid_fuel_usage::dec(quad_at(pdu, 0)),
            total_fuel_used: liquid_fuel_usage::dec(quad_at(pdu, 4)),
        }
    }

    pub fn to_pdu(&self) -> (r: [u8; 8])
        ensures
            r@ == slot_enc_u32(liquid_fuel_usage::resolution(), self.trip_fuel) + slot_enc_u32(
                liquid_fuel_usage::resolution(),
                self.total_fuel_used,
            ),
    {
        let trip = liquid_fuel_usage::enc(self.trip_fuel);
        let total = liquid_fuel_usage::enc(self.total_fuel_used);
        let r = [trip[0], trip[1], trip[2], trip[3], total[0], total[1], total[2], total[3]];
        assert(r@ =~= trip@ + total@);
        r
    }
}

//
// Vehicle Distance
//

pub struct VehicleDistanceMessage {
    pub trip_distance: Option<u32>,
    pub total_vehicle_distance: Option<u32>,
}

impl VehicleDistanceMessage {
    pub fn from_pdu(pdu: &[u8]) -> (r: Self)
        requires
            pdu@.len() >= 8,
        ensures
            r.trip_distance == slot_dec_u32(distance::resolution(), quad(pdu@, 0)),
            r.total_vehicle_distance == slot_dec_u32(distance::resolution(), quad(pdu@, 4)),
    {
        Self {
            trip_distance: distance::dec(quad_at(pdu, 0)),
            total_vehicle_distance: distance::dec(quad_at(pdu, 4)),
        }
    }

    pub fn to_pdu(&self) -> (r: [u8; 8])
        ensures
            r@ == slot_enc_u32(distance::resolution(), self.trip_distance) + slot_enc_u32(
                distance::resolution(),
                self.total_vehicle_distance,
            ),
    {
        let trip = distance::enc(self.trip_distance);
        let total = distance::enc(self.total_vehicle_distance);
        let r = [trip[0], trip[1], trip[2], trip[3], total[0], total[1], total[2], total[3]];
        assert(r@ =~= trip@ + total@);
        r
    }
}

//
// ECU History
//

pub struct ECUHistoryMessage {
    pub total_ecu_distance: Option<u32>,
    pub total_ecu_run_time: Option<u32>,
}

impl ECUHistoryMessage {
    pub fn from_pdu(pdu: &[u8]) -> (r: Self)
        requires
            pdu@.len() >= 8,
        ensures
            r.total_ecu_distance == slot_dec_u32(distance::resolution(), quad(pdu@, 0)),
            r.total_ecu_run_time == slot_dec_u32(time::resolution(), quad(pdu@, 4)),
    {
        Self {
            total_ecu_distance: distance::dec(quad_at(pdu, 0)),
            total_ecu_run_time: time::dec(quad_at(pdu, 4)),
        }
    }

    pub fn to_pdu(&self) -> (r: [u8; 8])
        ensures
            r@ == slot_enc_u32(distance::resolution(), self.total_ecu_distance) + slot_enc_u32(
                time::resolution(),
                self.total_ecu_run_time,
            ),
    {
        let dist = distance::enc(self.total_ecu_distance);
        let run = time::enc(self.total_ecu_run_time);
        let r = [dist[0], dist[1], dist[2], dist[3], run[0], run[1], run[2], run[3]];
        assert(r@ =~= dist@ + run@);
        r
    }
}

//
// Cab Illumination Message
//

pub struct CabIlluminationMessage {
    pub illumination_brightness_percent: Option<u8>,
}

impl CabIlluminationMessage {
    pub fn from_pdu(pdu: &[u8]) -> (r: Self)
        requires
            pdu@.len() >= 1,
        ensures
            r.illumination_brightness_percent == slot_dec_u8(position_level::resolution(), pdu@[0]),
    {
        Self { illumination_brightness_percent: position_level::dec(pdu[0]) }
    }

    pub fn to_pdu(&self) -> (r: [u8; 8])
        ensures
            r@ == seq![
                slot_enc_u8(position_level::resolution(), self.illumination_brightness_percent),
                PDU_NOT_AVAILABLE,
                PDU_NOT_AVAILABLE,
                PDU_NOT_AVAILABLE,
                PDU_NOT_AVAILABLE,
                PDU_NOT_AVAILABLE,
                PDU_NOT_AVAILABLE,
                PDU_NOT_AVAILABLE,
            ],
    {
        [
            position_level::enc(self.illumination_brightness_percent),
            PDU_NOT_AVAILABLE,
            PDU_NOT_AVAILABLE,
            PDU_NOT_AVAILABLE,
            PDU_NOT_AVAILABLE,
            PDU_NOT_AVAILABLE,
            PDU_NOT_AVAILABLE,
            PDU_NOT_AVAILABLE,
        ]
    }
}

//
// Fan Drive
//

#[derive(Debug, Copy, Clone, PartialEq, Eq, Structural)]
pub enum FanDriveState {
    FanOff,
    EngineSystemGeneral,
    ExcessiveEngineAirTemperature,
    ExcessiveEngineOilTemperature,
    ExcessiveEngineCoolantTemperature,
    ExcessiveTransmissionOilTemperature,
    ExcessiveHydraulicOilTemperature,
    DefaultOperation,
    NotDefined,
    ManualControl,
    TransmissionRetarder,
    ACSystem,
    Timer,
    EngineBrake,
    Other,
}

/// The fan drive state in the low four bits of `value`; `0b1111` is not available.
pub open spec fn fan_drive_state_of(value: u8) -> Option<FanDriveState> {
    let v = value & 0b1111;
    if v == 0b1111 {
        None
    } else {
        Some(
            match v {
                0 => FanDriveState::FanOff,
                1 => FanDriveState::EngineSystemGeneral,
                2 => FanDriveState::ExcessiveEngineAirTemperature,
                3 => FanDriveState::ExcessiveEngineOilTemperature,
                4 => FanDriveState::ExcessiveEngineCoolantTemperature,
                5 => FanDriveState::ExcessiveTransmissionOilTemperature,
                6 => FanDriveState::ExcessiveHydraulicOilTemperature,
                7 => FanDriveState::DefaultOperation,
                8 => FanDriveState::NotDefined,
                9 => FanDriveState::ManualControl,
                10 => FanDriveState::TransmissionRetarder,
                11 => FanDriveState::ACSystem,
                12 => FanDriveState::Timer,
                13 => FanDriveState::EngineBrake,
                _ => FanDriveState::Other,
            },
        )
    }
}

pub open spec fn fan_drive_state_bits(mode: FanDriveState) -> u8 {
    match mode {
        FanDriveState::FanOff => 0,
        FanDriveState::EngineSystemGeneral => 1,
        FanDriveState::ExcessiveEngineAirTemperature => 2,
        FanDriveState::ExcessiveEngineOilTemperature => 3,
        FanDriveState::ExcessiveEngineCoolantTemperature => 4,
        FanDriveState::ExcessiveTransmissionOilTemperature => 5,
        FanDriveState::ExcessiveHydraulicOilTemperature => 6,
        FanDriveState::DefaultOperation => 7,
        FanDriveState::NotDefined => 8,
        FanDriveState::ManualControl => 9,
        FanDriveState::TransmissionRetarder => 10,
        FanDriveState::ACSystem => 11,
        FanDriveState::Timer => 12,
        FanDriveState::EngineBrake => 13,
        FanDriveState::Other => 14,
    }
}

impl FanDriveState {
    /// Decodes the low four bits of `value`; the higher bits are ignored.
    pub fn from_value(value: u8) -> (r: Option<Self>)
        ensures
            r == fan_drive_state_of(value),
    {
        let v = value & 0b1111;
        if v == 0b1111 {
            None
        } else {
            Some(
                match v {
                    0 => Self::FanOff,
                    1 => Self::EngineSystemGeneral,
                    2 => Self::ExcessiveEngineAirTemperature,
                    3 => Self::ExcessiveEngineOilTemperature,
                    4 => Self::ExcessiveEngineCoolantTemperature,
                    5 => Self::ExcessiveTransmissionOilTemperature,
                    6 => Self::ExcessiveHydraulicOilTemperature,
                    7 => Self::DefaultOperation,
                    8 => Self::NotDefined,
                    9 => Self::ManualControl,
                    10 => Self::TransmissionRetarder,
                    11 => Self::ACSystem,
                    12 => Self::Timer,
                    13 => Self::EngineBrake,
                    _ => Self::Other,
                },
            )
        }
    }

    pub fn to_value(mode: Self) -> (r: u8)
        ensures
            r == fan_drive_state_bits(mode),
    {
        match mode {
            Self::FanOff => 0,
            Self::EngineSystemGeneral => 1,
            Self::ExcessiveEngineAirTemperature => 2,
            Self::ExcessiveEngineOilTemperature => 3,
            Self::ExcessiveEngineCoolantTemperature => 4,
            Self::ExcessiveTransmissionOilTemperature => 5,
            Self::ExcessiveHydraulicOilTemperature => 6,
            Self::DefaultOperation => 7,
            Self::NotDefined => 8,
            Self::ManualControl => 9,
            Self::TransmissionRetarder => 10,
            Self::ACSystem => 11,
            Self::Timer => 12,
            Self::EngineBrake => 13,
            Self::Other => 14,
        }
    }
}

pub struct FanDriveMessage {
    pub estimated_percent_fan_speed: Option<u8>,
    pub fan_drive_state: Option<FanDriveState>,
    pub fan_speed: Option<u16>,
}

impl FanDriveMessage {
    pub fn from_pdu(pdu: &[u8]) -> (r: Self)
        requires
            pdu@.len() >= 4,
        ensures
            r.estimated_percent_fan_speed == slot_dec_u8(position_level::resolution(), pdu@[0]),
            r.fan_drive_state == fan_drive_state_of(pdu@[1]),
            r.fan_speed == slot_dec_u16(rotational_velocity::resolution(), pair(pdu@, 2)),
    {
        Self {
            estimated_percent_fan_speed: position_level::dec(pdu[0]),
            fan_drive_state: FanDriveState::from_value(pdu[1]),
            fan_speed: rotational_velocity::dec(pair_at(pdu, 2)),
        }
    }

    /// An absent fan drive state is written as the fan being off.
    pub fn to_pdu(&self) -> (r: [u8; 8])
        ensures
            r@ == seq![
                slot_enc_u8(position_level::resolution(), self.estimated_percent_fan_speed),
                match self.fan_drive_state {
                    Some(m) => fan_drive_state_bits(m),
                    None => fan_drive_state_bits(FanDriveState::FanOff),
                },
                slot_enc_u16(rotational_velocity::resolution(), self.fan_speed)[0],
                slot_enc_u16(rotational_velocity::resolution(), self.fan_speed)[1],
                PDU_NOT_AVAILABLE,
                PDU_NOT_AVAILABLE,
                PDU_NOT_AVAILABLE,
                PDU_NOT_AVAILABLE,
            ],
    {
        let state = match self.fan_drive_state {
            Some(m) => m,
            None => FanDriveState::FanOff,
        };
        let speed = rotational_velocity::enc(self.fan_speed);
        [
            position_level::enc(self.estimated_percent_fan_speed),
            FanDriveState::to_value(state),
            speed[0],
            speed[1],
            PDU_NOT_AVAILABLE,
            PDU_NOT_AVAILABLE,
            PDU_NOT_AVAILABLE,
            PDU_NOT_AVAILABLE,
        ]
    }
}

/// Four two-bit booleans packed into one byte, the first in the lowest bits.
pub open spec fn pack_bools(a: Option<bool>, b: Option<bool>, c: Option<bool>, d: Option<bool>) -> u8 {
    bool_bits(a) | (bool_bits(b) << 2u8) | (bool_bits(c) << 4u8) | (bool_bits(d) << 6u8)
}

fn pack_bool_values(a: Option<bool>, b: Option<bool>, c: Option<bool>, d: Option<bool>) -> (r: u8)
    ensures
        r == pack_bools(a, b, c, d),
{
    bool_to_value(a) | bool_to_value(b) << 2 | bool_to_value(c) << 4 | bool_to_value(d) << 6
}

//
// Shutdown
//

pub struct ShutdownMessage {
    pub idle_shutdown_has_shutdown_engine: Option<bool>,
    pub idle_shutdown_driver_alert_mode: Option<bool>,
    pub idle_shutdown_timer_override: Option<bool>,
    pub idle_shutdown_timer_state: Option<bool>,
    pub idle_shutdown_timer_function: Option<bool>,
    pub ac_high_pressure_fan_switch: Option<bool>,
    pub refrigerant_low_pressure_switch: Option<bool>,
    pub refrigerant_high_pressure_switch: Option<bool>,
    pub wait_to_start_lamp: Option<bool>,
    pub engine_protection_system_has_shutdown_engine: Option<bool>,
    pub engine_protection_system_approaching_shutdown: Option<bool>,
    pub engine_protection_system_timer_override: Option<bool>,
    pub engine_protection_system_timer_state: Option<bool>,
    pub engine_protection_system_configuration: Option<bool>,
}

impl ShutdownMessage {
    pub fn from_pdu(pdu: &[u8]) -> (r: Self)
        requires
            pdu@.len() >= 6,
        ensures
            r.idle_shutdown_has_shutdown_engine == bool_of(pdu@[0]),
            r.idle_shutdown_driver_alert_mode == bool_of(pdu@[0] >> 2u8),
            r.idle_shutdown_timer_override == bool_of(pdu@[0] >> 4u8),
            r.idle_shutdown_timer_state == bool_of(pdu@[0] >> 6u8),
            r.idle_shutdown_timer_function == bool_of(pdu@[1] >> 6u8),
            r.ac_high_pressure_fan_switch == bool_of(pdu@[2]),
            r.refrigerant_low_pressure_switch == bool_of(pdu@[2] >> 2u8),
            r.refrigerant_high_pressure_switch == bool_of(pdu@[2] >> 4u8),
            r.wait_to_start_lamp == bool_of(pdu@[3]),
            r.engine_protection_system_has_shutdown_engine == bool_of(pdu@[4]),
            r.engine_protection_system_approaching_shutdown == bool_of(pdu@[4] >> 2u8),
            r.engine_protection_system_timer_override == bool_of(pdu@[4] >> 4u8),
            r.engine_protection_system_timer_state == bool_of(pdu@[4] >> 6u8),
            r.engine_protection_system_configuration == bool_of(pdu@[5] >> 6u8),
    {
        Self {
            idle_shutdown_has_shutdown_engine: bool_from_value(pdu[0]),
            idle_shutdown_driver_alert_mode: bool_from_value(pdu[0] >> 2),
            idle_shutdown_timer_override: bool_from_value(pdu[0] >> 4),
            idle_shutdown_timer_state: bool_from_value(pdu[0] >> 6),
            idle_shutdown_timer_function: bool_from_value(pdu[1] >> 6),
            ac_high_pressure_fan_switch: bool_from_value(pdu[2]),
            refrigerant_low_pressure_switch: bool_from_value(pdu[2] >> 2),
            refrigerant_high_pressure_switch: bool_from_value(pdu[2] >> 4),
            wait_to_start_lamp: bool_from_value(pdu[3]),
            engine_protection_system_has_shutdown_engine: bool_from_value(pdu[4]),
            engine_protection_system_approaching_shutdown: bool_from_value(pdu[4] >> 2),
            engine_protection_system_timer_override: bool_from_value(pdu[4] >> 4),
            engine_protection_system_timer_state: bool_from_value(pdu[4] >> 6),
            engine_protection_system_configuration: bool_from_value(pdu[5] >> 6),
        }
    }

    pub fn to_pdu(&self) -> (r: [u8; 8])
        ensures
            r@ == seq![
                pack_bools(
                    self.idle_shutdown_has_shutdown_engine,
                    self.idle_shutdown_driver_alert_mode,
                    self.idle_shutdown_timer_override,
                    self.idle_shutdown_timer_state,
                ),
                bool_bits(self.idle_shutdown_timer_function) << 6u8,
                bool_bits(self.ac_high_pressure_fan_switch) | (bool_bits(
                    self.refrigerant_low_pressure_switch,
                ) << 2u8) | (bool_bits(self.refrigerant_high_pressure_switch) << 4u8),
                bool_bits(self.wait_to_start_lamp),
                pack_bools(
                    self.engine_protection_system_has_shutdown_engine,
                    self.engine_protection_system_approaching_shutdown,
                    self.engine_protection_system_timer_override,
                    self.engine_protection_system_timer_state,
                ),
                bool_bits(self.engine_protection_system_configuration) << 6u8,
                PDU_NOT_AVAILABLE,
                PDU_NOT_AVAILABLE,
            ],
    {
        [
            pack_bool_values(
                self.idle_shutdown_has_shutdown_engine,
                self.idle_shutdown_driver_alert_mode,
                self.idle_shutdown_timer_override,
                self.idle_shutdown_timer_state,
            ),
            bool_to_value(self.idle_shutdown_timer_function) << 6,
            bool_to_value(self.ac_high_pressure_fan_switch) | bool_to_value(
                self.refrigerant_low_pressure_switch,
            ) << 2 | bool_to_value(self.refrigerant_high_pressure_switch) << 4,
            bool_to_value(self.wait_to_start_lamp),
            pack_bool_values(
                self.engine_protection_system_has_shutdown_engine,
                self.engine_protection_system_approaching_shutdown,
                self.engine_protection_system_timer_override,
                self.engine_protection_system_timer_state,
            ),
            bool_to_value(self.engine_protection_system_configuration) << 6,
            PDU_NOT_AVAILABLE,
            PDU_NOT_AVAILABLE,
        ]
    }
}

//
// Power Takeoff Information
//

pub struct PowerTakeoffInformationMessage {
    pub power_takeoff_oil_temperature: Option<i8>,
    pub power_takeoff_speed: Option<u16>,
    pub power_takeoff_set_speed: Option<u16>,
    pub pto_enable_switch: Option<bool>,
    pub remote_pto_preprogrammed_speed_control_switch: Option<bool>,
    pub remote_pto_variable_speed_control_switch: Option<bool>,
    pub pto_set_switch: Option<bool>,
    pub pto_coast_decelerate_switch: Option<bool>,
    pub pto_resume_switch: Option<bool>,
    pub pto_accelerate_switch: Option<bool>,
}

impl PowerTakeoffInformationMessage {
    pub fn from_pdu(pdu: &[u8]) -> (r: Self)
        requires
            pdu@.len() >= 7,
        ensures
            r.power_takeoff_oil_temperature == slot_dec_i8(temperature2::resolution(), pdu@[0]),
            r.power_takeoff_speed == slot_dec_u16(rotational_velocity::resolution(), pair(pdu@, 1)),
            r.power_takeoff_set_speed == slot_dec_u16(rotational_velocity::resolution(), pair(pdu@, 3)),
            r.pto_enable_switch == bool_of(pdu@[5]),
            r.remote_pto_preprogrammed_speed_control_switch == bool_of(pdu@[5] >> 2u8),
            r.remote_pto_variable_speed_control_switch == bool_of(pdu@[5] >> 4u8),
            r.pto_set_switch == bool_of(pdu@[6]),
            r.pto_coast_decelerate_switch == bool_of(pdu@[6] >> 2u8),
            r.pto_resume_switch == bool_of(pdu@[6] >> 4u8),
            r.pto_accelerate_switch == bool_of(pdu@[6] >> 6u8),
    {
        Self {
            power_takeoff_oil_temperature: temperature2::dec(pdu[0]),
            power_takeoff_speed: rotational_velocity::dec(pair_at(pdu, 1)),
            power_takeoff_set_speed: rotational_velocity::dec(pair_at(pdu, 3)),
            pto_enable_switch: bool_from_value(pdu[5]),
            remote_pto_preprogrammed_speed_control_switch: bool_from_value(pdu[5] >> 2),
            remote_pto_variable_speed_control_switch: bool_from_value(pdu[5] >> 4),
            pto_set_switch: bool_from_value(pdu[6]),
            pto_coast_decelerate_switch: bool_from_value(pdu[6] >> 2),
            pto_resume_switch: bool_from_value(pdu[6] >> 4),
            pto_accelerate_switch: bool_from_value(pdu[6] >> 6),
        }
    }

    pub fn to_pdu(&self) -> (r: [u8; 8])
        ensures
            r@ == seq![
                slot_enc_i8(temperature2::resolution(), self.power_takeoff_oil_temperature),
                slot_enc_u16(rotational_velocity::resolution(), self.power_takeoff_speed)[0],
                slot_enc_u16(rotational_velocity::resolution(), self.power_takeoff_speed)[1],
                slot_enc_u16(rotational_velocity::resolution(), self.power_takeoff_set_speed)[0],
                slot_enc_u16(rotational_velocity::resolution(), self.power_takeoff_set_speed)[1],
                bool_bits(self.pto_enable_switch) | (bool_bits(
                    self.remote_pto_preprogrammed_speed_control_switch,
                ) << 2u8) | (bool_bits(self.remote_pto_variable_speed_control_switch) << 4u8),
                pack_bools(
                    self.pto_set_switch,
                    self.pto_coast_decelerate_switch,
                    self.pto_resume_switch,
                    self.pto_accelerate_switch,
                ),
                PDU_NOT_AVAILABLE,
            ],
    {
        let speed = rotational_velocity::enc(self.power_takeoff_speed);
        let set_speed = rotational_velocity::enc(self.power_takeoff_set_speed);
        [
            temperature2::enc(self.power_takeoff_oil_temperature),
            speed[0],
            speed[1],
            set_speed[0],
            set_speed[1],
            bool_to_value(self.pto_enable_switch) | bool_to_value(
                self.remote_pto_preprogrammed_speed_control_switch,
            ) << 2 | bool_to_value(self.remote_pto_variable_speed_control_switch) << 4,
            pack_bool_values(
                self.pto_set_switch,
                self.pto_coast_decelerate_switch,
                self.pto_resume_switch,
                self.pto_accelerate_switch,
            ),
            PDU_NOT_AVAILABLE,
        ]
    }
}

//
// Engine Temperature 1
//

pub struct EngineTemperature1Message {
    pub engine_coolant_temperature: Option<i8>,
    pub fuel_temperature: Option<i8>,
    pub engine_oil_temperature: Option<i16>,
    pub turbo_oil_temperature: Option<i16>,
    pub engine_intercooler_temperature: Option<i8>,
    pub engine_intercooler_thermostat_opening: Option<u8>,
}

impl EngineTemperature1Message {
    pub fn from_pdu(pdu: &[u8]) -> (r: Self)
        requires
            pdu@.len() >= 8,
        ensures
            r.engine_coolant_temperature == slot_dec_i8(temperature2::resolution(), pdu@[0]),
            r.fuel_temperature == slot_dec_i8(temperature2::resolution(), pdu@[1]),
            r.engine_oil_temperature == slot_dec_i16(temperature::resolution(), pair(pdu@, 2)),
            r.turbo_oil_temperature == slot_dec_i16(temperature::resolution(), pair(pdu@, 4)),
            r.engine_intercooler_temperature == slot_dec_i8(temperature2::resolution(), pdu@[6]),
            r.engine_intercooler_thermostat_opening == slot_dec_u8(position_level::resolution(), pdu@[7]),
    {
        Self {
            engine_coolant_temperature: temperature2::dec(pdu[0]),
            fuel_temperature: temperature2::dec(pdu[1]),
            engine_oil_temperature: temperature::dec(pair_at(pdu, 2)),
            turbo_oil_temperature: temperature::dec(pair_at(pdu, 4)),
            engine_intercooler_temperature: temperature2::dec(pdu[6]),
            engine_intercooler_thermostat_opening: position_level::dec(pdu[7]),
        }
    }

    pub fn to_pdu(&self) -> (r: [u8; 8])
        ensures
            r@ == seq![
                slot_enc_i8(temperature2::resolution(), self.engine_coolant_temperature),
                slot_enc_i8(temperature2::resolution(), self.fuel_temperature),
                slot_enc_i16(temperature::resolution(), self.engine_oil_temperature)[0],
                slot_enc_i16(temperature::resolution(), self.engine_oil_temperature)[1],
                slot_enc_i16(temperature::resolution(), self.turbo_oil_temperature)[0],
                slot_enc_i16(temperature::resolution(), self.turbo_oil_temperature)[1],
                slot_enc_i8(temperature2::resolution(), self.engine_intercooler_temperature),
                slot_enc_u8(position_level::resolution(), self.engine_intercooler_thermostat_opening),
            ],
    {
        let oil = temperature::enc(self.engine_oil_temperature);
        let turbo = temperature::enc(self.turbo_oil_temperature);
        [
            temperature2::enc(self.engine_coolant_temperature),
            temperature2::enc(self.fuel_temperature),
            oil[0],
            oil[1],
            turbo[0],
            turbo[1],
            temperature2::enc(self.engine_intercooler_temperature),
            position_level::enc(self.engine_intercooler_thermostat_opening),
        ]
    }
}

//
// Inlet/Exhaust Conditions 1
//

pub struct InletExhaustConditions1Message {
    /// Not decoded: always `None` when read, written as not available.
    pub particulate_trap_inlet_pressure: Option<u8>,
    pub boost_pressure: Option<u8>,
    pub intake_manifold_temperature: Option<i8>,
    pub air_inlet_pressure: Option<u8>,
    pub air_filter_differential_pressure: Option<u8>,
    pub exhaust_gas_temperature: Option<i16>,
    /// Not decoded: always `None` when read, written as not available.
    pub coolant_filter_differential_pressure: Option<u8>,
}

impl InletExhaustConditions1Message {
    pub fn from_pdu(pdu: &[u8]) -> (r: Self)
        requires
            pdu@.len() >= 7,
        ensures
            r.particulate_trap_inlet_pressure is None,
            r.boost_pressure == slot_dec_u8(pressure3::resolution(), pdu@[1]),
            r.intake_manifold_temperature == slot_dec_i8(temperature2::resolution(), pdu@[2]),
            r.air_inlet_pressure == slot_dec_u8(pressure3::resolution(), pdu@[3]),
            r.air_filter_differential_pressure == slot_dec_u8(pressure2::resolution(), pdu@[4]),
            r.exhaust_gas_temperature == slot_dec_i16(temperature::resolution(), pair(pdu@, 5)),
            r.coolant_filter_differential_pressure is None,
    {
        Self {
            particulate_trap_inlet_pressure: None,
            boost_pressure: pressure3::dec(pdu[1]),
            intake_manifold_temperature: temperature2::dec(pdu[2]),
            air_inlet_pressure: pressure3::dec(pdu[3]),
            air_filter_differential_pressure: pressure2::dec(pdu[4]),
            exhaust_gas_temperature: temperature::dec(pair_at(pdu, 5)),
            coolant_filter_differential_pressure: None,
        }
    }

    pub fn to_pdu(&self) -> (r: [u8; 8])
        ensures
            r@ == seq![
                PDU_NOT_AVAILABLE,
                slot_enc_u8(pressure3::resolution(), self.boost_pressure),
                slot_enc_i8(temperature2::resolution(), self.intake_manifold_temperature),
                slot_enc_u8(pressure3::resolution(), self.air_inlet_pressure),
                slot_enc_u8(pressure2::resolution(), self.air_filter_differential_pressure),
                slot_enc_i16(temperature::resolution(), self.exhaust_gas_temperature)[0],
                slot_enc_i16(temperature::resolution(), self.exhaust_gas_temperature)[1],
                PDU_NOT_AVAILABLE,
            ],
    {
        let exhaust = temperature::enc(self.exhaust_gas_temperature);
        [
            PDU_NOT_AVAILABLE,
            pressure3::enc(self.boost_pressure),
            temperature2::enc(self.intake_manifold_temperature),
            pressure3::enc(self.air_inlet_pressure),
            pressure2::enc(self.air_filter_differential_pressure),
            exhaust[0],
            exhaust[1],
            PDU_NOT_AVAILABLE,
        ]
    }
}

//
// Electronic Brake Controller 1
//

pub struct ElectronicBrakeController1Message {
    pub asr_engine_control_active: Option<bool>,
    pub asr_brake_control_active: Option<bool>,
    pub abs_active: Option<bool>,
    pub ebs_brake_switch: Option<bool>,
    pub brake_pedal_position: Option<u8>,
    pub abs_off_road_switch: Option<bool>,
    pub asr_off_road_switch: Option<bool>,
    pub asr_hill_holder_switch: Option<bool>,
    pub traction_control_override_switch: Option<bool>,
    pub accelerator_interlock_switch: Option<bool>,
    pub engine_derate_switch: Option<bool>,
    pub auxiliary_engine_shutdown_switch: Option<bool>,
    pub remote_accelerator_enable_switch: Option<bool>,
    pub engine_retarder_selection: Option<u8>,
    pub abs_fully_operational: Option<bool>,
    pub ebs_red_warning_signal: Option<bool>,
    pub abs_ebs_amber_warning_signal: Option<bool>,
    pub atc_asr_information_signal: Option<bool>,
    pub source_address: Option<u8>,
    pub trailer_abs_status: Option<bool>,
    pub tractor_mounted_trailer_abs_warning_signal: Option<bool>,
}

impl ElectronicBrakeController1Message {
    pub fn from_pdu(pdu: &[u8]) -> (r: Self)
        requires
            pdu@.len() >= 8,
        ensures
            r.asr_engine_control_active == bool_of(pdu@[0]),
            r.asr_brake_control_active == bool_of(pdu@[0] >> 2u8),
            r.abs_active == bool_of(pdu@[0] >> 4u8),
            r.ebs_brake_switch == bool_of(pdu@[0] >> 6u8),
            r.brake_pedal_position == slot_dec_u8(position_level::resolution(), pdu@[1]),
            r.abs_off_road_switch == bool_of(pdu@[2]),
            r.asr_off_road_switch == bool_of(pdu@[2] >> 2u8),
            r.asr_hill_holder_switch == bool_of(pdu@[2] >> 4u8),
            r.traction_control_override_switch == bool_of(pdu@[2] >> 6u8),
            r.accelerator_interlock_switch == bool_of(pdu@[3]),
            r.engine_derate_switch == bool_of(pdu@[3] >> 2u8),
            r.auxiliary_engine_shutdown_switch == bool_of(pdu@[3] >> 4u8),
            r.remote_accelerator_enable_switch == bool_of(pdu@[3] >> 6u8),
            r.engine_retarder_selection == slot_dec_u8(position_level::resolution(), pdu@[4]),
            r.abs_fully_operational == bool_of(pdu@[5]),
            r.ebs_red_warning_signal == bool_of(pdu@[5] >> 2u8),
            r.abs_ebs_amber_warning_signal == bool_of(pdu@[5] >> 4u8),
            r.atc_asr_information_signal == bool_of(pdu@[5] >> 6u8),
            r.source_address == slot_dec_u8(source_address::resolution(), pdu@[6]),
            r.trailer_abs_status == bool_of(pdu@[7] >> 4u8),
            r.tractor_mounted_trailer_abs_warning_signal == bool_of(pdu@[7] >> 6u8),
    {
        Self {
            asr_engine_control_active: bool_from_value(pdu[0]),
            asr_brake_control_active: bool_from_value(pdu[0] >> 2),
            abs_active: bool_from_value(pdu[0] >> 4),
            ebs_brake_switch: bool_from_value(pdu[0] >> 6),
            brake_pedal_position: position_level::dec(pdu[1]),
            abs_off_road_switch: bool_from_value(pdu[2]),
            asr_off_road_switch: bool_from_value(pdu[2] >> 2),
            asr_hill_holder_switch: bool_from_value(pdu[2] >> 4),
            traction_control_override_switch: bool_from_value(pdu[2] >> 6),
            accelerator_interlock_switch: bool_from_value(pdu[3]),
            engine_derate_switch: bool_from_value(pdu[3] >> 2),
            auxiliary_engine_shutdown_switch: bool_from_value(pdu[3] >> 4),
            remote_accelerator_enable_switch: bool_from_value(pdu[3] >> 6),
            engine_retarder_selection: position_level::dec(pdu[4]),
            abs_fully_operational: bool_from_value(pdu[5]),
            ebs_red_warning_signal: bool_from_value(pdu[5] >> 2),
            abs_ebs_amber_warning_signal: bool_from_value(pdu[5] >> 4),
            atc_asr_information_signal: bool_from_value(pdu[5] >> 6),
            source_address: source_address::dec(pdu[6]),
            trailer_abs_status: bool_from_value(pdu[7] >> 4),
            tractor_mounted_trailer_abs_warning_signal: bool_from_value(pdu[7] >> 6),
        }
    }

    pub fn to_pdu(&self) -> (r: [u8; 8])
        ensures
            r@ == seq![
                pack_bools(
                    self.asr_engine_control_active,
                    self.asr_brake_control_active,
                    self.abs_active,
                    self.ebs_brake_switch,
                ),
                slot_enc_u8(position_level::resolution(), self.brake_pedal_position),
                pack_bools(
                    self.abs_off_road_switch,
                    self.asr_off_road_switch,
                    self.asr_hill_holder_switch,
                    self.traction_control_override_switch,
                ),
                pack_bools(
                    self.accelerator_interlock_switch,
                    self.engine_derate_switch,
                    self.auxiliary_engine_shutdown_switch,
                    self.remote_accelerator_enable_switch,
                ),
                slot_enc_u8(position_level::resolution(), self.engine_retarder_selection),
                pack_bools(
                    self.abs_fully_operational,
                    self.ebs_red_warning_signal,
                    self.abs_ebs_amber_warning_signal,
                    self.atc_asr_information_signal,
                ),
                slot_enc_u8(source_address::resolution(), self.source_address),
                (bool_bits(self.trailer_abs_status) << 4u8) | (bool_bits(
                    self.tractor_mounted_trailer_abs_warning_signal,
                ) << 6u8),
            ],
    {
        [
            pack_bool_values(
                self.asr_engine_control_active,
                self.asr_brake_control_active,
                self.abs_active,
                self.ebs_brake_switch,
            ),
            position_level::enc(self.brake_pedal_position),
            pack_bool_values(
                self.abs_off_road_switch,
                self.asr_off_road_switch,
                self.asr_hill_holder_switch,
                self.traction_control_override_switch,
            ),
            pack_bool_values(
                self.accelerator_interlock_switch,
                self.engine_derate_switch,
                self.auxiliary_engine_shutdown_switch,
                self.remote_accelerator_enable_switch,
            ),
            position_level::enc(self.engine_retarder_selection),
            pack_bool_values(
                self.abs_fully_operational,
                self.ebs_red_warning_signal,
                self.abs_ebs_amber_warning_signal,
                self.atc_asr_information_signal,
            ),
            source_address::enc(self.source_address),
            bool_to_value(self.trailer_abs_status) << 4 | bool_to_value(
                self.tractor_mounted_trailer_abs_warning_signal,
            ) << 6,
        ]
    }
}

//
// TANK Information 1
//

pub struct TankInformation1Message {
    pub catalyst_tank_level: Option<u8>,
}

impl TankInformation1Message {
    pub fn from_pdu(pdu: &[u8]) -> (r: Self)
        requires
            pdu@.len() >= 1,
        ensures
            r.catalyst_tank_level == slot_dec_u8(position_level::resolution(), pdu@[0]),
    {
        Self { catalyst_tank_level: position_level::dec(pdu[0]) }
    }

    pub fn to_pdu(&self) -> (r: [u8; 8])
        ensures
            r@ == seq![
                slot_enc_u8(position_level::resolution(), self.catalyst_tank_level),
                PDU_NOT_AVAILABLE,
                PDU_NOT_AVAILABLE,
                PDU_NOT_AVAILABLE,
                PDU_NOT_AVAILABLE,
                PDU_NOT_AVAILABLE,
                PDU_NOT_AVAILABLE,
                PDU_NOT_AVAILABLE,
            ],
    {
        [
            position_level::enc(self.catalyst_tank_level),
            PDU_NOT_AVAILABLE,
            PDU_NOT_AVAILABLE,
            PDU_NOT_AVAILABLE,
            PDU_NOT_AVAILABLE,
            PDU_NOT_AVAILABLE,
            PDU_NOT_AVAILABLE,
            PDU_NOT_AVAILABLE,
        ]
    }
}

} // verus!
