use j1939::spn::{
    AmbientConditionsMessage, CabIlluminationMessage, ECUHistoryMessage,
    ElectronicBrakeController1Message, ElectronicEngineController1Message,
    ElectronicEngineController2Message, ElectronicEngineController3Message,
    EngineFluidLevelPressure1Message, EngineStarterMode, EngineTemperature1Message,
    EngineTorqueMode, FanDriveMessage, FanDriveState, FuelConsumptionMessage,
    InletExhaustConditions1Message, OverrideControlMode, OverrideControlModePriority,
    PowerTakeoffInformationMessage, RequestedSpeedControlCondition, ShutdownMessage,
    TankInformation1Message, TimeDate, TorqueSpeedControl1Message, VehicleDistanceMessage,
};

#[test]
fn engine_controller_message_1() {
    let engine_message = ElectronicEngineController1Message::from_pdu(&[
        0xF0, 0xEA, 0x7D, 0x00, 0x00, 0x00, 0xF0, 0xFF,
    ]);
    assert_eq!(
        engine_message.engine_torque_mode,
        Some(EngineTorqueMode::NoRequest)
    );
    assert_eq!(engine_message.driver_demand, Some(109));
    assert_eq!(engine_message.actual_engine, Some(0));
    assert_eq!(engine_message.rpm, Some(0));
    assert_eq!(engine_message.source_addr, Some(0));
    assert_eq!(
        engine_message.starter_mode,
        Some(EngineStarterMode::StartNotRequested)
    );
}

#[test]
fn engine_controller_message_2() {
    let engine_message = ElectronicEngineController1Message::from_pdu(&[
        0xF3, 0x91, 0x91, 0xAA, 0x18, 0x00, 0xF3, 0xFF,
    ]);
    assert_eq!(
        engine_message.engine_torque_mode,
        Some(EngineTorqueMode::PTOGovernor)
    );
    assert_eq!(engine_message.driver_demand, Some(20));
    assert_eq!(engine_message.actual_engine, Some(20));
    assert_eq!(engine_message.rpm, Some(789));
    assert_eq!(engine_message.source_addr, Some(0));
    assert_eq!(
        engine_message.starter_mode,
        Some(EngineStarterMode::StartFinished)
    );
}

#[test]
fn engine_controller_message_3() {
    let engine_message_encoded = ElectronicEngineController1Message {
        engine_torque_mode: Some(EngineTorqueMode::HighSpeedGovernor),
        driver_demand: Some(93),
        actual_engine: Some(4),
        rpm: Some(2156),
        source_addr: Some(21),
        starter_mode: Some(EngineStarterMode::StarterInhibitedOverHeat),
    }
    .to_pdu();
    let engine_message_decoded =
        ElectronicEngineController1Message::from_pdu(&engine_message_encoded);

    assert_eq!(
        engine_message_decoded.engine_torque_mode,
        Some(EngineTorqueMode::HighSpeedGovernor)
    );
    assert_eq!(engine_message_decoded.driver_demand, Some(93));
    assert_eq!(engine_message_decoded.actual_engine, Some(4));
    assert_eq!(engine_message_decoded.rpm, Some(2156));
    assert_eq!(engine_message_decoded.source_addr, Some(21));
    assert_eq!(
        engine_message_decoded.starter_mode,
        Some(EngineStarterMode::StarterInhibitedOverHeat)
    );
}

#[test]
fn torque_speed_control_1_message_1() {
    let torque_speed_encoded = TorqueSpeedControl1Message {
        override_control_mode: OverrideControlMode::SpeedControl,
        speed_control_condition:
            RequestedSpeedControlCondition::StabilityOptimizedDriveLineEngaged1,
        control_mode_priority: OverrideControlModePriority::MediumPriority,
        speed: Some(1234),
        torque: Some(56),
    }
    .to_pdu();
    let torque_speed_decoded = TorqueSpeedControl1Message::from_pdu(&torque_speed_encoded);

    assert_eq!(
        torque_speed_decoded.override_control_mode,
        OverrideControlMode::SpeedControl
    );
    assert_eq!(
        torque_speed_decoded.speed_control_condition,
        RequestedSpeedControlCondition::StabilityOptimizedDriveLineEngaged1
    );
    assert_eq!(
        torque_speed_decoded.control_mode_priority,
        OverrideControlModePriority::MediumPriority
    );
    assert_eq!(torque_speed_decoded.speed, Some(1234));
    assert_eq!(torque_speed_decoded.torque, Some(56));
}

#[test]
fn torque_speed_control_1_message_2() {
    let torque_speed_encoded = TorqueSpeedControl1Message {
        override_control_mode: OverrideControlMode::SpeedTorqueLimitControl,
        speed_control_condition:
            RequestedSpeedControlCondition::StabilityOptimizedDriveLineEngaged1,
        control_mode_priority: OverrideControlModePriority::MediumPriority,
        speed: None,
        torque: None,
    }
    .to_pdu();
    let torque_speed_decoded = TorqueSpeedControl1Message::from_pdu(&torque_speed_encoded);

    assert_eq!(
        torque_speed_decoded.override_control_mode,
        OverrideControlMode::SpeedTorqueLimitControl
    );
    assert_eq!(
        torque_speed_decoded.speed_control_condition,
        RequestedSpeedControlCondition::StabilityOptimizedDriveLineEngaged1
    );
    assert_eq!(
        torque_speed_decoded.control_mode_priority,
        OverrideControlModePriority::MediumPriority
    );
    assert_eq!(torque_speed_decoded.speed, None);
    assert_eq!(torque_speed_decoded.torque, None);
}

#[test]
fn electronic_brake_controller_1_message_1() {
    let brake_message_encoded = ElectronicBrakeController1Message {
        asr_engine_control_active: Some(false),
        asr_brake_control_active: Some(true),
        abs_active: Some(false),
        ebs_brake_switch: Some(true),
        brake_pedal_position: Some(2),
        abs_off_road_switch: Some(false),
        asr_off_road_switch: Some(false),
        asr_hill_holder_switch: Some(true),
        traction_control_override_switch: Some(true),
        accelerator_interlock_switch: Some(true),
        engine_derate_switch: Some(false),
        auxiliary_engine_shutdown_switch: Some(true),
        remote_accelerator_enable_switch: Some(false),
        engine_retarder_selection: Some(64),
        abs_fully_operational: Some(false),
        ebs_red_warning_signal: Some(false),
        abs_ebs_amber_warning_signal: Some(true),
        atc_asr_information_signal: Some(false),
        source_address: Some(0),
        trailer_abs_status: Some(false),
        tractor_mounted_trailer_abs_warning_signal: Some(true),
    }
    .to_pdu();

    let brake_message_decoded =
        ElectronicBrakeController1Message::from_pdu(&brake_message_encoded);

    assert_eq!(brake_message_decoded.asr_engine_control_active, Some(false));
    assert_eq!(brake_message_decoded.asr_brake_control_active, Some(true));
    assert_eq!(brake_message_decoded.abs_active, Some(false));
    assert_eq!(brake_message_decoded.ebs_brake_switch, Some(true));
    assert_eq!(brake_message_decoded.brake_pedal_position, Some(2));
    assert_eq!(brake_message_decoded.abs_off_road_switch, Some(false));
    assert_eq!(brake_message_decoded.asr_off_road_switch, Some(false));
    assert_eq!(brake_message_decoded.asr_hill_holder_switch, Some(true));
    assert_eq!(
        brake_message_decoded.traction_control_override_switch,
        Some(true)
    );
    assert_eq!(
        brake_message_decoded.accelerator_interlock_switch,
        Some(true)
    );
    assert_eq!(brake_message_decoded.engine_derate_switch, Some(false));
    assert_eq!(
        brake_message_decoded.auxiliary_engine_shutdown_switch,
        Some(true)
    );
    assert_eq!(
        brake_message_decoded.remote_accelerator_enable_switch,
        Some(false)
    );
    assert_eq!(brake_message_decoded.engine_retarder_selection, Some(64));
    assert_eq!(brake_message_decoded.abs_fully_operational, Some(false));
    assert_eq!(brake_message_decoded.ebs_red_warning_signal, Some(false));
    assert_eq!(
        brake_message_decoded.abs_ebs_amber_warning_signal,
        Some(true)
    );
    assert_eq!(
        brake_message_decoded.atc_asr_information_signal,
        Some(false)
    );
    assert_eq!(brake_message_decoded.source_address, Some(0));
    assert_eq!(brake_message_decoded.trailer_abs_status, Some(false));
    assert_eq!(
        brake_message_decoded.tractor_mounted_trailer_abs_warning_signal,
        Some(true)
    );
}

#[test]
fn electronic_brake_controller_1_message_2() {
    let brake_message_encoded = ElectronicBrakeController1Message {
        asr_engine_control_active: None,
        asr_brake_control_active: None,
        abs_active: None,
        ebs_brake_switch: None,
        brake_pedal_position: None,
        abs_off_road_switch: None,
        asr_off_road_switch: None,
        asr_hill_holder_switch: None,
        traction_control_override_switch: None,
        accelerator_interlock_switch: None,
        engine_derate_switch: None,
        auxiliary_engine_shutdown_switch: Some(true),
        remote_accelerator_enable_switch: None,
        engine_retarder_selection: None,
        abs_fully_operational: None,
        ebs_red_warning_signal: None,
        abs_ebs_amber_warning_signal: None,
        atc_asr_information_signal: None,
        source_address: None,
        trailer_abs_status: None,
        tractor_mounted_trailer_abs_warning_signal: None,
    }
    .to_pdu();

    let brake_message_decoded =
        ElectronicBrakeController1Message::from_pdu(&brake_message_encoded);

    assert_eq!(brake_message_decoded.asr_engine_control_active, None);
    assert_eq!(brake_message_decoded.asr_brake_control_active, None);
    assert_eq!(brake_message_decoded.abs_active, None);
    assert_eq!(brake_message_decoded.ebs_brake_switch, None);
    assert_eq!(brake_message_decoded.brake_pedal_position, None);
    assert_eq!(brake_message_decoded.abs_off_road_switch, None);
    assert_eq!(brake_message_decoded.asr_off_road_switch, None);
    assert_eq!(brake_message_decoded.asr_hill_holder_switch, None);
    assert_eq!(brake_message_decoded.traction_control_override_switch, None);
    assert_eq!(brake_message_decoded.accelerator_interlock_switch, None);
    assert_eq!(brake_message_decoded.engine_derate_switch, None);
    assert_eq!(
        brake_message_decoded.auxiliary_engine_shutdown_switch,
        Some(true)
    );
    assert_eq!(brake_message_decoded.remote_accelerator_enable_switch, None);
    assert_eq!(brake_message_decoded.engine_retarder_selection, None);
    assert_eq!(brake_message_decoded.abs_fully_operational, None);
    assert_eq!(brake_message_decoded.ebs_red_warning_signal, None);
    assert_eq!(brake_message_decoded.abs_ebs_amber_warning_signal, None);
    assert_eq!(brake_message_decoded.atc_asr_information_signal, None);
    assert_eq!(brake_message_decoded.source_address, None);
    assert_eq!(brake_message_decoded.trailer_abs_status, None);
    assert_eq!(
        brake_message_decoded.tractor_mounted_trailer_abs_warning_signal,
        None
    );
}


#[test]
fn time_date_round_trip() {
    let date = TimeDate::from_pdu(&[0x50, 0x1E, 0x0C, 0x06, 0x3C, 0x26, 0xFF, 0xFF]);
    assert_eq!(date.year, 2023);
    assert_eq!(date.month, 6);
    assert_eq!(date.day, 15);
    assert_eq!(date.hour, 12);
    assert_eq!(date.minute, 30);
    assert_eq!(date.second, 20);
    assert_eq!(date.to_pdu(), [0x50, 0x1E, 0x0C, 0x06, 0x3C, 0x26, 0xFF, 0xFF]);
}

#[test]
fn engine_modes_not_available() {
    assert_eq!(EngineTorqueMode::from_value(0x0F), None);
    assert_eq!(EngineTorqueMode::from_value(0x1F), None);
    assert_eq!(EngineTorqueMode::from_value(0x0D), Some(EngineTorqueMode::Other));
    assert_eq!(EngineTorqueMode::to_value(EngineTorqueMode::RemoteAccelerator), 0b1011);
    assert_eq!(EngineStarterMode::from_value(0x0A), Some(EngineStarterMode::Reserved));
    assert_eq!(EngineStarterMode::from_value(0x0E), Some(EngineStarterMode::Error));
    assert_eq!(EngineStarterMode::from_value(0xFF), None);
    assert_eq!(FanDriveState::from_value(0x0E), Some(FanDriveState::Other));
    assert_eq!(FanDriveState::from_value(0x0F), None);
}

#[test]
fn engine_controller_2_and_3_messages() {
    let eec2 = ElectronicEngineController2Message::from_pdu(&[0b0001_0001, 0xE1, 0x32, 0xFA]);
    assert_eq!(eec2.accelerator_pedal1_low_idle_switch, Some(true));
    assert_eq!(eec2.accelerator_pedal_kickdown_switch, Some(false));
    assert_eq!(eec2.road_speed_limit_status, Some(true));
    assert_eq!(eec2.accelerator_pedal_position1, Some(100));
    assert_eq!(eec2.percent_load_at_current_speed, Some(50));
    assert_eq!(eec2.remote_accelerator_pedal_position, Some(100));
    assert_eq!(eec2.to_pdu(), [0b0001_0001, 0xE1, 0x32, 0xFA, 0xFF, 0xFF, 0xFF, 0xFF]);

    let eec3 = ElectronicEngineController3Message::from_pdu(&[0x7D, 0x20, 0x1C, 0x0A]);
    assert_eq!(eec3.nominal_friction_percent_torque, Some(0));
    assert_eq!(eec3.engines_desired_operating_speed, Some(900));
    assert_eq!(eec3.engines_desired_operating_speed_asymmetry_adjustment, Some(10));
    assert_eq!(eec3.to_pdu(), [0x7D, 0x20, 0x1C, 0x0A, 0xFF, 0xFF, 0xFF, 0xFF]);
}

#[test]
fn ambient_and_temperature_messages() {
    let amb = AmbientConditionsMessage::from_pdu(&[0xC8, 0x40, 0x25, 0xFF, 0xFF, 0x41, 0x00, 0x00]);
    assert_eq!(amb.barometric_pressure, Some(100));
    assert_eq!(amb.cab_interior_temperature, Some(25));
    assert_eq!(amb.ambient_air_temperature, None);
    assert_eq!(amb.air_inlet_temperature, Some(25));
    assert_eq!(amb.road_surface_temperature, Some(-273));
    assert_eq!(amb.to_pdu(), [0xC8, 0x40, 0x25, 0xFF, 0xFF, 0x41, 0x00, 0x00]);

    let et1 = EngineTemperature1Message::from_pdu(&[0x82, 0xFF, 0x40, 0x25, 0xFF, 0xFF, 0x28, 0xFA]);
    assert_eq!(et1.engine_coolant_temperature, Some(90));
    assert_eq!(et1.fuel_temperature, None);
    assert_eq!(et1.engine_oil_temperature, Some(25));
    assert_eq!(et1.turbo_oil_temperature, None);
    assert_eq!(et1.engine_intercooler_temperature, Some(0));
    assert_eq!(et1.engine_intercooler_thermostat_opening, Some(100));
    assert_eq!(et1.to_pdu(), [0x82, 0xFF, 0x40, 0x25, 0xFF, 0xFF, 0x28, 0xFA]);
}

#[test]
fn fluid_fuel_distance_and_history_messages() {
    let efl = EngineFluidLevelPressure1Message::from_pdu(&[0x19, 0x14, 0xFA, 0xFF, 0x00, 0x24, 0x3C, 0x7D]);
    assert_eq!(efl.fuel_delivery_pressure, Some(100));
    assert_eq!(efl.extended_crankcase_blow_by_pressure, Some(1));
    assert_eq!(efl.engine_oil_level, Some(100));
    assert_eq!(efl.engine_oil_pressure, None);
    assert_eq!(efl.crankcase_pressure, Some(-178));
    assert_eq!(efl.coolant_pressure, Some(120));
    assert_eq!(efl.coolant_level, Some(50));
    assert_eq!(efl.to_pdu(), [0x19, 0x14, 0xFA, 0xFF, 0x00, 0x24, 0x3C, 0x7D]);

    let lfc = FuelConsumptionMessage::from_pdu(&[0x10, 0x00, 0x00, 0x00, 0xFF, 0xFF, 0xFF, 0xFF]);
    assert_eq!(lfc.trip_fuel, Some(8));
    assert_eq!(lfc.total_fuel_used, None);
    assert_eq!(lfc.to_pdu(), [0x10, 0x00, 0x00, 0x00, 0xFF, 0xFF, 0xFF, 0xFF]);

    let vd = VehicleDistanceMessage::from_pdu(&[0x00, 0x12, 0x0F, 0x00, 0x08, 0x00, 0x00, 0x00]);
    assert_eq!(vd.trip_distance, Some(123456));
    assert_eq!(vd.total_vehicle_distance, Some(1));
    assert_eq!(vd.to_pdu(), [0x00, 0x12, 0x0F, 0x00, 0x08, 0x00, 0x00, 0x00]);

    let eh = ECUHistoryMessage::from_pdu(&[0x08, 0x00, 0x00, 0x00, 0x14, 0x00, 0x00, 0x00]);
    assert_eq!(eh.total_ecu_distance, Some(1));
    assert_eq!(eh.total_ecu_run_time, Some(1));
    assert_eq!(eh.to_pdu(), [0x08, 0x00, 0x00, 0x00, 0x14, 0x00, 0x00, 0x00]);
}

#[test]
fn fan_shutdown_pto_and_small_messages() {
    let fd = FanDriveMessage::from_pdu(&[0x7D, 0x03, 0x20, 0x1C]);
    assert_eq!(fd.estimated_percent_fan_speed, Some(50));
    assert_eq!(fd.fan_drive_state, Some(FanDriveState::ExcessiveEngineOilTemperature));
    assert_eq!(fd.fan_speed, Some(900));
    assert_eq!(fd.to_pdu(), [0x7D, 0x03, 0x20, 0x1C, 0xFF, 0xFF, 0xFF, 0xFF]);
    let off = FanDriveMessage { estimated_percent_fan_speed: None, fan_drive_state: None, fan_speed: None };
    assert_eq!(off.to_pdu(), [0xFF, 0x00, 0xFF, 0xFF, 0xFF, 0xFF, 0xFF, 0xFF]);

    let sd = ShutdownMessage::from_pdu(&[0b1100_0100, 0b0100_0000, 0b0011_0001, 0x00, 0xFF, 0xC0]);
    assert_eq!(sd.idle_shutdown_has_shutdown_engine, Some(false));
    assert_eq!(sd.idle_shutdown_driver_alert_mode, Some(true));
    assert_eq!(sd.idle_shutdown_timer_override, Some(false));
    assert_eq!(sd.idle_shutdown_timer_state, None);
    assert_eq!(sd.idle_shutdown_timer_function, Some(true));
    assert_eq!(sd.ac_high_pressure_fan_switch, Some(true));
    assert_eq!(sd.refrigerant_low_pressure_switch, Some(false));
    assert_eq!(sd.refrigerant_high_pressure_switch, None);
    assert_eq!(sd.wait_to_start_lamp, Some(false));
    assert_eq!(sd.engine_protection_system_has_shutdown_engine, None);
    assert_eq!(sd.engine_protection_system_configuration, None);
    assert_eq!(sd.to_pdu(), [0b1100_0100, 0b0100_0000, 0b0011_0001, 0x00, 0xFF, 0xC0, 0xFF, 0xFF]);

    let pto = PowerTakeoffInformationMessage::from_pdu(&[0x41, 0x20, 0x1C, 0xFF, 0xFF, 0b0000_0001, 0b0100_0000]);
    assert_eq!(pto.power_takeoff_oil_temperature, Some(25));
    assert_eq!(pto.power_takeoff_speed, Some(900));
    assert_eq!(pto.power_takeoff_set_speed, None);
    assert_eq!(pto.pto_enable_switch, Some(true));
    assert_eq!(pto.remote_pto_preprogrammed_speed_control_switch, Some(false));
    assert_eq!(pto.pto_set_switch, Some(false));
    assert_eq!(pto.pto_accelerate_switch, Some(true));
    assert_eq!(pto.to_pdu(), [0x41, 0x20, 0x1C, 0xFF, 0xFF, 0b0000_0001, 0b0100_0000, 0xFF]);

    let ic1 = InletExhaustConditions1Message::from_pdu(&[0x12, 0x3C, 0x41, 0xFF, 0x14, 0x40, 0x25]);
    assert_eq!(ic1.particulate_trap_inlet_pressure, None);
    assert_eq!(ic1.boost_pressure, Some(120));
    assert_eq!(ic1.intake_manifold_temperature, Some(25));
    assert_eq!(ic1.air_inlet_pressure, None);
    assert_eq!(ic1.air_filter_differential_pressure, Some(1));
    assert_eq!(ic1.exhaust_gas_temperature, Some(25));
    assert_eq!(ic1.coolant_filter_differential_pressure, None);
    assert_eq!(ic1.to_pdu(), [0xFF, 0x3C, 0x41, 0xFF, 0x14, 0x40, 0x25, 0xFF]);

    let cab = CabIlluminationMessage::from_pdu(&[0xFA]);
    assert_eq!(cab.illumination_brightness_percent, Some(100));
    assert_eq!(cab.to_pdu(), [0xFA, 0xFF, 0xFF, 0xFF, 0xFF, 0xFF, 0xFF, 0xFF]);

    let tank = TankInformation1Message::from_pdu(&[0xFF]);
    assert_eq!(tank.catalyst_tank_level, None);
    assert_eq!(tank.to_pdu(), [0xFF; 8]);
}
