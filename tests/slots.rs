use j1939::slots::{
    count, distance, liquid_fuel_usage, position_level, position_level2, pressure2, pressure3,
    pressure4, rotational_velocity, temperature, temperature2, time,
};

#[test]
fn count_test_1() {
    let value = Some(94);
    let encoded = count::enc(value);
    let decoded = count::dec(encoded);
    assert_eq!(decoded, Some(94));
}

#[test]
fn rotational_velocity_test_1() {
    let value = Some(900);
    let encoded = rotational_velocity::enc(value);
    let decoded = rotational_velocity::dec(encoded);
    assert_eq!(decoded, Some(900));
}

#[test]
fn temperature_test_1() {
    let value = Some(25);
    let encoded = temperature::enc(value);
    let decoded = temperature::dec(encoded);
    assert_eq!(decoded, Some(25));
}

#[test]
fn temperature_test_2() {
    let value = Some(-13);
    let encoded = temperature2::enc(value);
    let decoded = temperature2::dec(encoded);
    assert_eq!(decoded, Some(-13));
}

#[test]
fn position_level_test_1() {
    let value = Some(50);
    let encoded = position_level::enc(value);
    let decoded = position_level::dec(encoded);
    assert_eq!(decoded, Some(50));
}

#[test]
fn position_level_test_2() {
    let value = Some(100);
    let encoded = position_level2::enc(value);
    let decoded = position_level2::dec(encoded);
    assert_eq!(decoded, Some(100));
}

#[test]
fn pressure_test_2() {
    let value = Some(7);
    let encoded = pressure2::enc(value);
    let decoded = pressure2::dec(encoded);
    assert_eq!(decoded, Some(7));
}

#[test]
fn pressure_test_3() {
    let value = Some(120);
    let encoded = pressure3::enc(value);
    let decoded = pressure3::dec(encoded);
    assert_eq!(decoded, Some(120));
}

#[test]
fn pressure_test_4() {
    let value = Some(-178);
    let encoded = pressure4::enc(value);
    let decoded = pressure4::dec(encoded);
    assert_eq!(decoded, Some(-178));
}

#[test]
fn liquid_fuel_usage_test_1() {
    let value = Some(7863247);
    let encoded = liquid_fuel_usage::enc(value);
    let decoded = liquid_fuel_usage::dec(encoded);
    assert_eq!(decoded, Some(7863247));
}

#[test]
fn distance_test_1() {
    let value = Some(123456);
    let encoded = distance::enc(value);
    let decoded = distance::dec(encoded);
    assert_eq!(decoded, Some(123456));
}

#[test]
fn time_test_1() {
    let value = Some(123456);
    let encoded = time::enc(value);
    let decoded = time::dec(encoded);
    assert_eq!(decoded, Some(123456));
}

#[test]
fn slot_not_available_sentinels() {
    assert_eq!(count::dec(0xFF), None);
    assert_eq!(count::enc(None), 0xFF);
    assert_eq!(temperature::dec([0xFF, 0xFF]), None);
    assert_eq!(temperature::enc(None), [0xFF, 0xFF]);
    assert_eq!(rotational_velocity::enc(None), [0xFF, 0xFF]);
    assert_eq!(liquid_fuel_usage::dec([0xFF; 4]), None);
    assert_eq!(liquid_fuel_usage::enc(None), [0xFF; 4]);
}

#[test]
fn slot_exact_values() {
    assert_eq!(temperature::dec([0x40, 0x25]), Some(25));
    assert_eq!(temperature::enc(Some(25)), [0x40, 0x25]);
    assert_eq!(rotational_velocity::dec([0x20, 0x1C]), Some(900));
    assert_eq!(rotational_velocity::enc(Some(900)), [0x20, 0x1C]);
    assert_eq!(temperature2::enc(Some(-13)), 27);
    assert_eq!(pressure4::enc(Some(-178)), [0x00, 0x24]);
    assert_eq!(distance::enc(Some(123456)), [0x00, 0x12, 0x0F, 0x00]);
    assert_eq!(time::dec([0x00, 0x12, 0x0F, 0x00]), Some(49382));
    assert_eq!(position_level::dec(125), Some(50));
}

#[test]
fn slot_clamps_to_limits() {
    assert_eq!(count::enc(Some(251)), 250);
    assert_eq!(count::dec(252), Some(250));
    assert_eq!(position_level2::dec(0), Some(0));
    assert_eq!(pressure3::dec(254), Some(255));
    assert_eq!(temperature2::dec(0), Some(-40));
    assert_eq!(temperature2::dec(254), Some(127));
}

#[test]
fn slot_truncates_toward_zero() {
    assert_eq!(rotational_velocity::dec([0x07, 0x00]), Some(0));
    assert_eq!(temperature::dec([0x1F, 0x22]), Some(0));
    assert_eq!(temperature::dec([0x00, 0x00]), Some(-273));
    assert_eq!(temperature::dec([0x01, 0x00]), Some(-272));
}

#[test]
fn slot_bool_values() {
    assert_eq!(j1939::slots::bool_from_value(0b00), Some(false));
    assert_eq!(j1939::slots::bool_from_value(0b01), Some(true));
    assert_eq!(j1939::slots::bool_from_value(0b10), None);
    assert_eq!(j1939::slots::bool_from_value(0b1101), Some(true));
    assert_eq!(j1939::slots::bool_to_value(Some(true)), 0b01);
    assert_eq!(j1939::slots::bool_to_value(Some(false)), 0b00);
    assert_eq!(j1939::slots::bool_to_value(None), 0b11);
}
