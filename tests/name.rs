use j1939::{Name, NameBuilder};

#[test]
fn test_name_to_name() {
    let name = NameBuilder::default()
        .identity_number(0xB5D15)
        .manufacturer_code(0x623)
        .function_instance(30)
        .ecu_instance(0x7)
        .function(0xE3)
        .vehicle_system(126)
        .vehicle_system_instance(15)
        .industry_group(5)
        .arbitrary_address(true)
        .build();

    let name2 = Name::from_bytes(name.to_bytes());

    assert_eq!(name, name2);
    assert_eq!(name2.identity_number, 0xB5D15);
    assert_eq!(name2.manufacturer_code, 0x623);
    assert_eq!(name2.function_instance, 30);
    assert_eq!(name2.ecu_instance, 0x7);
    assert_eq!(name2.function, 0xE3);
    assert_eq!(name2.vehicle_system, 126);
    assert_eq!(name2.vehicle_system_instance, 15);
    assert_eq!(name2.industry_group, 5);
    assert!(name2.arbitrary_address);
}

#[test]
fn test_to_bytes() {
    let name = Name {
        identity_number: 0xB0309,
        manufacturer_code: 0x122,
        function_instance: 0x2,
        ecu_instance: 0x1,
        function: 0x5,
        vehicle_system: 0x6,
        vehicle_system_instance: 0x5,
        industry_group: 0x0,
        arbitrary_address: true,
    };

    let bytes = name.to_bytes();

    assert_eq!(bytes, [0x09, 0x03, 0x4B, 0x24, 0x11, 0x05, 0x0C, 0x85]);
}

#[test]
fn test_from_bytes() {
    let bytes = [0x19, 0xA4, 0x49, 0x24, 0x11, 0x05, 0x0C, 0x85];

    let name = Name::from_bytes(bytes);

    assert_eq!(
        name,
        Name {
            identity_number: 0x9A419,
            manufacturer_code: 0x122,
            function_instance: 0x2,
            ecu_instance: 0x1,
            function: 0x5,
            vehicle_system: 0x6,
            vehicle_system_instance: 0x5,
            industry_group: 0,
            arbitrary_address: true,
        }
    );
}

#[test]
fn name_builder_masks_fields() {
    let name = NameBuilder::default()
        .identity_number(0xFFFF_FFFF)
        .manufacturer_code(0xFFFF)
        .function_instance(0xFF)
        .ecu_instance(0xFF)
        .vehicle_system(0xFF)
        .vehicle_system_instance(0xFF)
        .industry_group(0xFF)
        .build();

    assert_eq!(name.identity_number, 0x1F_FFFF);
    assert_eq!(name.manufacturer_code, 0x7FF);
    assert_eq!(name.function_instance, 0x1F);
    assert_eq!(name.ecu_instance, 0x7);
    assert_eq!(name.vehicle_system, 0x7F);
    assert_eq!(name.vehicle_system_instance, 0xF);
    assert_eq!(name.industry_group, 0x7);
    assert!(!name.arbitrary_address);
}

#[test]
fn name_bytes_round_trip() {
    let bytes = [0x19, 0xA4, 0x49, 0x24, 0x11, 0x05, 0x0C, 0x85];
    assert_eq!(Name::from_bytes(bytes).to_bytes(), bytes);
    let bytes = [0xFF, 0xFF, 0xFF, 0xFF, 0xFF, 0xFF, 0xFE, 0xFF];
    assert_eq!(Name::from_bytes(bytes).to_bytes(), bytes);
}

#[test]
fn name_to_bytes_cuts_wide_fields() {
    let name = Name {
        identity_number: 0xFFB_0309,
        manufacturer_code: 0x122,
        function_instance: 0x2,
        ecu_instance: 0x1,
        function: 0x5,
        vehicle_system: 0x86,
        vehicle_system_instance: 0x5,
        industry_group: 0x0,
        arbitrary_address: true,
    };
    assert_eq!(name.to_bytes(), [0x09, 0x03, 0x5B, 0x24, 0x11, 0x05, 0x0C, 0x85]);
}

#[test]
fn name_vehicle_system_sits_above_reserved_bit() {
    let name = NameBuilder::default().vehicle_system(1).build();
    assert_eq!(name.to_bytes(), [0, 0, 0, 0, 0, 0, 0x02, 0]);
    assert_eq!(Name::from_bytes([0, 0, 0, 0, 0, 0, 0x03, 0]).vehicle_system, 1);
}
