use j1939::diagnostic::{Diagnostic1Message, FlashStatus, LampStatus};

#[test]
fn diagnostic_1_message_1() {
    let diagnostic_message =
        Diagnostic1Message::from_pdu(&[0x57, 0xFF, 0x9F, 0x00, 0x03, 0x01]);

    assert_eq!(diagnostic_message.protect_lamp, None);
    assert_eq!(diagnostic_message.amber_warning_lamp, Some(LampStatus::On));
    assert_eq!(diagnostic_message.red_stop_lamp, Some(LampStatus::On));
    assert_eq!(
        diagnostic_message.malfunction_indicator_lamp,
        Some(LampStatus::On)
    );
    assert_eq!(diagnostic_message.protect_lamp_flash, None);
    assert_eq!(diagnostic_message.amber_warning_lamp_flash, None);
    assert_eq!(diagnostic_message.red_stop_lamp_flash, None);
    assert_eq!(diagnostic_message.malfunction_indicator_lamp_flash, None);
    assert_eq!(diagnostic_message.suspect_parameter_number, 159);
    assert_eq!(diagnostic_message.failure_mode_identifier, 3);
    assert_eq!(diagnostic_message.spn_conversion_method, 0);
    assert_eq!(diagnostic_message.occurrence_count, 1);
}

#[test]
fn diagnostic_1_message_2() {
    let diagnostic_message =
        Diagnostic1Message::from_pdu(&[0x57, 0xFF, 0xFB, 0x06, 0x0B, 0x32]);

    assert_eq!(diagnostic_message.protect_lamp, None);
    assert_eq!(diagnostic_message.amber_warning_lamp, Some(LampStatus::On));
    assert_eq!(diagnostic_message.red_stop_lamp, Some(LampStatus::On));
    assert_eq!(
        diagnostic_message.malfunction_indicator_lamp,
        Some(LampStatus::On)
    );
    assert_eq!(diagnostic_message.protect_lamp_flash, None);
    assert_eq!(diagnostic_message.amber_warning_lamp_flash, None);
    assert_eq!(diagnostic_message.red_stop_lamp_flash, None);
    assert_eq!(diagnostic_message.malfunction_indicator_lamp_flash, None);
    assert_eq!(diagnostic_message.suspect_parameter_number, 1787);
    assert_eq!(diagnostic_message.failure_mode_identifier, 11);
    assert_eq!(diagnostic_message.spn_conversion_method, 0);
    assert_eq!(diagnostic_message.occurrence_count, 50);
}

#[test]
fn diagnostic_1_message_3() {
    let diagnostic_message =
        Diagnostic1Message::from_pdu(&[0x40, 0xFF, 0x7F, 0x02, 0x02, 0x00]);

    assert_eq!(diagnostic_message.protect_lamp, Some(LampStatus::Off));
    assert_eq!(diagnostic_message.amber_warning_lamp, Some(LampStatus::Off));
    assert_eq!(diagnostic_message.red_stop_lamp, Some(LampStatus::Off));
    assert_eq!(
        diagnostic_message.malfunction_indicator_lamp,
        Some(LampStatus::On)
    );
    assert_eq!(diagnostic_message.protect_lamp_flash, None);
    assert_eq!(diagnostic_message.amber_warning_lamp_flash, None);
    assert_eq!(diagnostic_message.red_stop_lamp_flash, None);
    assert_eq!(diagnostic_message.malfunction_indicator_lamp_flash, None);
    assert_eq!(diagnostic_message.suspect_parameter_number, 639);
    assert_eq!(diagnostic_message.failure_mode_identifier, 2);
    assert_eq!(diagnostic_message.spn_conversion_method, 0);
    assert_eq!(diagnostic_message.occurrence_count, 0);
}

#[test]
fn diagnostic_1_message_4() {
    let diagnostic_message =
        Diagnostic1Message::from_pdu(&[0x00, 0xFF, 0x00, 0x00, 0x00, 0x00]);

    assert_eq!(diagnostic_message.protect_lamp, Some(LampStatus::Off));
    assert_eq!(diagnostic_message.amber_warning_lamp, Some(LampStatus::Off));
    assert_eq!(diagnostic_message.red_stop_lamp, Some(LampStatus::Off));
    assert_eq!(
        diagnostic_message.malfunction_indicator_lamp,
        Some(LampStatus::Off)
    );
    assert_eq!(diagnostic_message.protect_lamp_flash, None);
    assert_eq!(diagnostic_message.amber_warning_lamp_flash, None);
    assert_eq!(diagnostic_message.red_stop_lamp_flash, None);
    assert_eq!(diagnostic_message.malfunction_indicator_lamp_flash, None);
    assert_eq!(diagnostic_message.suspect_parameter_number, 0);
    assert_eq!(diagnostic_message.failure_mode_identifier, 0);
    assert_eq!(diagnostic_message.spn_conversion_method, 0);
    assert_eq!(diagnostic_message.occurrence_count, 0);
}

#[test]
fn diagnostic_1_message_5() {
    let diagnostic_message_encoded = Diagnostic1Message {
        protect_lamp: Some(LampStatus::Off),
        amber_warning_lamp: Some(LampStatus::Off),
        red_stop_lamp: Some(LampStatus::Off),
        malfunction_indicator_lamp: Some(LampStatus::On),
        protect_lamp_flash: None,
        amber_warning_lamp_flash: None,
        red_stop_lamp_flash: None,
        malfunction_indicator_lamp_flash: None,
        suspect_parameter_number: 639,
        failure_mode_identifier: 2,
        spn_conversion_method: 0,
        occurrence_count: 0,
    }
    .to_pdu();

    assert_eq!(
        diagnostic_message_encoded,
        [0x40, 0xFF, 0x7F, 0x02, 0x02, 0x00, 0xFF, 0xFF]
    );
}

#[test]
fn diagnostic_1_message_6() {
    let diagnostic_message_encoded = Diagnostic1Message {
        protect_lamp: Some(LampStatus::On),
        amber_warning_lamp: Some(LampStatus::Off),
        red_stop_lamp: Some(LampStatus::On),
        malfunction_indicator_lamp: Some(LampStatus::On),
        protect_lamp_flash: Some(FlashStatus::Slow),
        amber_warning_lamp_flash: None,
        red_stop_lamp_flash: Some(FlashStatus::Slow),
        malfunction_indicator_lamp_flash: Some(FlashStatus::Fast),
        suspect_parameter_number: 639,
        failure_mode_identifier: 2,
        spn_conversion_method: 0,
        occurrence_count: 0,
    }
    .to_pdu();

    let diagnostic_message_decoded = Diagnostic1Message::from_pdu(&diagnostic_message_encoded);

    assert_eq!(
        diagnostic_message_decoded.protect_lamp,
        Some(LampStatus::On)
    );
    assert_eq!(
        diagnostic_message_decoded.amber_warning_lamp,
        Some(LampStatus::Off)
    );
    assert_eq!(
        diagnostic_message_decoded.red_stop_lamp,
        Some(LampStatus::On)
    );
    assert_eq!(
        diagnostic_message_decoded.malfunction_indicator_lamp,
        Some(LampStatus::On)
    );

    assert_eq!(
        diagnostic_message_decoded.protect_lamp_flash,
        Some(FlashStatus::Slow)
    );
    assert_eq!(diagnostic_message_decoded.amber_warning_lamp_flash, None);
    assert_eq!(
        diagnostic_message_decoded.red_stop_lamp_flash,
        Some(FlashStatus::Slow)
    );
    assert_eq!(
        diagnostic_message_decoded.malfunction_indicator_lamp_flash,
        Some(FlashStatus::Fast)
    );
}

#[test]
fn lamp_and_flash_values() {
    assert_eq!(LampStatus::from_value(0b10), Some(LampStatus::Error));
    assert_eq!(LampStatus::from_value(0b111), None);
    assert_eq!(LampStatus::to_value(Some(LampStatus::On)), 0b01);
    assert_eq!(LampStatus::to_value(None), 0b11);
    assert_eq!(FlashStatus::from_value(0b1110), Some(FlashStatus::Reserved));
    assert_eq!(FlashStatus::to_value(Some(FlashStatus::Fast)), 0b01);
    assert_eq!(FlashStatus::to_value(None), 0b11);
}

#[test]
fn diagnostic_1_message_high_spn_bits() {
    let encoded = Diagnostic1Message {
        protect_lamp: None,
        amber_warning_lamp: Some(LampStatus::Error),
        red_stop_lamp: Some(LampStatus::Off),
        malfunction_indicator_lamp: None,
        protect_lamp_flash: Some(FlashStatus::Reserved),
        amber_warning_lamp_flash: None,
        red_stop_lamp_flash: None,
        malfunction_indicator_lamp_flash: Some(FlashStatus::Slow),
        suspect_parameter_number: 0x7_1234,
        failure_mode_identifier: 31,
        spn_conversion_method: 1,
        occurrence_count: 126,
    }
    .to_pdu();

    assert_eq!(encoded, [0xCB, 0x3E, 0x34, 0x12, 0xFF, 0xFE, 0xFF, 0xFF]);

    let decoded = Diagnostic1Message::from_pdu(&encoded);
    assert_eq!(decoded.amber_warning_lamp, Some(LampStatus::Error));
    assert_eq!(decoded.malfunction_indicator_lamp_flash, Some(FlashStatus::Slow));
    assert_eq!(decoded.suspect_parameter_number, 0x7_1234);
    assert_eq!(decoded.failure_mode_identifier, 31);
    assert_eq!(decoded.spn_conversion_method, 1);
    assert_eq!(decoded.occurrence_count, 126);
}
