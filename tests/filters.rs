use j1939::can::{destination_address_filter, source_address_filter};
use j1939::decode::spn1483;

#[test]
fn destination_filter_selects_pdu_specific_byte() {
    let filter = destination_address_filter(0x42);
    assert_eq!(filter.filter, 0x4200);
    assert_eq!(filter.mask, 0xFF00);
}

#[test]
fn source_filter_selects_low_byte() {
    let filter = source_address_filter(0x42);
    assert_eq!(filter.filter, 0x42);
    assert_eq!(filter.mask, 0xFF);
}

#[test]
fn spn1483_not_available() {
    assert_eq!(spn1483(0x10), Some(0x10));
    assert_eq!(spn1483(0xFE), Some(0xFE));
    assert_eq!(spn1483(0xFF), None);
}
