use groovtube_hotkey::device::constants::{
    make_melody_smart_data_uuid, make_melody_smart_service_uuid, MELODY_SMART_DATA_CHARACTERISTIC,
    MELODY_SMART_SERVICE,
};

#[test]
fn service_uuid_is_read_from_its_text() {
    let expected = uuid::Uuid::parse_str(MELODY_SMART_SERVICE).unwrap().as_u128();
    assert_eq!(make_melody_smart_service_uuid(), expected);
    assert_eq!(make_melody_smart_service_uuid(), 0xbc2f4cc6_aaef_4351_9034_d66268e328f0);
}

#[test]
fn data_uuid_is_read_from_its_text() {
    let expected = uuid::Uuid::parse_str(MELODY_SMART_DATA_CHARACTERISTIC).unwrap().as_u128();
    assert_eq!(make_melody_smart_data_uuid(), expected);
    assert_eq!(make_melody_smart_data_uuid(), 0x06d1e5e7_79ad_4a71_8faa_373789f7d93c);
}
