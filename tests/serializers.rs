use makair_telemetry::serializers::split_device_id;

#[test]
fn split_valid_device_id() {
    assert_eq!(split_device_id("123-456-789"), (123, 456, 789))
}

#[test]
fn split_invalid_device_id() {
    assert_eq!(split_device_id("123-456789"), (123, 456789, 0))
}

#[test]
fn split_device_id_edge_cases() {
    assert_eq!(split_device_id(""), (0, 0, 0));
    assert_eq!(split_device_id("+7-x-4294967295"), (7, 0, 4294967295));
    assert_eq!(split_device_id("4294967296-1-2-3"), (0, 1, 2));
    assert_eq!(split_device_id("--5"), (0, 0, 5));
}
