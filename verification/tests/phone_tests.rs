use rusty_bridge::vtsphone::{decimal_string, VtsPhone, PHONE_TRACKING_PORT};

#[test]
fn decimal_strings_are_exact() {
    assert_eq!(decimal_string(0), "0");
    assert_eq!(decimal_string(7), "7");
    assert_eq!(decimal_string(10), "10");
    assert_eq!(decimal_string(8001), "8001");
    assert_eq!(decimal_string(65535), "65535");
}

#[test]
fn tracking_request_text_is_exact() {
    assert_eq!(
        VtsPhone::request_text(12345),
        "{\"messageType\":\"iOSTrackingDataRequest\",\"sentBy\":\"RustyBridge\",\
         \"sendForSeconds\":10,\"ports\":[12345]}"
    );
}

#[test]
fn phone_port_is_fixed() {
    assert_eq!(PHONE_TRACKING_PORT, 21412);
}
