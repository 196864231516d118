use simhub::hardware::devices::rpm_gauge::RpmGauge;
use simhub::hardware::devices::{
    collect_devices, endpoint_supported, handshake_magic, Device, InitDeviceError, SUPPORTED_PID,
    SUPPORTED_VID,
};

#[test]
fn heartbeat_buffer_is_report_id_then_code_one() {
    let gauge = RpmGauge::new(8000);
    assert_eq!(gauge.heartbeat(), vec![0u8, 1]);
}

#[test]
fn update_encodes_value_little_endian() {
    let gauge = RpmGauge::new(8000);
    // 3000 = 0x0BB8
    assert_eq!(gauge.update_rpm(3000), vec![0u8, 2, 0xB8, 0x0B]);
}

#[test]
fn update_clamps_to_negotiated_maximum() {
    // 5000 = 0x1388; a request far above the ceiling encodes exactly 5000.
    let gauge = RpmGauge::new(5000);
    assert_eq!(gauge.update_rpm(60000), vec![0u8, 2, 0x88, 0x13]);
    assert_eq!(gauge.update_rpm(5001), vec![0u8, 2, 0x88, 0x13]);
    assert_eq!(gauge.update_rpm(5000), vec![0u8, 2, 0x88, 0x13]);
    assert_eq!(gauge.update_rpm(4999), vec![0u8, 2, 0x87, 0x13]);
}

#[test]
fn handshake_magic_bytes() {
    assert_eq!(handshake_magic(), vec![0u8, 123, 38, 83, 231]);
}

#[test]
fn handshake_accepts_rpm_gauge() {
    // device-type 0, unit-type 1, max value 5000 little-endian.
    let response = [0u8, 1, 0x88, 0x13];
    match Device::from_handshake_response(&response) {
        Ok(Device::RpmGauge(gauge)) => assert_eq!(gauge.max_rpm, 5000),
        Err(e) => panic!("handshake rejected: {:?}", e),
    }
}

#[test]
fn handshake_ignores_trailing_bytes() {
    let response = [0u8, 0, 0xFF, 0xFF, 9, 9, 9, 9];
    match Device::from_handshake_response(&response) {
        Ok(Device::RpmGauge(gauge)) => assert_eq!(gauge.max_rpm, 65535),
        Err(e) => panic!("handshake rejected: {:?}", e),
    }
}

#[test]
fn handshake_rejects_unknown_device_type() {
    let response = [3u8, 1, 0x88, 0x13];
    assert_eq!(
        Device::from_handshake_response(&response),
        Err(InitDeviceError::UnknownDevice)
    );
}

#[test]
fn handshake_rejects_short_read() {
    for len in 0..4 {
        let response = vec![0u8; len];
        assert_eq!(
            Device::from_handshake_response(&response),
            Err(InitDeviceError::NotEnoughDataRead)
        );
    }
}

#[test]
fn rejected_endpoints_are_excluded_from_the_device_set() {
    let responses = vec![
        vec![0u8, 0, 100, 0],    // good: max 100
        vec![2u8, 0, 50, 0],     // unknown device type
        vec![0u8, 0],            // short read
        vec![0u8, 0, 0x2C, 1],  // good: max 300
    ];
    let devices = collect_devices(&responses);
    assert_eq!(
        devices,
        vec![
            Device::RpmGauge(RpmGauge::new(100)),
            Device::RpmGauge(RpmGauge::new(300)),
        ]
    );
}

#[test]
fn endpoint_allow_list() {
    assert!(endpoint_supported(SUPPORTED_VID, SUPPORTED_PID, true));
    assert!(!endpoint_supported(SUPPORTED_VID, SUPPORTED_PID, false));
    assert!(!endpoint_supported(SUPPORTED_VID + 1, SUPPORTED_PID, true));
    assert!(!endpoint_supported(SUPPORTED_VID, SUPPORTED_PID + 1, true));
    assert_eq!(SUPPORTED_VID, 6991);
    assert_eq!(SUPPORTED_PID, 37382);
}

#[test]
fn init_error_messages() {
    assert_eq!(InitDeviceError::UnknownDevice.message(), "unknown device");
    assert_eq!(
        InitDeviceError::NotEnoughDataRead.message(),
        "not enough bytes to read"
    );
}
