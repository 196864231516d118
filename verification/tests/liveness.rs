use simhub::hardware::devices::rpm_gauge::RpmGauge;
use simhub::hardware::devices::Device;
use simhub::hardware::{
    dispatch_update_commands, prune_failed_devices, AppBoundEvent, HwBoundEvent,
    HEARTBEAT_INTERVAL_MS,
};
use simhub::telemetry::Telemetry;

fn gauge(max: u16) -> Device {
    Device::RpmGauge(RpmGauge::new(max))
}

#[test]
fn failing_device_is_evicted_after_one_tick() {
    // The device whose writes always fail is present after discovery and
    // gone after exactly one heartbeat tick; the healthy device survives.
    let devices = vec![gauge(100), gauge(200)];
    assert_eq!(devices.len(), 2);
    let after_tick = prune_failed_devices(devices, &vec![false, true]);
    assert_eq!(after_tick, vec![gauge(200)]);
}

#[test]
fn all_failing_devices_leave_an_empty_set() {
    let devices = vec![gauge(100), gauge(200), gauge(300)];
    let after_tick = prune_failed_devices(devices, &vec![false, false, false]);
    assert_eq!(after_tick, Vec::<Device>::new());
}

#[test]
fn healthy_devices_are_retained_in_order() {
    let devices = vec![gauge(100), gauge(200), gauge(300)];
    let after_tick = prune_failed_devices(devices, &vec![true, false, true]);
    assert_eq!(after_tick, vec![gauge(100), gauge(300)]);
}

#[test]
fn dispatch_encodes_one_command_per_device() {
    // 4000 = 0x0FA0; the second device clamps to its ceiling 3000 = 0x0BB8.
    let devices = vec![gauge(8000), gauge(3000)];
    let commands = dispatch_update_commands(&devices, 4000);
    assert_eq!(
        commands,
        vec![vec![0u8, 2, 0xA0, 0x0F], vec![0u8, 2, 0xB8, 0x0B]]
    );
}

#[test]
fn dispatch_to_empty_set_sends_nothing() {
    let commands = dispatch_update_commands(&Vec::new(), 4000);
    assert_eq!(commands, Vec::<Vec<u8>>::new());
}

#[test]
fn events_carry_their_payloads() {
    let event = HwBoundEvent::UpdateTelemetry(Telemetry::default());
    assert!(matches!(event, HwBoundEvent::UpdateTelemetry(_)));
    assert!(matches!(
        HwBoundEvent::RequestDeviceList,
        HwBoundEvent::RequestDeviceList
    ));
    let list = AppBoundEvent::UpdateDeviceList(vec![gauge(100)]);
    let AppBoundEvent::UpdateDeviceList(devices) = list;
    assert_eq!(devices, vec![gauge(100)]);
    assert_eq!(HEARTBEAT_INTERVAL_MS, 150);
}
