use gate_opener::config_storage::{compile_time_defaults, init};
use gate_opener::state::DeviceState;
use gate_opener::telemetry::{
    battery_report, telemetry_check, wifi_check, BatteryReport, TelemetryReport, TelemetryTimers,
};

#[test]
fn reconnect_at_most_every_five_seconds() {
    let mut t = TelemetryTimers::new(0);
    assert!(!wifi_check(&mut t, 1000, true));
    assert!(!wifi_check(&mut t, 4999, false));
    assert!(wifi_check(&mut t, 5000, false));
    assert_eq!(t.last_reconnect_ms, 5000);
    assert!(!wifi_check(&mut t, 9999, false));
    assert!(wifi_check(&mut t, 10000, false));
}

const NOTHING: TelemetryReport =
    TelemetryReport { online: false, status: false, obstacle: false, battery: false };
const EVERYTHING: TelemetryReport =
    TelemetryReport { online: true, status: true, obstacle: true, battery: true };
const BATTERY_ONLY: TelemetryReport =
    TelemetryReport { online: false, status: false, obstacle: false, battery: true };

#[test]
fn reports_when_asked_or_periodically() {
    let storage = init(compile_time_defaults(None, None, None, None, None), None);
    let mut t = TelemetryTimers::new(0);
    let mut s = DeviceState::new();
    s.request_battery_publish();
    // not connected: nothing happens and the request stays
    assert_eq!(telemetry_check(&mut t, &mut s, &storage, 70_000), NOTHING);
    assert!(s.battery_publish_requested);
    s.set_mqtt_connected(true);
    assert_eq!(telemetry_check(&mut t, &mut s, &storage, 10_000), BATTERY_ONLY);
    assert!(!s.battery_publish_requested);
    assert_eq!(telemetry_check(&mut t, &mut s, &storage, 59_999), NOTHING);
    assert_eq!(telemetry_check(&mut t, &mut s, &storage, 60_000), EVERYTHING);
    assert_eq!(t.last_periodic_ms, 60_000);
    assert_eq!(telemetry_check(&mut t, &mut s, &storage, 100_000), NOTHING);
}

#[test]
fn battery_report_on_success_and_on_adc_error() {
    let mut s = DeviceState::new();
    assert_eq!(
        battery_report(&mut s, Some(45)),
        BatteryReport { pct: 45, publish_voltage: true }
    );
    assert_eq!(s.battery_pct(), 45);
    assert_eq!(battery_report(&mut s, None), BatteryReport { pct: 0, publish_voltage: false });
    assert_eq!(s.battery_pct(), 0);
}
