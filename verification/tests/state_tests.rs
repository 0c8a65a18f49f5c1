use gate_opener::pure::{Command, ST_ERROR, ST_OPEN, ST_STOPPED};
use gate_opener::state::{DeviceState, FAULT_BATTERY, FAULT_SENSOR};

#[test]
fn boot_state() {
    let s = DeviceState::new();
    assert_eq!(s.status, ST_STOPPED);
    assert_eq!(s.battery_pct(), 100);
    assert_eq!(s.fault(), 0);
    assert!(!s.obstacle());
    assert!(!s.mqtt_connected());
    assert_eq!(s.status(), "stopped");
}

#[test]
fn last_command_wins_and_take_empties() {
    let mut s = DeviceState::new();
    s.submit_command(Command::Close);
    s.submit_command(Command::Open);
    assert_eq!(s.take_command(), Command::Open);
    assert_eq!(s.take_command(), Command::NoCommand);
}

#[test]
fn fault_bits_are_independent() {
    let mut s = DeviceState::new();
    s.set_fault(FAULT_BATTERY);
    s.set_fault(FAULT_SENSOR);
    s.clear_fault(FAULT_BATTERY);
    assert_eq!(s.fault(), FAULT_SENSOR);
    s.clear_fault(FAULT_SENSOR);
    assert_eq!(s.fault(), 0);
}

#[test]
fn both_limit_switches_mean_error() {
    let mut s = DeviceState::new();
    s.refresh_status(true, true);
    assert_eq!(s.status, ST_ERROR);
    assert_ne!(s.fault() & FAULT_SENSOR, 0);
    s.refresh_status(true, false);
    assert_eq!(s.status, ST_OPEN);
    assert_eq!(s.fault() & FAULT_SENSOR, 0);
    // between the limits the last status stands
    s.refresh_status(false, false);
    assert_eq!(s.status, ST_OPEN);
}

#[test]
fn battery_request_is_consumed() {
    let mut s = DeviceState::new();
    s.request_battery_publish();
    assert!(s.take_battery_publish_request());
    assert!(!s.take_battery_publish_request());
    s.set_battery_pct(42);
    assert_eq!(s.battery_pct(), 42);
    s.set_mqtt_connected(true);
    assert!(s.mqtt_connected());
}
