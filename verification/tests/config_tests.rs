use gate_opener::config_storage::{
    battery_min_pct, compile_time_defaults, default_battery_min_pct, default_grace_ms,
    default_http_api_key, default_motion_timeout_s, default_telemetry_interval_s, gate_pulse_ms,
    grace_ms, http_api_key, init, load_all, motion_timeout_s, nvs_key, reset_all,
    restore_defaults, set_battery_min_pct, set_gate_pulse_ms, set_grace_ms, set_http_api_key,
    set_motion_timeout_s, set_telemetry_interval_s, telemetry_interval_s, ConfigField,
    ConfigStorage, PersistOutcome, StoredValues,
};

fn fresh() -> ConfigStorage {
    init(compile_time_defaults(None, None, None, None, None), None)
}

fn nothing_stored() -> StoredValues {
    StoredValues {
        battery_min_pct: None,
        grace_ms: None,
        motion_timeout_s: None,
        gate_pulse_ms: None,
        telemetry_interval_s: None,
        http_api_key: None,
    }
}

#[test]
fn built_in_defaults() {
    let storage = fresh();
    assert_eq!(battery_min_pct(&storage), 20);
    assert_eq!(grace_ms(&storage), 300);
    assert_eq!(motion_timeout_s(&storage), 45);
    assert_eq!(gate_pulse_ms(&storage), 1000);
    assert_eq!(telemetry_interval_s(&storage), 60);
    assert_eq!(http_api_key(&storage), "");
}

#[test]
fn environment_defaults_parse_or_fall_back() {
    assert_eq!(default_battery_min_pct(Some("35")), 35);
    assert_eq!(default_battery_min_pct(Some("abc")), 20);
    assert_eq!(default_battery_min_pct(Some("300")), 20);
    assert_eq!(default_grace_ms(Some("500")), 500);
    assert_eq!(default_motion_timeout_s(Some("")), 45);
    assert_eq!(default_telemetry_interval_s(Some("120")), 120);
    assert_eq!(default_http_api_key(Some("secret")), "secret");
    assert_eq!(default_http_api_key(None), "");
}

#[test]
fn telemetry_default_is_kept_in_32_bits() {
    let config = compile_time_defaults(None, None, None, Some("4294967297"), None);
    assert_eq!(config.telemetry_interval_s, 1);
}

#[test]
fn stored_values_override_defaults() {
    let mut stored = nothing_stored();
    stored.grace_ms = Some(700);
    stored.http_api_key = Some("k".to_string());
    let storage = init(compile_time_defaults(None, None, None, None, None), Some(&stored));
    assert_eq!(grace_ms(&storage), 700);
    assert_eq!(http_api_key(&storage), "k");
    assert_eq!(battery_min_pct(&storage), 20);
}

#[test]
fn load_all_takes_only_present_values() {
    let mut storage = fresh();
    let mut stored = nothing_stored();
    stored.battery_min_pct = Some(33);
    stored.gate_pulse_ms = Some(800);
    stored.telemetry_interval_s = Some(30);
    stored.motion_timeout_s = Some(90);
    load_all(&mut storage, &stored);
    assert_eq!(battery_min_pct(&storage), 33);
    assert_eq!(gate_pulse_ms(&storage), 800);
    assert_eq!(telemetry_interval_s(&storage), 30);
    assert_eq!(motion_timeout_s(&storage), 90);
    assert_eq!(grace_ms(&storage), 300);
}

#[test]
fn written_value_is_read_back() {
    let mut storage = fresh();
    assert!(set_battery_min_pct(&mut storage, 25, PersistOutcome::Written));
    assert_eq!(battery_min_pct(&storage), 25);
    assert!(set_grace_ms(&mut storage, 500, PersistOutcome::Written));
    assert_eq!(grace_ms(&storage), 500);
    assert!(set_motion_timeout_s(&mut storage, 30, PersistOutcome::Written));
    assert_eq!(motion_timeout_s(&storage), 30);
    assert!(set_gate_pulse_ms(&mut storage, 700, PersistOutcome::Written));
    assert_eq!(gate_pulse_ms(&storage), 700);
    assert!(set_telemetry_interval_s(&mut storage, 120, PersistOutcome::Written));
    assert_eq!(telemetry_interval_s(&storage), 120);
    assert!(set_http_api_key(&mut storage, "new", PersistOutcome::Written));
    assert_eq!(http_api_key(&storage), "new");
}

#[test]
fn unwritten_value_is_not_taken() {
    let mut storage = fresh();
    assert!(!set_battery_min_pct(&mut storage, 25, PersistOutcome::Failed));
    assert_eq!(battery_min_pct(&storage), 20);
    assert!(!set_http_api_key(&mut storage, "x", PersistOutcome::StoreUnavailable));
    assert_eq!(http_api_key(&storage), "");
}

#[test]
fn oversized_pulse_is_truncated_to_32_bits() {
    let mut storage = fresh();
    assert!(set_gate_pulse_ms(&mut storage, (1u64 << 32) + 5, PersistOutcome::Written));
    assert_eq!(gate_pulse_ms(&storage), 5);
}

#[test]
fn reset_restores_defaults() {
    let mut storage = fresh();
    set_grace_ms(&mut storage, 1, PersistOutcome::Written);
    set_http_api_key(&mut storage, "x", PersistOutcome::Written);
    reset_all(&mut storage);
    assert_eq!(grace_ms(&storage), 300);
    assert_eq!(http_api_key(&storage), "");
    set_battery_min_pct(&mut storage, 50, PersistOutcome::Written);
    restore_defaults(&mut storage);
    assert_eq!(battery_min_pct(&storage), 20);
}

#[test]
fn storage_keys() {
    assert_eq!(nvs_key(ConfigField::BatteryMinPct), "batt_min_pct");
    assert_eq!(nvs_key(ConfigField::GraceMs), "grace_ms");
    assert_eq!(nvs_key(ConfigField::MotionTimeoutS), "motion_timeout");
    assert_eq!(nvs_key(ConfigField::GatePulseMs), "pulse_ms");
    assert_eq!(nvs_key(ConfigField::TelemetryIntervalS), "tele_interval");
    assert_eq!(nvs_key(ConfigField::HttpApiKey), "api_key");
}
