use gate_opener::config_storage::{
    battery_min_pct, compile_time_defaults, gate_pulse_ms, grace_ms, http_api_key, init,
    motion_timeout_s, set_http_api_key, telemetry_interval_s, ConfigChange, ConfigStorage,
    PersistOutcome,
};
use gate_opener::http::{
    check_auth, config_response, constant_time_eq, handle_config_update, hex_val,
    parse_config_query, plan_config_update, query_of_uri, url_decode, url_decode_bytes,
    ConfigUpdate, ConfigUpdateError,
};

fn fresh() -> ConfigStorage {
    init(compile_time_defaults(None, None, None, None, None), None)
}

fn changes(update: &ConfigUpdate) -> &Vec<ConfigChange> {
    match update {
        ConfigUpdate::Changes(cs) => cs,
        ConfigUpdate::Reset => panic!("expected changes"),
    }
}

#[test]
fn hex_digits() {
    assert_eq!(hex_val(b'0'), Some(0));
    assert_eq!(hex_val(b'9'), Some(9));
    assert_eq!(hex_val(b'a'), Some(10));
    assert_eq!(hex_val(b'F'), Some(15));
    assert_eq!(hex_val(b'g'), None);
}

#[test]
fn percent_and_plus_decoding() {
    assert_eq!(url_decode_bytes(b"a%20b+c"), b"a b c".to_vec());
    assert_eq!(url_decode_bytes(b"%41%4a"), b"AJ".to_vec());
    assert_eq!(url_decode_bytes(b"100%"), b"100%".to_vec());
    assert_eq!(url_decode_bytes(b"%4"), b"%4".to_vec());
    assert_eq!(url_decode_bytes(b"%zz"), b"%zz".to_vec());
    assert_eq!(url_decode_bytes(b"plain-text_1.0"), b"plain-text_1.0".to_vec());
    assert!(url_decode_bytes(b"%41%42%43").len() <= 9);
    assert_eq!(url_decode("my%20key"), "my key");
    assert_eq!(url_decode("%C3%A9"), "é");
    assert_eq!(url_decode("%FF"), "\u{FFFD}");
    assert_eq!(url_decode("%41+%zz%4"), "A %zz%4");
    assert_eq!(url_decode("a+b-c"), "a b-c");
}

#[test]
fn query_is_split_into_pairs() {
    assert_eq!(query_of_uri(b"/config?a=1&b=2"), b"a=1&b=2");
    assert_eq!(query_of_uri(b"/config"), b"");
    let params = parse_config_query(b"a=1&novalue&b=x%20y&&c=");
    let pairs: Vec<(Vec<u8>, Vec<u8>)> =
        params.into_iter().map(|p| (p.key, p.value)).collect();
    assert_eq!(
        pairs,
        vec![
            (b"a".to_vec(), b"1".to_vec()),
            (b"b".to_vec(), b"x y".to_vec()),
            (b"c".to_vec(), b"".to_vec()),
        ]
    );
    assert!(parse_config_query(b"").is_empty());
}

#[test]
fn plan_keeps_valid_changes_in_order() {
    let update = plan_config_update(
        b"/config?gate_pulse_ms=700&battery_min_pct=25&grace_ms=500&motion_timeout_s=0&telemetry_interval_s=abc&unknown=1&http_api_key=s%20k",
    );
    let cs = changes(&update);
    assert_eq!(cs.len(), 4);
    assert!(matches!(cs[0], ConfigChange::GatePulseMs(700)));
    assert!(matches!(cs[1], ConfigChange::BatteryMinPct(25)));
    assert!(matches!(cs[2], ConfigChange::GraceMs(500)));
    match &cs[3] {
        ConfigChange::HttpApiKey(k) => assert_eq!(k, "s k"),
        _ => panic!("expected api key"),
    }
}

#[test]
fn out_of_range_values_are_ignored() {
    let update = plan_config_update(
        b"/config?battery_min_pct=101&grace_ms=60001&motion_timeout_s=301&gate_pulse_ms=0&telemetry_interval_s=3601",
    );
    assert!(changes(&update).is_empty());
    let update = plan_config_update(
        b"/config?battery_min_pct=100&grace_ms=60000&motion_timeout_s=300&gate_pulse_ms=60000&telemetry_interval_s=3600",
    );
    assert_eq!(changes(&update).len(), 5);
}

#[test]
fn reset_anywhere_wins() {
    assert!(matches!(
        plan_config_update(b"/config?grace_ms=5&reset=1"),
        ConfigUpdate::Reset
    ));
    assert!(!matches!(
        plan_config_update(b"/config?reset=0"),
        ConfigUpdate::Reset
    ));
}

#[test]
fn update_applies_written_changes_and_reports_failures() {
    let mut storage = fresh();
    let update = plan_config_update(b"/config?battery_min_pct=30&grace_ms=100");
    let outcomes = [PersistOutcome::Written, PersistOutcome::Failed];
    assert_eq!(
        handle_config_update(&mut storage, &update, &outcomes),
        Err(ConfigUpdateError::NotPersisted)
    );
    assert_eq!(battery_min_pct(&storage), 30);
    assert_eq!(grace_ms(&storage), 300);

    let update = plan_config_update(b"/config?motion_timeout_s=60&telemetry_interval_s=10");
    let outcomes = [PersistOutcome::Written, PersistOutcome::Written];
    assert_eq!(handle_config_update(&mut storage, &update, &outcomes), Ok(()));
    assert_eq!(motion_timeout_s(&storage), 60);
    assert_eq!(telemetry_interval_s(&storage), 10);

    let update = plan_config_update(b"/config?reset=1");
    assert_eq!(handle_config_update(&mut storage, &update, &[]), Ok(()));
    assert_eq!(battery_min_pct(&storage), 20);
    assert_eq!(gate_pulse_ms(&storage), 1000);
}

#[test]
fn auth_by_api_key() {
    let mut storage = fresh();
    assert!(check_auth(&storage, None));
    assert!(check_auth(&storage, Some("anything")));
    set_http_api_key(&mut storage, "secret", PersistOutcome::Written);
    assert!(!check_auth(&storage, None));
    assert!(!check_auth(&storage, Some("secreT")));
    assert!(!check_auth(&storage, Some("secret2")));
    assert!(check_auth(&storage, Some("secret")));
    assert_eq!(http_api_key(&storage), "secret");
}

#[test]
fn byte_comparison() {
    assert!(constant_time_eq(b"abc", b"abc"));
    assert!(!constant_time_eq(b"abc", b"abd"));
    assert!(!constant_time_eq(b"abc", b"ab"));
    assert!(constant_time_eq(b"", b""));
}

#[test]
fn config_report_shows_the_key() {
    let mut storage = fresh();
    let r = config_response(&storage);
    assert_eq!(r.http_api_key, "");
    assert_eq!(r.battery_min_pct, 20);
    assert_eq!(r.grace_ms, 300);
    assert_eq!(r.motion_timeout_s, 45);
    assert_eq!(r.gate_pulse_ms, 1000);
    assert_eq!(r.telemetry_interval_s, 60);
    set_http_api_key(&mut storage, "secret", PersistOutcome::Written);
    assert_eq!(config_response(&storage).http_api_key, "secret");
}
