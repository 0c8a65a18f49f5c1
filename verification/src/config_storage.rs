//! The runtime configuration: compile-time defaults that values persisted in
//! non-volatile storage override. Every change is first written to storage;
//! the value in memory changes only when that write succeeded.
use vstd::prelude::*;
use crate::parse::{parse_u16, parse_u64, parse_u8, parse_unsigned};
use vstd::string::StringSliceAdditionalSpecFns;

verus! {

/// The storage namespace that holds the runtime configuration.
pub const NVS_NAMESPACE: &'static str = "gate";

/// The relay pulse length used until another one is configured.
pub const GATE_PULSE_MS: u64 = 1000;

/// The settings that can be changed at runtime.
pub struct RuntimeConfig {
    pub battery_min_pct: u8,
    pub grace_ms: u16,
    pub motion_timeout_s: u16,
    pub gate_pulse_ms: u32,
    pub telemetry_interval_s: u32,
    pub http_api_key: String,
}

/// What a `RuntimeConfig` holds, with the API key as a sequence of characters.
pub struct ConfigView {
    pub battery_min_pct: u8,
    pub grace_ms: u16,
    pub motion_timeout_s: u16,
    pub gate_pulse_ms: u32,
    pub telemetry_interval_s: u32,
    pub http_api_key: Seq<char>,
}

impl View for RuntimeConfig {
    type V = ConfigView;

    open spec fn view(&self) -> ConfigView {
        ConfigView {
            battery_min_pct: self.battery_min_pct,
            grace_ms: self.grace_ms,
            motion_timeout_s: self.motion_timeout_s,
            gate_pulse_ms: self.gate_pulse_ms,
            telemetry_interval_s: self.telemetry_interval_s,
            http_api_key: self.http_api_key@,
        }
    }
}

/// The effective settings together with the defaults that a reset restores.
pub struct ConfigStorage {
    pub current: RuntimeConfig,
    pub defaults: RuntimeConfig,
}

/// How the write of a value to non-volatile storage went.
#[derive(Clone, Copy, Debug, PartialEq, Eq, Structural)]
pub enum PersistOutcome {
    /// The storage could not be opened at start-up, so nothing was written.
    StoreUnavailable,
    /// The value was written.
    Written,
    /// The storage refused the write.
    Failed,
}

/// The settings, by the key under which each one is stored.
#[derive(Clone, Copy, Debug, PartialEq, Eq, Structural)]
pub enum ConfigField {
    BatteryMinPct,
    GraceMs,
    MotionTimeoutS,
    GatePulseMs,
    TelemetryIntervalS,
    HttpApiKey,
}

/// The values found in non-volatile storage at start-up; `None` where a key
/// is absent or could not be read.
pub struct StoredValues {
    pub battery_min_pct: Option<u8>,
    pub grace_ms: Option<u16>,
    pub motion_timeout_s: Option<u16>,
    pub gate_pulse_ms: Option<u32>,
    pub telemetry_interval_s: Option<u32>,
    pub http_api_key: Option<String>,
}

/// A validated change of one setting.
pub enum ConfigChange {
    HttpApiKey(String),
    BatteryMinPct(u8),
    GraceMs(u16),
    MotionTimeoutS(u16),
    GatePulseMs(u64),
    TelemetryIntervalS(u64),
}

pub enum ChangeView {
    HttpApiKey(Seq<char>),
    BatteryMinPct(u8),
    GraceMs(u16),
    MotionTimeoutS(u16),
    GatePulseMs(u64),
    TelemetryIntervalS(u64),
}

impl View for ConfigChange {
    type V = ChangeView;

    open spec fn view(&self) -> ChangeView {
        match self {
            ConfigChange::HttpApiKey(k) => ChangeView::HttpApiKey(k@),
            ConfigChange::BatteryMinPct(v) => ChangeView::BatteryMinPct(*v),
            ConfigChange::GraceMs(v) => ChangeView::GraceMs(*v),
            ConfigChange::MotionTimeoutS(v) => ChangeView::MotionTimeoutS(*v),
            ConfigChange::GatePulseMs(v) => ChangeView::GatePulseMs(*v),
            ConfigChange::TelemetryIntervalS(v) => ChangeView::TelemetryIntervalS(*v),
        }
    }
}

/// The storage key of each setting.
pub open spec fn spec_nvs_key(field: ConfigField) -> Seq<char> {
    match field {
        ConfigField::BatteryMinPct => "batt_min_pct"@,
        ConfigField::GraceMs => "grace_ms"@,
        ConfigField::MotionTimeoutS => "motion_timeout"@,
        ConfigField::GatePulseMs => "pulse_ms"@,
        ConfigField::TelemetryIntervalS => "tele_interval"@,
        ConfigField::HttpApiKey => "api_key"@,
    }
}

pub fn nvs_key(field: ConfigField) -> (key: &'static str)
    ensures
        key@ == spec_nvs_key(field),
{
    match field {
        ConfigField::BatteryMinPct => "batt_min_pct",
        ConfigField::GraceMs => "grace_ms",
        ConfigField::MotionTimeoutS => "motion_timeout",
        ConfigField::GatePulseMs => "pulse_ms",
        ConfigField::TelemetryIntervalS => "tele_interval",
        ConfigField::HttpApiKey => "api_key",
    }
}

/// The setting that a change writes.
pub fn change_field(change: &ConfigChange) -> (field: ConfigField)
    ensures
        field == spec_change_field(change@),
{
    match change {
        ConfigChange::HttpApiKey(_) => ConfigField::HttpApiKey,
        ConfigChange::BatteryMinPct(_) => ConfigField::BatteryMinPct,
        ConfigChange::GraceMs(_) => ConfigField::GraceMs,
        ConfigChange::MotionTimeoutS(_) => ConfigField::MotionTimeoutS,
        ConfigChange::GatePulseMs(_) => ConfigField::GatePulseMs,
        ConfigChange::TelemetryIntervalS(_) => ConfigField::TelemetryIntervalS,
    }
}

pub open spec fn spec_change_field(change: ChangeView) -> ConfigField {
    match change {
        ChangeView::HttpApiKey(_) => ConfigField::HttpApiKey,
        ChangeView::BatteryMinPct(_) => ConfigField::BatteryMinPct,
        ChangeView::GraceMs(_) => ConfigField::GraceMs,
        ChangeView::MotionTimeoutS(_) => ConfigField::MotionTimeoutS,
        ChangeView::GatePulseMs(_) => ConfigField::GatePulseMs,
        ChangeView::TelemetryIntervalS(_) => ConfigField::TelemetryIntervalS,
    }
}

// ----- compile-time defaults -----

/// A default read from the build environment: its value where it parses as a
/// number no larger than `max`, else `fallback`.
pub open spec fn env_default(env: Option<Seq<u8>>, max: nat, fallback: nat) -> nat {
    match env {
        Some(text) => match parse_unsigned(text, max) {
            Some(v) => v,
            None => fallback,
        },
        None => fallback,
    }
}

pub open spec fn env_bytes(env: Option<&str>) -> Option<Seq<u8>> {
    match env {
        Some(s) => Some(s.spec_bytes()),
        None => None,
    }
}

pub fn default_battery_min_pct(env: Option<&str>) -> (pct: u8)
    ensures
        pct as nat == env_default(env_bytes(env), u8::MAX as nat, 20),
{
    match env {
        Some(text) => match parse_u8(text.as_bytes()) {
            Some(v) => v,
            None => 20,
        },
        None => 20,
    }
}

pub fn default_grace_ms(env: Option<&str>) -> (ms: u16)
    ensures
        ms as nat == env_default(env_bytes(env), u16::MAX as nat, 300),
{
    match env {
        Some(text) => match parse_u16(text.as_bytes()) {
            Some(v) => v,
            None => 300,
        },
        None => 300,
    }
}

pub fn default_motion_timeout_s(env: Option<&str>) -> (s: u16)
    ensures
        s as nat == env_default(env_bytes(env), u16::MAX as nat, 45),
{
    match env {
        Some(text) => match parse_u16(text.as_bytes()) {
            Some(v) => v,
            None => 45,
        },
        None => 45,
    }
}

pub fn default_telemetry_interval_s(env: Option<&str>) -> (s: u64)
    ensures
        s as nat == env_default(env_bytes(env), u64::MAX as nat, 60),
{
    match env {
        Some(text) => match parse_u64(text.as_bytes()) {
            Some(v) => v,
            None => 60,
        },
        None => 60,
    }
}

pub fn default_http_api_key<'a>(env: Option<&'a str>) -> (key: &'a str)
    ensures
        key@ == match env {
            Some(s) => s@,
            None => ""@,
        },
{
    match env {
        Some(text) => text,
        None => "",
    }
}

/// The compile-time configuration: each setting from its build variable,
/// the relay pulse length fixed. The telemetry interval is kept in 32 bits,
/// truncating a larger configured value.
pub fn compile_time_defaults(
    battery_min_pct_env: Option<&str>,
    grace_ms_env: Option<&str>,
    motion_timeout_s_env: Option<&str>,
    telemetry_interval_s_env: Option<&str>,
    http_api_key_env: Option<&str>,
) -> (config: RuntimeConfig)
    ensures
        config.battery_min_pct as nat == env_default(
            env_bytes(battery_min_pct_env),
            u8::MAX as nat,
            20,
        ),
        config.grace_ms as nat == env_default(env_bytes(grace_ms_env), u16::MAX as nat, 300),
        config.motion_timeout_s as nat == env_default(
            env_bytes(motion_timeout_s_env),
            u16::MAX as nat,
            45,
        ),
        config.gate_pulse_ms == GATE_PULSE_MS as u32,
        config.telemetry_interval_s == (env_default(
            env_bytes(telemetry_interval_s_env),
            u64::MAX as nat,
            60,
        ) as u64) as u32,
        config.http_api_key@ == match http_api_key_env {
            Some(s) => s@,
            None => ""@,
        },
{
    let key = default_http_api_key(http_api_key_env);
    let telemetry = default_telemetry_interval_s(telemetry_interval_s_env);
    RuntimeConfig {
        battery_min_pct: default_battery_min_pct(battery_min_pct_env),
        grace_ms: default_grace_ms(grace_ms_env),
        motion_timeout_s: default_motion_timeout_s(motion_timeout_s_env),
        gate_pulse_ms: GATE_PULSE_MS as u32,
        telemetry_interval_s: telemetry as u32,
        http_api_key: key.to_owned(),
    }
}

fn copy_config(config: &RuntimeConfig) -> (copy: RuntimeConfig)
    ensures
        copy@ == config@,
{
    RuntimeConfig {
        battery_min_pct: config.battery_min_pct,
        grace_ms: config.grace_ms,
        motion_timeout_s: config.motion_timeout_s,
        gate_pulse_ms: config.gate_pulse_ms,
        telemetry_interval_s: config.telemetry_interval_s,
        http_api_key: config.http_api_key.clone(),
    }
}

// ----- start-up -----

/// Each setting as stored where it is present, else as it was.
pub open spec fn loaded(c: ConfigView, stored: StoredValues) -> ConfigView {
    ConfigView {
        battery_min_pct: match stored.battery_min_pct {
            Some(v) => v,
            None => c.battery_min_pct,
        },
        grace_ms: match stored.grace_ms {
            Some(v) => v,
            None => c.grace_ms,
        },
        motion_timeout_s: match stored.motion_timeout_s {
            Some(v) => v,
            None => c.motion_timeout_s,
        },
        gate_pulse_ms: match stored.gate_pulse_ms {
            Some(v) => v,
            None => c.gate_pulse_ms,
        },
        telemetry_interval_s: match stored.telemetry_interval_s {
            Some(v) => v,
            None => c.telemetry_interval_s,
        },
        http_api_key: match stored.http_api_key {
            Some(v) => v@,
            None => c.http_api_key,
        },
    }
}

/// Takes over every value that was found in storage.
pub fn load_all(storage: &mut ConfigStorage, stored: &StoredValues)
    ensures
        final(storage).current@ == loaded(old(storage).current@, *stored),
        final(storage).defaults@ == old(storage).defaults@,
{
    if let Some(v) = stored.battery_min_pct {
        storage.current.battery_min_pct = v;
    }
    if let Some(v) = stored.grace_ms {
        storage.current.grace_ms = v;
    }
    if let Some(v) = stored.motion_timeout_s {
        storage.current.motion_timeout_s = v;
    }
    if let Some(v) = stored.gate_pulse_ms {
        storage.current.gate_pulse_ms = v;
    }
    if let Some(v) = stored.telemetry_interval_s {
        storage.current.telemetry_interval_s = v;
    }
    if let Some(v) = &stored.http_api_key {
        storage.current.http_api_key = v.clone();
    }
}

/// The configuration at start-up: the defaults, overridden by the stored values
/// where the storage could be opened (`stored` is `None` where it could not).
pub fn init(defaults: RuntimeConfig, stored: Option<&StoredValues>) -> (storage: ConfigStorage)
    ensures
        storage.defaults@ == defaults@,
        storage.current@ == match stored {
            Some(s) => loaded(defaults@, *s),
            None => defaults@,
        },
{
    let current = copy_config(&defaults);
    let mut storage = ConfigStorage { current, defaults };
    if let Some(s) = stored {
        load_all(&mut storage, s);
    }
    storage
}

// ----- reading -----

pub fn battery_min_pct(storage: &ConfigStorage) -> (v: u8)
    ensures
        v == storage.current.battery_min_pct,
{
    storage.current.battery_min_pct
}

pub fn grace_ms(storage: &ConfigStorage) -> (v: u16)
    ensures
        v == storage.current.grace_ms,
{
    storage.current.grace_ms
}

pub fn motion_timeout_s(storage: &ConfigStorage) -> (v: u16)
    ensures
        v == storage.current.motion_timeout_s,
{
    storage.current.motion_timeout_s
}

pub fn gate_pulse_ms(storage: &ConfigStorage) -> (v: u64)
    ensures
        v == storage.current.gate_pulse_ms,
{
    storage.current.gate_pulse_ms as u64
}

pub fn telemetry_interval_s(storage: &ConfigStorage) -> (v: u64)
    ensures
        v == storage.current.telemetry_interval_s,
{
    storage.current.telemetry_interval_s as u64
}

pub fn http_api_key(storage: &ConfigStorage) -> (key: String)
    ensures
        key@ == storage.current.http_api_key@,
{
    storage.current.http_api_key.clone()
}

// ----- writing -----

fn persist_u8(slot: &mut u8, value: u8, outcome: PersistOutcome) -> (ok: bool)
    ensures
        ok == (outcome == PersistOutcome::Written),
        *final(slot) == if ok { value } else { *old(slot) },
{
    match outcome {
        PersistOutcome::Written => {
            *slot = value;
            true
        },
        _ => false,
    }
}

fn persist_u16(slot: &mut u16, value: u16, outcome: PersistOutcome) -> (ok: bool)
    ensures
        ok == (outcome == PersistOutcome::Written),
        *final(slot) == if ok { value } else { *old(slot) },
{
    match outcome {
        PersistOutcome::Written => {
            *slot = value;
            true
        },
        _ => false,
    }
}

fn persist_u32(slot: &mut u32, value: u32, outcome: PersistOutcome) -> (ok: bool)
    ensures
        ok == (outcome == PersistOutcome::Written),
        *final(slot) == if ok { value } else { *old(slot) },
{
    match outcome {
        PersistOutcome::Written => {
            *slot = value;
            true
        },
        _ => false,
    }
}

/// The configuration after a change whose write had the given outcome:
/// the setting takes the new value only where it was written.
pub open spec fn changed(c: ConfigView, change: ChangeView, outcome: PersistOutcome) -> ConfigView {
    if outcome != PersistOutcome::Written {
        c
    } else {
        match change {
            ChangeView::HttpApiKey(k) => ConfigView { http_api_key: k, ..c },
            ChangeView::BatteryMinPct(v) => ConfigView { battery_min_pct: v, ..c },
            ChangeView::GraceMs(v) => ConfigView { grace_ms: v, ..c },
            ChangeView::MotionTimeoutS(v) => ConfigView { motion_timeout_s: v, ..c },
            ChangeView::GatePulseMs(v) => ConfigView { gate_pulse_ms: v as u32, ..c },
            ChangeView::TelemetryIntervalS(v) => ConfigView { telemetry_interval_s: v as u32, ..c },
        }
    }
}

/// Records a new minimum battery level once its write had `outcome`; true
/// exactly when it was written.
pub fn set_battery_min_pct(storage: &mut ConfigStorage, value: u8, outcome: PersistOutcome) -> (ok:
    bool)
    ensures
        ok == (outcome == PersistOutcome::Written),
        final(storage).current@ == changed(
            old(storage).current@,
            ChangeView::BatteryMinPct(value),
            outcome,
        ),
        final(storage).defaults@ == old(storage).defaults@,
{
    persist_u8(&mut storage.current.battery_min_pct, value, outcome)
}

pub fn set_grace_ms(storage: &mut ConfigStorage, value: u16, outcome: PersistOutcome) -> (ok: bool)
    ensures
        ok == (outcome == PersistOutcome::Written),
        final(storage).current@ == changed(
            old(storage).current@,
            ChangeView::GraceMs(value),
            outcome,
        ),
        final(storage).defaults@ == old(storage).defaults@,
{
    persist_u16(&mut storage.current.grace_ms, value, outcome)
}

pub fn set_motion_timeout_s(storage: &mut ConfigStorage, value: u16, outcome: PersistOutcome) -> (ok:
    bool)
    ensures
        ok == (outcome == PersistOutcome::Written),
        final(storage).current@ == changed(
            old(storage).current@,
            ChangeView::MotionTimeoutS(value),
            outcome,
        ),
        final(storage).defaults@ == old(storage).defaults@,
{
    persist_u16(&mut storage.current.motion_timeout_s, value, outcome)
}

/// The pulse length is kept in 32 bits; a larger value is truncated.
pub fn set_gate_pulse_ms(storage: &mut ConfigStorage, value: u64, outcome: PersistOutcome) -> (ok:
    bool)
    ensures
        ok == (outcome == PersistOutcome::Written),
        final(storage).current@ == changed(
            old(storage).current@,
            ChangeView::GatePulseMs(value),
            outcome,
        ),
        final(storage).defaults@ == old(storage).defaults@,
{
    persist_u32(&mut storage.current.gate_pulse_ms, value as u32, outcome)
}

/// The interval is kept in 32 bits; a larger value is truncated.
pub fn set_telemetry_interval_s(
    storage: &mut ConfigStorage,
    value: u64,
    outcome: PersistOutcome,
) -> (ok: bool)
    ensures
        ok == (outcome == PersistOutcome::Written),
        final(storage).current@ == changed(
            old(storage).current@,
            ChangeView::TelemetryIntervalS(value),
            outcome,
        ),
        final(storage).defaults@ == old(storage).defaults@,
{
    persist_u32(&mut storage.current.telemetry_interval_s, value as u32, outcome)
}

pub fn set_http_api_key(storage: &mut ConfigStorage, value: &str, outcome: PersistOutcome) -> (ok:
    bool)
    ensures
        ok == (outcome == PersistOutcome::Written),
        final(storage).current@ == changed(
            old(storage).current@,
            ChangeView::HttpApiKey(value@),
            outcome,
        ),
        final(storage).defaults@ == old(storage).defaults@,
{
    match outcome {
        PersistOutcome::Written => {
            storage.current.http_api_key = value.to_owned();
            true
        },
        _ => false,
    }
}

/// Applies one change once its write had `outcome`.
pub fn apply_change(storage: &mut ConfigStorage, change: &ConfigChange, outcome: PersistOutcome) -> (ok:
    bool)
    ensures
        ok == (outcome == PersistOutcome::Written),
        final(storage).current@ == changed(old(storage).current@, change@, outcome),
        final(storage).defaults@ == old(storage).defaults@,
{
    match change {
        ConfigChange::HttpApiKey(k) => set_http_api_key(storage, k.as_str(), outcome),
        ConfigChange::BatteryMinPct(v) => set_battery_min_pct(storage, *v, outcome),
        ConfigChange::GraceMs(v) => set_grace_ms(storage, *v, outcome),
        ConfigChange::MotionTimeoutS(v) => set_motion_timeout_s(storage, *v, outcome),
        ConfigChange::GatePulseMs(v) => set_gate_pulse_ms(storage, *v, outcome),
        ConfigChange::TelemetryIntervalS(v) => set_telemetry_interval_s(storage, *v, outcome),
    }
}

// ----- reset -----

/// Puts the defaults back in memory; storage is not touched.
pub fn restore_defaults(storage: &mut ConfigStorage)
    ensures
        final(storage).current@ == old(storage).defaults@,
        final(storage).defaults@ == old(storage).defaults@,
{
    storage.current = copy_config(&storage.defaults);
}

/// Forgets every runtime setting: the caller removes the stored keys (each
/// `nvs_key`), and the defaults apply again.
pub fn reset_all(storage: &mut ConfigStorage)
    ensures
        final(storage).current@ == old(storage).defaults@,
        final(storage).defaults@ == old(storage).defaults@,
{
    restore_defaults(storage);
}

} // verus!

verus! {

/// A change that was written is what a read gives back; a change that was not
/// written leaves the setting as it was. Either way every other setting keeps
/// its value.
pub proof fn law_read_after_write(c: ConfigView, change: ChangeView, outcome: PersistOutcome)
    ensures
        ({
            let n = changed(c, change, outcome);
            &&& outcome != PersistOutcome::Written ==> n == c
            &&& outcome == PersistOutcome::Written ==> match change {
                ChangeView::HttpApiKey(k) => n == ConfigView { http_api_key: k, ..c },
                ChangeView::BatteryMinPct(v) => n == ConfigView { battery_min_pct: v, ..c },
                ChangeView::GraceMs(v) => n == ConfigView { grace_ms: v, ..c },
                ChangeView::MotionTimeoutS(v) => n == ConfigView { motion_timeout_s: v, ..c },
                ChangeView::GatePulseMs(v) => n == ConfigView { gate_pulse_ms: v as u32, ..c },
                ChangeView::TelemetryIntervalS(v) => n == ConfigView {
                    telemetry_interval_s: v as u32,
                    ..c
                },
            }
        }),
{
}

/// Loading what storage holds makes each stored value effective and leaves the
/// others at their defaults; with nothing stored, the defaults apply.
pub proof fn law_stored_values_win(d: ConfigView, stored: StoredValues)
    ensures
        ({
            let l = loaded(d, stored);
            &&& stored.battery_min_pct matches Some(v) ==> l.battery_min_pct == v
            &&& stored.battery_min_pct is None ==> l.battery_min_pct == d.battery_min_pct
            &&& stored.grace_ms matches Some(v) ==> l.grace_ms == v
            &&& stored.grace_ms is None ==> l.grace_ms == d.grace_ms
            &&& stored.motion_timeout_s matches Some(v) ==> l.motion_timeout_s == v
            &&& stored.motion_timeout_s is None ==> l.motion_timeout_s == d.motion_timeout_s
            &&& stored.gate_pulse_ms matches Some(v) ==> l.gate_pulse_ms == v
            &&& stored.gate_pulse_ms is None ==> l.gate_pulse_ms == d.gate_pulse_ms
            &&& stored.telemetry_interval_s matches Some(v) ==> l.telemetry_interval_s == v
            &&& stored.telemetry_interval_s is None ==> l.telemetry_interval_s
                == d.telemetry_interval_s
            &&& stored.http_api_key matches Some(k) ==> l.http_api_key == k@
            &&& stored.http_api_key is None ==> l.http_api_key == d.http_api_key
        }),
{
}

} // verus!
