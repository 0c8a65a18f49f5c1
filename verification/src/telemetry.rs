//! The decisions of the telemetry task: when to reconnect a lost WiFi link,
//! what to publish periodically and on request, and the battery report.
use vstd::prelude::*;
use crate::config_storage::{telemetry_interval_s, ConfigStorage};
use crate::state::DeviceState;

verus! {

/// The least time between two reconnection attempts.
pub const RECONNECT_INTERVAL_MS: u64 = 5000;

/// When the periodic report and the last reconnection attempt took place.
#[derive(Clone, Copy, Debug, PartialEq, Eq, Structural)]
pub struct TelemetryTimers {
    pub last_periodic_ms: u64,
    pub last_reconnect_ms: u64,
}

impl TelemetryTimers {
    /// Both periods start at `now_ms`.
    pub fn new(now_ms: u64) -> (t: TelemetryTimers)
        ensures
            t.last_periodic_ms == now_ms,
            t.last_reconnect_ms == now_ms,
    {
        TelemetryTimers { last_periodic_ms: now_ms, last_reconnect_ms: now_ms }
    }
}

/// Whether a reconnection attempt is due.
pub open spec fn reconnect_due(timers: TelemetryTimers, now_ms: u64, connected: bool) -> bool {
    !connected && now_ms.saturating_sub(timers.last_reconnect_ms) >= RECONNECT_INTERVAL_MS
}

/// Whether to reconnect: the link is down and the last attempt lies at least
/// `RECONNECT_INTERVAL_MS` back. An attempt restarts the period.
pub fn wifi_check(timers: &mut TelemetryTimers, now_ms: u64, connected: bool) -> (reconnect: bool)
    ensures
        reconnect == reconnect_due(*old(timers), now_ms, connected),
        *final(timers) == if reconnect {
            TelemetryTimers { last_reconnect_ms: now_ms, ..*old(timers) }
        } else {
            *old(timers)
        },
{
    if !connected && now_ms.saturating_sub(timers.last_reconnect_ms) >= RECONNECT_INTERVAL_MS {
        timers.last_reconnect_ms = now_ms;
        true
    } else {
        false
    }
}

/// Whether the periodic report is due at `now_ms` for an interval in seconds.
pub open spec fn periodic_due(timers: TelemetryTimers, now_ms: u64, interval_s: u64) -> bool {
    now_ms.saturating_sub(timers.last_periodic_ms) >= interval_s * 1000
}

/// What the telemetry task publishes after a check.
#[derive(Clone, Copy, Debug, PartialEq, Eq, Structural)]
pub struct TelemetryReport {
    pub online: bool,
    pub status: bool,
    pub obstacle: bool,
    pub battery: bool,
}

/// What a check publishes: nothing while the broker is disconnected; once the
/// periodic interval has passed, availability ("online"), status, obstacle state
/// and battery level; otherwise the battery level alone where a report was
/// asked for.
pub open spec fn spec_report(connected: bool, requested: bool, due: bool) -> TelemetryReport {
    if !connected {
        TelemetryReport { online: false, status: false, obstacle: false, battery: false }
    } else if due {
        TelemetryReport { online: true, status: true, obstacle: true, battery: true }
    } else {
        TelemetryReport { online: false, status: false, obstacle: false, battery: requested }
    }
}

/// Decides what the telemetry task publishes now. Only while the broker is
/// connected: a pending request for a battery report is consumed, and a due
/// period restarts.
pub fn telemetry_check(
    timers: &mut TelemetryTimers,
    state: &mut DeviceState,
    storage: &ConfigStorage,
    now_ms: u64,
) -> (report: TelemetryReport)
    ensures
        ({
            let interval = storage.current.telemetry_interval_s as u64;
            let due = periodic_due(*old(timers), now_ms, interval);
            &&& report == spec_report(
                old(state).mqtt_connected,
                old(state).battery_publish_requested,
                due,
            )
            &&& if old(state).mqtt_connected {
                &&& *final(state) == (DeviceState {
                    battery_publish_requested: false,
                    ..*old(state)
                })
                &&& *final(timers) == if due {
                    TelemetryTimers { last_periodic_ms: now_ms, ..*old(timers) }
                } else {
                    *old(timers)
                }
            } else {
                &&& *final(state) == *old(state)
                &&& *final(timers) == *old(timers)
            }
        }),
{
    if !state.mqtt_connected() {
        return TelemetryReport { online: false, status: false, obstacle: false, battery: false };
    }
    let interval = telemetry_interval_s(storage);
    let due = now_ms.saturating_sub(timers.last_periodic_ms) >= interval * 1000;
    if due {
        timers.last_periodic_ms = now_ms;
    }
    let requested = state.take_battery_publish_request();
    TelemetryReport { online: due, status: due, obstacle: due, battery: requested || due }
}

/// The battery level to report and whether the voltage goes out with it.
#[derive(Clone, Copy, Debug, PartialEq, Eq, Structural)]
pub struct BatteryReport {
    pub pct: u8,
    pub publish_voltage: bool,
}

/// Records a battery measurement: `None` when the ADC could not be read, in
/// which case 0 % is recorded and reported and the voltage is left out.
pub fn battery_report(state: &mut DeviceState, measured_pct: Option<u8>) -> (r: BatteryReport)
    ensures
        r == match measured_pct {
            Some(p) => BatteryReport { pct: p, publish_voltage: true },
            None => BatteryReport { pct: 0, publish_voltage: false },
        },
        *final(state) == (DeviceState { battery_pct: r.pct, ..*old(state) }),
{
    let r = match measured_pct {
        Some(p) => BatteryReport { pct: p, publish_voltage: true },
        None => BatteryReport { pct: 0, publish_voltage: false },
    };
    state.set_battery_pct(r.pct);
    r
}

/// Two reconnection attempts lie at least `RECONNECT_INTERVAL_MS` apart.
pub proof fn law_reconnect_spacing(timers: TelemetryTimers, first_ms: u64, later_ms: u64)
    requires
        reconnect_due(timers, first_ms, false),
        first_ms <= later_ms < first_ms + RECONNECT_INTERVAL_MS,
    ensures
        !reconnect_due(TelemetryTimers { last_reconnect_ms: first_ms, ..timers }, later_ms, false),
{
}

/// Once the interval has passed, a connected check publishes availability,
/// status, obstacle state and battery level, whether or not a report was asked
/// for.
pub proof fn law_periodic_report_complete(
    timers: TelemetryTimers,
    requested: bool,
    now_ms: u64,
    interval_s: u64,
)
    requires
        periodic_due(timers, now_ms, interval_s),
    ensures
        spec_report(true, requested, periodic_due(timers, now_ms, interval_s))
            == (TelemetryReport { online: true, status: true, obstacle: true, battery: true }),
{
}

/// A working link is never reconnected; a lost one is, as soon as 5 s have
/// passed since the last attempt.
pub proof fn law_reconnect_only_when_down(timers: TelemetryTimers, now_ms: u64)
    ensures
        !reconnect_due(timers, now_ms, true),
        reconnect_due(timers, now_ms, false) <==> now_ms.saturating_sub(timers.last_reconnect_ms)
            >= 5000,
{
}

/// The periodic report follows the configured interval: a connected check
/// at least `interval_s` seconds after the last periodic report publishes
/// availability, status, obstacle and battery; an earlier one publishes none
/// of the periodic messages (only the battery, where a report was asked for).
pub proof fn law_report_follows_interval(
    timers: TelemetryTimers,
    requested: bool,
    now_ms: u64,
    interval_s: u64,
)
    ensures
        now_ms.saturating_sub(timers.last_periodic_ms) >= interval_s * 1000 ==> spec_report(
            true,
            requested,
            periodic_due(timers, now_ms, interval_s),
        ) == (TelemetryReport { online: true, status: true, obstacle: true, battery: true }),
        now_ms.saturating_sub(timers.last_periodic_ms) < interval_s * 1000 ==> spec_report(
            true,
            requested,
            periodic_due(timers, now_ms, interval_s),
        ) == (TelemetryReport { online: false, status: false, obstacle: false, battery: requested }),
        spec_report(false, requested, periodic_due(timers, now_ms, interval_s)) == (TelemetryReport {
            online: false,
            status: false,
            obstacle: false,
            battery: false,
        }),
{
}

} // verus!
