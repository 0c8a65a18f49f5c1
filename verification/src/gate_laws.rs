//! Laws of the barrier's state machine: what a poll does in each situation
//! that the motion sequences promise, the agreement of the reported status
//! with the motion, and the progress of every motion towards its end.
use vstd::prelude::*;
use crate::gate::{
    after_handle, interrupted, kind_rank, open_finished, refreshed, spec_close_relay_of,
    spec_gate_next, spec_handle_command, spec_lamp_of, spec_open_relay_of, spec_pulse_check,
    spec_pulse_enter, spec_resume, spec_reverse_to_open, spec_settle_check, spec_settled,
    spec_watch_check, watch_timeout, Kind, Lamp, Motion, Published, Run, Sensors, Stage, Timing,
    SENSOR_POLL_MS,
};
use crate::pure::{spec_sensor_status, Command, ST_CLOSING, ST_ERROR, ST_OPEN, ST_OPENING};
use crate::state::{DeviceState, FAULT_BATTERY, FAULT_SENSOR};

verus! {

// ----- laws of the barrier -----

/// At most one relay is energised, whatever the motion.
pub proof fn law_never_both_relays(m: Motion)
    ensures
        !(spec_open_relay_of(m) && spec_close_relay_of(m)),
{
}

/// An open command is carried out from idle when the battery suffices and the
/// barrier is not open yet: the status turns to opening, the open relay is
/// energised and the lamp shows green.
pub proof fn law_open_starts(s: DeviceState, min: u8, t: Timing, now: u64, sn: Sensors)
    requires
        s.pending_command == Command::Open,
        s.battery_pct >= min,
        !sn.open_active,
        t.pulse_ms > 0,
    ensures
        ({
            let next = spec_gate_next(Motion::Idle, s, min, t, now, sn);
            &&& next.0 == Motion::Moving {
                kind: Kind::Opening { retried: false, timeout_ms: t.motion_timeout_ms },
                stage: Stage::Pulse { started_ms: now, duration_ms: t.pulse_ms },
            }
            &&& next.1.status == ST_OPENING
            &&& next.1.pending_command == Command::NoCommand
            &&& spec_open_relay_of(next.0) && !spec_close_relay_of(next.0)
            &&& spec_lamp_of(next.0) == Lamp::Green
        }),
{
    reveal_with_fuel(spec_pulse_check, 2);
}

/// A close command is carried out from idle when the battery suffices, the
/// barrier is not closed yet and the beam is clear: the status turns to closing,
/// the close relay is energised and the lamp shows red.
pub proof fn law_close_starts(s: DeviceState, min: u8, t: Timing, now: u64, sn: Sensors)
    requires
        s.pending_command == Command::Close,
        s.battery_pct >= min,
        !sn.closed_active,
        !sn.obstacle_blocked,
        t.pulse_ms > 0,
    ensures
        ({
            let next = spec_gate_next(Motion::Idle, s, min, t, now, sn);
            &&& next.0 == Motion::Moving {
                kind: Kind::Closing,
                stage: Stage::Pulse { started_ms: now, duration_ms: t.pulse_ms },
            }
            &&& next.1.status == ST_CLOSING
            &&& spec_close_relay_of(next.0) && !spec_open_relay_of(next.0)
            &&& spec_lamp_of(next.0) == Lamp::Red
        }),
{
    reveal_with_fuel(spec_pulse_check, 2);
}

/// A command for the position the barrier is already in moves nothing.
pub proof fn law_command_at_target_is_noop(
    s: DeviceState,
    min: u8,
    t: Timing,
    now: u64,
    sn: Sensors,
)
    requires
        s.battery_pct >= min,
        (s.pending_command == Command::Open && sn.open_active) || (s.pending_command
            == Command::Close && sn.closed_active),
    ensures
        ({
            let next = spec_gate_next(Motion::Idle, s, min, t, now, sn);
            &&& next.0 == Motion::Idle
            &&& next.1.status == spec_sensor_status(sn.open_active, sn.closed_active)
            &&& next.1.pending_command == Command::NoCommand
            &&& next.2.status
        }),
{
}

/// Closing is refused while the beam is broken: nothing moves, the
/// obstruction is reported, and the status stays as it was (open, where the
/// open limit reports it).
pub proof fn law_close_refused_while_blocked(
    s: DeviceState,
    min: u8,
    t: Timing,
    now: u64,
    sn: Sensors,
)
    requires
        s.pending_command == Command::Close,
        s.battery_pct >= min,
        !sn.closed_active,
        sn.obstacle_blocked,
    ensures
        ({
            let next = spec_gate_next(Motion::Idle, s, min, t, now, sn);
            &&& next.0 == Motion::Idle
            &&& next.1.obstacle
            &&& next.1.pending_command == Command::NoCommand
            &&& next.2.obstacle && next.2.status
            &&& sn.open_active ==> next.1.status == ST_OPEN
            &&& !sn.open_active ==> next.1.status == s.status
        }),
{
}

/// Below the configured battery minimum a command moves nothing: it is
/// consumed, the battery fault is raised and published.
pub proof fn law_battery_lockout(s: DeviceState, min: u8, t: Timing, now: u64, sn: Sensors)
    requires
        s.pending_command != Command::NoCommand,
        s.battery_pct < min,
    ensures
        ({
            let next = spec_gate_next(Motion::Idle, s, min, t, now, sn);
            &&& next.0 == Motion::Idle
            &&& next.1.pending_command == Command::NoCommand
            &&& next.1.fault & FAULT_BATTERY != 0
            &&& next.2.fault
        }),
{
    let f = s.fault;
    assert((f | 1u8 | 2u8) & 1u8 != 0 && ((f | 1u8) & !2u8) & 1u8 != 0) by (bit_vector);
    assert(((f | 2u8) | 1u8 | 2u8) & 1u8 != 0 && (((f & !2u8) | 1u8) & !2u8) & 1u8 != 0)
        by (bit_vector);
}

/// A broken beam while closing reverses the barrier to open and reports the
/// obstruction.
pub proof fn law_obstacle_reverses(
    s: DeviceState,
    e: u64,
    timeout: u64,
    min: u8,
    t: Timing,
    now: u64,
    sn: Sensors,
)
    requires
        s.pending_command == Command::NoCommand,
        e.saturating_add(SENSOR_POLL_MS) < timeout,
        !sn.closed_active,
        sn.obstacle_blocked,
        t.pulse_ms > 0,
    ensures
        ({
            let m = Motion::Moving {
                kind: Kind::Closing,
                stage: Stage::Watch { elapsed_ms: e, timeout_ms: timeout },
            };
            let next = spec_gate_next(m, s, min, t, now, sn);
            &&& next.0 == Motion::Moving {
                kind: Kind::Reversing,
                stage: Stage::Pulse { started_ms: now, duration_ms: t.pulse_ms },
            }
            &&& next.1.obstacle
            &&& next.1.status == ST_OPENING
            &&& spec_open_relay_of(next.0) && !spec_close_relay_of(next.0)
        }),
{
    reveal_with_fuel(spec_watch_check, 2);
    reveal_with_fuel(spec_pulse_check, 2);
}

/// Closing that does not reach the closed limit in time reverses to open
/// (fail-open): the barrier is never left stopped while closing.
pub proof fn law_close_timeout_reverses(
    s: DeviceState,
    e: u64,
    timeout: u64,
    min: u8,
    t: Timing,
    now: u64,
    sn: Sensors,
)
    requires
        s.pending_command == Command::NoCommand,
        e.saturating_add(SENSOR_POLL_MS) >= timeout,
        t.pulse_ms > 0,
    ensures
        ({
            let m = Motion::Moving {
                kind: Kind::Closing,
                stage: Stage::Watch { elapsed_ms: e, timeout_ms: timeout },
            };
            let next = spec_gate_next(m, s, min, t, now, sn);
            &&& next.0 == Motion::Moving {
                kind: Kind::Reversing,
                stage: Stage::Pulse { started_ms: now, duration_ms: t.pulse_ms },
            }
            &&& next.1.status == ST_OPENING
        }),
{
    reveal_with_fuel(spec_pulse_check, 2);
}

/// Without a new command, a closing motion continues, reverses to open, or
/// ends only once the closed limit is reached.
pub proof fn law_closing_never_stops_midway(
    stage: Stage,
    s: DeviceState,
    min: u8,
    t: Timing,
    now: u64,
    sn: Sensors,
)
    requires
        s.pending_command == Command::NoCommand,
        t.pulse_ms > 0,
    ensures
        ({
            let next = spec_gate_next(Motion::Moving { kind: Kind::Closing, stage }, s, min, t, now, sn);
            ||| next.0 matches Motion::Moving { kind: Kind::Closing, .. }
            ||| next.0 matches Motion::Moving { kind: Kind::Reversing, .. }
            ||| (next.0 == Motion::Idle && sn.closed_active)
        }),
{
    reveal_with_fuel(spec_pulse_check, 3);
    reveal_with_fuel(spec_settle_check, 2);
    reveal_with_fuel(spec_watch_check, 2);
}

/// An open limit not reached in time repeats the open pulse once; after the
/// repeated pulse the opening ends with the status "open".
pub proof fn law_open_retries_once(
    s: DeviceState,
    t0: u64,
    e: u64,
    timeout: u64,
    min: u8,
    t: Timing,
    now: u64,
    sn: Sensors,
)
    requires
        s.pending_command == Command::NoCommand,
        e.saturating_add(SENSOR_POLL_MS) >= timeout,
        !sn.open_active,
        t.pulse_ms > 0,
    ensures
        ({
            let first = Motion::Moving {
                kind: Kind::Opening { retried: false, timeout_ms: t0 },
                stage: Stage::Watch { elapsed_ms: e, timeout_ms: timeout },
            };
            let second = Motion::Moving {
                kind: Kind::Opening { retried: true, timeout_ms: t0 },
                stage: Stage::Watch { elapsed_ms: e, timeout_ms: timeout },
            };
            &&& spec_gate_next(first, s, min, t, now, sn).0 == Motion::Moving {
                kind: Kind::Opening { retried: true, timeout_ms: t0 },
                stage: Stage::Pulse { started_ms: now, duration_ms: t.pulse_ms },
            }
            &&& spec_gate_next(second, s, min, t, now, sn).0 == Motion::Idle
            &&& !sn.closed_active ==> spec_gate_next(second, s, min, t, now, sn).1.status
                == ST_OPEN
        }),
{
    reveal_with_fuel(spec_pulse_check, 2);
}

/// A command that arrives during a relay pulse cuts the pulse and is
/// carried out at once (the last command wins).
pub proof fn law_command_interrupts_pulse(
    kind: Kind,
    started: u64,
    duration: u64,
    s: DeviceState,
    min: u8,
    t: Timing,
    now: u64,
    sn: Sensors,
)
    requires
        s.pending_command != Command::NoCommand,
    ensures
        ({
            let m = Motion::Moving {
                kind,
                stage: Stage::Pulse { started_ms: started, duration_ms: duration },
            };
            spec_gate_next(m, s, min, t, now, sn) == spec_settled(
                (
                    DeviceState { pending_command: Command::NoCommand, ..s },
                    Run::Done(s.pending_command),
                ),
                t,
                now,
                sn,
            )
        }),
{
}

/// Close followed by open: an open command during any stage of closing
/// aborts the closing and starts opening, provided neither limit is reached.
pub proof fn law_open_overrides_closing(
    stage: Stage,
    s: DeviceState,
    min: u8,
    t: Timing,
    now: u64,
    sn: Sensors,
)
    requires
        s.pending_command == Command::Open,
        !sn.open_active,
        !sn.closed_active,
        t.pulse_ms > 0,
    ensures
        ({
            let next = spec_gate_next(Motion::Moving { kind: Kind::Closing, stage }, s, min, t, now, sn);
            &&& next.0 == Motion::Moving {
                kind: Kind::Opening { retried: false, timeout_ms: t.motion_timeout_ms },
                stage: Stage::Pulse { started_ms: now, duration_ms: t.pulse_ms },
            }
            &&& next.1.pending_command == Command::NoCommand
            &&& next.1.status == ST_OPENING
        }),
{
    reveal_with_fuel(spec_pulse_check, 3);
    reveal_with_fuel(spec_settle_check, 2);
    reveal_with_fuel(spec_watch_check, 2);
}

/// Open followed by close: a close command during any stage of an opening
/// aborts the opening and starts closing, provided neither limit is reached
/// and the beam is clear. The one exception is the very end of the repeated
/// opening: when its watch runs out, the opening ends first and the close
/// command waits in the slot for the next poll.
pub proof fn law_close_overrides_opening(
    retried: bool,
    t0: u64,
    stage: Stage,
    s: DeviceState,
    min: u8,
    t: Timing,
    now: u64,
    sn: Sensors,
)
    requires
        s.pending_command == Command::Close,
        !sn.open_active,
        !sn.closed_active,
        !sn.obstacle_blocked,
        t.pulse_ms > 0,
        stage matches Stage::Watch { elapsed_ms, timeout_ms } ==> (!retried
            || elapsed_ms.saturating_add(SENSOR_POLL_MS) < timeout_ms),
    ensures
        ({
            let m = Motion::Moving { kind: Kind::Opening { retried, timeout_ms: t0 }, stage };
            let next = spec_gate_next(m, s, min, t, now, sn);
            &&& next.0 == Motion::Moving {
                kind: Kind::Closing,
                stage: Stage::Pulse { started_ms: now, duration_ms: t.pulse_ms },
            }
            &&& next.1.pending_command == Command::NoCommand
            &&& next.1.status == ST_CLOSING
            &&& spec_close_relay_of(next.0) && !spec_open_relay_of(next.0)
            &&& spec_lamp_of(next.0) == Lamp::Red
        }),
{
    reveal_with_fuel(spec_pulse_check, 3);
    reveal_with_fuel(spec_settle_check, 2);
    reveal_with_fuel(spec_watch_check, 2);
}

/// Reaching the closed limit ends closing and clears the obstruction.
pub proof fn law_close_completes(
    s: DeviceState,
    e: u64,
    timeout: u64,
    min: u8,
    t: Timing,
    now: u64,
    sn: Sensors,
)
    requires
        e.saturating_add(SENSOR_POLL_MS) < timeout,
        sn.closed_active,
    ensures
        ({
            let m = Motion::Moving {
                kind: Kind::Closing,
                stage: Stage::Watch { elapsed_ms: e, timeout_ms: timeout },
            };
            let next = spec_gate_next(m, s, min, t, now, sn);
            &&& next.0 == Motion::Idle
            &&& !next.1.obstacle
            &&& next.1.status == spec_sensor_status(sn.open_active, true)
            &&& next.1.battery_publish_requested
        }),
{
}

} // verus!

verus! {

/// A motion step that finishes without having taken a command.
pub open spec fn quiet(r: Run) -> bool {
    r != Run::Done(Command::Open) && r != Run::Done(Command::Close)
}

proof fn lemma_quiet_reverse(s: DeviceState, t: Timing, now: u64, sn: Sensors)
    requires
        s.pending_command == Command::NoCommand,
    ensures
        quiet(spec_reverse_to_open(s, t, now, sn).1),
    decreases 0int, 6int,
{
    lemma_quiet_pulse_enter(Kind::Reversing, DeviceState { status: ST_OPENING, ..s }, t, now, sn);
}

proof fn lemma_quiet_pulse_enter(kind: Kind, s: DeviceState, t: Timing, now: u64, sn: Sensors)
    requires
        s.pending_command == Command::NoCommand,
    ensures
        quiet(spec_pulse_enter(kind, s, t, now, sn).1),
    decreases kind_rank(kind), 5int,
{
    lemma_quiet_pulse_check(kind, now, t.pulse_ms, s, t, now, sn);
}

proof fn lemma_quiet_pulse_check(
    kind: Kind,
    started: u64,
    duration: u64,
    s: DeviceState,
    t: Timing,
    now: u64,
    sn: Sensors,
)
    requires
        s.pending_command == Command::NoCommand,
    ensures
        quiet(spec_pulse_check(kind, started, duration, s, t, now, sn).1),
    decreases kind_rank(kind), 4int,
{
    lemma_quiet_settle_check(kind, 0, t.grace_ms, s, t, now, sn);
}

proof fn lemma_quiet_settle_check(
    kind: Kind,
    elapsed: u64,
    duration: u64,
    s: DeviceState,
    t: Timing,
    now: u64,
    sn: Sensors,
)
    requires
        s.pending_command == Command::NoCommand,
    ensures
        quiet(spec_settle_check(kind, elapsed, duration, s, t, now, sn).1),
    decreases kind_rank(kind), 3int,
{
    lemma_quiet_watch_check(kind, 0, watch_timeout(kind, t), s, t, now, sn);
}

proof fn lemma_quiet_watch_check(
    kind: Kind,
    elapsed: u64,
    timeout: u64,
    s: DeviceState,
    t: Timing,
    now: u64,
    sn: Sensors,
)
    requires
        s.pending_command == Command::NoCommand,
    ensures
        quiet(spec_watch_check(kind, elapsed, timeout, s, t, now, sn).1),
    decreases kind_rank(kind), 1int,
{
    if kind == Kind::Closing {
        lemma_quiet_reverse(DeviceState { obstacle: true, ..s }, t, now, sn);
    }
}

/// With no command pending, carrying out a command either leaves a motion
/// under way or ends it; it never finishes on another command. So the chain
/// of commands within one poll is at most two long.
pub proof fn law_handle_without_pending_is_quiet(
    command: Command,
    s: DeviceState,
    t: Timing,
    now: u64,
    sn: Sensors,
)
    requires
        s.pending_command == Command::NoCommand,
    ensures
        quiet(spec_handle_command(command, s, t, now, sn).1),
{
    lemma_quiet_pulse_enter(
        Kind::Opening { retried: false, timeout_ms: t.motion_timeout_ms },
        DeviceState { status: ST_OPENING, ..s },
        t,
        now,
        sn,
    );
    lemma_quiet_pulse_enter(Kind::Closing, DeviceState { status: ST_CLOSING, ..s }, t, now, sn);
}

} // verus!

verus! {

/// The status a motion reports while under way: "closing" while closing,
/// "opening" while opening or reversing.
pub open spec fn motion_status(kind: Kind) -> u8 {
    match kind {
        Kind::Closing => ST_CLOSING,
        _ => ST_OPENING,
    }
}

/// The reported status agrees with the motion under way.
pub open spec fn status_matches(m: Motion, s: DeviceState) -> bool {
    match m {
        Motion::Idle => true,
        Motion::Moving { kind, .. } => s.status == motion_status(kind),
    }
}

pub open spec fn sleeps_consistently(r: (DeviceState, Run)) -> bool {
    match r.1 {
        Run::Sleep(m) => m != Motion::Idle && status_matches(m, r.0),
        Run::Done(_) => true,
    }
}

proof fn lemma_status_reverse(s: DeviceState, t: Timing, now: u64, sn: Sensors)
    ensures
        sleeps_consistently(spec_reverse_to_open(s, t, now, sn)),
    decreases 0int, 6int,
{
    lemma_status_pulse_enter(Kind::Reversing, DeviceState { status: ST_OPENING, ..s }, t, now, sn);
}

proof fn lemma_status_pulse_enter(kind: Kind, s: DeviceState, t: Timing, now: u64, sn: Sensors)
    requires
        s.status == motion_status(kind),
    ensures
        sleeps_consistently(spec_pulse_enter(kind, s, t, now, sn)),
    decreases kind_rank(kind), 5int,
{
    lemma_status_pulse_check(kind, now, t.pulse_ms, s, t, now, sn);
}

proof fn lemma_status_pulse_check(
    kind: Kind,
    started: u64,
    duration: u64,
    s: DeviceState,
    t: Timing,
    now: u64,
    sn: Sensors,
)
    requires
        s.status == motion_status(kind),
    ensures
        sleeps_consistently(spec_pulse_check(kind, started, duration, s, t, now, sn)),
    decreases kind_rank(kind), 4int,
{
    lemma_status_settle_check(kind, 0, t.grace_ms, s, t, now, sn);
}

proof fn lemma_status_settle_check(
    kind: Kind,
    elapsed: u64,
    duration: u64,
    s: DeviceState,
    t: Timing,
    now: u64,
    sn: Sensors,
)
    requires
        s.status == motion_status(kind),
    ensures
        sleeps_consistently(spec_settle_check(kind, elapsed, duration, s, t, now, sn)),
    decreases kind_rank(kind), 3int,
{
    lemma_status_watch_check(kind, 0, watch_timeout(kind, t), s, t, now, sn);
}

proof fn lemma_status_watch_check(
    kind: Kind,
    elapsed: u64,
    timeout: u64,
    s: DeviceState,
    t: Timing,
    now: u64,
    sn: Sensors,
)
    requires
        s.status == motion_status(kind),
    ensures
        sleeps_consistently(spec_watch_check(kind, elapsed, timeout, s, t, now, sn)),
    decreases kind_rank(kind), 1int,
{
    if kind == Kind::Closing {
        lemma_status_reverse(DeviceState { obstacle: true, ..s }, t, now, sn);
    }
}

proof fn lemma_status_handle(command: Command, s: DeviceState, t: Timing, now: u64, sn: Sensors)
    ensures
        sleeps_consistently(spec_handle_command(command, s, t, now, sn)),
{
    lemma_status_pulse_enter(
        Kind::Opening { retried: false, timeout_ms: t.motion_timeout_ms },
        DeviceState { status: ST_OPENING, ..s },
        t,
        now,
        sn,
    );
    lemma_status_pulse_enter(Kind::Closing, DeviceState { status: ST_CLOSING, ..s }, t, now, sn);
}

proof fn lemma_status_settled(r: (DeviceState, Run), t: Timing, now: u64, sn: Sensors)
    requires
        sleeps_consistently(r),
    ensures
        ({
            let next = spec_settled(r, t, now, sn);
            status_matches(next.0, next.1)
        }),
{
    if let Run::Done(c) = r.1 {
        if c != Command::NoCommand {
            lemma_status_handle(c, refreshed(r.0, sn), t, now, sn);
        }
    }
}

/// Every poll keeps the reported status in agreement with the motion under
/// way: "opening" while the barrier opens or reverses, "closing" while it closes.
pub proof fn law_status_follows_motion(
    m: Motion,
    s: DeviceState,
    min: u8,
    t: Timing,
    now: u64,
    sn: Sensors,
)
    requires
        status_matches(m, s),
    ensures
        ({
            let next = spec_gate_next(m, s, min, t, now, sn);
            status_matches(next.0, next.1)
        }),
{
    match m {
        Motion::Idle => {
            let s1 = refreshed(s, sn);
            let s2 = DeviceState { pending_command: Command::NoCommand, ..s1 };
            let s3 = DeviceState { fault: s2.fault & !FAULT_BATTERY, ..s2 };
            lemma_status_handle(s1.pending_command, s3, t, now, sn);
            lemma_status_settled(spec_handle_command(s1.pending_command, s3, t, now, sn), t, now, sn);
        },
        Motion::Moving { kind, stage } => {
            match stage {
                Stage::Pulse { started_ms, duration_ms } => {
                    lemma_status_pulse_check(kind, started_ms, duration_ms, s, t, now, sn);
                },
                Stage::Settle { elapsed_ms, duration_ms } => {
                    lemma_status_settle_check(
                        kind,
                        elapsed_ms.saturating_add(SENSOR_POLL_MS),
                        duration_ms,
                        s,
                        t,
                        now,
                        sn,
                    );
                },
                Stage::Watch { elapsed_ms, timeout_ms } => {
                    let e = elapsed_ms.saturating_add(SENSOR_POLL_MS);
                    lemma_status_watch_check(kind, e, timeout_ms, s, t, now, sn);
                    lemma_status_reverse(s, t, now, sn);
                    if let Kind::Opening { retried, timeout_ms: t0 } = kind {
                        lemma_status_pulse_enter(
                            Kind::Opening { retried: true, timeout_ms: t0 },
                            s,
                            t,
                            now,
                            sn,
                        );
                    }
                },
            }
            lemma_status_settled(after_handle(spec_resume(kind, stage, s, t, now, sn)), t, now, sn);
        },
    }
}

} // verus!

verus! {

/// The position of a motion in its sequence: stages only ever move to a lower
/// index (closing, then reversing; opening, then the single retry).
pub open spec fn phase_index(m: Motion) -> int {
    match m {
        Motion::Idle => -1,
        Motion::Moving { kind, stage } => {
            let base: int = match kind {
                Kind::Closing => 6,
                Kind::Opening { retried: false, .. } => 3,
                _ => 0,
            };
            let offset: int = match stage {
                Stage::Pulse { .. } => 2,
                Stage::Settle { .. } => 1,
                Stage::Watch { .. } => 0,
            };
            base + offset
        },
    }
}

/// The time left in the current stage, as seen at `now`.
pub open spec fn remaining(m: Motion, now: u64) -> int {
    match m {
        Motion::Idle => 0,
        Motion::Moving { stage, .. } => match stage {
            Stage::Pulse { started_ms, duration_ms } => duration_ms - now.saturating_sub(
                started_ms,
            ),
            Stage::Settle { elapsed_ms, duration_ms } => duration_ms - elapsed_ms,
            Stage::Watch { elapsed_ms, timeout_ms } => timeout_ms - elapsed_ms,
        },
    }
}

/// The motion after a poll is the end, a later stage, or the same stage with
/// less (and not negative) time left.
pub open spec fn advances(next: Motion, m: Motion, prev_ms: u64, now_ms: u64) -> bool {
    ||| next == Motion::Idle
    ||| phase_index(next) < phase_index(m)
    ||| (phase_index(next) == phase_index(m) && 0 <= remaining(next, now_ms) < remaining(m, prev_ms))
}

/// The motion that a motion step leaves behind when it took no command.
pub open spec fn motion_after(r: Run) -> Motion {
    match r {
        Run::Sleep(m) => m,
        Run::Done(_) => Motion::Idle,
    }
}

proof fn lemma_settled_quiet(r: (DeviceState, Run), t: Timing, now_ms: u64, sn: Sensors)
    requires
        quiet(r.1),
    ensures
        spec_settled(r, t, now_ms, sn).0 == motion_after(r.1),
{
}

proof fn lemma_poll_motion(kind: Kind, stage: Stage, s: DeviceState, min: u8, t: Timing, now_ms: u64, sn: Sensors)
    requires
        quiet(spec_resume(kind, stage, s, t, now_ms, sn).1),
    ensures
        spec_gate_next(Motion::Moving { kind, stage }, s, min, t, now_ms, sn).0 == motion_after(
            spec_resume(kind, stage, s, t, now_ms, sn).1,
        ),
{
    let r = spec_resume(kind, stage, s, t, now_ms, sn);
    assert(after_handle(r).1 == r.1);
    lemma_settled_quiet(after_handle(r), t, now_ms, sn);
}

/// A watch entered afresh sleeps in its own stage or ends.
proof fn lemma_watch_entry(kind: Kind, timeout: u64, s: DeviceState, t: Timing, now_ms: u64, sn: Sensors)
    requires
        s.pending_command == Command::NoCommand,
    ensures
        ({
            let r = spec_watch_check(kind, 0, timeout, s, t, now_ms, sn).1;
            motion_after(r) == Motion::Idle || phase_index(motion_after(r)) <= phase_index(
                Motion::Moving { kind, stage: Stage::Watch { elapsed_ms: 0, timeout_ms: timeout } },
            )
        }),
    decreases kind_rank(kind), 1int,
{
    if kind == Kind::Closing && !sn.closed_active && sn.obstacle_blocked {
        lemma_reverse_low(DeviceState { obstacle: true, ..s }, t, now_ms, sn);
    }
}

/// A reversal sleeps in one of its own stages or ends.
proof fn lemma_reverse_low(s: DeviceState, t: Timing, now_ms: u64, sn: Sensors)
    requires
        s.pending_command == Command::NoCommand,
    ensures
        ({
            let r = spec_reverse_to_open(s, t, now_ms, sn).1;
            motion_after(r) == Motion::Idle || phase_index(motion_after(r)) <= 2
        }),
    decreases 0int, 3int,
{
    let s1 = DeviceState { status: ST_OPENING, ..s };
    assert(spec_reverse_to_open(s, t, now_ms, sn) == spec_pulse_check(
        Kind::Reversing,
        now_ms,
        t.pulse_ms,
        s1,
        t,
        now_ms,
        sn,
    ));
    lemma_settle_entry(Kind::Reversing, s1, t, now_ms, sn);
}

/// A settle stage entered afresh sleeps in its own stage or later, or ends.
proof fn lemma_settle_entry(kind: Kind, s: DeviceState, t: Timing, now_ms: u64, sn: Sensors)
    requires
        s.pending_command == Command::NoCommand,
    ensures
        ({
            let r = spec_settle_check(kind, 0, t.grace_ms, s, t, now_ms, sn).1;
            let m = Motion::Moving {
                kind,
                stage: Stage::Settle { elapsed_ms: 0, duration_ms: t.grace_ms },
            };
            motion_after(r) == Motion::Idle || phase_index(motion_after(r)) <= phase_index(m)
        }),
    decreases kind_rank(kind), 2int,
{
    if 0 >= t.grace_ms {
        lemma_watch_entry(kind, watch_timeout(kind, t), s, t, now_ms, sn);
    }
}

#[verifier::spinoff_prover]
proof fn lemma_progress_pulse(
    kind: Kind,
    started_ms: u64,
    duration_ms: u64,
    s: DeviceState,
    min: u8,
    t: Timing,
    prev_ms: u64,
    now_ms: u64,
    sn: Sensors,
)
    requires
        s.pending_command == Command::NoCommand,
        started_ms <= prev_ms < now_ms,
    ensures
        ({
            let m = Motion::Moving { kind, stage: Stage::Pulse { started_ms, duration_ms } };
            advances(spec_gate_next(m, s, min, t, now_ms, sn).0, m, prev_ms, now_ms)
        }),
{
    let stage = Stage::Pulse { started_ms, duration_ms };
    lemma_quiet_pulse_check(kind, started_ms, duration_ms, s, t, now_ms, sn);
    lemma_poll_motion(kind, stage, s, min, t, now_ms, sn);
    if now_ms.saturating_sub(started_ms) >= duration_ms {
        lemma_settle_entry(kind, s, t, now_ms, sn);
    }
}

#[verifier::spinoff_prover]
proof fn lemma_progress_settle(
    kind: Kind,
    elapsed_ms: u64,
    duration_ms: u64,
    s: DeviceState,
    min: u8,
    t: Timing,
    prev_ms: u64,
    now_ms: u64,
    sn: Sensors,
)
    requires
        s.pending_command == Command::NoCommand,
    ensures
        ({
            let m = Motion::Moving { kind, stage: Stage::Settle { elapsed_ms, duration_ms } };
            advances(spec_gate_next(m, s, min, t, now_ms, sn).0, m, prev_ms, now_ms)
        }),
{
    let stage = Stage::Settle { elapsed_ms, duration_ms };
    let e = elapsed_ms.saturating_add(SENSOR_POLL_MS);
    lemma_quiet_settle_check(kind, e, duration_ms, s, t, now_ms, sn);
    lemma_poll_motion(kind, stage, s, min, t, now_ms, sn);
    if e >= duration_ms {
        lemma_watch_entry(kind, watch_timeout(kind, t), s, t, now_ms, sn);
    }
}

#[verifier::spinoff_prover]
proof fn lemma_progress_watch(
    kind: Kind,
    elapsed_ms: u64,
    timeout_ms: u64,
    s: DeviceState,
    min: u8,
    t: Timing,
    prev_ms: u64,
    now_ms: u64,
    sn: Sensors,
)
    requires
        s.pending_command == Command::NoCommand,
    ensures
        ({
            let m = Motion::Moving { kind, stage: Stage::Watch { elapsed_ms, timeout_ms } };
            advances(spec_gate_next(m, s, min, t, now_ms, sn).0, m, prev_ms, now_ms)
        }),
{
    let stage = Stage::Watch { elapsed_ms, timeout_ms };
    let e = elapsed_ms.saturating_add(SENSOR_POLL_MS);
    lemma_quiet_watch_check(kind, e, timeout_ms, s, t, now_ms, sn);
    match kind {
        Kind::Opening { retried, timeout_ms: t0 } => {
            let again = Kind::Opening { retried: true, timeout_ms: t0 };
            lemma_quiet_pulse_enter(again, s, t, now_ms, sn);
            lemma_poll_motion(kind, stage, s, min, t, now_ms, sn);
            if e >= timeout_ms && !sn.open_active && !retried {
                assert(spec_pulse_enter(again, s, t, now_ms, sn) == spec_pulse_check(
                    again,
                    now_ms,
                    t.pulse_ms,
                    s,
                    t,
                    now_ms,
                    sn,
                ));
                if now_ms.saturating_sub(now_ms) >= t.pulse_ms {
                    lemma_settle_entry(again, s, t, now_ms, sn);
                }
            }
        },
        Kind::Closing => {
            lemma_quiet_reverse(s, t, now_ms, sn);
            lemma_quiet_reverse(DeviceState { obstacle: true, ..s }, t, now_ms, sn);
            lemma_poll_motion(kind, stage, s, min, t, now_ms, sn);
            lemma_reverse_low(s, t, now_ms, sn);
            lemma_reverse_low(DeviceState { obstacle: true, ..s }, t, now_ms, sn);
        },
        Kind::Reversing => {
            lemma_poll_motion(kind, stage, s, min, t, now_ms, sn);
        },
    }
}

/// Without commands, and with the clock advancing between polls, every poll
/// either ends the motion or brings it strictly closer to its end: it moves to
/// a later stage, or stays in its stage with less time left. So no motion runs
/// for ever.
pub proof fn law_motion_progresses(
    kind: Kind,
    stage: Stage,
    s: DeviceState,
    min: u8,
    t: Timing,
    prev_ms: u64,
    now_ms: u64,
    sn: Sensors,
)
    requires
        s.pending_command == Command::NoCommand,
        prev_ms < now_ms,
        stage matches Stage::Pulse { started_ms, .. } ==> started_ms <= prev_ms,
    ensures
        ({
            let m = Motion::Moving { kind, stage };
            let next = spec_gate_next(m, s, min, t, now_ms, sn).0;
            ||| next == Motion::Idle
            ||| phase_index(next) < phase_index(m)
            ||| (phase_index(next) == phase_index(m) && 0 <= remaining(next, now_ms) < remaining(
                m,
                prev_ms,
            ))
        }),
{
    match stage {
        Stage::Pulse { started_ms, duration_ms } => {
            lemma_progress_pulse(kind, started_ms, duration_ms, s, min, t, prev_ms, now_ms, sn);
        },
        Stage::Settle { elapsed_ms, duration_ms } => {
            lemma_progress_settle(kind, elapsed_ms, duration_ms, s, min, t, prev_ms, now_ms, sn);
        },
        Stage::Watch { elapsed_ms, timeout_ms } => {
            lemma_progress_watch(kind, elapsed_ms, timeout_ms, s, min, t, prev_ms, now_ms, sn);
        },
    }
}

/// A sensor fault seen while idle goes out at once: with both limit switches
/// reporting, the status turns to error, the sensor fault is raised, and both
/// are published unless both were already so.
pub proof fn law_idle_sensor_fault_published(s: DeviceState, min: u8, t: Timing, now: u64, sn: Sensors)
    requires
        s.pending_command == Command::NoCommand,
        sn.open_active,
        sn.closed_active,
        s.status != ST_ERROR || s.fault & FAULT_SENSOR == 0,
    ensures
        ({
            let next = spec_gate_next(Motion::Idle, s, min, t, now, sn);
            &&& next.0 == Motion::Idle
            &&& next.1.status == ST_ERROR
            &&& next.1.fault & FAULT_SENSOR != 0
            &&& next.2.status && next.2.fault
        }),
{
    let f = s.fault;
    assert((f | 2u8) & 2u8 != 0 && (f & 2u8 == 0 ==> (f | 2u8) != f)) by (bit_vector);
}

} // verus!
