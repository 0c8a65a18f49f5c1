//! The barrier's motion sequences as a state machine. The caller wakes it every
//! `SENSOR_POLL_MS` with the time and the sensor readings, drives the relays
//! and the lamp as the result says, publishes what it asks for, and sleeps
//! until the next poll.
//!
//! Opening: a no-op when already open; otherwise pulse the open relay, let the
//! mechanics settle, then watch the open limit until the motion timeout, and
//! retry the pulse once if it was not reached; the opening then ends with the
//! status "open". Closing: a no-op when already closed; refused while the beam
//! is broken (the status stays as it was); otherwise pulse the close relay,
//! settle, and watch the closed limit and the beam: a broken beam or a timeout
//! reverses the barrier to open, so it is always left open or closed. A command
//! that arrives during a motion aborts it and is carried out next.
use vstd::prelude::*;
use crate::config_storage::ConfigStorage;
use crate::pure::{
    Command, ST_CLOSED, ST_CLOSING, ST_OPEN, ST_OPENING, spec_sensor_status,
};
use crate::state::{DeviceState, FAULT_BATTERY, FAULT_SENSOR};

verus! {

/// The period at which sensors and commands are polled.
pub const SENSOR_POLL_MS: u64 = 100;

/// The readings taken at one poll.
#[derive(Clone, Copy, Debug, PartialEq, Eq, Structural)]
pub struct Sensors {
    /// The open limit switch reports the barrier fully open.
    pub open_active: bool,
    /// The closed limit switch reports the barrier fully closed.
    pub closed_active: bool,
    /// The obstacle beam is broken.
    pub obstacle_blocked: bool,
}

/// The durations a motion uses, taken from the configuration.
#[derive(Clone, Copy, Debug, PartialEq, Eq, Structural)]
pub struct Timing {
    pub pulse_ms: u64,
    pub grace_ms: u64,
    pub motion_timeout_ms: u64,
}

/// Where a motion stands between two polls.
#[derive(Clone, Copy, Debug, PartialEq, Eq, Structural)]
pub enum Stage {
    /// The relay is energised since `started_ms`, for `duration_ms`.
    Pulse { started_ms: u64, duration_ms: u64 },
    /// Waiting for the mechanics to settle.
    Settle { elapsed_ms: u64, duration_ms: u64 },
    /// Watching the limit switch (and, when closing, the beam).
    Watch { elapsed_ms: u64, timeout_ms: u64 },
}

/// Which motion is under way.
#[derive(Clone, Copy, Debug, PartialEq, Eq, Structural)]
pub enum Kind {
    /// Opening on command; `retried` once the pulse has been repeated. The
    /// timeout is the one read when the motion started.
    Opening { retried: bool, timeout_ms: u64 },
    Closing,
    /// Opening again after closing was interrupted by the beam or timed out.
    Reversing,
}

#[derive(Clone, Copy, Debug, PartialEq, Eq, Structural)]
pub enum Motion {
    Idle,
    Moving { kind: Kind, stage: Stage },
}

/// How a motion step ended: asleep until the next poll, or finished with the
/// command that interrupted it (`NoCommand` when it ran to its end).
#[derive(Clone, Copy, Debug, PartialEq, Eq, Structural)]
pub enum Run {
    Sleep(Motion),
    Done(Command),
}

/// The two colours of the lamp; never both at once.
#[derive(Clone, Copy, Debug, PartialEq, Eq, Structural)]
pub enum Lamp {
    Off,
    Green,
    Red,
}

/// What the caller does after a poll.
#[derive(Clone, Copy, Debug, PartialEq, Eq, Structural)]
pub struct GateOutputs {
    pub open_relay: bool,
    pub close_relay: bool,
    pub lamp: Lamp,
    pub publish_status: bool,
    pub publish_obstacle: bool,
    pub publish_fault: bool,
}

pub fn pulse_ms(storage: &ConfigStorage) -> (ms: u64)
    ensures
        ms == storage.current.gate_pulse_ms,
{
    storage.current.gate_pulse_ms as u64
}

pub fn grace_ms(storage: &ConfigStorage) -> (ms: u64)
    ensures
        ms == storage.current.grace_ms,
{
    storage.current.grace_ms as u64
}

pub fn motion_timeout_ms(storage: &ConfigStorage) -> (ms: u64)
    ensures
        ms == storage.current.motion_timeout_s * 1000,
{
    storage.current.motion_timeout_s as u64 * 1000
}

pub open spec fn spec_timing(storage: &ConfigStorage) -> Timing {
    Timing {
        pulse_ms: storage.current.gate_pulse_ms as u64,
        grace_ms: storage.current.grace_ms as u64,
        motion_timeout_ms: (storage.current.motion_timeout_s * 1000) as u64,
    }
}

pub fn timing(storage: &ConfigStorage) -> (t: Timing)
    ensures
        t == spec_timing(storage),
{
    Timing {
        pulse_ms: pulse_ms(storage),
        grace_ms: grace_ms(storage),
        motion_timeout_ms: motion_timeout_ms(storage),
    }
}

// ----- the lamp and the relays follow the motion -----

/// Green while opening, red while closing, off otherwise.
pub open spec fn spec_lamp_of(m: Motion) -> Lamp {
    match m {
        Motion::Idle => Lamp::Off,
        Motion::Moving { kind, .. } => match kind {
            Kind::Closing => Lamp::Red,
            _ => Lamp::Green,
        },
    }
}

/// The open relay is energised only during the pulse of an opening motion.
pub open spec fn spec_open_relay_of(m: Motion) -> bool {
    match m {
        Motion::Moving { kind, stage: Stage::Pulse { .. } } => kind != Kind::Closing,
        _ => false,
    }
}

/// The close relay is energised only during the pulse of a closing motion.
pub open spec fn spec_close_relay_of(m: Motion) -> bool {
    match m {
        Motion::Moving { kind: Kind::Closing, stage: Stage::Pulse { .. } } => true,
        _ => false,
    }
}

/// The levels of the two lamp outputs (green, red) for a requested colour.
pub fn set_lamp(green: bool, red: bool) -> (levels: (bool, bool))
    ensures
        levels == if green {
            (true, false)
        } else if red {
            (false, true)
        } else {
            (false, false)
        },
{
    if green {
        (true, false)
    } else if red {
        (false, true)
    } else {
        (false, false)
    }
}

// ----- one motion, between two polls -----

pub open spec fn interrupted(s: DeviceState) -> (DeviceState, Run) {
    (DeviceState { pending_command: Command::NoCommand, ..s }, Run::Done(s.pending_command))
}

/// An opening (or reversal) ends with the status "open": after its pulses it
/// is taken to be fully open.
pub open spec fn open_finished(s: DeviceState, sn: Sensors) -> (DeviceState, Run) {
    (DeviceState { status: ST_OPEN, ..s }, Run::Done(Command::NoCommand))
}

pub open spec fn kind_rank(kind: Kind) -> int {
    match kind {
        Kind::Closing => 1,
        _ => 0,
    }
}

pub open spec fn watch_timeout(kind: Kind, t: Timing) -> u64 {
    match kind {
        Kind::Opening { timeout_ms, .. } => timeout_ms,
        _ => t.motion_timeout_ms,
    }
}

pub open spec fn spec_reverse_to_open(s: DeviceState, t: Timing, now: u64, sn: Sensors) -> (
    DeviceState,
    Run,
)
    decreases 0int, 6int,
{
    spec_pulse_enter(Kind::Reversing, DeviceState { status: ST_OPENING, ..s }, t, now, sn)
}

pub open spec fn spec_pulse_enter(kind: Kind, s: DeviceState, t: Timing, now: u64, sn: Sensors) -> (
    DeviceState,
    Run,
)
    decreases kind_rank(kind), 5int,
{
    spec_pulse_check(kind, now, t.pulse_ms, s, t, now, sn)
}

pub open spec fn spec_pulse_check(
    kind: Kind,
    started: u64,
    duration: u64,
    s: DeviceState,
    t: Timing,
    now: u64,
    sn: Sensors,
) -> (DeviceState, Run)
    decreases kind_rank(kind), 4int,
{
    if s.pending_command != Command::NoCommand {
        interrupted(s)
    } else if now.saturating_sub(started) >= duration {
        spec_settle_check(kind, 0, t.grace_ms, s, t, now, sn)
    } else {
        (
            s,
            Run::Sleep(
                Motion::Moving {
                    kind,
                    stage: Stage::Pulse { started_ms: started, duration_ms: duration },
                },
            ),
        )
    }
}

pub open spec fn spec_settle_check(
    kind: Kind,
    elapsed: u64,
    duration: u64,
    s: DeviceState,
    t: Timing,
    now: u64,
    sn: Sensors,
) -> (DeviceState, Run)
    decreases kind_rank(kind), 3int,
{
    if elapsed < duration {
        if s.pending_command != Command::NoCommand {
            interrupted(s)
        } else {
            (
                s,
                Run::Sleep(
                    Motion::Moving {
                        kind,
                        stage: Stage::Settle { elapsed_ms: elapsed, duration_ms: duration },
                    },
                ),
            )
        }
    } else {
        spec_watch_check(kind, 0, watch_timeout(kind, t), s, t, now, sn)
    }
}

pub open spec fn spec_watch_check(
    kind: Kind,
    elapsed: u64,
    timeout: u64,
    s: DeviceState,
    t: Timing,
    now: u64,
    sn: Sensors,
) -> (DeviceState, Run)
    decreases kind_rank(kind), 1int,
{
    let asleep = (
        s,
        Run::Sleep(
            Motion::Moving { kind, stage: Stage::Watch { elapsed_ms: elapsed, timeout_ms: timeout } },
        ),
    );
    match kind {
        Kind::Opening { .. } => {
            if sn.open_active {
                open_finished(s, sn)
            } else if s.pending_command != Command::NoCommand {
                interrupted(s)
            } else {
                asleep
            }
        },
        Kind::Closing => {
            if sn.closed_active {
                (
                    DeviceState { obstacle: false, status: ST_CLOSED, ..s },
                    Run::Done(Command::NoCommand),
                )
            } else if sn.obstacle_blocked {
                spec_reverse_to_open(DeviceState { obstacle: true, ..s }, t, now, sn)
            } else if s.pending_command != Command::NoCommand {
                interrupted(s)
            } else {
                asleep
            }
        },
        Kind::Reversing => {
            if elapsed >= timeout || sn.open_active {
                open_finished(s, sn)
            } else if s.pending_command != Command::NoCommand {
                interrupted(s)
            } else {
                asleep
            }
        },
    }
}

/// Continues a motion after a poll period.
pub open spec fn spec_resume(kind: Kind, stage: Stage, s: DeviceState, t: Timing, now: u64, sn: Sensors) -> (
    DeviceState,
    Run,
) {
    match stage {
        Stage::Pulse { started_ms, duration_ms } => spec_pulse_check(
            kind,
            started_ms,
            duration_ms,
            s,
            t,
            now,
            sn,
        ),
        Stage::Settle { elapsed_ms, duration_ms } => spec_settle_check(
            kind,
            elapsed_ms.saturating_add(SENSOR_POLL_MS),
            duration_ms,
            s,
            t,
            now,
            sn,
        ),
        Stage::Watch { elapsed_ms, timeout_ms } => {
            let e = elapsed_ms.saturating_add(SENSOR_POLL_MS);
            match kind {
                Kind::Opening { retried, timeout_ms: t0 } => {
                    if e >= timeout_ms {
                        if sn.open_active || retried {
                            open_finished(s, sn)
                        } else {
                            spec_pulse_enter(
                                Kind::Opening { retried: true, timeout_ms: t0 },
                                s,
                                t,
                                now,
                                sn,
                            )
                        }
                    } else {
                        spec_watch_check(kind, e, timeout_ms, s, t, now, sn)
                    }
                },
                Kind::Closing => {
                    if e >= timeout_ms {
                        spec_reverse_to_open(s, t, now, sn)
                    } else {
                        spec_watch_check(kind, e, timeout_ms, s, t, now, sn)
                    }
                },
                Kind::Reversing => spec_watch_check(kind, e, timeout_ms, s, t, now, sn),
            }
        },
    }
}

pub open spec fn spec_open_gate(s: DeviceState, t: Timing, now: u64, sn: Sensors) -> (DeviceState, Run) {
    if sn.open_active {
        (DeviceState { status: ST_OPEN, ..s }, Run::Done(Command::NoCommand))
    } else {
        spec_pulse_enter(
            Kind::Opening { retried: false, timeout_ms: t.motion_timeout_ms },
            DeviceState { status: ST_OPENING, ..s },
            t,
            now,
            sn,
        )
    }
}

pub open spec fn spec_close_gate(s: DeviceState, t: Timing, now: u64, sn: Sensors) -> (DeviceState, Run) {
    if sn.closed_active {
        (DeviceState { status: ST_CLOSED, ..s }, Run::Done(Command::NoCommand))
    } else if sn.obstacle_blocked {
        (DeviceState { obstacle: true, ..s }, Run::Done(Command::NoCommand))
    } else {
        spec_pulse_enter(Kind::Closing, DeviceState { status: ST_CLOSING, ..s }, t, now, sn)
    }
}

/// A motion that ran to its end asks the telemetry side for a battery report.
pub open spec fn after_handle(r: (DeviceState, Run)) -> (DeviceState, Run) {
    if r.1 == Run::Done(Command::NoCommand) {
        (DeviceState { battery_publish_requested: true, ..r.0 }, r.1)
    } else {
        r
    }
}

pub open spec fn spec_handle_command(command: Command, s: DeviceState, t: Timing, now: u64, sn: Sensors) -> (
    DeviceState,
    Run,
) {
    after_handle(
        match command {
            Command::Open => spec_open_gate(s, t, now, sn),
            Command::Close => spec_close_gate(s, t, now, sn),
            Command::NoCommand => (s, Run::Done(Command::NoCommand)),
        },
    )
}

/// How one poll of an interruptible wait ends.
#[derive(Clone, Copy, Debug, PartialEq, Eq, Structural)]
pub enum WaitOutcome {
    /// The wait is over.
    Finished,
    /// A command arrived; it has been taken from the slot.
    Interrupted(Command),
    /// Neither: wait another poll.
    Waiting,
}

/// One poll of a pulse: the pending command, if any, is taken first and ends
/// the pulse; otherwise the pulse is over once `duration` has passed since
/// `started`.
pub open spec fn spec_pulse_interruptible(started: u64, duration: u64, now: u64, s: DeviceState) -> (
    DeviceState,
    WaitOutcome,
) {
    if s.pending_command != Command::NoCommand {
        (DeviceState { pending_command: Command::NoCommand, ..s }, WaitOutcome::Interrupted(s.pending_command))
    } else if now.saturating_sub(started) >= duration {
        (s, WaitOutcome::Finished)
    } else {
        (s, WaitOutcome::Waiting)
    }
}

pub fn pulse_interruptible(started: u64, duration: u64, now: u64, s: &mut DeviceState) -> (r:
    WaitOutcome)
    ensures
        (*final(s), r) == spec_pulse_interruptible(started, duration, now, *old(s)),
{
    let c = s.take_command();
    if c != Command::NoCommand {
        WaitOutcome::Interrupted(c)
    } else if now.saturating_sub(started) >= duration {
        WaitOutcome::Finished
    } else {
        WaitOutcome::Waiting
    }
}

/// One poll of a wait of `duration` of which `elapsed` has passed: once it is
/// over nothing is read; before that the pending command, if any, is taken and
/// ends the wait.
pub open spec fn spec_wait_interruptible(elapsed: u64, duration: u64, s: DeviceState) -> (
    DeviceState,
    WaitOutcome,
) {
    if elapsed >= duration {
        (s, WaitOutcome::Finished)
    } else if s.pending_command != Command::NoCommand {
        (DeviceState { pending_command: Command::NoCommand, ..s }, WaitOutcome::Interrupted(s.pending_command))
    } else {
        (s, WaitOutcome::Waiting)
    }
}

pub fn wait_interruptible(elapsed: u64, duration: u64, s: &mut DeviceState) -> (r: WaitOutcome)
    ensures
        (*final(s), r) == spec_wait_interruptible(elapsed, duration, *old(s)),
{
    if elapsed >= duration {
        return WaitOutcome::Finished;
    }
    let c = s.take_command();
    if c != Command::NoCommand {
        WaitOutcome::Interrupted(c)
    } else {
        WaitOutcome::Waiting
    }
}

fn interrupt(s: &mut DeviceState) -> (r: Run)
    ensures
        (*final(s), r) == interrupted(*old(s)),
{
    let c = s.take_command();
    Run::Done(c)
}

fn finish_open(s: &mut DeviceState, sn: Sensors) -> (r: Run)
    ensures
        (*final(s), r) == open_finished(*old(s), sn),
{
    s.set_status_code(ST_OPEN);
    Run::Done(Command::NoCommand)
}

pub fn reverse_to_open(s: &mut DeviceState, t: Timing, now: u64, sn: Sensors) -> (r: Run)
    ensures
        (*final(s), r) == spec_reverse_to_open(*old(s), t, now, sn),
    decreases 0int, 6int,
{
    s.set_status_code(ST_OPENING);
    pulse_enter(Kind::Reversing, s, t, now, sn)
}

fn pulse_enter(kind: Kind, s: &mut DeviceState, t: Timing, now: u64, sn: Sensors) -> (r: Run)
    ensures
        (*final(s), r) == spec_pulse_enter(kind, *old(s), t, now, sn),
    decreases kind_rank(kind), 5int,
{
    pulse_step(kind, now, t.pulse_ms, s, t, now, sn)
}

fn pulse_step(
    kind: Kind,
    started: u64,
    duration: u64,
    s: &mut DeviceState,
    t: Timing,
    now: u64,
    sn: Sensors,
) -> (r: Run)
    ensures
        (*final(s), r) == spec_pulse_check(kind, started, duration, *old(s), t, now, sn),
    decreases kind_rank(kind), 4int,
{
    match pulse_interruptible(started, duration, now, s) {
        WaitOutcome::Interrupted(c) => Run::Done(c),
        WaitOutcome::Finished => settle_step(kind, 0, t.grace_ms, s, t, now, sn),
        WaitOutcome::Waiting => Run::Sleep(
            Motion::Moving { kind, stage: Stage::Pulse { started_ms: started, duration_ms: duration } },
        ),
    }
}

fn settle_step(
    kind: Kind,
    elapsed: u64,
    duration: u64,
    s: &mut DeviceState,
    t: Timing,
    now: u64,
    sn: Sensors,
) -> (r: Run)
    ensures
        (*final(s), r) == spec_settle_check(kind, elapsed, duration, *old(s), t, now, sn),
    decreases kind_rank(kind), 3int,
{
    match wait_interruptible(elapsed, duration, s) {
        WaitOutcome::Interrupted(c) => Run::Done(c),
        WaitOutcome::Waiting => Run::Sleep(
            Motion::Moving { kind, stage: Stage::Settle { elapsed_ms: elapsed, duration_ms: duration } },
        ),
        WaitOutcome::Finished => {
        let timeout = match kind {
            Kind::Opening { timeout_ms, .. } => timeout_ms,
            _ => t.motion_timeout_ms,
        };
        watch_check(kind, 0, timeout, s, t, now, sn)
        },
    }
}

fn watch_check(
    kind: Kind,
    elapsed: u64,
    timeout: u64,
    s: &mut DeviceState,
    t: Timing,
    now: u64,
    sn: Sensors,
) -> (r: Run)
    ensures
        (*final(s), r) == spec_watch_check(kind, elapsed, timeout, *old(s), t, now, sn),
    decreases kind_rank(kind), 1int,
{
    let asleep = Run::Sleep(
        Motion::Moving { kind, stage: Stage::Watch { elapsed_ms: elapsed, timeout_ms: timeout } },
    );
    match kind {
        Kind::Opening { .. } => {
            if sn.open_active {
                finish_open(s, sn)
            } else if s.pending_command != Command::NoCommand {
                interrupt(s)
            } else {
                asleep
            }
        },
        Kind::Closing => {
            if sn.closed_active {
                s.set_obstacle(false);
                s.set_status_code(ST_CLOSED);
                Run::Done(Command::NoCommand)
            } else if sn.obstacle_blocked {
                s.set_obstacle(true);
                reverse_to_open(s, t, now, sn)
            } else if s.pending_command != Command::NoCommand {
                interrupt(s)
            } else {
                asleep
            }
        },
        Kind::Reversing => {
            if elapsed >= timeout || sn.open_active {
                finish_open(s, sn)
            } else if s.pending_command != Command::NoCommand {
                interrupt(s)
            } else {
                asleep
            }
        },
    }
}

fn resume(kind: Kind, stage: Stage, s: &mut DeviceState, t: Timing, now: u64, sn: Sensors) -> (r: Run)
    ensures
        (*final(s), r) == spec_resume(kind, stage, *old(s), t, now, sn),
{
    match stage {
        Stage::Pulse { started_ms, duration_ms } => pulse_step(
            kind,
            started_ms,
            duration_ms,
            s,
            t,
            now,
            sn,
        ),
        Stage::Settle { elapsed_ms, duration_ms } => settle_step(
            kind,
            elapsed_ms.saturating_add(SENSOR_POLL_MS),
            duration_ms,
            s,
            t,
            now,
            sn,
        ),
        Stage::Watch { elapsed_ms, timeout_ms } => {
            let e = elapsed_ms.saturating_add(SENSOR_POLL_MS);
            match kind {
                Kind::Opening { retried, timeout_ms: t0 } => {
                    if e >= timeout_ms {
                        if sn.open_active || retried {
                            finish_open(s, sn)
                        } else {
                            pulse_enter(
                                Kind::Opening { retried: true, timeout_ms: t0 },
                                s,
                                t,
                                now,
                                sn,
                            )
                        }
                    } else {
                        watch_check(kind, e, timeout_ms, s, t, now, sn)
                    }
                },
                Kind::Closing => {
                    if e >= timeout_ms {
                        reverse_to_open(s, t, now, sn)
                    } else {
                        watch_check(kind, e, timeout_ms, s, t, now, sn)
                    }
                },
                Kind::Reversing => watch_check(kind, e, timeout_ms, s, t, now, sn),
            }
        },
    }
}

pub fn open_gate(s: &mut DeviceState, t: Timing, now: u64, sn: Sensors) -> (r: Run)
    ensures
        (*final(s), r) == spec_open_gate(*old(s), t, now, sn),
{
    if sn.open_active {
        s.set_status_code(ST_OPEN);
        return Run::Done(Command::NoCommand);
    }
    s.set_status_code(ST_OPENING);
    pulse_enter(Kind::Opening { retried: false, timeout_ms: t.motion_timeout_ms }, s, t, now, sn)
}

pub fn close_gate(s: &mut DeviceState, t: Timing, now: u64, sn: Sensors) -> (r: Run)
    ensures
        (*final(s), r) == spec_close_gate(*old(s), t, now, sn),
{
    if sn.closed_active {
        s.set_status_code(ST_CLOSED);
        return Run::Done(Command::NoCommand);
    }
    if sn.obstacle_blocked {
        s.set_obstacle(true);
        return Run::Done(Command::NoCommand);
    }
    s.set_status_code(ST_CLOSING);
    pulse_enter(Kind::Closing, s, t, now, sn)
}

fn note_finished(s: &mut DeviceState, r: Run)
    ensures
        *final(s) == after_handle((*old(s), r)).0,
{
    if r == Run::Done(Command::NoCommand) {
        s.request_battery_publish();
    }
}

/// Starts carrying out a command.
pub fn handle_command(command: Command, s: &mut DeviceState, t: Timing, now: u64, sn: Sensors) -> (r: Run)
    ensures
        (*final(s), r) == spec_handle_command(command, *old(s), t, now, sn),
{
    let r = match command {
        Command::Open => open_gate(s, t, now, sn),
        Command::Close => close_gate(s, t, now, sn),
        Command::NoCommand => Run::Done(Command::NoCommand),
    };
    note_finished(s, r);
    r
}

/// Continues the motion under way after a poll period.
pub fn continue_command(kind: Kind, stage: Stage, s: &mut DeviceState, t: Timing, now: u64, sn: Sensors) -> (r:
    Run)
    ensures
        (*final(s), r) == after_handle(spec_resume(kind, stage, *old(s), t, now, sn)),
{
    let r = resume(kind, stage, s, t, now, sn);
    note_finished(s, r);
    r
}

// ----- the barrier task -----

pub open spec fn refreshed(s: DeviceState, sn: Sensors) -> DeviceState {
    DeviceState {
        status: if sn.open_active || sn.closed_active {
            spec_sensor_status(sn.open_active, sn.closed_active)
        } else {
            s.status
        },
        fault: if sn.open_active && sn.closed_active {
            s.fault | FAULT_SENSOR
        } else {
            s.fault & !FAULT_SENSOR
        },
        ..s
    }
}

/// What the barrier task reports after a poll.
pub struct Published {
    pub status: bool,
    pub obstacle: bool,
    pub fault: bool,
}

/// The end of a motion step: asleep, or finished. A finished motion refreshes
/// the status from the sensors and publishes the obstacle state; one that ran
/// to its end also publishes the status and the fault state, while the
/// command that interrupted one is started at once.
pub open spec fn spec_settled(r: (DeviceState, Run), t: Timing, now: u64, sn: Sensors) -> (
    Motion,
    DeviceState,
    Published,
) {
    match r.1 {
        Run::Sleep(m) => (m, r.0, Published { status: false, obstacle: false, fault: false }),
        Run::Done(c) => {
            let s1 = refreshed(r.0, sn);
            if c == Command::NoCommand {
                (Motion::Idle, s1, Published { status: true, obstacle: true, fault: true })
            } else {
                let r2 = spec_handle_command(c, s1, t, now, sn);
                match r2.1 {
                    Run::Sleep(m) => (m, r2.0, Published { status: false, obstacle: true, fault: false }),
                    Run::Done(_) => (
                        Motion::Idle,
                        refreshed(r2.0, sn),
                        Published { status: true, obstacle: true, fault: true },
                    ),
                }
            }
        },
    }
}

/// One poll of the barrier task. When idle: refresh the status from the
/// sensors, publishing status and fault state where that changed either (so a
/// sensor fault goes out as soon as it is seen), and take the pending command;
/// a command is refused (battery fault raised and published) while the battery
/// is below the configured minimum, and otherwise clears that fault and starts.
/// When moving: continue the motion.
pub open spec fn spec_gate_next(
    m: Motion,
    s: DeviceState,
    battery_min_pct: u8,
    t: Timing,
    now: u64,
    sn: Sensors,
) -> (Motion, DeviceState, Published) {
    match m {
        Motion::Idle => {
            let s1 = refreshed(s, sn);
            let command = s1.pending_command;
            let s2 = DeviceState { pending_command: Command::NoCommand, ..s1 };
            let changed = s1.status != s.status || s1.fault != s.fault;
            if command == Command::NoCommand {
                (Motion::Idle, s2, Published { status: changed, obstacle: false, fault: changed })
            } else if s2.battery_pct < battery_min_pct {
                (
                    Motion::Idle,
                    refreshed(DeviceState { fault: s2.fault | FAULT_BATTERY, ..s2 }, sn),
                    Published { status: changed, obstacle: false, fault: true },
                )
            } else {
                spec_settled(
                    spec_handle_command(
                        command,
                        DeviceState { fault: s2.fault & !FAULT_BATTERY, ..s2 },
                        t,
                        now,
                        sn,
                    ),
                    t,
                    now,
                    sn,
                )
            }
        },
        Motion::Moving { kind, stage } => spec_settled(
            after_handle(spec_resume(kind, stage, s, t, now, sn)),
            t,
            now,
            sn,
        ),
    }
}

pub open spec fn outputs_of(m: Motion, p: Published) -> GateOutputs {
    GateOutputs {
        open_relay: spec_open_relay_of(m),
        close_relay: spec_close_relay_of(m),
        lamp: spec_lamp_of(m),
        publish_status: p.status,
        publish_obstacle: p.obstacle,
        publish_fault: p.fault,
    }
}

fn settle(r: Run, s: &mut DeviceState, t: Timing, now: u64, sn: Sensors) -> (res: (Motion, Published))
    ensures
        (res.0, *final(s), res.1) == spec_settled((*old(s), r), t, now, sn),
{
    match r {
        Run::Sleep(m) => (m, Published { status: false, obstacle: false, fault: false }),
        Run::Done(c) => {
            s.refresh_status(sn.open_active, sn.closed_active);
            if c == Command::NoCommand {
                (Motion::Idle, Published { status: true, obstacle: true, fault: true })
            } else {
                let r2 = handle_command(c, s, t, now, sn);
                match r2 {
                    Run::Sleep(m) => (m, Published { status: false, obstacle: true, fault: false }),
                    Run::Done(_) => {
                        s.refresh_status(sn.open_active, sn.closed_active);
                        (Motion::Idle, Published { status: true, obstacle: true, fault: true })
                    },
                }
            }
        },
    }
}

fn lamp_of(m: Motion) -> (lamp: Lamp)
    ensures
        lamp == spec_lamp_of(m),
{
    match m {
        Motion::Idle => Lamp::Off,
        Motion::Moving { kind, .. } => match kind {
            Kind::Closing => Lamp::Red,
            _ => Lamp::Green,
        },
    }
}

fn relays_of(m: Motion) -> (relays: (bool, bool))
    ensures
        relays == (spec_open_relay_of(m), spec_close_relay_of(m)),
{
    match m {
        Motion::Moving { kind, stage: Stage::Pulse { .. } } => match kind {
            Kind::Closing => (false, true),
            _ => (true, false),
        },
        _ => (false, false),
    }
}

/// One poll of the barrier task; see `spec_gate_next`. The relays and the lamp
/// follow the motion that results.
pub fn gate_task_step(
    motion: &mut Motion,
    s: &mut DeviceState,
    storage: &ConfigStorage,
    now_ms: u64,
    sensors: Sensors,
) -> (out: GateOutputs)
    ensures
        ({
            let next = spec_gate_next(
                *old(motion),
                *old(s),
                storage.current.battery_min_pct,
                spec_timing(storage),
                now_ms,
                sensors,
            );
            &&& *final(motion) == next.0
            &&& *final(s) == next.1
            &&& out == outputs_of(next.0, next.2)
        }),
{
    let t = timing(storage);
    let (m, p) = match *motion {
        Motion::Idle => {
            let status_before = s.status;
            let fault_before = s.fault();
            s.refresh_status(sensors.open_active, sensors.closed_active);
            let changed = s.status != status_before || s.fault() != fault_before;
            let command = s.take_command();
            if command == Command::NoCommand {
                (Motion::Idle, Published { status: changed, obstacle: false, fault: changed })
            } else if s.battery_pct() < storage.current.battery_min_pct {
                s.set_fault(FAULT_BATTERY);
                s.refresh_status(sensors.open_active, sensors.closed_active);
                (Motion::Idle, Published { status: changed, obstacle: false, fault: true })
            } else {
                s.clear_fault(FAULT_BATTERY);
                let r = handle_command(command, s, t, now_ms, sensors);
                settle(r, s, t, now_ms, sensors)
            }
        },
        Motion::Moving { kind, stage } => {
            let r = continue_command(kind, stage, s, t, now_ms, sensors);
            settle(r, s, t, now_ms, sensors)
        },
    };
    *motion = m;
    let (open_relay, close_relay) = relays_of(m);
    GateOutputs {
        open_relay,
        close_relay,
        lamp: lamp_of(m),
        publish_status: p.status,
        publish_obstacle: p.obstacle,
        publish_fault: p.fault,
    }
}


/// Ends the motion under way when an output could not be driven, as a motion
/// that finished: idle, the status refreshed from the sensors, and the
/// obstacle, status and fault messages published.
pub fn abandon_motion(motion: &mut Motion, s: &mut DeviceState, sensors: Sensors) -> (out:
    GateOutputs)
    ensures
        *final(motion) == Motion::Idle,
        *final(s) == refreshed(*old(s), sensors),
        out == outputs_of(Motion::Idle, Published { status: true, obstacle: true, fault: true }),
{
    *motion = Motion::Idle;
    s.refresh_status(sensors.open_active, sensors.closed_active);
    GateOutputs {
        open_relay: false,
        close_relay: false,
        lamp: Lamp::Off,
        publish_status: true,
        publish_obstacle: true,
        publish_fault: true,
    }
}

} // verus!
