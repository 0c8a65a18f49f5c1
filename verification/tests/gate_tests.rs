use gate_opener::config_storage::{
    compile_time_defaults, init, set_battery_min_pct, ConfigStorage, PersistOutcome,
};
use gate_opener::gate::{
    abandon_motion, gate_task_step, pulse_interruptible, wait_interruptible, WaitOutcome, handle_command, motion_timeout_ms, pulse_ms, set_lamp, timing, GateOutputs,
    Kind, Lamp, Motion, Run, Sensors, Stage, SENSOR_POLL_MS,
};
use gate_opener::pure::{Command, ST_CLOSED, ST_CLOSING, ST_ERROR, ST_OPEN, ST_OPENING, ST_STOPPED};
use gate_opener::state::{DeviceState, FAULT_BATTERY, FAULT_SENSOR};

fn storage() -> ConfigStorage {
    // pulse 1000 ms, grace 300 ms, motion timeout 45 s
    init(compile_time_defaults(None, None, None, None, None), None)
}

fn sensors(open_active: bool, closed_active: bool, obstacle_blocked: bool) -> Sensors {
    Sensors { open_active, closed_active, obstacle_blocked }
}

struct Rig {
    motion: Motion,
    state: DeviceState,
    config: ConfigStorage,
    now: u64,
}

impl Rig {
    fn new() -> Rig {
        Rig { motion: Motion::Idle, state: DeviceState::new(), config: storage(), now: 0 }
    }

    fn poll(&mut self, s: Sensors) -> GateOutputs {
        let out = gate_task_step(&mut self.motion, &mut self.state, &self.config, self.now, s);
        self.now += SENSOR_POLL_MS;
        out
    }

    fn poll_until_idle(&mut self, s: Sensors, limit: usize) -> usize {
        for i in 0..limit {
            self.poll(s);
            if self.motion == Motion::Idle {
                return i + 1;
            }
        }
        panic!("motion did not end");
    }
}

#[test]
fn timing_comes_from_the_configuration() {
    let c = storage();
    assert_eq!(pulse_ms(&c), 1000);
    assert_eq!(motion_timeout_ms(&c), 45_000);
    let t = timing(&c);
    assert_eq!(t.grace_ms, 300);
}

#[test]
fn lamp_levels() {
    assert_eq!(set_lamp(true, false), (true, false));
    assert_eq!(set_lamp(false, true), (false, true));
    assert_eq!(set_lamp(true, true), (true, false));
    assert_eq!(set_lamp(false, false), (false, false));
}

#[test]
fn idle_without_command_refreshes_status() {
    let mut rig = Rig::new();
    let out = rig.poll(sensors(false, true, false));
    assert_eq!(rig.motion, Motion::Idle);
    assert_eq!(rig.state.status, ST_CLOSED);
    assert!(!out.open_relay && !out.close_relay);
    assert_eq!(out.lamp, Lamp::Off);
}

#[test]
fn open_sequence_reaches_open() {
    let mut rig = Rig::new();
    rig.state.submit_command(Command::Open);
    let out = rig.poll(sensors(false, true, false));
    assert!(out.open_relay && !out.close_relay);
    assert_eq!(out.lamp, Lamp::Green);
    assert_eq!(rig.state.status, ST_OPENING);
    // the pulse lasts 1000 ms, then 300 ms of settling, then watching
    let mut polls = 1;
    while rig.motion
        != (Motion::Moving {
            kind: Kind::Opening { retried: false, timeout_ms: 45_000 },
            stage: Stage::Watch { elapsed_ms: 0, timeout_ms: 45_000 },
        })
    {
        let out = rig.poll(sensors(false, false, false));
        polls += 1;
        assert!(polls < 100);
        if let Motion::Moving { stage: Stage::Pulse { .. }, .. } = rig.motion {
            assert!(out.open_relay);
        } else {
            assert!(!out.open_relay);
        }
    }
    let out = rig.poll(sensors(true, false, false));
    assert_eq!(rig.motion, Motion::Idle);
    assert_eq!(rig.state.status, ST_OPEN);
    assert!(out.publish_status && out.publish_fault && out.publish_obstacle);
    assert_eq!(out.lamp, Lamp::Off);
    assert!(rig.state.battery_publish_requested);
}

#[test]
fn open_when_already_open_is_a_no_op() {
    let mut rig = Rig::new();
    rig.state.submit_command(Command::Open);
    let out = rig.poll(sensors(true, false, false));
    assert_eq!(rig.motion, Motion::Idle);
    assert_eq!(rig.state.status, ST_OPEN);
    assert!(!out.open_relay);
    assert!(out.publish_status);
}

#[test]
fn close_is_refused_while_beam_is_broken() {
    let mut rig = Rig::new();
    rig.state.submit_command(Command::Close);
    let out = rig.poll(sensors(true, false, true));
    assert_eq!(rig.motion, Motion::Idle);
    assert!(rig.state.obstacle);
    assert!(!out.close_relay);
    // the status is refreshed from the sensors: the barrier stays open
    assert_eq!(rig.state.status, ST_OPEN);
}

#[test]
fn refused_close_leaves_status_between_limits() {
    let mut rig = Rig::new();
    rig.state.set_status_code(ST_OPEN);
    rig.state.submit_command(Command::Close);
    rig.poll(sensors(false, false, true));
    assert_eq!(rig.motion, Motion::Idle);
    assert!(rig.state.obstacle);
    assert_eq!(rig.state.status, ST_OPEN);
    let mut rig = Rig::new();
    rig.state.submit_command(Command::Close);
    rig.poll(sensors(false, false, true));
    assert_eq!(rig.state.status, ST_STOPPED);
}

#[test]
fn failed_output_ends_the_motion() {
    let mut rig = Rig::new();
    rig.state.submit_command(Command::Close);
    rig.poll(sensors(true, false, false));
    let out = abandon_motion(&mut rig.motion, &mut rig.state, sensors(false, false, false));
    assert_eq!(rig.motion, Motion::Idle);
    assert!(!out.open_relay && !out.close_relay);
    assert_eq!(out.lamp, Lamp::Off);
    assert!(out.publish_status && out.publish_obstacle && out.publish_fault);
    assert_eq!(rig.state.status, ST_CLOSING);
    abandon_motion(&mut rig.motion, &mut rig.state, sensors(false, true, false));
    assert_eq!(rig.state.status, ST_CLOSED);
}

#[test]
fn close_sequence_reaches_closed_and_clears_obstacle() {
    let mut rig = Rig::new();
    rig.state.set_obstacle(true);
    rig.state.submit_command(Command::Close);
    let out = rig.poll(sensors(true, false, false));
    assert!(out.close_relay && !out.open_relay);
    assert_eq!(out.lamp, Lamp::Red);
    assert_eq!(rig.state.status, ST_CLOSING);
    for _ in 0..20 {
        rig.poll(sensors(false, false, false));
    }
    let out = rig.poll(sensors(false, true, false));
    assert_eq!(rig.motion, Motion::Idle);
    assert_eq!(rig.state.status, ST_CLOSED);
    assert!(!rig.state.obstacle);
    assert!(!out.close_relay);
}

#[test]
fn obstacle_while_closing_reverses_to_open() {
    let mut rig = Rig::new();
    rig.state.submit_command(Command::Close);
    rig.poll(sensors(true, false, false));
    for _ in 0..20 {
        rig.poll(sensors(false, false, false));
    }
    let out = rig.poll(sensors(false, false, true));
    assert!(rig.state.obstacle);
    assert_eq!(rig.state.status, ST_OPENING);
    assert!(out.open_relay && !out.close_relay);
    assert!(matches!(rig.motion, Motion::Moving { kind: Kind::Reversing, .. }));
    rig.poll_until_idle(sensors(true, false, false), 100);
    assert_eq!(rig.state.status, ST_OPEN);
}

#[test]
fn close_timeout_reverses_to_open() {
    let mut rig = Rig::new();
    rig.state.submit_command(Command::Close);
    rig.poll(sensors(true, false, false));
    let mut saw_reverse = false;
    for _ in 0..600 {
        rig.poll(sensors(false, false, false));
        if matches!(rig.motion, Motion::Moving { kind: Kind::Reversing, .. }) {
            saw_reverse = true;
            break;
        }
    }
    assert!(saw_reverse);
    assert_eq!(rig.state.status, ST_OPENING);
}

#[test]
fn open_is_retried_once_then_stops() {
    let mut rig = Rig::new();
    rig.state.submit_command(Command::Open);
    rig.poll(sensors(false, true, false));
    let mut pulses = 0;
    let mut was_pulsing = true;
    for _ in 0..2000 {
        let out = rig.poll(sensors(false, false, false));
        if out.open_relay && !was_pulsing {
            pulses += 1;
        }
        was_pulsing = out.open_relay;
        if rig.motion == Motion::Idle {
            break;
        }
    }
    assert_eq!(rig.motion, Motion::Idle);
    assert_eq!(pulses, 1);
    // after the repeated pulse the opening ends reporting "open"
    assert_eq!(rig.state.status, ST_OPEN);
}

#[test]
fn open_command_aborts_closing() {
    let mut rig = Rig::new();
    rig.state.submit_command(Command::Close);
    rig.poll(sensors(true, false, false));
    rig.poll(sensors(false, false, false));
    rig.state.submit_command(Command::Open);
    let out = rig.poll(sensors(false, false, false));
    assert!(out.open_relay && !out.close_relay);
    assert_eq!(rig.state.status, ST_OPENING);
    assert_eq!(rig.state.pending_command, Command::NoCommand);
    assert!(matches!(
        rig.motion,
        Motion::Moving { kind: Kind::Opening { retried: false, .. }, stage: Stage::Pulse { .. } }
    ));
}

#[test]
fn low_battery_refuses_motion() {
    let mut rig = Rig::new();
    set_battery_min_pct(&mut rig.config, 50, PersistOutcome::Written);
    rig.state.set_battery_pct(30);
    rig.state.submit_command(Command::Open);
    let out = rig.poll(sensors(false, true, false));
    assert_eq!(rig.motion, Motion::Idle);
    assert!(!out.open_relay);
    assert!(out.publish_fault);
    assert_ne!(rig.state.fault & FAULT_BATTERY, 0);
    assert_eq!(rig.state.pending_command, Command::NoCommand);
    // enough battery again: the fault clears with the next command
    rig.state.set_battery_pct(80);
    rig.state.submit_command(Command::Open);
    rig.poll(sensors(false, true, false));
    assert_eq!(rig.state.fault & FAULT_BATTERY, 0);
}

#[test]
fn handle_command_directly() {
    let mut state = DeviceState::new();
    let t = timing(&storage());
    let r = handle_command(Command::Close, &mut state, t, 0, sensors(false, true, false));
    assert_eq!(r, Run::Done(Command::NoCommand));
    assert_eq!(state.status, ST_CLOSED);
    assert!(state.battery_publish_requested);
    let r = handle_command(Command::NoCommand, &mut state, t, 0, sensors(false, false, false));
    assert_eq!(r, Run::Done(Command::NoCommand));
}

#[test]
fn zero_wait_does_not_read_the_command_slot() {
    let mut s = DeviceState::new();
    s.submit_command(Command::Open);
    assert_eq!(wait_interruptible(0, 0, &mut s), WaitOutcome::Finished);
    assert_eq!(s.pending_command, Command::Open);
    assert_eq!(wait_interruptible(100, 300, &mut s), WaitOutcome::Interrupted(Command::Open));
    assert_eq!(s.pending_command, Command::NoCommand);
    assert_eq!(wait_interruptible(100, 300, &mut s), WaitOutcome::Waiting);
    assert_eq!(wait_interruptible(300, 300, &mut s), WaitOutcome::Finished);
}

#[test]
fn pulse_takes_the_command_before_checking_time() {
    let mut s = DeviceState::new();
    s.submit_command(Command::Close);
    assert_eq!(pulse_interruptible(0, 0, 10, &mut s), WaitOutcome::Interrupted(Command::Close));
    assert_eq!(pulse_interruptible(0, 1000, 500, &mut s), WaitOutcome::Waiting);
    assert_eq!(pulse_interruptible(0, 1000, 1000, &mut s), WaitOutcome::Finished);
}

#[test]
fn idle_sensor_fault_is_published_at_once() {
    let mut rig = Rig::new();
    let out = rig.poll(sensors(false, false, false));
    assert!(!out.publish_fault && !out.publish_status);
    let out = rig.poll(sensors(true, true, false));
    assert_eq!(rig.state.status, ST_ERROR);
    assert_ne!(rig.state.fault & FAULT_SENSOR, 0);
    assert!(out.publish_fault && out.publish_status);
    let out = rig.poll(sensors(true, true, false));
    assert!(!out.publish_fault && !out.publish_status);
    let out = rig.poll(sensors(true, false, false));
    assert_eq!(rig.state.status, ST_OPEN);
    assert!(out.publish_fault && out.publish_status);
}
