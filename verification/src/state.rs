//! The state that the barrier, telemetry, MQTT and HTTP sides share: the pending
//! command (a single slot, the last command wins), the reported status, the
//! obstacle and fault flags, the last battery level and the link state.
use vstd::prelude::*;
use crate::pure::{sensor_status, spec_sensor_status, status_name, status_str, Command, ST_STOPPED};

verus! {

/// Fault bit: the battery is below the configured minimum.
pub const FAULT_BATTERY: u8 = 1;

/// Fault bit: both limit switches report their position at once.
pub const FAULT_SENSOR: u8 = 2;

pub struct DeviceState {
    pub status: u8,
    pub obstacle: bool,
    pub fault: u8,
    pub battery_pct: u8,
    pub mqtt_connected: bool,
    pub pending_command: Command,
    pub battery_publish_requested: bool,
}

impl DeviceState {
    /// The state at boot: stopped, no obstacle, no fault, the battery taken as
    /// full until the first measurement, no link and nothing pending.
    pub fn new() -> (s: DeviceState)
        ensures
            s.status == ST_STOPPED,
            !s.obstacle,
            s.fault == 0,
            s.battery_pct == 100,
            !s.mqtt_connected,
            s.pending_command == Command::NoCommand,
            !s.battery_publish_requested,
    {
        DeviceState {
            status: ST_STOPPED,
            obstacle: false,
            fault: 0,
            battery_pct: 100,
            mqtt_connected: false,
            pending_command: Command::NoCommand,
            battery_publish_requested: false,
        }
    }

    /// Queues a command, replacing any command that was still pending.
    pub fn submit_command(&mut self, command: Command)
        ensures
            *final(self) == (DeviceState { pending_command: command, ..*old(self) }),
    {
        self.pending_command = command;
    }

    /// Hands out the pending command and empties the slot.
    pub fn take_command(&mut self) -> (command: Command)
        ensures
            command == old(self).pending_command,
            *final(self) == (DeviceState { pending_command: Command::NoCommand, ..*old(self) }),
    {
        let command = self.pending_command;
        self.pending_command = Command::NoCommand;
        command
    }

    pub fn set_status_code(&mut self, code: u8)
        ensures
            *final(self) == (DeviceState { status: code, ..*old(self) }),
    {
        self.status = code;
    }

    /// The name of the current status.
    pub fn status(&self) -> (name: &'static str)
        ensures
            name@ == status_name(self.status),
    {
        status_str(self.status)
    }

    pub fn set_obstacle(&mut self, blocked: bool)
        ensures
            *final(self) == (DeviceState { obstacle: blocked, ..*old(self) }),
    {
        self.obstacle = blocked;
    }

    pub fn obstacle(&self) -> (blocked: bool)
        ensures
            blocked == self.obstacle,
    {
        self.obstacle
    }

    /// Raises the given fault bits.
    pub fn set_fault(&mut self, bits: u8)
        ensures
            *final(self) == (DeviceState { fault: old(self).fault | bits, ..*old(self) }),
    {
        self.fault = self.fault | bits;
    }

    /// Clears the given fault bits, keeping the others.
    pub fn clear_fault(&mut self, bits: u8)
        ensures
            *final(self) == (DeviceState { fault: old(self).fault & !bits, ..*old(self) }),
    {
        self.fault = self.fault & !bits;
    }

    pub fn fault(&self) -> (bits: u8)
        ensures
            bits == self.fault,
    {
        self.fault
    }

    pub fn set_battery_pct(&mut self, pct: u8)
        ensures
            *final(self) == (DeviceState { battery_pct: pct, ..*old(self) }),
    {
        self.battery_pct = pct;
    }

    pub fn battery_pct(&self) -> (pct: u8)
        ensures
            pct == self.battery_pct,
    {
        self.battery_pct
    }

    pub fn set_mqtt_connected(&mut self, connected: bool)
        ensures
            *final(self) == (DeviceState { mqtt_connected: connected, ..*old(self) }),
    {
        self.mqtt_connected = connected;
    }

    pub fn mqtt_connected(&self) -> (connected: bool)
        ensures
            connected == self.mqtt_connected,
    {
        self.mqtt_connected
    }

    /// Asks the telemetry side for a fresh battery report.
    pub fn request_battery_publish(&mut self)
        ensures
            *final(self) == (DeviceState { battery_publish_requested: true, ..*old(self) }),
    {
        self.battery_publish_requested = true;
    }

    /// Whether a battery report was asked for; the request is consumed.
    pub fn take_battery_publish_request(&mut self) -> (requested: bool)
        ensures
            requested == old(self).battery_publish_requested,
            *final(self) == (DeviceState { battery_publish_requested: false, ..*old(self) }),
    {
        let requested = self.battery_publish_requested;
        self.battery_publish_requested = false;
        requested
    }

    /// Sets the status from the limit switches wherever they report a
    /// position (both at once is an error); between the limits the last
    /// reported status stands. Raises the sensor fault exactly while both
    /// switches report.
    pub fn refresh_status(&mut self, open_active: bool, closed_active: bool)
        ensures
            *final(self) == (DeviceState {
                status: if open_active || closed_active {
                    spec_sensor_status(open_active, closed_active)
                } else {
                    old(self).status
                },
                fault: if open_active && closed_active {
                    old(self).fault | FAULT_SENSOR
                } else {
                    old(self).fault & !FAULT_SENSOR
                },
                ..*old(self)
            }),
    {
        if open_active || closed_active {
            self.status = sensor_status(open_active, closed_active);
        }
        if open_active && closed_active {
            self.set_fault(FAULT_SENSOR);
        } else {
            self.clear_fault(FAULT_SENSOR);
        }
    }
}

} // verus!

verus! {

/// The command slot holds one command: of two submitted before a take, the
/// later one is taken, and a second take finds the slot empty.
pub proof fn law_last_command_wins(s: DeviceState, first: Command, second: Command)
    ensures
        ({
            let after = DeviceState {
                pending_command: second,
                ..DeviceState { pending_command: first, ..s }
            };
            let taken = DeviceState { pending_command: Command::NoCommand, ..after };
            &&& after.pending_command == second
            &&& taken.pending_command == Command::NoCommand
        }),
{
}

/// Raising a fault bit makes the fault state non-zero; clearing it removes
/// that bit and keeps the others.
pub proof fn law_fault_bits(fault: u8, bit: u8, other: u8)
    requires
        bit == FAULT_BATTERY || bit == FAULT_SENSOR,
        other == FAULT_BATTERY || other == FAULT_SENSOR,
        bit != other,
    ensures
        (fault | bit) != 0,
        (fault | bit) & bit != 0,
        (fault & !bit) & bit == 0,
        (fault & !bit) & other == fault & other,
{
    assert((fault | 1u8) != 0 && (fault | 1u8) & 1u8 != 0 && (fault & !1u8) & 1u8 == 0 && (fault
        & !1u8) & 2u8 == fault & 2u8) by (bit_vector);
    assert((fault | 2u8) != 0 && (fault | 2u8) & 2u8 != 0 && (fault & !2u8) & 2u8 == 0 && (fault
        & !2u8) & 1u8 == fault & 1u8) by (bit_vector);
}

} // verus!
