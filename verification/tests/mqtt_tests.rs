use gate_opener::homeassistant::{
    connect_announcement, non_empty, on_mqtt_event, publish_discovery, publish_fault, publish_obstacle, publish_online,
    publish_status, DiscoveryTopics, MqttEvent,
};
use gate_opener::pure::{Command, ST_CLOSING};
use gate_opener::state::{DeviceState, FAULT_BATTERY};

#[test]
fn optional_settings() {
    assert_eq!(non_empty(""), None);
    assert_eq!(non_empty("user"), Some("user"));
}

#[test]
fn state_messages() {
    let mut s = DeviceState::new();
    s.set_status_code(ST_CLOSING);
    let p = publish_status(&s, "gate/status");
    assert_eq!(p.topic, "gate/status");
    assert_eq!(p.payload, "closing");
    assert!(p.retain);
    assert_eq!(publish_obstacle(&s, "gate/obstacle").payload, "off");
    s.set_obstacle(true);
    assert_eq!(publish_obstacle(&s, "gate/obstacle").payload, "on");
    assert_eq!(publish_fault(&s, "gate/fault").payload, "off");
    s.set_fault(FAULT_BATTERY);
    assert_eq!(publish_fault(&s, "gate/fault").payload, "on");
    assert_eq!(publish_online("gate/availability").payload, "online");
}

#[test]
fn discovery_messages() {
    let topics = DiscoveryTopics {
        command: "gate/command",
        status: "gate/status",
        availability: "gate/availability",
        battery: "gate/battery",
        battery_voltage: "gate/battery_voltage",
        obstacle: "gate/obstacle",
        fault: "gate/fault",
    };
    let msgs = publish_discovery("esp32_gate_opener", &topics);
    assert_eq!(msgs.len(), 5);
    assert_eq!(msgs[0].topic, "homeassistant/cover/esp32_gate_opener/config");
    assert_eq!(
        msgs[0].payload,
        "{\"name\":\"Gate\",\"unique_id\":\"esp32_gate_opener_cover\",\"device\":{\"identifiers\":[\"esp32_gate_opener\"],\"name\":\"Gate\",\"manufacturer\":\"ESP32\",\"model\":\"Gate Opener\"},\"command_topic\":\"gate/command\",\"state_topic\":\"gate/status\",\"availability_topic\":\"gate/availability\",\"payload_open\":\"open\",\"payload_close\":\"close\",\"device_class\":\"gate\"}"
    );
    assert_eq!(msgs[1].topic, "homeassistant/sensor/esp32_gate_opener/battery/config");
    assert!(msgs[1].payload.contains("\"state_topic\":\"gate/battery\""));
    assert_eq!(msgs[2].topic, "homeassistant/sensor/esp32_gate_opener/voltage/config");
    assert!(msgs[2].payload.contains("\"unit_of_measurement\":\"V\""));
    assert_eq!(msgs[3].topic, "homeassistant/binary_sensor/esp32_gate_opener/obstruction/config");
    assert!(msgs[3].payload.contains("\"device_class\":\"safety\""));
    assert_eq!(msgs[4].topic, "homeassistant/binary_sensor/esp32_gate_opener/fault/config");
    assert!(msgs[4].payload.contains("\"device_class\":\"problem\""));
    assert!(msgs.iter().all(|m| m.retain));
}

#[test]
fn broker_events() {
    let mut s = DeviceState::new();
    assert!(on_mqtt_event(&mut s, MqttEvent::Connected, "gate/command"));
    assert!(s.mqtt_connected());
    let ev = MqttEvent::Received { topic: Some("gate/command"), data: b"open" };
    assert!(!on_mqtt_event(&mut s, ev, "gate/command"));
    assert_eq!(s.take_command(), Command::Open);
    let ev = MqttEvent::Received { topic: Some("gate/command"), data: b"close" };
    on_mqtt_event(&mut s, ev, "gate/command");
    assert_eq!(s.take_command(), Command::Close);
    let ev = MqttEvent::Received { topic: Some("other/topic"), data: b"open" };
    on_mqtt_event(&mut s, ev, "gate/command");
    assert_eq!(s.take_command(), Command::NoCommand);
    let ev = MqttEvent::Received { topic: Some("gate/command"), data: b"OPEN" };
    on_mqtt_event(&mut s, ev, "gate/command");
    assert_eq!(s.take_command(), Command::NoCommand);
    let ev = MqttEvent::Received { topic: None, data: b"open" };
    on_mqtt_event(&mut s, ev, "gate/command");
    assert_eq!(s.take_command(), Command::NoCommand);
    assert!(!on_mqtt_event(&mut s, MqttEvent::Disconnected, "gate/command"));
    assert!(!s.mqtt_connected());
    assert!(!on_mqtt_event(&mut s, MqttEvent::Other, "gate/command"));
}

#[test]
fn connect_announces_state_and_discovery_then_subscribes() {
    let topics = DiscoveryTopics {
        command: "gate/command",
        status: "gate/status",
        availability: "gate/availability",
        battery: "gate/battery",
        battery_voltage: "gate/battery_voltage",
        obstacle: "gate/obstacle",
        fault: "gate/fault",
    };
    let mut s = DeviceState::new();
    s.set_status_code(ST_CLOSING);
    let a = connect_announcement(&s, "esp32_gate_opener", &topics);
    let pairs: Vec<(&str, &str)> =
        a.publications.iter().map(|p| (p.topic.as_str(), p.payload.as_str())).collect();
    assert_eq!(pairs.len(), 9);
    assert_eq!(pairs[0], ("gate/availability", "online"));
    assert_eq!(pairs[1], ("gate/status", "closing"));
    assert_eq!(pairs[2], ("gate/obstacle", "off"));
    assert_eq!(pairs[3], ("gate/fault", "off"));
    assert_eq!(pairs[4].0, "homeassistant/cover/esp32_gate_opener/config");
    assert_eq!(pairs[8].0, "homeassistant/binary_sensor/esp32_gate_opener/fault/config");
    assert!(a.publications.iter().all(|p| p.retain));
    assert!(pairs.iter().all(|(topic, _)| !topic.starts_with("gate/battery")));
    assert_eq!(a.subscribe_topic, "gate/command");
    assert_eq!(a.subscribe_qos, 0);
}
