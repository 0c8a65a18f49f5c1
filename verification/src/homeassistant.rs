//! The MQTT side as Home Assistant sees it: the retained state messages, the
//! discovery configurations, and what an incoming message asks for.
use vstd::prelude::*;
use vstd::string::StringSliceAdditionalSpecFns;
use crate::http::constant_time_eq;
use crate::pure::{status_name, Command};
use crate::state::DeviceState;

verus! {

/// A message to publish.
pub struct Publication {
    pub topic: String,
    pub payload: String,
    pub retain: bool,
}

/// An optional setting given as text: empty means not set.
pub fn non_empty(value: &str) -> (r: Option<&str>)
    ensures
        value@.len() == 0 ==> r is None,
        value@.len() > 0 ==> r == Some(value),
{
    if value.is_empty() {
        None
    } else {
        Some(value)
    }
}

/// The retained status message.
pub fn publish_status(state: &DeviceState, status_topic: &str) -> (p: Publication)
    ensures
        p.topic@ == status_topic@,
        p.payload@ == status_name(state.status),
        p.retain,
{
    Publication {
        topic: status_topic.to_owned(),
        payload: state.status().to_owned(),
        retain: true,
    }
}

pub open spec fn on_off(flag: bool) -> Seq<char> {
    if flag {
        "on"@
    } else {
        "off"@
    }
}

fn on_off_text(flag: bool) -> (s: String)
    ensures
        s@ == on_off(flag),
{
    if flag {
        "on".to_owned()
    } else {
        "off".to_owned()
    }
}

/// The retained obstruction message: "on" while the beam is reported broken.
pub fn publish_obstacle(state: &DeviceState, obstacle_topic: &str) -> (p: Publication)
    ensures
        p.topic@ == obstacle_topic@,
        p.payload@ == on_off(state.obstacle),
        p.retain,
{
    Publication { topic: obstacle_topic.to_owned(), payload: on_off_text(state.obstacle()), retain: true }
}

/// The retained fault message: "on" while any fault bit is raised.
pub fn publish_fault(state: &DeviceState, fault_topic: &str) -> (p: Publication)
    ensures
        p.topic@ == fault_topic@,
        p.payload@ == on_off(state.fault != 0),
        p.retain,
{
    Publication { topic: fault_topic.to_owned(), payload: on_off_text(state.fault() != 0), retain: true }
}

/// The message that announces the device as reachable.
pub fn publish_online(availability_topic: &str) -> (p: Publication)
    ensures
        p.topic@ == availability_topic@,
        p.payload@ == "online"@,
        p.retain,
{
    Publication { topic: availability_topic.to_owned(), payload: "online".to_owned(), retain: true }
}

// ----- discovery -----

/// The topics that the discovery configurations point Home Assistant at.
pub struct DiscoveryTopics<'a> {
    pub command: &'a str,
    pub status: &'a str,
    pub availability: &'a str,
    pub battery: &'a str,
    pub battery_voltage: &'a str,
    pub obstacle: &'a str,
    pub fault: &'a str,
}

/// The device block shared by every entity.
pub open spec fn device_json(uid: Seq<char>) -> Seq<char> {
    "{\"identifiers\":[\""@ + uid
        + "\"],\"name\":\"Gate\",\"manufacturer\":\"ESP32\",\"model\":\"Gate Opener\"}"@
}

pub open spec fn cover_json(uid: Seq<char>, t: DiscoveryTopics) -> Seq<char> {
    "{\"name\":\"Gate\",\"unique_id\":\""@ + uid + "_cover\",\"device\":"@ + device_json(uid)
        + ",\"command_topic\":\""@ + t.command@ + "\",\"state_topic\":\""@ + t.status@
        + "\",\"availability_topic\":\""@ + t.availability@
        + "\",\"payload_open\":\"open\",\"payload_close\":\"close\",\"device_class\":\"gate\"}"@
}

pub open spec fn battery_json(uid: Seq<char>, t: DiscoveryTopics) -> Seq<char> {
    "{\"name\":\"Gate battery\",\"unique_id\":\""@ + uid + "_battery\",\"device\":"@
        + device_json(uid) + ",\"state_topic\":\""@ + t.battery@
        + "\",\"unit_of_measurement\":\"%\",\"device_class\":\"battery\"}"@
}

pub open spec fn voltage_json(uid: Seq<char>, t: DiscoveryTopics) -> Seq<char> {
    "{\"name\":\"Gate battery voltage\",\"unique_id\":\""@ + uid + "_voltage\",\"device\":"@
        + device_json(uid) + ",\"state_topic\":\""@ + t.battery_voltage@
        + "\",\"unit_of_measurement\":\"V\",\"device_class\":\"voltage\"}"@
}

pub open spec fn obstruction_json(uid: Seq<char>, t: DiscoveryTopics) -> Seq<char> {
    "{\"name\":\"Gate obstruction\",\"unique_id\":\""@ + uid + "_obstruction\",\"device\":"@
        + device_json(uid) + ",\"state_topic\":\""@ + t.obstacle@
        + "\",\"device_class\":\"safety\",\"payload_on\":\"on\",\"payload_off\":\"off\"}"@
}

pub open spec fn fault_json(uid: Seq<char>, t: DiscoveryTopics) -> Seq<char> {
    "{\"name\":\"Gate fault\",\"unique_id\":\""@ + uid + "_fault\",\"device\":"@ + device_json(uid)
        + ",\"state_topic\":\""@ + t.fault@
        + "\",\"device_class\":\"problem\",\"payload_on\":\"on\",\"payload_off\":\"off\"}"@
}

fn device_text(uid: &str) -> (s: String)
    ensures
        s@ == device_json(uid@),
{
    let mut s = "{\"identifiers\":[\"".to_owned();
    s.append(uid);
    s.append("\"],\"name\":\"Gate\",\"manufacturer\":\"ESP32\",\"model\":\"Gate Opener\"}");
    s
}

fn config_topic(kind: &str, uid: &str, suffix: &str) -> (s: String)
    ensures
        s@ == "homeassistant/"@ + kind@ + "/"@ + uid@ + suffix@,
{
    let mut s = "homeassistant/".to_owned();
    s.append(kind);
    s.append("/");
    s.append(uid);
    s.append(suffix);
    s
}

/// The topic of the `i`-th discovery configuration.
pub open spec fn discovery_topic(i: int, uid: Seq<char>) -> Seq<char> {
    if i == 0 {
        "homeassistant/"@ + "cover"@ + "/"@ + uid + "/config"@
    } else if i == 1 {
        "homeassistant/"@ + "sensor"@ + "/"@ + uid + "/battery/config"@
    } else if i == 2 {
        "homeassistant/"@ + "sensor"@ + "/"@ + uid + "/voltage/config"@
    } else if i == 3 {
        "homeassistant/"@ + "binary_sensor"@ + "/"@ + uid + "/obstruction/config"@
    } else {
        "homeassistant/"@ + "binary_sensor"@ + "/"@ + uid + "/fault/config"@
    }
}

/// The payload of the `i`-th discovery configuration.
pub open spec fn discovery_payload(i: int, uid: Seq<char>, t: DiscoveryTopics) -> Seq<char> {
    if i == 0 {
        cover_json(uid, t)
    } else if i == 1 {
        battery_json(uid, t)
    } else if i == 2 {
        voltage_json(uid, t)
    } else if i == 3 {
        obstruction_json(uid, t)
    } else {
        fault_json(uid, t)
    }
}

/// The retained discovery configurations: the cover, the battery and voltage
/// sensors, and the obstruction and fault binary sensors, in this order.
pub fn publish_discovery(uid: &str, t: &DiscoveryTopics) -> (msgs: Vec<Publication>)
    ensures
        msgs@.len() == 5,
        forall|i: int|
            0 <= i < 5 ==> {
                &&& #[trigger] msgs@[i].retain
                &&& msgs@[i].topic@ == discovery_topic(i, uid@)
                &&& msgs@[i].payload@ == discovery_payload(i, uid@, *t)
            },
{
    let mut cover = "{\"name\":\"Gate\",\"unique_id\":\"".to_owned();
    cover.append(uid);
    cover.append("_cover\",\"device\":");
    let device = device_text(uid);
    cover.append(device.as_str());
    cover.append(",\"command_topic\":\"");
    cover.append(t.command);
    cover.append("\",\"state_topic\":\"");
    cover.append(t.status);
    cover.append("\",\"availability_topic\":\"");
    cover.append(t.availability);
    cover.append(
        "\",\"payload_open\":\"open\",\"payload_close\":\"close\",\"device_class\":\"gate\"}",
    );

    let mut battery = "{\"name\":\"Gate battery\",\"unique_id\":\"".to_owned();
    battery.append(uid);
    battery.append("_battery\",\"device\":");
    battery.append(device.as_str());
    battery.append(",\"state_topic\":\"");
    battery.append(t.battery);
    battery.append("\",\"unit_of_measurement\":\"%\",\"device_class\":\"battery\"}");

    let mut voltage = "{\"name\":\"Gate battery voltage\",\"unique_id\":\"".to_owned();
    voltage.append(uid);
    voltage.append("_voltage\",\"device\":");
    voltage.append(device.as_str());
    voltage.append(",\"state_topic\":\"");
    voltage.append(t.battery_voltage);
    voltage.append("\",\"unit_of_measurement\":\"V\",\"device_class\":\"voltage\"}");

    let mut obstruction = "{\"name\":\"Gate obstruction\",\"unique_id\":\"".to_owned();
    obstruction.append(uid);
    obstruction.append("_obstruction\",\"device\":");
    obstruction.append(device.as_str());
    obstruction.append(",\"state_topic\":\"");
    obstruction.append(t.obstacle);
    obstruction.append(
        "\",\"device_class\":\"safety\",\"payload_on\":\"on\",\"payload_off\":\"off\"}",
    );

    let mut fault = "{\"name\":\"Gate fault\",\"unique_id\":\"".to_owned();
    fault.append(uid);
    fault.append("_fault\",\"device\":");
    fault.append(device.as_str());
    fault.append(",\"state_topic\":\"");
    fault.append(t.fault);
    fault.append("\",\"device_class\":\"problem\",\"payload_on\":\"on\",\"payload_off\":\"off\"}");

    let mut msgs: Vec<Publication> = Vec::new();
    msgs.push(
        Publication { topic: config_topic("cover", uid, "/config"), payload: cover, retain: true },
    );
    msgs.push(
        Publication {
            topic: config_topic("sensor", uid, "/battery/config"),
            payload: battery,
            retain: true,
        },
    );
    msgs.push(
        Publication {
            topic: config_topic("sensor", uid, "/voltage/config"),
            payload: voltage,
            retain: true,
        },
    );
    msgs.push(
        Publication {
            topic: config_topic("binary_sensor", uid, "/obstruction/config"),
            payload: obstruction,
            retain: true,
        },
    );
    msgs.push(
        Publication {
            topic: config_topic("binary_sensor", uid, "/fault/config"),
            payload: fault,
            retain: true,
        },
    );
    msgs
}

/// What the device announces on every (re)connection to the broker.
pub struct ConnectAnnouncement {
    /// Published in this order, all retained.
    pub publications: Vec<Publication>,
    /// The topic to subscribe to for commands.
    pub subscribe_topic: String,
    /// The quality of service of that subscription.
    pub subscribe_qos: u8,
}

/// On (re)connect: "online" on the availability topic, then the status,
/// obstacle and fault messages, then the five discovery configurations; then
/// the subscription to the command topic at QoS 0. The battery is not
/// reported here.
pub fn connect_announcement(state: &DeviceState, uid: &str, t: &DiscoveryTopics) -> (a:
    ConnectAnnouncement)
    ensures
        a.publications@.len() == 9,
        forall|i: int| 0 <= i < 9 ==> #[trigger] a.publications@[i].retain,
        a.publications@[0].topic@ == t.availability@,
        a.publications@[0].payload@ == "online"@,
        a.publications@[1].topic@ == t.status@,
        a.publications@[1].payload@ == status_name(state.status),
        a.publications@[2].topic@ == t.obstacle@,
        a.publications@[2].payload@ == on_off(state.obstacle),
        a.publications@[3].topic@ == t.fault@,
        a.publications@[3].payload@ == on_off(state.fault != 0),
        forall|i: int|
            0 <= i < 5 ==> {
                &&& (#[trigger] a.publications@[i + 4]).topic@ == discovery_topic(i, uid@)
                &&& a.publications@[i + 4].payload@ == discovery_payload(i, uid@, *t)
            },
        a.subscribe_topic@ == t.command@,
        a.subscribe_qos == 0,
{
    let mut publications: Vec<Publication> = Vec::new();
    publications.push(publish_online(t.availability));
    publications.push(publish_status(state, t.status));
    publications.push(publish_obstacle(state, t.obstacle));
    publications.push(publish_fault(state, t.fault));
    let mut discovery = publish_discovery(uid, t);
    let ghost head = publications@;
    let ghost d = discovery@;
    publications.append(&mut discovery);
    assert forall|i: int| 0 <= i < 5 implies {
        &&& (#[trigger] publications@[i + 4]).topic@ == discovery_topic(i, uid@)
        &&& publications@[i + 4].payload@ == discovery_payload(i, uid@, *t)
    } by {
        assert(publications@[i + 4] == (head + d)[i + 4]);
        assert(d[i].retain);
    }
    assert forall|i: int| 0 <= i < 9 implies #[trigger] publications@[i].retain by {
        if i >= 4 {
            assert(publications@[i] == (head + d)[i]);
            assert(d[i - 4].retain);
        }
    }
    ConnectAnnouncement { publications, subscribe_topic: t.command.to_owned(), subscribe_qos: 0 }
}

// ----- incoming messages -----

/// What the broker reports.
pub enum MqttEvent<'a> {
    Connected,
    Disconnected,
    Received { topic: Option<&'a str>, data: &'a [u8] },
    Other,
}

/// The command that a message on the command topic carries.
pub open spec fn command_of(data: Seq<u8>) -> Command {
    if data == "open".spec_bytes() {
        Command::Open
    } else if data == "close".spec_bytes() {
        Command::Close
    } else {
        Command::NoCommand
    }
}

/// Reacts to a broker event. A connection is recorded and asks the caller to
/// announce the device (availability, state messages, discovery) and to
/// subscribe to the command topic, which is what the result says; a
/// disconnection is recorded; "open" or "close" on the command topic queues
/// that command. Everything else is ignored.
pub fn on_mqtt_event(state: &mut DeviceState, event: MqttEvent, command_topic: &str) -> (announce: bool)
    ensures
        announce == (event is Connected),
        match event {
            MqttEvent::Connected => *final(state) == (DeviceState {
                mqtt_connected: true,
                ..*old(state)
            }),
            MqttEvent::Disconnected => *final(state) == (DeviceState {
                mqtt_connected: false,
                ..*old(state)
            }),
            MqttEvent::Received { topic: Some(topic), data } => if topic@ == command_topic@
                && command_of(data@) != Command::NoCommand {
                *final(state) == (DeviceState { pending_command: command_of(data@), ..*old(state) })
            } else {
                *final(state) == *old(state)
            },
            _ => *final(state) == *old(state),
        },
{
    match event {
        MqttEvent::Connected => {
            state.set_mqtt_connected(true);
            true
        },
        MqttEvent::Disconnected => {
            state.set_mqtt_connected(false);
            false
        },
        MqttEvent::Received { topic: Some(topic), data } => {
            let same = constant_time_eq(topic.as_bytes(), command_topic.as_bytes());
            proof {
                vstd::utf8::encode_utf8_decode_utf8(topic@);
                vstd::utf8::encode_utf8_decode_utf8(command_topic@);
            }
            if same {
                if constant_time_eq(data, "open".as_bytes()) {
                    state.submit_command(Command::Open);
                } else if constant_time_eq(data, "close".as_bytes()) {
                    state.submit_command(Command::Close);
                }
            }
            false
        },
        _ => false,
    }
}

/// `text` holds `field` somewhere.
pub open spec fn has_field(text: Seq<char>, field: Seq<char>) -> bool {
    exists|a: Seq<char>, b: Seq<char>| text == a + field + b
}

/// The JSON member `"name":"value"` for a topic member.
pub open spec fn topic_member(name: Seq<char>, value: Seq<char>) -> Seq<char> {
    "\""@ + name + "\":\""@ + value + "\""@
}

proof fn lemma_member(p: Seq<char>, lead: Seq<char>, key: Seq<char>, x: Seq<char>, close: Seq<char>, rest: Seq<char>, q: Seq<char>)
    ensures
        has_field(p + (lead + key) + x + (close + rest) + q, key + x + close),
{
    let a = p + lead;
    let b = rest + q;
    assert(p + (lead + key) + x + (close + rest) + q =~= a + (key + x + close) + b);
}

/// Each discovery configuration points Home Assistant at the topic of its own
/// entity: the cover at the command, state and availability topics, the
/// battery, voltage, obstruction and fault sensors at their state topics.
pub proof fn law_discovery_topics(uid: Seq<char>, t: DiscoveryTopics)
    ensures
        has_field(discovery_payload(0, uid, t), topic_member("command_topic"@, t.command@)),
        has_field(discovery_payload(0, uid, t), topic_member("state_topic"@, t.status@)),
        has_field(
            discovery_payload(0, uid, t),
            topic_member("availability_topic"@, t.availability@),
        ),
        has_field(discovery_payload(1, uid, t), topic_member("state_topic"@, t.battery@)),
        has_field(discovery_payload(2, uid, t), topic_member("state_topic"@, t.battery_voltage@)),
        has_field(discovery_payload(3, uid, t), topic_member("state_topic"@, t.obstacle@)),
        has_field(discovery_payload(4, uid, t), topic_member("state_topic"@, t.fault@)),
{
    reveal_strlit("\"");
    reveal_strlit("\":\"");
    reveal_strlit(",");
    reveal_strlit("\",");
    reveal_strlit("command_topic");
    reveal_strlit("state_topic");
    reveal_strlit("availability_topic");
    reveal_strlit(",\"command_topic\":\"");
    reveal_strlit("\",\"state_topic\":\"");
    reveal_strlit("\",\"availability_topic\":\"");
    reveal_strlit(",\"state_topic\":\"");
    reveal_strlit("\",\"payload_open\":\"open\",\"payload_close\":\"close\",\"device_class\":\"gate\"}");
    reveal_strlit("\",\"unit_of_measurement\":\"%\",\"device_class\":\"battery\"}");
    reveal_strlit("\",\"unit_of_measurement\":\"V\",\"device_class\":\"voltage\"}");
    reveal_strlit("\",\"device_class\":\"safety\",\"payload_on\":\"on\",\"payload_off\":\"off\"}");
    reveal_strlit("\",\"device_class\":\"problem\",\"payload_on\":\"on\",\"payload_off\":\"off\"}");
    let d = device_json(uid);
    let q = "\""@;
    let mid = "\":\""@;
    let member = |name: Seq<char>, value: Seq<char>| q + name + mid + value + q;
    let state_key = q + "state_topic"@ + mid;
    // the cover
    let c0 = "{\"name\":\"Gate\",\"unique_id\":\""@ + uid + "_cover\",\"device\":"@ + d;
    let c_end = "\",\"payload_open\":\"open\",\"payload_close\":\"close\",\"device_class\":\"gate\"}"@;
    let command_key = q + "command_topic"@ + mid;
    let avail_key = q + "availability_topic"@ + mid;
    assert(",\"command_topic\":\""@ =~= ","@ + command_key);
    assert("\",\"state_topic\":\""@ =~= q + (","@ + state_key));
    assert("\",\"availability_topic\":\""@ =~= q + (","@ + avail_key));
    assert(c_end =~= q + c_end.skip(1));
    assert(discovery_payload(0, uid, t) == cover_json(uid, t));
    lemma_member(
        c0,
        ","@,
        command_key,
        t.command@,
        q,
        ","@ + state_key,
        t.status@ + "\",\"availability_topic\":\""@ + t.availability@ + c_end,
    );
    assert(cover_json(uid, t) =~= c0 + (","@ + command_key) + t.command@ + (q + (","@
        + state_key)) + (t.status@ + "\",\"availability_topic\":\""@ + t.availability@ + c_end));
    assert(member("command_topic"@, t.command@) =~= command_key + t.command@ + q);
    lemma_member(
        c0 + ",\"command_topic\":\""@ + t.command@ + q + ","@,
        Seq::empty(),
        state_key,
        t.status@,
        q,
        ","@ + avail_key,
        t.availability@ + c_end,
    );
    assert(cover_json(uid, t) =~= c0 + ",\"command_topic\":\""@ + t.command@ + q + ","@ + (
    Seq::<char>::empty() + state_key) + t.status@ + (q + (","@ + avail_key)) + (t.availability@
        + c_end));
    lemma_member(
        c0 + ",\"command_topic\":\""@ + t.command@ + "\",\"state_topic\":\""@ + t.status@ + q
            + ","@,
        Seq::empty(),
        avail_key,
        t.availability@,
        q,
        c_end.skip(1),
        Seq::empty(),
    );
    assert(cover_json(uid, t) =~= c0 + ",\"command_topic\":\""@ + t.command@
        + "\",\"state_topic\":\""@ + t.status@ + q + ","@ + (Seq::<char>::empty() + avail_key)
        + t.availability@ + (q + c_end.skip(1)) + Seq::<char>::empty());
    // the sensors
    let sensor_key = ",\"state_topic\":\""@;
    assert(sensor_key =~= ","@ + state_key);
    let b_end = "\",\"unit_of_measurement\":\"%\",\"device_class\":\"battery\"}"@;
    let v_end = "\",\"unit_of_measurement\":\"V\",\"device_class\":\"voltage\"}"@;
    let o_end = "\",\"device_class\":\"safety\",\"payload_on\":\"on\",\"payload_off\":\"off\"}"@;
    let f_end = "\",\"device_class\":\"problem\",\"payload_on\":\"on\",\"payload_off\":\"off\"}"@;
    assert(b_end =~= q + b_end.skip(1));
    assert(v_end =~= q + v_end.skip(1));
    assert(o_end =~= q + o_end.skip(1));
    assert(f_end =~= q + f_end.skip(1));
    let b0 = "{\"name\":\"Gate battery\",\"unique_id\":\""@ + uid + "_battery\",\"device\":"@ + d;
    let v0 = "{\"name\":\"Gate battery voltage\",\"unique_id\":\""@ + uid + "_voltage\",\"device\":"@
        + d;
    let o0 = "{\"name\":\"Gate obstruction\",\"unique_id\":\""@ + uid + "_obstruction\",\"device\":"@
        + d;
    let f0 = "{\"name\":\"Gate fault\",\"unique_id\":\""@ + uid + "_fault\",\"device\":"@ + d;
    lemma_member(b0, ","@, state_key, t.battery@, q, b_end.skip(1), Seq::empty());
    lemma_member(v0, ","@, state_key, t.battery_voltage@, q, v_end.skip(1), Seq::empty());
    lemma_member(o0, ","@, state_key, t.obstacle@, q, o_end.skip(1), Seq::empty());
    lemma_member(f0, ","@, state_key, t.fault@, q, f_end.skip(1), Seq::empty());
    assert(battery_json(uid, t) =~= b0 + (","@ + state_key) + t.battery@ + (q + b_end.skip(1))
        + Seq::<char>::empty());
    assert(voltage_json(uid, t) =~= v0 + (","@ + state_key) + t.battery_voltage@ + (q
        + v_end.skip(1)) + Seq::<char>::empty());
    assert(obstruction_json(uid, t) =~= o0 + (","@ + state_key) + t.obstacle@ + (q
        + o_end.skip(1)) + Seq::<char>::empty());
    assert(fault_json(uid, t) =~= f0 + (","@ + state_key) + t.fault@ + (q + f_end.skip(1))
        + Seq::<char>::empty());
    assert(member("state_topic"@, t.status@) =~= state_key + t.status@ + q);
    assert(member("availability_topic"@, t.availability@) =~= avail_key + t.availability@ + q);
    assert(member("state_topic"@, t.battery@) =~= state_key + t.battery@ + q);
    assert(member("state_topic"@, t.battery_voltage@) =~= state_key + t.battery_voltage@ + q);
    assert(member("state_topic"@, t.obstacle@) =~= state_key + t.obstacle@ + q);
    assert(member("state_topic"@, t.fault@) =~= state_key + t.fault@ + q);
}

} // verus!
