//! What Home Assistant is told of the device's sensors: the documents of its
//! MQTT discovery.
use crate::json;
use crate::json::json_of;
use crate::json::json_text;
use crate::json::members_in;
use crate::json::Json;
use crate::topics::topic;
use crate::topics::topic_text;
use crate::topics::Topic;
use serde_json::Value;
use vstd::prelude::*;
use vstd::string::StringExecFns;

verus! {

/// What Home Assistant knows a sensor by.
pub open spec fn unique_id(slug: Seq<char>, sensor: Seq<char>) -> Seq<char> {
    "watchdesk_"@ + slug + sensor
}

/// What tells the sensors of a device apart.
pub open spec fn sensor_name(sensor: Seq<char>) -> bool {
    sensor == "_power"@ || sensor == "_cpu_usage"@ || sensor == "_cpu_temp"@
}

/// A topic of a device as a JSON text.
pub open spec fn topic_json(topic: Topic, slug: Seq<char>) -> Json {
    Json::Text(topic_text(topic, slug))
}

/// An availability topic as one of several.
pub open spec fn availability_json(topic: Topic, slug: Seq<char>) -> Json {
    Json::Object(Map::empty().insert("topic"@, topic_json(topic, slug)))
}

/// The device that all sensors belong to.
pub open spec fn device_json(slug: Seq<char>, name: Seq<char>) -> Json {
    Json::Object(
        Map::empty().insert(
            "identifiers"@,
            Json::List(seq![Json::Text("watchdesk_"@ + slug)]),
        ).insert("name"@, Json::Text(name)).insert(
            "manufacturer"@,
            Json::Text("WatchDesk - meltingice1337"@),
        ).insert("model"@, Json::Text("PC Status & Sensors"@)),
    )
}

/// The monitor. It names no availability topic: its retained state already
/// says what the monitor does, and a PC that is out of reach has its monitor
/// off.
pub open spec fn monitor_json(slug: Seq<char>, name: Seq<char>) -> Json {
    Json::Object(
        Map::empty().insert("name"@, Json::Null).insert(
            "icon"@,
            Json::Text("mdi:desktop-tower"@),
        ).insert("state_topic"@, topic_json(Topic::MonitorState, slug)).insert(
            "payload_on"@,
            Json::Text("ON"@),
        ).insert("payload_off"@, Json::Text("OFF"@)).insert(
            "unique_id"@,
            Json::Text(unique_id(slug, "_power"@)),
        ).insert("device"@, device_json(slug, name)),
    )
}

/// The CPU usage. It is available while the device is.
pub open spec fn cpu_usage_json(slug: Seq<char>, name: Seq<char>) -> Json {
    Json::Object(
        Map::empty().insert("name"@, Json::Text("CPU Usage"@)).insert(
            "icon"@,
            Json::Text("mdi:cpu-64-bit"@),
        ).insert("state_topic"@, topic_json(Topic::CpuUsage, slug)).insert(
            "unit_of_measurement"@,
            Json::Text("%"@),
        ).insert("state_class"@, Json::Text("measurement"@)).insert(
            "suggested_display_precision"@,
            Json::Number(0),
        ).insert("availability_topic"@, topic_json(Topic::Availability, slug)).insert(
            "payload_available"@,
            Json::Text("online"@),
        ).insert("payload_not_available"@, Json::Text("offline"@)).insert(
            "unique_id"@,
            Json::Text(unique_id(slug, "_cpu_usage"@)),
        ).insert("device"@, device_json(slug, name)),
    )
}

/// The CPU temperature. It is available while the device is and there is a
/// reading.
pub open spec fn cpu_temp_json(slug: Seq<char>, name: Seq<char>) -> Json {
    Json::Object(
        Map::empty().insert("name"@, Json::Text("CPU Temperature"@)).insert(
            "device_class"@,
            Json::Text("temperature"@),
        ).insert("state_topic"@, topic_json(Topic::CpuTemp, slug)).insert(
            "unit_of_measurement"@,
            Json::Text("\u{b0}C"@),
        ).insert("state_class"@, Json::Text("measurement"@)).insert(
            "suggested_display_precision"@,
            Json::Number(1),
        ).insert("availability_mode"@, Json::Text("all"@)).insert(
            "availability"@,
            Json::List(
                seq![
                    availability_json(Topic::Availability, slug),
                    availability_json(Topic::CpuTempAvailability, slug),
                ],
            ),
        ).insert("payload_available"@, Json::Text("online"@)).insert(
            "payload_not_available"@,
            Json::Text("offline"@),
        ).insert("unique_id"@, Json::Text(unique_id(slug, "_cpu_temp"@))).insert(
            "device"@,
            device_json(slug, name),
        ),
    )
}

/// Adds a member to those of an object.
fn put(members: &mut serde_json::Map<String, Value>, name: &str, value: Value)
    ensures
        members_in(*final(members)) == members_in(*old(members)).insert(name@, json_of(value)),
{
    json::insert(members, name, value);
}

/// Adds a member that is a text.
fn put_text(members: &mut serde_json::Map<String, Value>, name: &str, value: &str)
    ensures
        members_in(*final(members)) == members_in(*old(members)).insert(name@, Json::Text(value@)),
{
    put(members, name, json::text(value));
}

/// Adds a member that is a topic of the device with this slug.
fn put_topic(members: &mut serde_json::Map<String, Value>, name: &str, which: Topic, slug: &str)
    ensures
        members_in(*final(members)) == members_in(*old(members)).insert(
            name@,
            topic_json(which, slug@),
        ),
{
    put_text(members, name, topic(which, slug).as_str());
}

/// An availability topic as one of several.
fn availability(which: Topic, slug: &str) -> (value: Value)
    ensures
        json_of(value) == availability_json(which, slug@),
{
    let mut members = json::no_members();
    put_topic(&mut members, "topic", which, slug);
    json::object(members)
}

/// What Home Assistant knows a sensor by.
fn sensor_id(slug: &str, sensor: &str) -> (res: String)
    ensures
        res@ == unique_id(slug@, sensor@),
{
    "watchdesk_".to_owned().concat(slug).concat(sensor)
}

/// The device that all sensors belong to.
pub fn device(slug: &str, name: &str) -> (value: Value)
    ensures
        json_of(value) == device_json(slug@, name@),
{
    let id = "watchdesk_".to_owned().concat(slug);
    let mut ids: Vec<Value> = Vec::new();
    ids.push(json::text(id.as_str()));
    assert(ids@.map_values(|item: Value| json_of(item)) == seq![Json::Text(id@)]);
    let mut members = json::no_members();
    put(&mut members, "identifiers", json::list(ids));
    put_text(&mut members, "name", name);
    put_text(&mut members, "manufacturer", "WatchDesk - meltingice1337");
    put_text(&mut members, "model", "PC Status & Sensors");
    json::object(members)
}

/// The discovery document of the monitor.
pub fn monitor(slug: &str, name: &str) -> (res: String)
    ensures
        res@ == json_text(monitor_json(slug@, name@)),
{
    let mut members = json::no_members();
    put(&mut members, "name", json::null());
    put_text(&mut members, "icon", "mdi:desktop-tower");
    put_topic(&mut members, "state_topic", Topic::MonitorState, slug);
    put_text(&mut members, "payload_on", "ON");
    put_text(&mut members, "payload_off", "OFF");
    put_text(&mut members, "unique_id", sensor_id(slug, "_power").as_str());
    put(&mut members, "device", device(slug, name));
    json::write(&json::object(members))
}

/// The discovery document of the CPU usage.
pub fn cpu_usage(slug: &str, name: &str) -> (res: String)
    ensures
        res@ == json_text(cpu_usage_json(slug@, name@)),
{
    let mut members = json::no_members();
    put_text(&mut members, "name", "CPU Usage");
    put_text(&mut members, "icon", "mdi:cpu-64-bit");
    put_topic(&mut members, "state_topic", Topic::CpuUsage, slug);
    put_text(&mut members, "unit_of_measurement", "%");
    put_text(&mut members, "state_class", "measurement");
    put(&mut members, "suggested_display_precision", json::number(0));
    put_topic(&mut members, "availability_topic", Topic::Availability, slug);
    put_text(&mut members, "payload_available", "online");
    put_text(&mut members, "payload_not_available", "offline");
    put_text(&mut members, "unique_id", sensor_id(slug, "_cpu_usage").as_str());
    put(&mut members, "device", device(slug, name));
    json::write(&json::object(members))
}

/// The discovery document of the CPU temperature.
pub fn cpu_temp(slug: &str, name: &str) -> (res: String)
    ensures
        res@ == json_text(cpu_temp_json(slug@, name@)),
{
    let mut topics: Vec<Value> = Vec::new();
    topics.push(availability(Topic::Availability, slug));
    topics.push(availability(Topic::CpuTempAvailability, slug));
    assert(topics@.map_values(|item: Value| json_of(item)) == seq![
        availability_json(Topic::Availability, slug@),
        availability_json(Topic::CpuTempAvailability, slug@),
    ]);
    let mut members = json::no_members();
    put_text(&mut members, "name", "CPU Temperature");
    put_text(&mut members, "device_class", "temperature");
    put_topic(&mut members, "state_topic", Topic::CpuTemp, slug);
    put_text(&mut members, "unit_of_measurement", "\u{b0}C");
    put_text(&mut members, "state_class", "measurement");
    put(&mut members, "suggested_display_precision", json::number(1));
    put_text(&mut members, "availability_mode", "all");
    put(&mut members, "availability", json::list(topics));
    put_text(&mut members, "payload_available", "online");
    put_text(&mut members, "payload_not_available", "offline");
    put_text(&mut members, "unique_id", sensor_id(slug, "_cpu_temp").as_str());
    put(&mut members, "device", device(slug, name));
    json::write(&json::object(members))
}

/// Home Assistant knows no two sensors by one name, be they of one device or of
/// two with different slugs.
pub proof fn law_sensors_are_told_apart(
    slug: Seq<char>,
    sensor: Seq<char>,
    other_slug: Seq<char>,
    other: Seq<char>,
)
    requires
        sensor_name(sensor),
        sensor_name(other),
        unique_id(slug, sensor) == unique_id(other_slug, other),
    ensures
        slug == other_slug,
        sensor == other,
{
    reveal_strlit("_power");
    reveal_strlit("_cpu_usage");
    reveal_strlit("_cpu_temp");
    let l = unique_id(slug, sensor);
    let r = unique_id(other_slug, other);
    assert(l.last() == sensor.last() && r.last() == other.last());
    assert(sensor == other);
    let n = "watchdesk_"@.len() as int;
    assert(l.len() == n + slug.len() + sensor.len());
    assert(r.len() == n + other_slug.len() + other.len());
    assert forall|i: int| 0 <= i < slug.len() implies slug[i] == other_slug[i] by {
        assert(l[n + i] == slug[i]);
        assert(r[n + i] == other_slug[i]);
    }
    assert(slug =~= other_slug);
}

} // verus!
