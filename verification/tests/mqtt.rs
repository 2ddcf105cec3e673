use rumqttc::QoS;
use serde_json::Value;
use std::time::Duration;
use watchdesk::broker::Delivery;
use watchdesk::config::Config;
use watchdesk::config::DeviceConfig;
use watchdesk::config::MetricsConfig;
use watchdesk::config::MqttConfig;
use watchdesk::config::StartupConfig;
use watchdesk::monitor::MonitorState;
use watchdesk::mqtt::poll_interval;
use watchdesk::mqtt::Action;
use watchdesk::mqtt::Event;
use watchdesk::mqtt::Message;
use watchdesk::mqtt::MqttManager;
use watchdesk::mqtt::Session;
use watchdesk::mqtt::TempSource;
use watchdesk::topics::slug;

fn config(name: &str) -> Config {
    Config {
        mqtt: MqttConfig {
            host: "broker.local".to_string(),
            port: 1884,
            username: None,
            password: None,
        },
        device: DeviceConfig {
            name: name.to_string(),
        },
        startup: StartupConfig::default(),
        metrics: MetricsConfig::default(),
    }
}

fn manager() -> MqttManager {
    MqttManager::new(&config("My Desktop"), true).0
}

fn show(message: &Message) -> String {
    assert_eq!(message.delivery, Delivery::AtLeastOnce);
    assert!(message.retain);
    format!("{} = {}", message.topic, message.payload)
}

fn shown(actions: &[Action]) -> Vec<String> {
    let mut lines = Vec::new();
    for action in actions {
        lines.push(match action {
            Action::Publish(messages) => {
                let all: Vec<String> = messages.iter().map(show).collect();
                format!("publish {}", all.join(" | "))
            }
            Action::TryPublish(message) => format!("try {}", show(message)),
            Action::AnnounceTemp { message, available } => {
                format!("announce {} {available}", show(message))
            }
            Action::ArmDebounce { millis } => format!("debounce {millis}"),
            Action::Pause { millis } => format!("pause {millis}"),
            Action::Farewell { messages, millis } => {
                let all: Vec<String> = messages.iter().map(show).collect();
                format!("farewell {} {millis}", all.join(" | "))
            }
            Action::Stop => "stop".to_string(),
        });
    }
    lines
}

fn tick(usage: Option<&str>, temperature: Option<&str>) -> Event {
    Event::Tick {
        usage: usage.map(str::to_string),
        temperature: temperature.map(str::to_string),
    }
}

fn connected(manager: &MqttManager) -> Session {
    let mut session = Session::new();
    manager.step(&mut session, &Event::Connected);
    session
}

#[test]
fn addresses_the_broker() {
    let (_, options) = MqttManager::new(&config("My Desktop"), false);
    assert_eq!(options.client_id(), "watchdesk_My Desktop");
    assert_eq!(options.broker_address(), ("broker.local".to_string(), 1884));
    assert_eq!(options.keep_alive(), Duration::from_secs(10));
    assert!(options.clean_session());
    assert_eq!(options.credentials(), None);
}

#[test]
fn leaves_a_last_will() {
    let (manager, options) = MqttManager::new(&config("My Desktop"), false);
    let will = options.last_will().unwrap();
    assert_eq!(will.topic, "watchdesk/my_desktop/availability");
    assert_eq!(will.topic, manager.availability_topic());
    assert_eq!(&will.message[..], b"offline");
    assert_eq!(will.qos, QoS::AtLeastOnce);
    assert!(will.retain);
}

#[test]
fn credentials_take_a_name_and_a_password() {
    let mut config = config("pc");
    config.mqtt.username = Some("user".to_string());
    assert_eq!(MqttManager::new(&config, false).1.credentials(), None);
    config.mqtt.password = Some("pass".to_string());
    assert_eq!(
        MqttManager::new(&config, false).1.credentials(),
        Some(("user".to_string(), "pass".to_string()))
    );
    config.mqtt.username = None;
    assert_eq!(MqttManager::new(&config, false).1.credentials(), None);
}

#[test]
fn finds_the_source_of_the_temperature() {
    let mut config = config("pc");
    assert!(matches!(
        MqttManager::new(&config, false).0.temp_source(),
        TempSource::Missing
    ));
    match MqttManager::new(&config, true).0.temp_source() {
        TempSource::Tool(cli) => assert!(cli.ends_with("AMDRyzenMasterCLI.exe")),
        other => panic!("unexpected source: {other:?}"),
    }
    config.metrics.cpu_temp = false;
    assert!(matches!(
        MqttManager::new(&config, true).0.temp_source(),
        TempSource::Disabled
    ));
}

#[test]
fn names_its_topics() {
    let manager = manager();
    assert_eq!(manager.slug(), "my_desktop");
    assert_eq!(manager.availability_topic(), "watchdesk/my_desktop/availability");
    assert_eq!(manager.state_topic(), "watchdesk/my_desktop/monitor/state");
    assert_eq!(manager.cpu_usage_state_topic(), "watchdesk/my_desktop/cpu/usage");
    assert_eq!(manager.cpu_temp_state_topic(), "watchdesk/my_desktop/cpu/temperature");
    assert_eq!(
        manager.cpu_temp_availability_topic(),
        "watchdesk/my_desktop/cpu/temperature/availability"
    );
    assert_eq!(
        manager.discovery_topic(),
        "homeassistant/binary_sensor/watchdesk_my_desktop_monitor/config"
    );
    assert_eq!(
        manager.cpu_usage_discovery_topic(),
        "homeassistant/sensor/watchdesk_my_desktop_cpu_usage/config"
    );
    assert_eq!(
        manager.cpu_temp_discovery_topic(),
        "homeassistant/sensor/watchdesk_my_desktop_cpu_temp/config"
    );
}

#[test]
fn makes_slugs_of_names() {
    let cases = [
        ("", ""),
        ("PC-01", "pc_01"),
        ("a/b+c#d", "a_b_c_d"),
        ("\u{c4}pfel B\u{fc}ro", "\u{e4}pfel_b\u{fc}ro"),
        ("\u{130}x", "i_x"),
        ("\u{661}\u{4e2d}\u{1f600}", "\u{661}\u{4e2d}_"),
    ];
    for (name, slug) in cases {
        let expected = name
            .to_lowercase()
            .replace(|c: char| !c.is_alphanumeric(), "_");
        assert_eq!(MqttManager::new(&config(name), false).0.slug(), expected);
        assert_eq!(expected, slug);
    }
}

#[test]
fn a_slug_is_its_own_slug() {
    for name in ["", "My Desktop", "PC-01", "a__b", "\u{130}STANBUL", "\u{3a3}\u{39f}\u{3a3}"] {
        assert_eq!(slug(&slug(name)), slug(name));
    }
    for c in '\0'..=char::MAX {
        let once = slug(&c.to_string());
        assert_eq!(slug(&once), once);
    }
}

#[test]
fn a_pending_state_is_the_last_one_seen() {
    let manager = manager();
    let mut session = connected(&manager);
    for state in [MonitorState::Off, MonitorState::On, MonitorState::Off] {
        manager.step(&mut session, &Event::Monitor(state));
    }
    manager.step(&mut session, &tick(None, None));
    assert_eq!(session.pending, Some(MonitorState::Off));
    assert_ne!(session.pending, Some(session.current));
}

#[test]
fn describes_the_device() {
    let device = manager().device_json();
    assert_eq!(
        device.to_string(),
        "{\"identifiers\":[\"watchdesk_my_desktop\"],\
         \"manufacturer\":\"WatchDesk - meltingice1337\",\
         \"model\":\"PC Status & Sensors\",\"name\":\"My Desktop\"}"
    );
}

#[test]
fn describes_the_monitor() {
    let manager = manager();
    let document: Value = serde_json::from_str(&manager.discovery_payload()).unwrap();
    let members = document.as_object().unwrap();
    assert_eq!(members.len(), 7);
    assert_eq!(members["name"], Value::Null);
    assert_eq!(members["icon"], "mdi:desktop-tower");
    assert_eq!(members["state_topic"], "watchdesk/my_desktop/monitor/state");
    assert_eq!(members["payload_on"], "ON");
    assert_eq!(members["payload_off"], "OFF");
    assert_eq!(members["unique_id"], "watchdesk_my_desktop_power");
    assert_eq!(members["device"], manager.device_json());
}

#[test]
fn describes_the_cpu_usage() {
    let manager = manager();
    let document: Value = serde_json::from_str(&manager.cpu_usage_discovery_payload()).unwrap();
    let members = document.as_object().unwrap();
    assert_eq!(members.len(), 11);
    assert_eq!(members["name"], "CPU Usage");
    assert_eq!(members["icon"], "mdi:cpu-64-bit");
    assert_eq!(members["state_topic"], "watchdesk/my_desktop/cpu/usage");
    assert_eq!(members["unit_of_measurement"], "%");
    assert_eq!(members["state_class"], "measurement");
    assert_eq!(members["suggested_display_precision"], 0);
    assert_eq!(members["availability_topic"], "watchdesk/my_desktop/availability");
    assert_eq!(members["payload_available"], "online");
    assert_eq!(members["payload_not_available"], "offline");
    assert_eq!(members["unique_id"], "watchdesk_my_desktop_cpu_usage");
    assert_eq!(members["device"], manager.device_json());
}

#[test]
fn describes_the_cpu_temperature() {
    let manager = manager();
    let document: Value = serde_json::from_str(&manager.cpu_temp_discovery_payload()).unwrap();
    let members = document.as_object().unwrap();
    assert_eq!(members.len(), 12);
    assert_eq!(members["name"], "CPU Temperature");
    assert_eq!(members["device_class"], "temperature");
    assert_eq!(members["state_topic"], "watchdesk/my_desktop/cpu/temperature");
    assert_eq!(members["unit_of_measurement"], "\u{b0}C");
    assert_eq!(members["state_class"], "measurement");
    assert_eq!(members["suggested_display_precision"], 1);
    assert_eq!(members["availability_mode"], "all");
    assert_eq!(
        members["availability"].to_string(),
        "[{\"topic\":\"watchdesk/my_desktop/availability\"},\
         {\"topic\":\"watchdesk/my_desktop/cpu/temperature/availability\"}]"
    );
    assert_eq!(members["payload_available"], "online");
    assert_eq!(members["payload_not_available"], "offline");
    assert_eq!(members["unique_id"], "watchdesk_my_desktop_cpu_temp");
    assert_eq!(members["device"], manager.device_json());
}

#[test]
fn writes_names_that_need_escapes() {
    let manager = MqttManager::new(&config("a \"quoted\" \\ name\n"), false).0;
    let document: Value = serde_json::from_str(&manager.discovery_payload()).unwrap();
    assert_eq!(document["device"]["name"], "a \"quoted\" \\ name\n");
}

#[test]
fn greets_a_fresh_connection() {
    let manager = manager();
    let mut session = Session::new();
    let actions = manager.step(&mut session, &Event::Connected);
    assert!(session.connected);
    assert_eq!(session.temp_available, None);
    assert_eq!(
        shown(&actions),
        vec![
            "publish watchdesk/my_desktop/availability = online".to_string(),
            format!("publish {} = {}", manager.discovery_topic(), manager.discovery_payload()),
            format!(
                "publish {} = {} | {} = {}",
                manager.cpu_usage_discovery_topic(),
                manager.cpu_usage_discovery_payload(),
                manager.cpu_temp_discovery_topic(),
                manager.cpu_temp_discovery_payload()
            ),
            "publish watchdesk/my_desktop/monitor/state = ON".to_string(),
        ]
    );
}

#[test]
fn speaks_of_wanted_sensors_only() {
    let mut manager = manager();
    manager.metrics.cpu_usage = false;
    let messages = manager.publish_cpu_discovery();
    assert_eq!(messages.len(), 1);
    assert_eq!(messages[0].topic, manager.cpu_temp_discovery_topic());
    manager.metrics.cpu_temp = false;
    assert_eq!(manager.publish_cpu_discovery().len(), 0);
    let mut session = connected(&manager);
    let actions = manager.step(&mut session, &tick(Some("12.5"), Some("50.4")));
    assert_eq!(actions.len(), 0);
    assert!(!manager.samples_usage());
}

#[test]
fn publishes_a_change_that_lasts() {
    let manager = manager();
    let mut session = connected(&manager);
    assert!(!session.debouncing());
    let seen = manager.step(&mut session, &Event::Monitor(MonitorState::Off));
    assert_eq!(shown(&seen), vec!["debounce 3000"]);
    assert!(session.debouncing());
    assert_eq!(session.current, MonitorState::On);
    let over = manager.step(&mut session, &Event::DebounceElapsed);
    assert_eq!(shown(&over), vec!["publish watchdesk/my_desktop/monitor/state = OFF"]);
    assert_eq!(session.current, MonitorState::Off);
    assert!(!session.debouncing());
}

#[test]
fn drops_a_change_that_reverts() {
    let manager = manager();
    let mut session = connected(&manager);
    manager.step(&mut session, &Event::Monitor(MonitorState::Off));
    let back = manager.step(&mut session, &Event::Monitor(MonitorState::On));
    assert_eq!(back.len(), 0);
    assert!(!session.debouncing());
    let over = manager.step(&mut session, &Event::DebounceElapsed);
    assert_eq!(over.len(), 0);
    assert_eq!(session.current, MonitorState::On);
}

#[test]
fn a_state_seen_again_restarts_the_debounce() {
    let manager = manager();
    let mut session = connected(&manager);
    manager.step(&mut session, &Event::Monitor(MonitorState::Off));
    let again = manager.step(&mut session, &Event::Monitor(MonitorState::Off));
    assert_eq!(shown(&again), vec!["debounce 3000"]);
    assert_eq!(session.pending, Some(MonitorState::Off));
}

#[test]
fn says_nothing_while_disconnected() {
    let manager = manager();
    let mut session = Session::new();
    manager.step(&mut session, &Event::Monitor(MonitorState::Off));
    let over = manager.step(&mut session, &Event::DebounceElapsed);
    assert_eq!(over.len(), 0);
    assert_eq!(session.current, MonitorState::Off);
    let ticked = manager.step(&mut session, &tick(Some("12.5"), Some("50.4")));
    assert_eq!(ticked.len(), 0);
    let ended = manager.step(&mut session, &Event::Shutdown);
    assert_eq!(shown(&ended), vec!["stop"]);
}

#[test]
fn makes_up_for_a_missed_change() {
    let manager = manager();
    let mut session = connected(&manager);
    let lost = manager.step(&mut session, &Event::ConnectionLost);
    assert_eq!(shown(&lost), vec!["pause 1000"]);
    assert!(!session.connected);
    manager.step(&mut session, &Event::Monitor(MonitorState::Off));
    manager.step(&mut session, &Event::DebounceElapsed);
    let back = manager.step(&mut session, &Event::Connected);
    assert_eq!(shown(&back)[3], "publish watchdesk/my_desktop/monitor/state = OFF");
}

#[test]
fn ignores_other_packets() {
    let manager = manager();
    let mut session = connected(&manager);
    let actions = manager.step(&mut session, &Event::OtherPacket);
    assert_eq!(actions.len(), 0);
    assert!(session.connected);
}

#[test]
fn publishes_metrics_while_connected() {
    let manager = manager();
    let mut session = connected(&manager);
    let first = manager.step(&mut session, &tick(Some("12.5"), Some("50.4")));
    assert_eq!(
        shown(&first),
        vec![
            "try watchdesk/my_desktop/cpu/usage = 12.5",
            "try watchdesk/my_desktop/cpu/temperature = 50.4",
            "announce watchdesk/my_desktop/cpu/temperature/availability = online true",
        ]
    );
    assert_eq!(session.temp_available, None);
    manager.step(&mut session, &Event::TempAnnounced(true));
    let second = manager.step(&mut session, &tick(Some("13.0"), Some("50.5")));
    assert_eq!(
        shown(&second),
        vec![
            "try watchdesk/my_desktop/cpu/usage = 13.0",
            "try watchdesk/my_desktop/cpu/temperature = 50.5",
        ]
    );
}

#[test]
fn a_lost_reading_makes_the_sensor_unavailable() {
    let manager = manager();
    let mut session = connected(&manager);
    manager.step(&mut session, &Event::TempAnnounced(true));
    let gone = manager.step(&mut session, &tick(Some("12.5"), None));
    assert_eq!(
        shown(&gone),
        vec![
            "try watchdesk/my_desktop/cpu/usage = 12.5",
            "announce watchdesk/my_desktop/cpu/temperature/availability = offline false",
        ]
    );
    // It could not be queued, so it is tried again.
    let again = manager.step(&mut session, &tick(None, None));
    assert_eq!(
        shown(&again),
        vec!["announce watchdesk/my_desktop/cpu/temperature/availability = offline false"]
    );
    manager.step(&mut session, &Event::TempAnnounced(false));
    let quiet = manager.step(&mut session, &tick(None, None));
    assert_eq!(quiet.len(), 0);
}

#[test]
fn a_fresh_connection_is_told_of_the_sensor_again() {
    let manager = manager();
    let mut session = connected(&manager);
    manager.step(&mut session, &Event::TempAnnounced(true));
    manager.step(&mut session, &Event::ConnectionLost);
    manager.step(&mut session, &Event::Connected);
    let actions = manager.step(&mut session, &tick(None, Some("50.4")));
    assert_eq!(
        shown(&actions)[1],
        "announce watchdesk/my_desktop/cpu/temperature/availability = online true"
    );
}

#[test]
fn leaves_the_truth_behind() {
    let manager = manager();
    let mut session = connected(&manager);
    let actions = manager.step(&mut session, &Event::Shutdown);
    assert_eq!(
        shown(&actions),
        vec![
            "farewell watchdesk/my_desktop/monitor/state = OFF | \
             watchdesk/my_desktop/availability = offline 500",
            "stop",
        ]
    );
}

#[test]
fn ticks_at_least_a_second_apart() {
    let mut manager = manager();
    assert_eq!(manager.poll_secs(), 5);
    manager.metrics.interval_secs = 0;
    assert_eq!(manager.poll_secs(), 1);
    assert_eq!(poll_interval(7), 7);
}

/// What was said last on a topic in a run of events.
fn told(manager: &MqttManager, events: &[Event], topic: &str) -> Option<String> {
    let mut session = Session::new();
    let mut last = None;
    for event in events {
        for action in manager.step(&mut session, event) {
            let messages = match action {
                Action::Publish(messages) => messages,
                Action::TryPublish(message) => vec![message],
                Action::AnnounceTemp { message, .. } => vec![message],
                Action::Farewell { messages, .. } => messages,
                _ => Vec::new(),
            };
            for message in messages {
                if message.topic == topic {
                    last = Some(message.payload);
                }
            }
        }
    }
    last
}

#[test]
fn keeps_the_broker_up_to_date() {
    let manager = manager();
    let state = manager.state_topic();
    let availability = manager.availability_topic();
    let mut events = vec![
        Event::Monitor(MonitorState::Off),
        Event::DebounceElapsed,
        tick(Some("1.0"), None),
    ];
    assert_eq!(told(&manager, &events, &state), None);
    events.push(Event::Connected);
    assert_eq!(told(&manager, &events, &state).as_deref(), Some("OFF"));
    assert_eq!(told(&manager, &events, &availability).as_deref(), Some("online"));
    events.push(Event::Monitor(MonitorState::On));
    events.push(tick(Some("1.0"), Some("40.0")));
    assert_eq!(told(&manager, &events, &state).as_deref(), Some("OFF"));
    events.push(Event::DebounceElapsed);
    assert_eq!(told(&manager, &events, &state).as_deref(), Some("ON"));
    events.push(Event::Shutdown);
    assert_eq!(told(&manager, &events, &state).as_deref(), Some("OFF"));
    assert_eq!(told(&manager, &events, &availability).as_deref(), Some("offline"));
}

#[test]
fn no_two_topics_and_no_two_sensors_are_the_same() {
    let mut names: Vec<String> = Vec::new();
    for name in ["pc", "pc_cpu", "pc_cpu_temp", "pc/monitor", ""] {
        let manager = MqttManager::new(&config(name), true).0;
        names.push(manager.availability_topic());
        names.push(manager.state_topic());
        names.push(manager.cpu_usage_state_topic());
        names.push(manager.cpu_temp_state_topic());
        names.push(manager.cpu_temp_availability_topic());
        names.push(manager.discovery_topic());
        names.push(manager.cpu_usage_discovery_topic());
        names.push(manager.cpu_temp_discovery_topic());
        for document in [
            manager.discovery_payload(),
            manager.cpu_usage_discovery_payload(),
            manager.cpu_temp_discovery_payload(),
        ] {
            let document: Value = serde_json::from_str(&document).unwrap();
            names.push(document["unique_id"].to_string());
        }
    }
    assert!(names.iter().all(|name| !name.contains('+') && !name.contains('#')));
    let count = names.len();
    names.sort();
    names.dedup();
    assert_eq!(names.len(), count);
}

#[test]
fn knows_what_was_announced_last() {
    let manager = manager();
    let mut session = connected(&manager);
    assert_eq!(session.temp_available, None);
    for available in [true, false, true] {
        manager.step(&mut session, &Event::TempAnnounced(available));
        manager.step(&mut session, &tick(Some("1.0"), None));
        manager.step(&mut session, &Event::Monitor(MonitorState::Off));
        assert_eq!(session.temp_available, Some(available));
    }
    manager.step(&mut session, &Event::ConnectionLost);
    assert_eq!(session.temp_available, Some(true));
    manager.step(&mut session, &Event::Connected);
    assert_eq!(session.temp_available, None);
}
