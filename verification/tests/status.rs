use watchdesk::config::Config;
use watchdesk::config::DeviceConfig;
use watchdesk::config::MetricsConfig;
use watchdesk::config::MqttConfig;
use watchdesk::config::StartupConfig;
use watchdesk::status::cmd_status;
use watchdesk::status::log_path;
use watchdesk::status::Registration;
use watchdesk::status::ServiceSetup;
use watchdesk::status::ServiceStatus;

fn config(username: Option<&str>) -> Config {
    Config {
        mqtt: MqttConfig {
            host: "broker.local".to_string(),
            port: 1883,
            username: username.map(str::to_string),
            password: None,
        },
        device: DeviceConfig {
            name: "My Desktop".to_string(),
        },
        startup: StartupConfig {
            turn_off_bluetooth: username.is_some(),
        },
        metrics: MetricsConfig::default(),
    }
}

#[test]
fn shows_a_running_service() {
    let registration = Registration::Installed {
        status: ServiceStatus::State {
            state: "Running".to_string(),
            pid: Some(4711),
        },
        setup: Some(ServiceSetup {
            start_type: "AutoStart".to_string(),
            exe_path: "C:\\ProgramData\\WatchDesk\\watchdesk.exe".to_string(),
        }),
    };
    let log = Some("first\r\nsecond\n".to_string());
    assert_eq!(
        cmd_status(&registration, &Ok(config(Some("user"))), &log),
        vec![
            "WatchDesk status",
            "================",
            "Service    : installed",
            "State      : Running",
            "PID        : 4711",
            "Start type : AutoStart",
            "Exe path   : C:\\ProgramData\\WatchDesk\\watchdesk.exe",
            "",
            "Config     : C:\\ProgramData\\WatchDesk\\config.toml",
            "  MQTT     : broker.local:1883",
            "  Device   : My Desktop",
            "  Startup  : turn_off_bluetooth=true",
            "  Auth     : credentials set",
            "",
            "Recent log (C:\\ProgramData\\WatchDesk\\watchdesk.log):",
            "  first",
            "  second",
        ]
    );
}

#[test]
fn shows_that_nothing_is_there() {
    let error = Err("config.toml not found".to_string());
    assert_eq!(
        cmd_status(&Registration::Missing, &error, &None),
        vec![
            "WatchDesk status",
            "================",
            "Service    : NOT installed",
            "",
            "Config     : C:\\ProgramData\\WatchDesk\\config.toml",
            "  (not loaded: config.toml not found)",
            "",
            "Log        : none at C:\\ProgramData\\WatchDesk\\watchdesk.log",
        ]
    );
    assert_eq!(log_path(), "C:\\ProgramData\\WatchDesk\\watchdesk.log");
}

#[test]
fn shows_what_cannot_be_known() {
    let unknown = Registration::Unknown {
        cause: "denied".to_string(),
    };
    let lines = cmd_status(&unknown, &Ok(config(None)), &None);
    assert_eq!(lines[2], "Service    : unknown (cannot open service manager: denied)");
    assert_eq!(lines[7], "  Startup  : turn_off_bluetooth=false");
    assert_eq!(lines[8], "  Auth     : anonymous");
    let silent = Registration::Installed {
        status: ServiceStatus::Unknown {
            cause: "denied".to_string(),
        },
        setup: None,
    };
    let lines = cmd_status(&silent, &Ok(config(None)), &None);
    assert_eq!(lines[2], "Service    : installed (status query failed: denied)");
    assert_eq!(lines[3], "");
}

#[test]
fn shows_the_end_of_a_long_log() {
    let mut log = String::new();
    for n in 0..25 {
        log.push_str(&format!("line {n}\n"));
    }
    let lines = cmd_status(&Registration::Missing, &Ok(config(None)), &Some(log));
    let shown = &lines[lines.len() - 10..];
    assert_eq!(shown[0], "  line 15");
    assert_eq!(shown[9], "  line 24");
    assert_eq!(
        lines[lines.len() - 11],
        "Recent log (C:\\ProgramData\\WatchDesk\\watchdesk.log):"
    );
}
