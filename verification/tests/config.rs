use watchdesk::config::config_path;
use watchdesk::config::default_interval;
use watchdesk::config::default_port;
use watchdesk::config::default_true;
use watchdesk::config::Config;
use watchdesk::config::ConfigError;
use watchdesk::config::ConfigFile;
use watchdesk::config::DeviceConfig;
use watchdesk::config::MetricsConfig;
use watchdesk::config::MetricsSection;
use watchdesk::config::MqttSection;
use watchdesk::config::StartupConfig;
use watchdesk::config::StartupSection;

fn file(startup: Option<StartupSection>, metrics: Option<MetricsSection>) -> ConfigFile {
    ConfigFile {
        mqtt: MqttSection {
            host: "192.168.1.100".to_string(),
            port: None,
            username: None,
            password: None,
        },
        device: DeviceConfig {
            name: "My Desktop".to_string(),
        },
        startup,
        metrics,
    }
}

#[test]
fn missing_sections_have_defaults() {
    let config = Config::from_file(file(None, None));
    assert_eq!(config.mqtt.host, "192.168.1.100");
    assert_eq!(config.mqtt.port, 1883);
    assert_eq!(config.mqtt.username, None);
    assert_eq!(config.mqtt.password, None);
    assert_eq!(config.device.name, "My Desktop");
    assert!(!config.startup.turn_off_bluetooth);
    assert_eq!(config.metrics.interval_secs, 5);
    assert!(config.metrics.cpu_usage);
    assert!(config.metrics.cpu_temp);
    assert_eq!(config.metrics.ryzen_master_cli, None);
}

#[test]
fn empty_sections_say_what_missing_ones_say() {
    let empty = Config::from_file(file(
        Some(StartupSection {
            turn_off_bluetooth: None,
        }),
        Some(MetricsSection {
            interval_secs: None,
            cpu_usage: None,
            cpu_temp: None,
            ryzen_master_cli: None,
        }),
    ));
    let missing = Config::from_file(file(None, None));
    assert_eq!(format!("{empty:?}"), format!("{missing:?}"));
}

#[test]
fn what_is_written_counts() {
    let mut written = file(
        Some(StartupSection {
            turn_off_bluetooth: Some(true),
        }),
        Some(MetricsSection {
            interval_secs: Some(60),
            cpu_usage: Some(false),
            cpu_temp: Some(false),
            ryzen_master_cli: Some("D:\\cli.exe".to_string()),
        }),
    );
    written.mqtt.port = Some(8883);
    written.mqtt.username = Some("user".to_string());
    written.mqtt.password = Some("pass".to_string());
    let config = Config::from_file(written);
    assert_eq!(config.mqtt.port, 8883);
    assert_eq!(config.mqtt.username.as_deref(), Some("user"));
    assert_eq!(config.mqtt.password.as_deref(), Some("pass"));
    assert!(config.startup.turn_off_bluetooth);
    assert_eq!(config.metrics.interval_secs, 60);
    assert!(!config.metrics.cpu_usage);
    assert!(!config.metrics.cpu_temp);
    assert_eq!(config.metrics.ryzen_master_cli.as_deref(), Some("D:\\cli.exe"));
}

#[test]
fn defaults_are_these() {
    assert_eq!(default_port(), 1883);
    assert_eq!(default_interval(), 5);
    assert!(default_true());
    assert!(!StartupConfig::default().clone().turn_off_bluetooth);
    let metrics = MetricsConfig::default();
    assert_eq!(format!("{:?}", metrics.clone()), format!("{metrics:?}"));
    assert_eq!(metrics.interval_secs, 5);
}

#[test]
fn files_lie_in_programdata() {
    assert_eq!(Config::programdata_dir(), "C:\\ProgramData\\WatchDesk");
    assert_eq!(
        Config::programdata_config_path(),
        "C:\\ProgramData\\WatchDesk\\config.toml"
    );
}

#[test]
fn the_working_directory_comes_first() {
    assert_eq!(config_path(true, true).unwrap(), "config.toml");
    assert_eq!(config_path(true, false).unwrap(), "config.toml");
    assert_eq!(
        config_path(false, true).unwrap(),
        "C:\\ProgramData\\WatchDesk\\config.toml"
    );
    let error = config_path(false, false).unwrap_err();
    assert!(matches!(error, ConfigError::NotFound));
    assert_eq!(
        error.message(),
        "config.toml not found in current directory or C:\\ProgramData\\WatchDesk\\config.toml"
    );
}

#[test]
fn errors_say_what_went_wrong() {
    let unreadable = ConfigError::Unreadable {
        path: "config.toml".to_string(),
        cause: "access denied".to_string(),
    };
    assert_eq!(
        unreadable.message(),
        "Failed to read config at config.toml: access denied"
    );
    let invalid = ConfigError::Invalid {
        cause: "missing field `mqtt`".to_string(),
    };
    assert_eq!(invalid.message(), "missing field `mqtt`");
}

#[test]
fn an_explicit_tool_wins() {
    let mut config = Config::from_file(file(None, None));
    assert_eq!(config.ryzen_master_cli_path(false), None);
    assert_eq!(
        config.ryzen_master_cli_path(true).as_deref(),
        Some("C:\\Program Files\\AMD\\RyzenMasterSDK\\AMDRyzenMasterCLI\\bin-prebuilt\\AMDRyzenMasterCLI.exe")
    );
    config.metrics.ryzen_master_cli = Some("D:\\typo.exe".to_string());
    assert_eq!(config.ryzen_master_cli_path(true).as_deref(), Some("D:\\typo.exe"));
    assert_eq!(config.ryzen_master_cli_path(false).as_deref(), Some("D:\\typo.exe"));
}
