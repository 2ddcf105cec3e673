//! The configuration: what a `config.toml` holds, what stands for what it
//! leaves out, and where it and the other files of the service lie.
use vstd::prelude::*;
use vstd::string::StringExecFns;

verus! {

/// Where AMD's Ryzen Master SDK puts its command line tool by default.
pub const RYZEN_MASTER_CLI: &'static str =
    "C:\\Program Files\\AMD\\RyzenMasterSDK\\AMDRyzenMasterCLI\\bin-prebuilt\\AMDRyzenMasterCLI.exe";

/// The directory of the service's files.
pub const PROGRAMDATA_DIR: &'static str = "C:\\ProgramData\\WatchDesk";

/// The name of the configuration file.
pub const CONFIG_FILE: &'static str = "config.toml";

/// The path of a file in a directory.
pub open spec fn path_in(dir: Seq<char>, name: Seq<char>) -> Seq<char> {
    dir + "\\"@ + name
}

/// The path of one of the service's files.
pub open spec fn programdata_file(name: Seq<char>) -> Seq<char> {
    path_in(PROGRAMDATA_DIR@, name)
}

/// The path of one of the service's files.
pub fn programdata_path(name: &str) -> (res: String)
    ensures
        res@ == programdata_file(name@),
{
    Config::programdata_dir().concat("\\").concat(name)
}

/// The whole configuration.
#[derive(Debug)]
pub struct Config {
    pub mqtt: MqttConfig,
    pub device: DeviceConfig,
    pub startup: StartupConfig,
    pub metrics: MetricsConfig,
}

/// How to reach the MQTT broker.
#[derive(Debug)]
pub struct MqttConfig {
    pub host: String,
    pub port: u16,
    pub username: Option<String>,
    pub password: Option<String>,
}

/// The device as Home Assistant shows it.
#[derive(Debug)]
pub struct DeviceConfig {
    pub name: String,
}

/// Optional one-shot actions to run when WatchDesk starts.
#[derive(Debug)]
pub struct StartupConfig {
    /// Turn the Windows Bluetooth radio off on startup.
    pub turn_off_bluetooth: bool,
}

/// Optional CPU metrics. Everything defaults on.
#[derive(Debug)]
pub struct MetricsConfig {
    /// How often to sample and publish, in seconds.
    pub interval_secs: u64,
    /// Publish the global CPU usage (%).
    pub cpu_usage: bool,
    /// Publish the CPU temperature (degrees Celsius).
    pub cpu_temp: bool,
    /// Where `AMDRyzenMasterCLI.exe` lies, if not where the SDK puts it.
    pub ryzen_master_cli: Option<String>,
}

/// A configuration file as it was written: what it leaves out is `None`.
#[derive(Debug)]
pub struct ConfigFile {
    pub mqtt: MqttSection,
    pub device: DeviceConfig,
    pub startup: Option<StartupSection>,
    pub metrics: Option<MetricsSection>,
}

/// The `[mqtt]` section of a configuration file.
#[derive(Debug)]
pub struct MqttSection {
    pub host: String,
    pub port: Option<u16>,
    pub username: Option<String>,
    pub password: Option<String>,
}

/// The `[startup]` section of a configuration file.
#[derive(Debug)]
pub struct StartupSection {
    pub turn_off_bluetooth: Option<bool>,
}

/// The `[metrics]` section of a configuration file.
#[derive(Debug)]
pub struct MetricsSection {
    pub interval_secs: Option<u64>,
    pub cpu_usage: Option<bool>,
    pub cpu_temp: Option<bool>,
    pub ryzen_master_cli: Option<String>,
}

/// The text of an optional string.
pub open spec fn optional_text(s: Option<String>) -> Option<Seq<char>> {
    match s {
        Some(t) => Some(t@),
        None => None,
    }
}

/// A copy of an optional string.
pub fn copy_optional(s: &Option<String>) -> (res: Option<String>)
    ensures
        res == *s,
{
    match s {
        Some(t) => Some(t.clone()),
        None => None,
    }
}

/// The port of a broker that names none.
pub fn default_port() -> (res: u16)
    ensures
        res == 1883,
{
    1883
}

/// The interval between samples, in seconds, where none is given.
pub fn default_interval() -> (res: u64)
    ensures
        res == 5,
{
    5
}

/// What a sensor that is not mentioned is: on.
pub fn default_true() -> (res: bool)
    ensures
        res,
{
    true
}

impl StartupConfig {
    /// The startup actions of a configuration without a `[startup]` section.
    pub open spec fn spec_default() -> StartupConfig {
        StartupConfig { turn_off_bluetooth: false }
    }
}

impl Default for StartupConfig {
    fn default() -> (res: Self)
        ensures
            res == StartupConfig::spec_default(),
    {
        StartupConfig { turn_off_bluetooth: false }
    }
}

impl Clone for StartupConfig {
    fn clone(&self) -> (res: Self)
        ensures
            res == *self,
    {
        StartupConfig { turn_off_bluetooth: self.turn_off_bluetooth }
    }
}

impl MetricsConfig {
    /// The metrics of a configuration without a `[metrics]` section.
    pub open spec fn spec_default() -> MetricsConfig {
        MetricsConfig { interval_secs: 5, cpu_usage: true, cpu_temp: true, ryzen_master_cli: None }
    }
}

impl Default for MetricsConfig {
    fn default() -> (res: Self)
        ensures
            res == MetricsConfig::spec_default(),
    {
        MetricsConfig {
            interval_secs: default_interval(),
            cpu_usage: default_true(),
            cpu_temp: default_true(),
            ryzen_master_cli: None,
        }
    }
}

impl Clone for MetricsConfig {
    fn clone(&self) -> (res: Self)
        ensures
            res == *self,
    {
        MetricsConfig {
            interval_secs: self.interval_secs,
            cpu_usage: self.cpu_usage,
            cpu_temp: self.cpu_temp,
            ryzen_master_cli: copy_optional(&self.ryzen_master_cli),
        }
    }
}

/// What is written, or else what stands for it.
pub open spec fn or_else<T>(written: Option<T>, default: T) -> T {
    match written {
        Some(v) => v,
        None => default,
    }
}

/// What a configuration file says, with the defaults where it is silent.
pub open spec fn resolved(file: ConfigFile) -> Config {
    Config {
        mqtt: MqttConfig {
            host: file.mqtt.host,
            port: or_else(file.mqtt.port, 1883),
            username: file.mqtt.username,
            password: file.mqtt.password,
        },
        device: file.device,
        startup: match file.startup {
            Some(s) => StartupConfig { turn_off_bluetooth: or_else(s.turn_off_bluetooth, false) },
            None => StartupConfig::spec_default(),
        },
        metrics: match file.metrics {
            Some(m) => MetricsConfig {
                interval_secs: or_else(m.interval_secs, 5),
                cpu_usage: or_else(m.cpu_usage, true),
                cpu_temp: or_else(m.cpu_temp, true),
                ryzen_master_cli: m.ryzen_master_cli,
            },
            None => MetricsConfig::spec_default(),
        },
    }
}

/// Why there is no configuration.
#[derive(Debug)]
pub enum ConfigError {
    /// There is no configuration file.
    NotFound,
    /// The configuration file cannot be read.
    Unreadable { path: String, cause: String },
    /// The configuration file does not say what it has to.
    Invalid { cause: String },
}

impl ConfigError {
    /// The error in words.
    pub open spec fn text(self) -> Seq<char> {
        match self {
            ConfigError::NotFound => "config.toml not found in current directory or "@
                + programdata_file(CONFIG_FILE@),
            ConfigError::Unreadable { path, cause } => "Failed to read config at "@ + path@ + ": "@
                + cause@,
            ConfigError::Invalid { cause } => cause@,
        }
    }

    /// The error in words.
    pub fn message(&self) -> (res: String)
        ensures
            res@ == self.text(),
    {
        match self {
            ConfigError::NotFound => {
                "config.toml not found in current directory or ".to_owned().concat(
                    Config::programdata_config_path().as_str(),
                )
            },
            ConfigError::Unreadable { path, cause } => {
                "Failed to read config at ".to_owned().concat(path.as_str()).concat(": ").concat(
                    cause.as_str(),
                )
            },
            ConfigError::Invalid { cause } => cause.clone(),
        }
    }
}

impl Config {
    /// The configuration that a file gives.
    pub fn from_file(file: ConfigFile) -> (res: Config)
        ensures
            res == resolved(file),
            file.startup is Some && file.startup->0.turn_off_bluetooth is Some
                ==> res.startup.turn_off_bluetooth == file.startup->0.turn_off_bluetooth->0,
            file.mqtt.port is Some ==> res.mqtt.port == file.mqtt.port->0,
    {
        let port = match file.mqtt.port {
            Some(p) => p,
            None => default_port(),
        };
        let startup = match file.startup {
            Some(s) => StartupConfig {
                turn_off_bluetooth: match s.turn_off_bluetooth {
                    Some(b) => b,
                    None => false,
                },
            },
            None => StartupConfig::default(),
        };
        let metrics = match file.metrics {
            Some(m) => MetricsConfig {
                interval_secs: match m.interval_secs {
                    Some(n) => n,
                    None => default_interval(),
                },
                cpu_usage: match m.cpu_usage {
                    Some(b) => b,
                    None => default_true(),
                },
                cpu_temp: match m.cpu_temp {
                    Some(b) => b,
                    None => default_true(),
                },
                ryzen_master_cli: m.ryzen_master_cli,
            },
            None => MetricsConfig::default(),
        };
        Config {
            mqtt: MqttConfig {
                host: file.mqtt.host,
                port,
                username: file.mqtt.username,
                password: file.mqtt.password,
            },
            device: file.device,
            startup,
            metrics,
        }
    }

    /// The directory of the service's files.
    pub fn programdata_dir() -> (res: String)
        ensures
            res@ == PROGRAMDATA_DIR@,
    {
        PROGRAMDATA_DIR.to_owned()
    }

    /// The configuration file that the service reads.
    pub fn programdata_config_path() -> (res: String)
        ensures
            res@ == programdata_file(CONFIG_FILE@),
    {
        programdata_path(CONFIG_FILE)
    }

    /// The command line tool that CPU temperature is read with, or `None` where
    /// the SDK is not installed. An explicit path wins, whether or not
    /// anything is there; `default_exists` says whether the tool lies where the
    /// SDK puts it.
    pub fn ryzen_master_cli_path(&self, default_exists: bool) -> (res: Option<String>)
        ensures
            optional_text(res) == cli_path(self.metrics, default_exists),
    {
        match &self.metrics.ryzen_master_cli {
            Some(path) => Some(path.clone()),
            None => if default_exists {
                Some(RYZEN_MASTER_CLI.to_owned())
            } else {
                None
            },
        }
    }
}

/// Where the command line tool for the CPU temperature lies, if anywhere.
pub open spec fn cli_path(metrics: MetricsConfig, default_exists: bool) -> Option<Seq<char>> {
    match metrics.ryzen_master_cli {
        Some(path) => Some(path@),
        None => if default_exists {
            Some(RYZEN_MASTER_CLI@)
        } else {
            None
        },
    }
}

/// Which configuration file to read: the one in the working directory if there
/// is one, else the service's own.
pub fn config_path(in_working_dir: bool, in_programdata: bool) -> (res: Result<
    String,
    ConfigError,
>)
    ensures
        match res {
            Ok(path) => if in_working_dir {
                path@ == CONFIG_FILE@
            } else {
                in_programdata && path@ == programdata_file(CONFIG_FILE@)
            },
            Err(e) => !in_working_dir && !in_programdata && e is NotFound,
        },
{
    if in_working_dir {
        return Ok(CONFIG_FILE.to_owned());
    }
    if in_programdata {
        return Ok(Config::programdata_config_path());
    }
    Err(ConfigError::NotFound)
}

/// A configuration file that says nothing of startup actions and metrics keeps
/// working: no startup action runs, and both sensors are on.
pub proof fn law_missing_sections_default(file: ConfigFile)
    requires
        file.startup is None,
        file.metrics is None,
    ensures
        resolved(file).startup == StartupConfig::spec_default(),
        resolved(file).metrics == MetricsConfig::spec_default(),
{
}

/// A section that is there but empty says the same as one that is missing.
pub proof fn law_empty_sections_are_missing_sections(file: ConfigFile)
    requires
        file.startup is None,
        file.metrics is None,
    ensures
        resolved(file) == resolved(
            ConfigFile {
                startup: Some(StartupSection { turn_off_bluetooth: None }),
                metrics: Some(
                    MetricsSection {
                        interval_secs: None,
                        cpu_usage: None,
                        cpu_temp: None,
                        ryzen_master_cli: None,
                    },
                ),
                ..file
            },
        ),
{
}

/// An explicit path to the command line tool wins, whatever lies where the SDK
/// puts it.
pub proof fn law_explicit_path_wins(metrics: MetricsConfig, default_exists: bool)
    requires
        metrics.ryzen_master_cli is Some,
    ensures
        cli_path(metrics, default_exists) == Some(metrics.ryzen_master_cli->0@),
{
}

/// What a configuration file writes is what the configuration says, field by
/// field, whatever the value and whatever else the file writes.
pub proof fn law_what_is_written_counts(file: ConfigFile)
    ensures
        ({
            let config = resolved(file);
            &&& config.mqtt.host == file.mqtt.host
            &&& config.mqtt.username == file.mqtt.username
            &&& config.mqtt.password == file.mqtt.password
            &&& config.device == file.device
            &&& file.mqtt.port matches Some(port) ==> config.mqtt.port == port
            &&& file.startup matches Some(startup) ==> (startup.turn_off_bluetooth matches Some(b)
                ==> config.startup.turn_off_bluetooth == b)
            &&& file.metrics matches Some(metrics) ==> {
                &&& metrics.interval_secs matches Some(secs) ==> config.metrics.interval_secs
                    == secs
                &&& metrics.cpu_usage matches Some(b) ==> config.metrics.cpu_usage == b
                &&& metrics.cpu_temp matches Some(b) ==> config.metrics.cpu_temp == b
                &&& config.metrics.ryzen_master_cli == metrics.ryzen_master_cli
            }
        }),
{
}

/// What a configuration file leaves out has these values, field by field,
/// whatever else the file writes: port 1883, no Bluetooth action, a sample every
/// five seconds, both sensors on and no explicit tool.
pub proof fn law_what_is_left_out_defaults(file: ConfigFile)
    ensures
        ({
            let config = resolved(file);
            &&& file.mqtt.port is None ==> config.mqtt.port == 1883
            &&& file.startup is None || file.startup->0.turn_off_bluetooth is None
                ==> !config.startup.turn_off_bluetooth
            &&& file.metrics is None || file.metrics->0.interval_secs is None
                ==> config.metrics.interval_secs == 5
            &&& file.metrics is None || file.metrics->0.cpu_usage is None
                ==> config.metrics.cpu_usage
            &&& file.metrics is None || file.metrics->0.cpu_temp is None ==> config.metrics.cpu_temp
            &&& file.metrics is None || file.metrics->0.ryzen_master_cli is None
                ==> config.metrics.ryzen_master_cli is None
        }),
{
}

/// Without an explicit path the tool lies where the SDK puts it, if it is
/// there, and else nowhere; nothing else of the metrics matters.
pub proof fn law_tool_lies_where_the_sdk_puts_it(metrics: MetricsConfig)
    requires
        metrics.ryzen_master_cli is None,
    ensures
        cli_path(metrics, true) == Some(
            "C:\\Program Files\\AMD\\RyzenMasterSDK\\AMDRyzenMasterCLI\\bin-prebuilt\\AMDRyzenMasterCLI.exe"@,
        ),
        cli_path(metrics, false) is None,
{
}

/// Every file of the service lies in one directory, under its own name.
pub proof fn law_files_lie_in_programdata(name: Seq<char>, other: Seq<char>)
    ensures
        programdata_file(name) == "C:\\ProgramData\\WatchDesk"@ + "\\"@ + name,
        programdata_file(name) == programdata_file(other) ==> name == other,
{
    let dir = "C:\\ProgramData\\WatchDesk"@ + "\\"@;
    assert((dir + name).skip(dir.len() as int) == name);
    assert((dir + other).skip(dir.len() as int) == other);
}

/// An error names what it is about: where a configuration was looked for, which
/// file could not be read and why, or what is wrong with it.
pub proof fn law_errors_name_the_cause(path: String, cause: String)
    ensures
        ConfigError::NotFound.text() == "config.toml not found in current directory or "@
            + "C:\\ProgramData\\WatchDesk"@ + "\\"@ + "config.toml"@,
        (ConfigError::Unreadable { path, cause }).text() == "Failed to read config at "@ + path@
            + ": "@ + cause@,
        (ConfigError::Invalid { cause }).text() == cause@,
{
    assert("config.toml not found in current directory or "@ + (
    "C:\\ProgramData\\WatchDesk"@ + "\\"@ + "config.toml"@)
        == "config.toml not found in current directory or "@ + "C:\\ProgramData\\WatchDesk"@
        + "\\"@ + "config.toml"@);
}

/// The text of an optional string is that of the string, where there is one,
/// the empty one too.
pub proof fn law_optional_text_is_the_text(s: String)
    ensures
        optional_text(Some(s)) == Some(s@),
        optional_text(None) is None,
{
}

/// The file in the working directory is read whenever it is there, and else the
/// service's own; there is an error if and only if there is neither.
pub proof fn law_nearest_file_is_read(
    in_working_dir: bool,
    in_programdata: bool,
    res: Result<String, ConfigError>,
)
    requires
        call_ensures(config_path, (in_working_dir, in_programdata), res),
    ensures
        res is Err <==> !in_working_dir && !in_programdata,
        res is Err ==> res->Err_0 is NotFound,
        in_working_dir ==> res is Ok && res->Ok_0@ == "config.toml"@,
        !in_working_dir && in_programdata ==> res is Ok && res->Ok_0@
            == "C:\\ProgramData\\WatchDesk"@ + "\\"@ + "config.toml"@,
{
}

/// A configuration that was loaded says what its file writes.
pub proof fn law_loaded_configuration_says_what_is_written(file: ConfigFile, config: Config)
    requires
        call_ensures(Config::from_file, (file,), config),
    ensures
        config.mqtt.host == file.mqtt.host,
        config.mqtt.username == file.mqtt.username,
        config.mqtt.password == file.mqtt.password,
        config.device == file.device,
        file.mqtt.port is Some ==> config.mqtt.port == file.mqtt.port->0,
        file.startup is Some && file.startup->0.turn_off_bluetooth is Some
            ==> config.startup.turn_off_bluetooth == file.startup->0.turn_off_bluetooth->0,
        file.metrics is Some && file.metrics->0.interval_secs is Some
            ==> config.metrics.interval_secs == file.metrics->0.interval_secs->0,
        file.metrics is Some && file.metrics->0.cpu_usage is Some ==> config.metrics.cpu_usage
            == file.metrics->0.cpu_usage->0,
        file.metrics is Some && file.metrics->0.cpu_temp is Some ==> config.metrics.cpu_temp
            == file.metrics->0.cpu_temp->0,
        file.metrics is Some ==> config.metrics.ryzen_master_cli
            == file.metrics->0.ryzen_master_cli,
{
    law_what_is_written_counts(file);
}

} // verus!
