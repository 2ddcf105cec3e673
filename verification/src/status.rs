//! What `watchdesk status` shows.
use crate::config::programdata_file;
use crate::config::Config;
use crate::config::CONFIG_FILE;
use crate::text;
use crate::text::decimal_of;
use crate::text::lines_of;
use crate::text::texts;
use vstd::prelude::*;
use vstd::string::StringExecFns;

verus! {

/// How many lines of the log are shown.
pub const LOG_LINES: usize = 10;

/// What is known of the service's registration.
#[derive(Debug)]
pub enum Registration {
    /// Nothing: the service manager cannot be asked.
    Unknown { cause: String },
    /// It is not there.
    Missing,
    /// It is there.
    Installed { status: ServiceStatus, setup: Option<ServiceSetup> },
}

/// What a service that is installed does.
#[derive(Debug)]
pub enum ServiceStatus {
    /// It is in this state, in this process.
    State { state: String, pid: Option<u32> },
    /// It does not say.
    Unknown { cause: String },
}

/// How a service is set up.
#[derive(Debug)]
pub struct ServiceSetup {
    pub start_type: String,
    pub exe_path: String,
}

/// The two lines at the top.
pub open spec fn heading() -> Seq<Seq<char>> {
    seq!["WatchDesk status"@, "================"@]
}

/// What is shown of a service's status.
pub open spec fn status_lines(status: ServiceStatus) -> Seq<Seq<char>> {
    match status {
        ServiceStatus::State { state, pid } => seq![
            "Service    : installed"@,
            "State      : "@ + state@,
        ] + (match pid {
            Some(n) => seq!["PID        : "@ + decimal_of(n as nat)],
            None => Seq::empty(),
        }),
        ServiceStatus::Unknown { cause } => seq![
            "Service    : installed (status query failed: "@ + cause@ + ")"@,
        ],
    }
}

/// What is shown of the service.
pub open spec fn service_lines(registration: Registration) -> Seq<Seq<char>> {
    match registration {
        Registration::Unknown { cause } => seq![
            "Service    : unknown (cannot open service manager: "@ + cause@ + ")"@,
        ],
        Registration::Missing => seq!["Service    : NOT installed"@],
        Registration::Installed { status, setup } => status_lines(status) + (match setup {
            Some(s) => seq![
                "Start type : "@ + s.start_type@,
                "Exe path   : "@ + s.exe_path@,
            ],
            None => Seq::empty(),
        }),
    }
}

/// A flag as it is shown.
pub open spec fn flag_text(flag: bool) -> Seq<char> {
    if flag {
        "true"@
    } else {
        "false"@
    }
}

/// What is shown of the configuration, or why there is none. Passwords are not
/// shown.
pub open spec fn config_lines(config: Result<Config, String>) -> Seq<Seq<char>> {
    seq!["Config     : "@ + programdata_file(CONFIG_FILE@)] + (match config {
        Ok(c) => seq![
            "  MQTT     : "@ + c.mqtt.host@ + ":"@ + decimal_of(c.mqtt.port as nat),
            "  Device   : "@ + c.device.name@,
            "  Startup  : turn_off_bluetooth="@ + flag_text(c.startup.turn_off_bluetooth),
            "  Auth     : "@ + (if c.mqtt.username is Some {
                "credentials set"@
            } else {
                "anonymous"@
            }),
        ],
        Err(cause) => seq!["  (not loaded: "@ + cause@ + ")"@],
    })
}

/// The last lines of a text, at most ten.
pub open spec fn last_lines(lines: Seq<Seq<char>>) -> Seq<Seq<char>> {
    if lines.len() > LOG_LINES {
        lines.skip(lines.len() - LOG_LINES)
    } else {
        lines
    }
}

/// Where the service's log lies.
pub open spec fn log_file() -> Seq<char> {
    programdata_file("watchdesk.log"@)
}

/// What is shown of the log: its last lines, if there is one.
pub open spec fn log_lines(log: Option<Seq<char>>) -> Seq<Seq<char>> {
    match log {
        Some(contents) => seq!["Recent log ("@ + log_file() + "):"@] + last_lines(
            lines_of(contents),
        ).map_values(|line: Seq<char>| "  "@ + line),
        None => seq!["Log        : none at "@ + log_file()],
    }
}

/// All that is shown.
pub open spec fn status_text(
    registration: Registration,
    config: Result<Config, String>,
    log: Option<Seq<char>>,
) -> Seq<Seq<char>> {
    heading() + service_lines(registration) + seq![Seq::empty()] + config_lines(config)
        + seq![Seq::empty()] + log_lines(log)
}

/// Adds a line.
fn add_line(lines: &mut Vec<String>, line: String)
    ensures
        texts(final(lines)@) == texts(old(lines)@).push(line@),
{
    lines.push(line);
    assert(texts(lines@) == texts(old(lines)@).push(line@));
}

/// Adds a line of a title and a value.
fn add_entry(lines: &mut Vec<String>, title: &str, value: &str)
    ensures
        texts(final(lines)@) == texts(old(lines)@).push(title@ + value@),
{
    add_line(lines, title.to_owned().concat(value));
}

/// Adds what is shown of the service.
fn add_service(lines: &mut Vec<String>, registration: &Registration)
    ensures
        texts(final(lines)@) == texts(old(lines)@) + service_lines(*registration),
{
    let ghost before = texts(lines@);
    match registration {
        Registration::Unknown { cause } => {
            add_line(
                lines,
                "Service    : unknown (cannot open service manager: ".to_owned().concat(
                    cause.as_str(),
                ).concat(")"),
            );
        },
        Registration::Missing => {
            add_line(lines, "Service    : NOT installed".to_owned());
        },
        Registration::Installed { status, setup } => {
            match status {
                ServiceStatus::State { state, pid } => {
                    add_line(lines, "Service    : installed".to_owned());
                    add_entry(lines, "State      : ", state.as_str());
                    if let Some(n) = pid {
                        add_entry(lines, "PID        : ", text::decimal(*n as u64).as_str());
                    }
                },
                ServiceStatus::Unknown { cause } => {
                    add_line(
                        lines,
                        "Service    : installed (status query failed: ".to_owned().concat(
                            cause.as_str(),
                        ).concat(")"),
                    );
                },
            }
            assert(texts(lines@) == before + status_lines(*status));
            if let Some(s) = setup {
                add_entry(lines, "Start type : ", s.start_type.as_str());
                add_entry(lines, "Exe path   : ", s.exe_path.as_str());
            }
        },
    }
    assert(texts(lines@) == before + service_lines(*registration));
}

/// Adds what is shown of the configuration.
fn add_config(lines: &mut Vec<String>, config: &Result<Config, String>)
    ensures
        texts(final(lines)@) == texts(old(lines)@) + config_lines(*config),
{
    let ghost before = texts(lines@);
    add_entry(lines, "Config     : ", Config::programdata_config_path().as_str());
    match config {
        Ok(c) => {
            add_line(
                lines,
                "  MQTT     : ".to_owned().concat(c.mqtt.host.as_str()).concat(":").concat(
                    text::decimal(c.mqtt.port as u64).as_str(),
                ),
            );
            add_entry(lines, "  Device   : ", c.device.name.as_str());
            add_entry(
                lines,
                "  Startup  : turn_off_bluetooth=",
                if c.startup.turn_off_bluetooth {
                    "true"
                } else {
                    "false"
                },
            );
            add_entry(
                lines,
                "  Auth     : ",
                if c.mqtt.username.is_some() {
                    "credentials set"
                } else {
                    "anonymous"
                },
            );
        },
        Err(cause) => {
            add_line(lines, "  (not loaded: ".to_owned().concat(cause.as_str()).concat(")"));
        },
    }
    assert(texts(lines@) == before + config_lines(*config));
}

/// Where the service's log lies.
pub fn log_path() -> (res: String)
    ensures
        res@ == log_file(),
{
    crate::config::programdata_path("watchdesk.log")
}

/// Adds what is shown of the log.
fn add_log(lines: &mut Vec<String>, log: &Option<String>)
    ensures
        texts(final(lines)@) == texts(old(lines)@) + log_lines(
            crate::config::optional_text(*log),
        ),
{
    let ghost before = texts(lines@);
    match log {
        Some(contents) => {
            add_line(
                lines,
                "Recent log (".to_owned().concat(log_path().as_str()).concat("):"),
            );
            let ghost titled = texts(lines@);
            let all = text::lines(contents.as_str());
            let ghost shown = last_lines(texts(all@));
            let ghost indented = shown.map_values(|line: Seq<char>| "  "@ + line);
            let start: usize = if all.len() > LOG_LINES {
                all.len() - LOG_LINES
            } else {
                0
            };
            assert(texts(all@).skip(0) == texts(all@));
            assert(titled + indented.take(0) == titled);
            let mut i: usize = start;
            while i < all.len()
                invariant
                    start <= i <= all.len(),
                    shown == texts(all@).skip(start as int),
                    indented == shown.map_values(|line: Seq<char>| "  "@ + line),
                    texts(lines@) == titled + indented.take(i - start),
                decreases all.len() - i,
            {
                add_entry(lines, "  ", all[i].as_str());
                assert(shown[i - start] == all@[i as int]@);
                assert((titled + indented.take(i - start)).push(indented[i - start]) == titled
                    + indented.take(i - start + 1));
                i = i + 1;
            }
            assert(indented.take(i - start) == indented);
        },
        None => {
            add_entry(lines, "Log        : none at ", log_path().as_str());
        },
    }
    assert(texts(lines@) == before + log_lines(crate::config::optional_text(*log)));
}

/// All that is shown, line by line: what is known of the service, the
/// configuration or why there is none, and the log if there is one.
pub fn cmd_status(
    registration: &Registration,
    config: &Result<Config, String>,
    log: &Option<String>,
) -> (res: Vec<String>)
    ensures
        texts(res@) == status_text(*registration, *config, crate::config::optional_text(*log)),
{
    let mut lines: Vec<String> = Vec::new();
    add_line(&mut lines, "WatchDesk status".to_owned());
    add_line(&mut lines, "================".to_owned());
    assert(texts(lines@) == heading());
    add_service(&mut lines, registration);
    add_line(&mut lines, String::new());
    assert(texts(lines@) == heading() + service_lines(*registration) + seq![Seq::empty()]);
    add_config(&mut lines, config);
    add_line(&mut lines, String::new());
    assert(texts(lines@) == heading() + service_lines(*registration) + seq![Seq::empty()]
        + config_lines(*config) + seq![Seq::empty()]);
    add_log(&mut lines, log);
    lines
}

/// However long the log is, at most ten of its lines are shown, and they are
/// its last.
pub proof fn law_only_the_end_of_the_log_is_shown(contents: Seq<char>)
    ensures
        ({
            let all = lines_of(contents);
            let shown = last_lines(all);
            &&& shown.len() <= LOG_LINES
            &&& shown.len() == all.len() || shown.len() == LOG_LINES
            &&& forall|i: int|
                0 <= i < shown.len() ==> #[trigger] shown[i] == all[all.len() - shown.len() + i]
        }),
{
}

/// The parts that are shown stand in one order, with an empty line between them,
/// and the heading does not depend on anything.
pub proof fn law_parts_stand_in_order(
    registration: Registration,
    config: Result<Config, String>,
    log: Option<Seq<char>>,
)
    ensures
        status_text(registration, config, log) == seq!["WatchDesk status"@, "================"@]
            + service_lines(registration) + seq![Seq::<char>::empty()] + config_lines(config)
            + seq![Seq::<char>::empty()] + log_lines(log),
{
}

/// What is known of the service is shown: what it does and in which process, if
/// it says so, or why not; how it is set up where that is known.
pub proof fn law_service_is_shown(
    state: String,
    pid: u32,
    cause: String,
    setup: ServiceSetup,
    status: ServiceStatus,
)
    ensures
        service_lines(Registration::Unknown { cause }) == seq![
            "Service    : unknown (cannot open service manager: "@ + cause@ + ")"@,
        ],
        service_lines(Registration::Missing) == seq!["Service    : NOT installed"@],
        service_lines(Registration::Installed { status, setup: Some(setup) }) == service_lines(
            Registration::Installed { status, setup: None },
        ) + seq!["Start type : "@ + setup.start_type@, "Exe path   : "@ + setup.exe_path@],
        service_lines(
            Registration::Installed {
                status: ServiceStatus::State { state, pid: Some(pid) },
                setup: None,
            },
        ) == seq![
            "Service    : installed"@,
            "State      : "@ + state@,
            "PID        : "@ + decimal_of(pid as nat),
        ],
        service_lines(
            Registration::Installed {
                status: ServiceStatus::State { state, pid: None },
                setup: None,
            },
        ) == seq!["Service    : installed"@, "State      : "@ + state@],
        service_lines(
            Registration::Installed { status: ServiceStatus::Unknown { cause }, setup: None },
        ) == seq!["Service    : installed (status query failed: "@ + cause@ + ")"@],
{
}

/// Of a configuration the broker, the device, the startup action and whether
/// there are credentials are shown, each as it is; of one that is not there,
/// why. The file's place is shown either way.
pub proof fn law_configuration_is_shown(config: Config, cause: String)
    ensures
        ({
            let lines = config_lines(Ok(config));
            &&& lines.len() == 5
            &&& lines[0] == "Config     : "@ + programdata_file("config.toml"@)
            &&& lines[1] == "  MQTT     : "@ + config.mqtt.host@ + ":"@ + decimal_of(
                config.mqtt.port as nat,
            )
            &&& lines[2] == "  Device   : "@ + config.device.name@
            &&& lines[3] == "  Startup  : turn_off_bluetooth="@ + (
            if config.startup.turn_off_bluetooth {
                "true"@
            } else {
                "false"@
            })
            &&& config.mqtt.username is Some ==> lines[4] == "  Auth     : "@ + "credentials set"@
            &&& config.mqtt.username is None ==> lines[4] == "  Auth     : "@ + "anonymous"@
        }),
        config_lines(Err(cause)) == seq![
            "Config     : "@ + programdata_file("config.toml"@),
            "  (not loaded: "@ + cause@ + ")"@,
        ],
{
}

/// Neither the user name nor the password is shown: two configurations that
/// differ in nothing else look the same.
pub proof fn law_credentials_are_not_shown(config: Config, other: Config)
    requires
        other.mqtt.host == config.mqtt.host,
        other.mqtt.port == config.mqtt.port,
        other.device == config.device,
        other.startup == config.startup,
        other.mqtt.username is Some <==> config.mqtt.username is Some,
    ensures
        config_lines(Ok(other)) == config_lines(Ok(config)),
{
}

/// The end of the log is shown under a line that names the file, each line as
/// it is behind two spaces; without a log the file is named as missing.
pub proof fn law_log_lines_are_shown(contents: Seq<char>, i: int)
    ensures
        ({
            let all = lines_of(contents);
            let n = if all.len() > 10 {
                10
            } else {
                all.len() as int
            };
            let lines = log_lines(Some(contents));
            &&& lines.len() == n + 1
            &&& lines[0] == "Recent log ("@ + programdata_file("watchdesk.log"@) + "):"@
            &&& 0 <= i < n ==> lines[i + 1] == "  "@ + all[all.len() - n + i]
        }),
        log_lines(None) == seq!["Log        : none at "@ + programdata_file("watchdesk.log"@)],
{
}

} // verus!
