use watchdesk::config::Config;
use watchdesk::config::DeviceConfig;
use watchdesk::config::MetricsConfig;
use watchdesk::config::MqttConfig;
use watchdesk::config::StartupConfig;
use watchdesk::startup::access_failure;
use watchdesk::startup::after_marker;
use watchdesk::startup::apartment;
use watchdesk::startup::change_failure;
use watchdesk::startup::claim_once_per_boot;
use watchdesk::startup::current_boot_marker;
use watchdesk::startup::marker_path;
use watchdesk::startup::radio_action;
use watchdesk::startup::run_once_after_boot;
use watchdesk::startup::turn_bluetooth_off;
use watchdesk::startup::unchecked_hresult;
use watchdesk::startup::MarkerFile;
use watchdesk::startup::RadioAction;
use watchdesk::startup::RadioChange;
use watchdesk::startup::RadioVisit;
use watchdesk::startup::SkipReason;
use watchdesk::startup::StartupStep;
use watchdesk::startup::BLUETOOTH_ACTION;

const MARKER: &str = "C:\\ProgramData\\WatchDesk\\turn-off-bluetooth.boot";

fn config(turn_off_bluetooth: bool) -> Config {
    Config {
        mqtt: MqttConfig {
            host: "broker.local".to_string(),
            port: 1883,
            username: None,
            password: None,
        },
        device: DeviceConfig {
            name: "pc".to_string(),
        },
        startup: StartupConfig { turn_off_bluetooth },
        metrics: MetricsConfig::default(),
    }
}

fn skipped(step: StartupStep) -> Option<SkipReason> {
    match step {
        StartupStep::Skip(reason) => Some(reason),
        _ => None,
    }
}

#[test]
fn runs_shortly_after_the_boot_only() {
    assert_eq!(
        skipped(run_once_after_boot(&config(false), 0)),
        Some(SkipReason::Disabled)
    );
    assert_eq!(
        skipped(run_once_after_boot(&config(true), 900_001)),
        Some(SkipReason::TooLate)
    );
    match run_once_after_boot(&config(true), 900_000) {
        StartupStep::ReadMarker { path } => assert_eq!(path, MARKER),
        other => panic!("unexpected step: {other:?}"),
    }
    assert_eq!(marker_path(BLUETOOTH_ACTION), MARKER);
}

#[test]
fn marks_a_boot_by_its_time() {
    assert_eq!(
        current_boot_marker(0, 133_801_234_567_890_123).as_deref(),
        Some("133801234567890123")
    );
    assert_eq!(current_boot_marker(1, -5).as_deref(), Some("-5"));
    assert_eq!(current_boot_marker(-1, 5), None);
}

#[test]
fn claims_once_per_boot() {
    let boot = current_boot_marker(0, 42);
    let claim = |file: &MarkerFile| claim_once_per_boot(BLUETOOTH_ACTION, &boot, file);
    let written = match claim(&MarkerFile::Absent) {
        StartupStep::WriteMarker { path, marker } => {
            assert_eq!(path, MARKER);
            marker
        }
        other => panic!("unexpected step: {other:?}"),
    };
    assert_eq!(written, "42");
    let file = MarkerFile::Holds(format!(" {written}\r\n"));
    assert_eq!(skipped(claim(&file)), Some(SkipReason::AlreadyRan));
    let next_boot = current_boot_marker(0, 43);
    match claim_once_per_boot(BLUETOOTH_ACTION, &next_boot, &file) {
        StartupStep::WriteMarker { marker, .. } => assert_eq!(marker, "43"),
        other => panic!("unexpected step: {other:?}"),
    }
}

#[test]
fn runs_only_what_is_on_record() {
    let boot = current_boot_marker(0, 42);
    assert_eq!(
        skipped(claim_once_per_boot("a", &boot, &MarkerFile::Unreadable)),
        Some(SkipReason::Unrecorded)
    );
    assert_eq!(
        skipped(claim_once_per_boot("a", &None, &MarkerFile::Absent)),
        Some(SkipReason::Unrecorded)
    );
    assert_eq!(skipped(after_marker(false)), Some(SkipReason::Unrecorded));
    assert!(matches!(after_marker(true), StartupStep::TurnOff));
}

#[test]
fn switches_bluetooth_radios_off() {
    assert_eq!(radio_action(false, false), RadioAction::Ignore);
    assert_eq!(radio_action(false, true), RadioAction::Ignore);
    assert_eq!(radio_action(true, true), RadioAction::Leave);
    assert_eq!(radio_action(true, false), RadioAction::SwitchOff);
}

#[test]
fn leaves_its_own_apartment_only() {
    assert_eq!(unchecked_hresult(0), 0);
    assert_eq!(unchecked_hresult(0x7fff_ffff), i32::MAX);
    assert_eq!(unchecked_hresult(0x8000_0000), i32::MIN);
    assert_eq!(unchecked_hresult(0x8001_0106), -2_147_417_850);
    assert_eq!(apartment(None), Ok(true));
    assert_eq!(apartment(Some(-2_147_417_850)), Ok(false));
    assert_eq!(apartment(Some(-1)), Err(-1));
}

#[test]
fn says_that_access_was_not_allowed() {
    assert_eq!(access_failure(true, "RadioAccessStatus(1)"), None);
    assert_eq!(
        access_failure(false, "RadioAccessStatus(3)").as_deref(),
        Some("radio control access was not allowed: RadioAccessStatus(3)")
    );
}

fn visit(bluetooth: bool, off: bool, answer: Option<(bool, &str)>) -> RadioVisit {
    RadioVisit {
        bluetooth,
        off,
        change: answer.map(|(allowed, status)| RadioChange {
            allowed,
            status: status.to_string(),
        }),
    }
}

#[test]
fn a_rejected_radio_change_is_an_error() {
    assert_eq!(change_failure(true, "RadioAccessStatus(1)"), None);
    assert_eq!(
        change_failure(false, "RadioAccessStatus(2)").as_deref(),
        Some("radio change was not allowed: RadioAccessStatus(2)")
    );
    assert_eq!(turn_bluetooth_off(&Vec::new()), Ok(()));
    let mut visits = vec![
        visit(false, false, None),
        visit(true, true, None),
        visit(true, false, Some((true, "allowed"))),
    ];
    assert_eq!(turn_bluetooth_off(&visits), Ok(()));
    visits.push(visit(true, false, Some((false, "denied by user"))));
    visits.push(visit(true, false, Some((false, "denied by system"))));
    visits.push(visit(true, false, Some((true, "allowed"))));
    assert_eq!(
        turn_bluetooth_off(&visits),
        Err("radio change was not allowed: denied by user".to_string())
    );
}
