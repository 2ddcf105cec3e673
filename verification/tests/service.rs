use watchdesk::monitor::is_power_setting_change;
use watchdesk::monitor::parse_power_setting_change;
use watchdesk::monitor::MonitorState;
use watchdesk::monitor::GUID_CONSOLE_DISPLAY_STATE;
use watchdesk::monitor::GUID_MONITOR_POWER_ON;
use watchdesk::service::on_control;
use watchdesk::service::started_from_shell;
use watchdesk::service::Control;
use watchdesk::service::Phase;
use watchdesk::service::PowerSetting;

#[test]
fn a_dimmed_monitor_is_on() {
    assert_eq!(MonitorState::from_power_value(0), MonitorState::Off);
    assert_eq!(MonitorState::from_power_value(1), MonitorState::On);
    assert_eq!(MonitorState::from_power_value(2), MonitorState::On);
    assert_eq!(MonitorState::from_power_value(u32::MAX), MonitorState::On);
    assert_eq!(MonitorState::On.as_str(), "ON");
    assert_eq!(MonitorState::Off.as_str(), "OFF");
}

#[test]
fn two_settings_tell_of_the_monitor() {
    for setting in [GUID_CONSOLE_DISPLAY_STATE, GUID_MONITOR_POWER_ON] {
        assert_eq!(parse_power_setting_change(setting, 0), Some(MonitorState::Off));
        assert_eq!(parse_power_setting_change(setting, 2), Some(MonitorState::On));
    }
    assert_eq!(parse_power_setting_change(0, 0), None);
}

#[test]
fn window_messages_announce_changes() {
    assert!(is_power_setting_change(0x0218, 0x8013));
    assert!(is_power_setting_change(0x0218, 0x1_0000_8013));
    assert!(!is_power_setting_change(0x0218, 0x000a));
    assert!(!is_power_setting_change(0x0219, 0x8013));
}

#[test]
fn answers_the_service_manager() {
    for control in [Control::Stop, Control::Shutdown] {
        let response = on_control(control);
        assert!(response.shutdown && response.handled);
        assert_eq!(response.monitor, None);
    }
    let response = on_control(Control::Interrogate);
    assert!(!response.shutdown && response.handled);
    let response = on_control(Control::OtherPowerEvent);
    assert!(!response.shutdown && response.handled);
    let response = on_control(Control::Other);
    assert!(!response.shutdown && !response.handled);
}

#[test]
fn hears_of_the_monitor() {
    let cases = [
        (PowerSetting::MonitorPowerOn(0), Some(MonitorState::Off)),
        (PowerSetting::MonitorPowerOn(1), Some(MonitorState::On)),
        (PowerSetting::ConsoleDisplayState(0), Some(MonitorState::Off)),
        (PowerSetting::ConsoleDisplayState(2), Some(MonitorState::On)),
        (PowerSetting::Other, None),
    ];
    for (setting, expected) in cases {
        let response = on_control(Control::PowerSettingChange(setting));
        assert_eq!(response.monitor, expected);
        assert!(response.handled && !response.shutdown);
    }
}

#[test]
fn a_start_from_a_shell_shows_help() {
    assert!(started_from_shell(Some(1063)));
    assert!(!started_from_shell(Some(5)));
    assert!(!started_from_shell(None));
}

fn run(fails: Option<Phase>) -> Vec<Phase> {
    let mut phase = Phase::RegisterHandler;
    let mut seen = vec![phase];
    for _ in 0..8 {
        phase = phase.next(fails != Some(phase));
        seen.push(phase);
        if phase == Phase::Ended || phase == Phase::Failed {
            break;
        }
    }
    seen
}

#[test]
fn comes_up_and_goes_down_in_order() {
    assert_eq!(
        run(None),
        vec![
            Phase::RegisterHandler,
            Phase::ReportRunning,
            Phase::LoadConfig,
            Phase::RegisterPower,
            Phase::RunStartup,
            Phase::PrepareLoop,
            Phase::RunLoop,
            Phase::ReportStopped,
            Phase::Ended,
        ]
    );
}

#[test]
fn goes_on_where_it_can() {
    for phase in [Phase::RegisterPower, Phase::RunStartup, Phase::RunLoop] {
        assert_eq!(run(Some(phase)), run(None));
    }
    for phase in [
        Phase::RegisterHandler,
        Phase::ReportRunning,
        Phase::PrepareLoop,
        Phase::ReportStopped,
    ] {
        assert_eq!(run(Some(phase)).last(), Some(&Phase::Failed));
    }
}

#[test]
fn reports_a_missing_configuration() {
    let seen = run(Some(Phase::LoadConfig));
    assert_eq!(seen[3..], [Phase::ReportFailure, Phase::Failed]);
    let status = Phase::ReportFailure.status().unwrap();
    assert!(!status.running);
    assert_eq!(status.exit_code, 1);
}

#[test]
fn reports_what_it_does() {
    let running = Phase::ReportRunning.status().unwrap();
    assert!(running.running && running.accepts_stop);
    assert!(running.accepts_shutdown && running.accepts_power_events);
    assert_eq!(running.exit_code, 0);
    let stopped = Phase::ReportStopped.status().unwrap();
    assert!(!stopped.running && !stopped.accepts_stop);
    assert!(!stopped.accepts_shutdown && !stopped.accepts_power_events);
    assert_eq!(stopped.exit_code, 0);
    assert_eq!(Phase::RunLoop.status(), None);
}
