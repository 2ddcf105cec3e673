use watchdesk::install::config_choice;
use watchdesk::install::copy_failure;
use watchdesk::install::disarm_failure_actions;
use watchdesk::install::elevated_failure;
use watchdesk::install::elevated_report;
use watchdesk::install::goes_on;
use watchdesk::install::install_log_path;
use watchdesk::install::install_service;
use watchdesk::install::installed_exe_path;
use watchdesk::install::legacy_sensor_dir;
use watchdesk::install::replace_installed_binary;
use watchdesk::install::restart_policy;
use watchdesk::install::service_definition;
use watchdesk::install::stop_and_wait;
use watchdesk::install::uninstall_service;
use watchdesk::install::with_elevated_log;
use watchdesk::install::Account;
use watchdesk::install::ConfigChoice;
use watchdesk::install::CopyStep;
use watchdesk::install::ErrorControl;
use watchdesk::install::ProcessType;
use watchdesk::install::StartType;
use watchdesk::install::Step;
use watchdesk::install::StopStep;
use watchdesk::install::STOP_PAUSE_MILLIS;

#[test]
fn files_of_the_installation() {
    assert_eq!(installed_exe_path(), "C:\\ProgramData\\WatchDesk\\watchdesk.exe");
    assert_eq!(install_log_path(), "C:\\ProgramData\\WatchDesk\\install.log");
    assert_eq!(legacy_sensor_dir(), "C:\\ProgramData\\WatchDesk\\sensors");
}

#[test]
fn chooses_the_configuration() {
    assert_eq!(config_choice(true, true), ConfigChoice::CopyLocal);
    assert_eq!(config_choice(true, false), ConfigChoice::CopyLocal);
    assert_eq!(config_choice(false, true), ConfigChoice::KeepInstalled);
    assert_eq!(config_choice(false, false), ConfigChoice::WriteDefault);
}

#[test]
fn reports_how_the_elevated_half_went() {
    assert_eq!(elevated_report("install", None), "install: success\n");
    assert_eq!(
        elevated_report("uninstall", Some("access denied")),
        "uninstall: FAILED\naccess denied\n"
    );
    assert_eq!(elevated_failure(0), None);
    assert_eq!(
        elevated_failure(1).as_deref(),
        Some("Elevated process exited with code 1")
    );
    assert_eq!(
        elevated_failure(u32::MAX).as_deref(),
        Some("Elevated process exited with code 4294967295")
    );
}

#[test]
fn adds_what_the_elevated_half_said() {
    assert_eq!(with_elevated_log("e", None), "e");
    assert_eq!(with_elevated_log("e", Some(" \r\n")), "e");
    assert_eq!(
        with_elevated_log("e", Some("install: FAILED\nno\n")),
        "e\n\n--- elevated log (C:\\ProgramData\\WatchDesk\\install.log) ---\ninstall: FAILED\nno"
    );
}

#[test]
fn tries_ten_times_to_replace_the_binary() {
    let mut attempts: u32 = 0;
    loop {
        attempts += 1;
        match replace_installed_binary(attempts, false) {
            CopyStep::Again => {}
            CopyStep::GiveUp => break,
            CopyStep::Done => unreachable!(),
        }
    }
    assert_eq!(attempts, 10);
    assert_eq!(replace_installed_binary(10, true), CopyStep::Done);
    assert_eq!(replace_installed_binary(1, true), CopyStep::Done);
    assert_eq!(
        copy_failure("C:\\x.exe", "in use"),
        "Failed to copy binary to C:\\x.exe: in use"
    );
}

#[test]
fn waits_ten_seconds_for_a_stop() {
    let mut polls: u32 = 1;
    while stop_and_wait(polls, Some(false)) == StopStep::Again {
        polls += 1;
    }
    assert_eq!(polls, 40);
    assert_eq!(stop_and_wait(polls, Some(false)), StopStep::GiveUp);
    assert_eq!(u64::from(polls) * STOP_PAUSE_MILLIS, 10_000);
    assert_eq!(stop_and_wait(1, Some(true)), StopStep::Done);
    assert_eq!(stop_and_wait(1, None), StopStep::Done);
    assert_eq!(stop_and_wait(40, Some(true)), StopStep::Done);
}

#[test]
fn a_service_that_fails_is_restarted() {
    let policy = restart_policy();
    assert_eq!(policy.reset_secs, Some(60));
    assert_eq!(policy.restart_delays_secs, vec![5, 10, 30]);
    assert!(policy.on_non_crash);
    let disarmed = disarm_failure_actions();
    assert_eq!(disarmed.reset_secs, None);
    assert!(disarmed.restart_delays_secs.is_empty());
    assert!(!disarmed.on_non_crash);
}

#[test]
fn registers_this_service() {
    let service = service_definition();
    assert_eq!(service.name, "WatchDesk");
    assert_eq!(service.display_name, "WatchDesk PC Status & Sensors");
    assert_eq!(
        service.description,
        "Publishes PC status (monitor state, CPU usage & temperature) to Home Assistant via MQTT"
    );
    assert_eq!(service.executable_path, "C:\\ProgramData\\WatchDesk\\watchdesk.exe");
    assert!(service.launch_arguments.is_empty());
    assert_eq!(service.process_type, ProcessType::Own);
    assert_eq!(service.start_type, StartType::Automatic);
    assert_eq!(service.error_control, ErrorControl::Normal);
    assert!(matches!(service.account, Account::LocalSystem));
    assert!(service.dependencies.is_empty());
}

#[test]
fn installs_in_order() {
    assert_eq!(
        install_service(true, false),
        vec![
            Step::DisarmRestarts,
            Step::StopService,
            Step::ReplaceBinary,
            Step::RemoveLegacySensors,
            Step::ChangeConfig,
            Step::SetDescription,
            Step::SetFailureActions,
            Step::SetNonCrashActions,
            Step::StartService,
        ]
    );
    assert_eq!(
        install_service(false, true),
        vec![
            Step::RemoveLegacySensors,
            Step::CreateService,
            Step::SetDescription,
            Step::SetFailureActions,
            Step::SetNonCrashActions,
            Step::StartService,
        ]
    );
}

#[test]
fn uninstalls_in_order() {
    assert_eq!(
        uninstall_service(true),
        vec![
            Step::StopService,
            Step::DeleteService,
            Step::RemoveBinary,
            Step::RemoveLegacySensors,
        ]
    );
    assert_eq!(
        uninstall_service(false),
        vec![Step::RemoveBinary, Step::RemoveLegacySensors]
    );
}

#[test]
fn stops_at_a_step_that_has_to_succeed() {
    for step in [
        Step::DisarmRestarts,
        Step::StopService,
        Step::RemoveLegacySensors,
        Step::RemoveBinary,
    ] {
        assert!(goes_on(step, false));
        assert!(goes_on(step, true));
    }
    for step in [
        Step::ReplaceBinary,
        Step::ChangeConfig,
        Step::CreateService,
        Step::SetDescription,
        Step::SetFailureActions,
        Step::SetNonCrashActions,
        Step::StartService,
        Step::DeleteService,
    ] {
        assert!(!goes_on(step, false));
        assert!(goes_on(step, true));
    }
}
