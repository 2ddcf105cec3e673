//! Installing the service and taking it away again.
use crate::config::programdata_file;
use crate::config::programdata_path;
use crate::service::SERVICE_NAME;
use crate::text;
use crate::text::blank;
use crate::text::decimal_of;
use crate::text::law_ends_are_trimmed;
use crate::text::lemma_decimal_is_injective;
use crate::text::solid_back;
use crate::text::solid_front;
use crate::text::trimmed;
use vstd::prelude::*;
use vstd::string::StringExecFns;

verus! {

/// The name of the service as Windows shows it.
pub const DISPLAY_NAME: &'static str = "WatchDesk PC Status & Sensors";

/// What Windows says the service is for.
pub const DESCRIPTION: &'static str =
    "Publishes PC status (monitor state, CPU usage & temperature) to Home Assistant via MQTT";

/// How often the installed binary is tried to be replaced.
pub const COPY_ATTEMPTS: u32 = 10;

/// How long to wait after an attempt to replace the binary failed.
pub const COPY_PAUSE_MILLIS: u64 = 300;

/// How often a service that is to stop is asked whether it has.
pub const STOP_POLLS: u32 = 40;

/// How long to wait before it is asked again.
pub const STOP_PAUSE_MILLIS: u64 = 250;

/// Where the service's binary is installed.
pub fn installed_exe_path() -> (res: String)
    ensures
        res@ == programdata_file("watchdesk.exe"@),
{
    programdata_path("watchdesk.exe")
}

/// Where the elevated half of an installation says how it went.
pub fn install_log_path() -> (res: String)
    ensures
        res@ == programdata_file("install.log"@),
{
    programdata_path("install.log")
}

/// Where earlier versions put their sensor program.
pub fn legacy_sensor_dir() -> (res: String)
    ensures
        res@ == programdata_file("sensors"@),
{
    programdata_path("sensors")
}

/// Where the service's configuration comes from when it is installed.
#[derive(Debug, Clone, Copy, PartialEq, Eq, Structural)]
pub enum ConfigChoice {
    /// From the working directory.
    CopyLocal,
    /// From the built-in default.
    WriteDefault,
    /// From the last installation.
    KeepInstalled,
}

/// Where the service's configuration comes from: a file in the working
/// directory wins, and an installed one is kept.
pub fn config_choice(local: bool, installed: bool) -> (res: ConfigChoice)
    ensures
        res == (if local {
            ConfigChoice::CopyLocal
        } else if installed {
            ConfigChoice::KeepInstalled
        } else {
            ConfigChoice::WriteDefault
        }),
{
    if local {
        ConfigChoice::CopyLocal
    } else if !installed {
        ConfigChoice::WriteDefault
    } else {
        ConfigChoice::KeepInstalled
    }
}

/// What the elevated half says of how it went.
pub open spec fn report_text(action: Seq<char>, failure: Option<Seq<char>>) -> Seq<char> {
    match failure {
        None => action + ": success\n"@,
        Some(cause) => action + ": FAILED\n"@ + cause + "\n"@,
    }
}

/// What the elevated half says of how it went.
pub fn elevated_report(action: &str, failure: Option<&str>) -> (res: String)
    ensures
        res@ == report_text(
            action@,
            match failure {
                Some(cause) => Some(cause@),
                None => None,
            },
        ),
{
    match failure {
        None => action.to_owned().concat(": success\n"),
        Some(cause) => action.to_owned().concat(": FAILED\n").concat(cause).concat("\n"),
    }
}

/// An error with what the elevated half said of it, where it said anything.
pub open spec fn enriched(error: Seq<char>, details: Option<Seq<char>>) -> Seq<char> {
    if details is Some && trimmed(details->0).len() > 0 {
        error + "\n\n--- elevated log ("@ + programdata_file("install.log"@) + ") ---\n"@ + trimmed(
            details->0,
        )
    } else {
        error
    }
}

/// An error with what the elevated half said of it, where it said anything.
pub fn with_elevated_log(error: &str, details: Option<&str>) -> (res: String)
    ensures
        res@ == enriched(
            error@,
            match details {
                Some(d) => Some(d@),
                None => None,
            },
        ),
{
    if let Some(d) = details {
        let said = text::trim(d);
        if !said.as_str().is_empty() {
            return error.to_owned().concat("\n\n--- elevated log (").concat(
                install_log_path().as_str(),
            ).concat(") ---\n").concat(said.as_str());
        }
    }
    error.to_owned()
}

/// What went wrong in the elevated half, if anything did.
pub fn elevated_failure(exit_code: u32) -> (res: Option<String>)
    ensures
        match res {
            Some(cause) => exit_code != 0 && cause@ == "Elevated process exited with code "@
                + decimal_of(exit_code as nat),
            None => exit_code == 0,
        },
{
    if exit_code == 0 {
        None
    } else {
        Some(
            "Elevated process exited with code ".to_owned().concat(
                text::decimal(exit_code as u64).as_str(),
            ),
        )
    }
}

/// What to do after an attempt to replace the binary.
#[derive(Debug, Clone, Copy, PartialEq, Eq, Structural)]
pub enum CopyStep {
    /// It is replaced.
    Done,
    /// Try again after a pause.
    Again,
    /// It was tried often enough.
    GiveUp,
}

/// What to do after an attempt to replace the binary, the last of `attempts`.
pub open spec fn copy_step(attempts: nat, copied: bool) -> CopyStep {
    if copied {
        CopyStep::Done
    } else if attempts < COPY_ATTEMPTS {
        CopyStep::Again
    } else {
        CopyStep::GiveUp
    }
}

/// What to do after an attempt to replace the binary, the last of `attempts`.
pub fn replace_installed_binary(attempts: u32, copied: bool) -> (res: CopyStep)
    ensures
        res == copy_step(attempts as nat, copied),
{
    if copied {
        CopyStep::Done
    } else if attempts < COPY_ATTEMPTS {
        CopyStep::Again
    } else {
        CopyStep::GiveUp
    }
}

/// Why the binary could not be replaced, in words.
pub fn copy_failure(path: &str, cause: &str) -> (res: String)
    ensures
        res@ == "Failed to copy binary to "@ + path@ + ": "@ + cause@,
{
    "Failed to copy binary to ".to_owned().concat(path).concat(": ").concat(cause)
}

/// What to do after a service that is to stop was asked whether it has.
#[derive(Debug, Clone, Copy, PartialEq, Eq, Structural)]
pub enum StopStep {
    /// Go on: it has stopped, or does not answer.
    Done,
    /// Ask again after a pause.
    Again,
    /// Go on after a pause: it was asked often enough.
    GiveUp,
}

/// What to do after a service that is to stop was asked `polls` times whether
/// it has; `stopped` is its last answer, if it gave one.
pub open spec fn stop_step(polls: nat, stopped: Option<bool>) -> StopStep {
    if stopped != Some(false) {
        StopStep::Done
    } else if polls < STOP_POLLS {
        StopStep::Again
    } else {
        StopStep::GiveUp
    }
}

/// What to do after a service that is to stop was asked `polls` times whether
/// it has; `stopped` is its last answer, if it gave one.
pub fn stop_and_wait(polls: u32, stopped: Option<bool>) -> (res: StopStep)
    ensures
        res == stop_step(polls as nat, stopped),
{
    match stopped {
        Some(false) => if polls < STOP_POLLS {
            StopStep::Again
        } else {
            StopStep::GiveUp
        },
        _ => StopStep::Done,
    }
}

/// What happens to a service that ends by itself.
#[derive(Debug)]
pub struct FailurePolicy {
    /// After how long the failures before are forgotten; never, if `None`.
    pub reset_secs: Option<u64>,
    /// How long to wait before each restart.
    pub restart_delays_secs: Vec<u64>,
    /// Whether an end with an error counts as a failure, too.
    pub on_non_crash: bool,
}

/// What happens to the service when it ends by itself: it is restarted.
pub fn restart_policy() -> (res: FailurePolicy)
    ensures
        res.reset_secs == Some(60u64),
        res.restart_delays_secs@ == seq![5u64, 10, 30],
        res.on_non_crash,
{
    let mut delays: Vec<u64> = Vec::new();
    delays.push(5);
    delays.push(10);
    delays.push(30);
    FailurePolicy { reset_secs: Some(60), restart_delays_secs: delays, on_non_crash: true }
}

/// What happens to a service that is about to be replaced: nothing, so that it
/// is not restarted the moment it is stopped.
pub fn disarm_failure_actions() -> (res: FailurePolicy)
    ensures
        res.reset_secs is None,
        res.restart_delays_secs@.len() == 0,
        !res.on_non_crash,
{
    FailurePolicy { reset_secs: None, restart_delays_secs: Vec::new(), on_non_crash: false }
}

/// Whose process a service runs in.
#[derive(Debug, Clone, Copy, PartialEq, Eq, Structural)]
pub enum ProcessType {
    /// Its own.
    Own,
    /// One that it shares with other services.
    Shared,
}

/// When a service is started.
#[derive(Debug, Clone, Copy, PartialEq, Eq, Structural)]
pub enum StartType {
    /// When Windows starts.
    Automatic,
    /// When somebody asks for it.
    OnDemand,
    /// Never.
    Disabled,
}

/// What Windows does about a service that cannot be started.
#[derive(Debug, Clone, Copy, PartialEq, Eq, Structural)]
pub enum ErrorControl {
    Ignore,
    Normal,
    Severe,
    Critical,
}

/// The account that a service runs under.
#[derive(Debug)]
pub enum Account {
    /// The one of Windows itself, which takes no password.
    LocalSystem,
    /// Another one.
    Named { name: String, password: Option<String> },
}

/// The service as it is registered.
#[derive(Debug)]
pub struct ServiceDefinition {
    pub name: String,
    pub display_name: String,
    pub description: String,
    pub executable_path: String,
    pub launch_arguments: Vec<String>,
    pub process_type: ProcessType,
    pub start_type: StartType,
    pub error_control: ErrorControl,
    pub account: Account,
    /// The services that have to run for this one to run.
    pub dependencies: Vec<String>,
}

/// The service as it is registered: it starts with Windows, runs the installed
/// binary without arguments in a process of its own, as LocalSystem, and needs
/// no other service.
pub fn service_definition() -> (res: ServiceDefinition)
    ensures
        res.name@ == SERVICE_NAME@,
        res.display_name@ == DISPLAY_NAME@,
        res.description@ == DESCRIPTION@,
        res.executable_path@ == programdata_file("watchdesk.exe"@),
        res.launch_arguments@.len() == 0,
        res.process_type == ProcessType::Own,
        res.start_type == StartType::Automatic,
        res.error_control == ErrorControl::Normal,
        res.account is LocalSystem,
        res.dependencies@.len() == 0,
{
    ServiceDefinition {
        name: SERVICE_NAME.to_owned(),
        display_name: DISPLAY_NAME.to_owned(),
        description: DESCRIPTION.to_owned(),
        executable_path: installed_exe_path(),
        launch_arguments: Vec::new(),
        process_type: ProcessType::Own,
        start_type: StartType::Automatic,
        error_control: ErrorControl::Normal,
        account: Account::LocalSystem,
        dependencies: Vec::new(),
    }
}

/// What is done to install the service, and what to take it away.
#[derive(Debug, Clone, Copy, PartialEq, Eq, Structural)]
pub enum Step {
    /// Keep the service from being restarted.
    DisarmRestarts,
    /// Stop the service and wait until it has.
    StopService,
    /// Put this binary in the place of the installed one.
    ReplaceBinary,
    /// Remove what earlier versions left behind.
    RemoveLegacySensors,
    /// Point the service that is there to the binary.
    ChangeConfig,
    /// Register a new service.
    CreateService,
    /// Say what the service is for.
    SetDescription,
    /// Have the service restarted when it fails.
    SetFailureActions,
    /// Have it restarted when it ends with an error, too.
    SetNonCrashActions,
    /// Start the service.
    StartService,
    /// Take the service out of the register.
    DeleteService,
    /// Remove the installed binary.
    RemoveBinary,
}

/// The steps that may fail without keeping the next from being taken.
pub open spec fn may_fail(step: Step) -> bool {
    step is DisarmRestarts || step is StopService || step is RemoveLegacySensors
        || step is RemoveBinary
}

/// Whether the next step is taken after a step that succeeded or did not.
pub fn goes_on(step: Step, ok: bool) -> (res: bool)
    ensures
        res == (ok || may_fail(step)),
{
    if ok {
        return true;
    }
    match step {
        Step::DisarmRestarts => true,
        Step::StopService => true,
        Step::RemoveLegacySensors => true,
        Step::RemoveBinary => true,
        _ => false,
    }
}

/// How the service is installed. `existing` says whether there is one already,
/// `in_place` whether this binary is the installed one.
pub open spec fn install_plan(existing: bool, in_place: bool) -> Seq<Step> {
    (if existing {
        seq![Step::DisarmRestarts, Step::StopService]
    } else {
        Seq::empty()
    }) + (if in_place {
        Seq::empty()
    } else {
        seq![Step::ReplaceBinary]
    }) + seq![
        Step::RemoveLegacySensors,
        if existing {
            Step::ChangeConfig
        } else {
            Step::CreateService
        },
        Step::SetDescription,
        Step::SetFailureActions,
        Step::SetNonCrashActions,
        Step::StartService,
    ]
}

/// How the service is taken away. `existing` says whether there is one.
pub open spec fn uninstall_plan(existing: bool) -> Seq<Step> {
    (if existing {
        seq![Step::StopService, Step::DeleteService]
    } else {
        Seq::empty()
    }) + seq![Step::RemoveBinary, Step::RemoveLegacySensors]
}

/// How the service is installed. `existing` says whether there is one already,
/// `in_place` whether this binary is the installed one.
pub fn install_service(existing: bool, in_place: bool) -> (res: Vec<Step>)
    ensures
        res@ == install_plan(existing, in_place),
{
    let mut steps: Vec<Step> = Vec::new();
    if existing {
        steps.push(Step::DisarmRestarts);
        steps.push(Step::StopService);
    }
    if !in_place {
        steps.push(Step::ReplaceBinary);
    }
    steps.push(Step::RemoveLegacySensors);
    if existing {
        steps.push(Step::ChangeConfig);
    } else {
        steps.push(Step::CreateService);
    }
    steps.push(Step::SetDescription);
    steps.push(Step::SetFailureActions);
    steps.push(Step::SetNonCrashActions);
    steps.push(Step::StartService);
    steps
}

/// How the service is taken away. `existing` says whether there is one.
pub fn uninstall_service(existing: bool) -> (res: Vec<Step>)
    ensures
        res@ == uninstall_plan(existing),
{
    let mut steps: Vec<Step> = Vec::new();
    if existing {
        steps.push(Step::StopService);
        steps.push(Step::DeleteService);
    }
    steps.push(Step::RemoveBinary);
    steps.push(Step::RemoveLegacySensors);
    steps
}

/// Whether a step is taken before another wherever both are taken.
pub open spec fn in_order(steps: Seq<Step>, first: Step, second: Step) -> bool {
    forall|i: int, j: int|
        0 <= i < steps.len() && 0 <= j < steps.len() && steps[i] == first && steps[j] == second
            ==> i < j
}

/// A service that is there is kept from restarting before it is stopped, and is
/// stopped before its binary is replaced: else it would be back, and hold the
/// binary, before that is done.
pub proof fn law_service_is_down_before_its_binary_is_replaced(in_place: bool)
    ensures
        ({
            let steps = install_plan(true, in_place);
            &&& steps.contains(Step::DisarmRestarts)
            &&& steps.contains(Step::StopService)
            &&& in_order(steps, Step::DisarmRestarts, Step::StopService)
            &&& in_order(steps, Step::StopService, Step::ReplaceBinary)
        }),
{
    let steps = install_plan(true, in_place);
    assert(steps[0] == Step::DisarmRestarts);
    assert(steps[1] == Step::StopService);
}

/// Every installation ends with the service being started, and it is registered
/// exactly once before that: changed where it is there, else created.
pub proof fn law_installation_ends_with_a_start(existing: bool, in_place: bool)
    ensures
        ({
            let steps = install_plan(existing, in_place);
            &&& steps.last() == Step::StartService
            &&& steps.contains(Step::ChangeConfig) <==> existing
            &&& steps.contains(Step::CreateService) <==> !existing
            &&& in_order(steps, Step::ReplaceBinary, Step::StartService)
            &&& in_order(steps, Step::ChangeConfig, Step::StartService)
            &&& in_order(steps, Step::CreateService, Step::StartService)
            &&& in_order(steps, Step::SetFailureActions, Step::StartService)
        }),
{
    let steps = install_plan(existing, in_place);
    let n = steps.len() as int;
    assert(steps[n - 5] == (if existing {
        Step::ChangeConfig
    } else {
        Step::CreateService
    }));
}

/// A service that is taken away is stopped and taken out of the register before
/// its binary is removed.
pub proof fn law_service_is_gone_before_its_binary()
    ensures
        ({
            let steps = uninstall_plan(true);
            &&& steps.contains(Step::DeleteService)
            &&& steps.contains(Step::RemoveBinary)
            &&& in_order(steps, Step::StopService, Step::DeleteService)
            &&& in_order(steps, Step::DeleteService, Step::RemoveBinary)
        }),
{
    let steps = uninstall_plan(true);
    assert(steps[1] == Step::DeleteService);
    assert(steps[2] == Step::RemoveBinary);
}

/// Whether a step is taken, given what became of those before.
pub open spec fn reached(steps: Seq<Step>, outcomes: Seq<bool>, i: int) -> bool {
    &&& 0 <= i < steps.len()
    &&& i <= outcomes.len()
    &&& forall|j: int| 0 <= j < i ==> outcomes[j] || may_fail(#[trigger] steps[j])
}

/// No service is started whose binary could not be replaced, whose registration
/// failed or that would not be restarted when it fails.
pub proof fn law_start_takes_a_sound_setup(
    existing: bool,
    in_place: bool,
    outcomes: Seq<bool>,
    i: int,
)
    requires
        0 <= i < install_plan(existing, in_place).len() - 1,
        reached(
            install_plan(existing, in_place),
            outcomes,
            install_plan(existing, in_place).len() - 1,
        ),
    ensures
        ({
            let step = install_plan(existing, in_place)[i];
            outcomes[i] || step is DisarmRestarts || step is StopService
                || step is RemoveLegacySensors
        }),
{
}

/// Whether all steps were taken and none failed that has to succeed.
pub open spec fn succeeded(steps: Seq<Step>, outcomes: Seq<bool>) -> bool {
    &&& outcomes.len() == steps.len()
    &&& forall|i: int| 0 <= i < steps.len() ==> outcomes[i] || may_fail(#[trigger] steps[i])
}

/// Whether a step was taken and did not fail.
pub open spec fn done(steps: Seq<Step>, outcomes: Seq<bool>, step: Step) -> bool {
    exists|i: int| 0 <= i < steps.len() && #[trigger] steps[i] == step && outcomes[i]
}

/// After an installation that succeeded the service is registered as it is
/// defined, changed where it was there and else created; it is described, is
/// restarted when it fails and when it ends with an error; the binary was
/// replaced unless it is the one that ran; and the last thing done was to start
/// the service.
pub proof fn law_installation_is_complete(existing: bool, in_place: bool, outcomes: Seq<bool>)
    requires
        succeeded(install_plan(existing, in_place), outcomes),
    ensures
        ({
            let steps = install_plan(existing, in_place);
            &&& done(steps, outcomes, Step::ReplaceBinary) <==> !in_place
            &&& done(steps, outcomes, Step::ChangeConfig) <==> existing
            &&& done(steps, outcomes, Step::CreateService) <==> !existing
            &&& done(steps, outcomes, Step::SetDescription)
            &&& done(steps, outcomes, Step::SetFailureActions)
            &&& done(steps, outcomes, Step::SetNonCrashActions)
            &&& steps.last() == Step::StartService && outcomes.last()
        }),
{
    let steps = install_plan(existing, in_place);
    let n = steps.len() as int;
    assert(steps[n - 1] == Step::StartService);
    assert(steps[n - 2] == Step::SetNonCrashActions);
    assert(steps[n - 3] == Step::SetFailureActions);
    assert(steps[n - 4] == Step::SetDescription);
    assert(steps[n - 5] == (if existing {
        Step::ChangeConfig
    } else {
        Step::CreateService
    }));
    if !in_place {
        assert(steps[n - 7] == Step::ReplaceBinary);
    }
}

/// What became of the attempts to replace the binary, given what became of
/// each: `failed` of them have failed so far.
pub open spec fn copy_result(results: Seq<bool>, failed: nat) -> CopyStep
    decreases results.len() - failed,
{
    if failed >= results.len() {
        CopyStep::Again
    } else if copy_step(failed + 1, results[failed as int]) == CopyStep::Again {
        copy_result(results, failed + 1)
    } else {
        copy_step(failed + 1, results[failed as int])
    }
}

/// The binary is replaced where one of the first ten attempts succeeds, and
/// after ten that fail there is no other.
pub proof fn law_copy_is_tried_ten_times(results: Seq<bool>)
    requires
        results.len() >= COPY_ATTEMPTS,
    ensures
        copy_result(results, 0) == (if exists|i: int| 0 <= i < COPY_ATTEMPTS && results[i] {
            CopyStep::Done
        } else {
            CopyStep::GiveUp
        }),
{
    lemma_copy_result(results, 0);
}

proof fn lemma_copy_result(results: Seq<bool>, failed: nat)
    requires
        results.len() >= COPY_ATTEMPTS,
        failed < COPY_ATTEMPTS,
        forall|i: int| 0 <= i < failed ==> !results[i],
    ensures
        copy_result(results, failed) == (if exists|i: int| 0 <= i < COPY_ATTEMPTS && results[i] {
            CopyStep::Done
        } else {
            CopyStep::GiveUp
        }),
    decreases COPY_ATTEMPTS - failed,
{
    if !results[failed as int] && failed + 1 < COPY_ATTEMPTS {
        lemma_copy_result(results, failed + 1);
    }
}

/// How often it is paused for a service to stop that answers like this, from
/// the answer behind the first `polls` on.
pub open spec fn pauses(answers: Seq<Option<bool>>, polls: nat) -> nat
    decreases answers.len() - polls,
{
    if polls >= answers.len() {
        0
    } else {
        match stop_step(polls + 1, answers[polls as int]) {
            StopStep::Done => 0,
            StopStep::Again => 1 + pauses(answers, polls + 1),
            StopStep::GiveUp => 1,
        }
    }
}

/// A service is waited for no longer than ten seconds, and for all of them
/// where it never says that it has stopped.
pub proof fn law_stop_is_waited_for_ten_seconds(answers: Seq<Option<bool>>)
    ensures
        pauses(answers, 0) * STOP_PAUSE_MILLIS <= 10_000,
        answers.len() >= STOP_POLLS && (forall|i: int|
            0 <= i < STOP_POLLS ==> answers[i] == Some(false)) ==> pauses(answers, 0)
            * STOP_PAUSE_MILLIS == 10_000,
{
    lemma_pauses(answers, 0);
}

proof fn lemma_pauses(answers: Seq<Option<bool>>, polls: nat)
    requires
        polls < STOP_POLLS,
    ensures
        pauses(answers, polls) <= STOP_POLLS - polls,
        answers.len() >= STOP_POLLS && (forall|i: int|
            0 <= i < STOP_POLLS ==> answers[i] == Some(false)) ==> pauses(answers, polls)
            == STOP_POLLS - polls,
    decreases STOP_POLLS - polls,
{
    if polls + 1 < STOP_POLLS {
        lemma_pauses(answers, polls + 1);
    }
}

/// Every installation takes exactly these steps, each once: the service is
/// disarmed and stopped where there is one, the binary is replaced where it is
/// not the one that runs, what earlier versions left is removed, and the service
/// is registered, described, armed and started. Nothing is taken away.
pub proof fn law_installation_takes_these_steps(existing: bool, in_place: bool, step: Step)
    ensures
        ({
            let steps = install_plan(existing, in_place);
            &&& steps.no_duplicates()
            &&& steps.contains(step) <==> match step {
                Step::DisarmRestarts => existing,
                Step::StopService => existing,
                Step::ReplaceBinary => !in_place,
                Step::RemoveLegacySensors => true,
                Step::ChangeConfig => existing,
                Step::CreateService => !existing,
                Step::SetDescription => true,
                Step::SetFailureActions => true,
                Step::SetNonCrashActions => true,
                Step::StartService => true,
                Step::DeleteService => false,
                Step::RemoveBinary => false,
            }
        }),
{
    let steps = install_plan(existing, in_place);
    let n = steps.len() as int;
    assert(steps[n - 1] == Step::StartService);
    assert(steps[n - 2] == Step::SetNonCrashActions);
    assert(steps[n - 3] == Step::SetFailureActions);
    assert(steps[n - 4] == Step::SetDescription);
    assert(steps[n - 5] == Step::ChangeConfig || steps[n - 5] == Step::CreateService);
    assert(steps[n - 6] == Step::RemoveLegacySensors);
    if !in_place {
        assert(steps[n - 7] == Step::ReplaceBinary);
    }
    if existing {
        assert(steps[0] == Step::DisarmRestarts);
        assert(steps[1] == Step::StopService);
    }
}

/// Whatever the installation starts from, its steps come in one order: those
/// that take the old service down, the binary, the leftovers, the registration,
/// the description, the restarts, the start.
pub proof fn law_installation_keeps_one_order(existing: bool, in_place: bool)
    ensures
        ({
            let steps = install_plan(existing, in_place);
            &&& in_order(steps, Step::DisarmRestarts, Step::StopService)
            &&& in_order(steps, Step::StopService, Step::ReplaceBinary)
            &&& in_order(steps, Step::StopService, Step::RemoveLegacySensors)
            &&& in_order(steps, Step::ReplaceBinary, Step::RemoveLegacySensors)
            &&& in_order(steps, Step::RemoveLegacySensors, Step::ChangeConfig)
            &&& in_order(steps, Step::RemoveLegacySensors, Step::CreateService)
            &&& in_order(steps, Step::ChangeConfig, Step::SetDescription)
            &&& in_order(steps, Step::CreateService, Step::SetDescription)
            &&& in_order(steps, Step::SetDescription, Step::SetFailureActions)
            &&& in_order(steps, Step::SetFailureActions, Step::SetNonCrashActions)
            &&& in_order(steps, Step::SetNonCrashActions, Step::StartService)
        }),
{
}

/// Taking the service away stops and deletes it where there is one, and always
/// removes the binary and what earlier versions left, each once and in this order.
pub proof fn law_removal_takes_these_steps(existing: bool, step: Step)
    ensures
        ({
            let steps = uninstall_plan(existing);
            &&& steps.no_duplicates()
            &&& steps.contains(step) <==> match step {
                Step::StopService => existing,
                Step::DeleteService => existing,
                Step::RemoveBinary => true,
                Step::RemoveLegacySensors => true,
                _ => false,
            }
            &&& in_order(steps, Step::StopService, Step::DeleteService)
            &&& in_order(steps, Step::DeleteService, Step::RemoveBinary)
            &&& in_order(steps, Step::RemoveBinary, Step::RemoveLegacySensors)
        }),
{
    let steps = uninstall_plan(existing);
    let n = steps.len() as int;
    assert(steps[n - 1] == Step::RemoveLegacySensors);
    assert(steps[n - 2] == Step::RemoveBinary);
    if existing {
        assert(steps[0] == Step::StopService);
        assert(steps[1] == Step::DeleteService);
    }
}

/// Only what clears the way or cleans up may fail: every step that the service
/// needs to be there, or to be gone, has to succeed.
pub proof fn law_only_clearing_and_cleaning_may_fail(step: Step)
    ensures
        may_fail(step) <==> match step {
            Step::DisarmRestarts => true,
            Step::StopService => true,
            Step::RemoveLegacySensors => true,
            Step::RemoveBinary => true,
            Step::ReplaceBinary => false,
            Step::ChangeConfig => false,
            Step::CreateService => false,
            Step::SetDescription => false,
            Step::SetFailureActions => false,
            Step::SetNonCrashActions => false,
            Step::StartService => false,
            Step::DeleteService => false,
        },
{
}

/// A copy that succeeded ends the attempts whenever it did, and one that failed
/// is followed by another up to the tenth.
pub proof fn law_attempts_go_on_up_to_the_tenth(attempts: nat)
    ensures
        copy_step(attempts, true) == CopyStep::Done,
        copy_step(attempts, false) == CopyStep::Again <==> attempts < 10,
        copy_step(attempts, false) == CopyStep::GiveUp <==> attempts >= 10,
{
}

/// The waiting ends at once for a service that has stopped or does not answer,
/// and one that still runs is asked again up to the fortieth time.
pub proof fn law_waiting_ends_with_the_service(polls: nat)
    ensures
        stop_step(polls, Some(true)) == StopStep::Done,
        stop_step(polls, None) == StopStep::Done,
        stop_step(polls, Some(false)) == StopStep::Again <==> polls < 40,
        stop_step(polls, Some(false)) == StopStep::GiveUp <==> polls >= 40,
{
}

/// The report names the action and says success, or says that it failed and why.
pub proof fn law_report_says_how_it_went(action: Seq<char>, cause: Seq<char>)
    ensures
        report_text(action, None) == action + ": success\n"@,
        report_text(action, Some(cause)) == action + ": FAILED\n"@ + cause + "\n"@,
{
}

/// An error keeps its own words first; what the elevated half said stands behind
/// them without the white space around it, and nothing does where it said nothing.
pub proof fn law_error_is_told_with_the_log(
    error: Seq<char>,
    before: Seq<char>,
    said: Seq<char>,
    after: Seq<char>,
)
    requires
        blank(before, false),
        blank(after, false),
        solid_front(said, false),
        solid_back(said, false),
    ensures
        enriched(error, None) == error,
        said.len() == 0 ==> enriched(error, Some(before + said + after)) == error,
        said.len() > 0 ==> enriched(error, Some(before + said + after)) == error
            + "\n\n--- elevated log ("@ + programdata_file("install.log"@) + ") ---\n"@ + said,
{
    law_ends_are_trimmed(before, said, after, false);
}

/// The configuration in the working directory is installed whenever it is
/// there; else an installed one is kept, and the default is written if and only
/// if there is neither.
pub proof fn law_nearest_configuration_is_installed(
    local: bool,
    installed: bool,
    res: ConfigChoice,
)
    requires
        call_ensures(config_choice, (local, installed), res),
    ensures
        res == ConfigChoice::CopyLocal <==> local,
        res == ConfigChoice::KeepInstalled <==> !local && installed,
        res == ConfigChoice::WriteDefault <==> !local && !installed,
{
}

/// The elevated half failed if and only if it ended with a code, which is told;
/// different codes are told differently.
pub proof fn law_codes_are_told(
    code: u32,
    other: u32,
    res: Option<String>,
    other_res: Option<String>,
)
    requires
        call_ensures(elevated_failure, (code,), res),
        call_ensures(elevated_failure, (other,), other_res),
    ensures
        res is None <==> code == 0,
        res is Some ==> res->0@ == "Elevated process exited with code "@ + decimal_of(code as nat),
        res is Some && other_res is Some && res->0@ == other_res->0@ ==> code == other,
{
    if res is Some && other_res is Some && res->0@ == other_res->0@ {
        let n = "Elevated process exited with code "@.len() as int;
        assert(res->0@.skip(n) == decimal_of(code as nat));
        assert(other_res->0@.skip(n) == decimal_of(other as nat));
        lemma_decimal_is_injective(code as nat, other as nat);
    }
}

/// The next step is taken after every success, and after a failure if and only
/// if the step only clears the way or cleans up.
pub proof fn law_steps_go_on(step: Step, ok: bool, res: bool)
    requires
        call_ensures(goes_on, (step, ok), res),
    ensures
        ok ==> res,
        !ok ==> (res <==> step is DisarmRestarts || step is StopService
            || step is RemoveLegacySensors || step is RemoveBinary),
{
}

/// A service that is armed is restarted after 5, 10 and 30 seconds, also where
/// it ended with an error, and its failures are forgotten after a minute; one
/// that is disarmed is never restarted.
pub proof fn law_armed_services_are_restarted(armed: FailurePolicy, disarmed: FailurePolicy)
    requires
        call_ensures(restart_policy, (), armed),
        call_ensures(disarm_failure_actions, (), disarmed),
    ensures
        armed.restart_delays_secs@.len() == 3,
        armed.restart_delays_secs@[0] == 5,
        armed.restart_delays_secs@[1] == 10,
        armed.restart_delays_secs@[2] == 30,
        armed.reset_secs == Some(60u64),
        armed.on_non_crash,
        disarmed.restart_delays_secs@.len() == 0,
        disarmed.reset_secs is None,
        !disarmed.on_non_crash,
{
}

/// The service that is registered runs the binary that is installed: starting
/// it starts what was put there, with Windows, by itself and as LocalSystem.
pub proof fn law_registered_service_runs_the_installed_binary(
    definition: ServiceDefinition,
    exe: String,
)
    requires
        call_ensures(service_definition, (), definition),
        call_ensures(installed_exe_path, (), exe),
    ensures
        definition.executable_path@ == exe@,
        definition.launch_arguments@.len() == 0,
        definition.start_type == StartType::Automatic,
        definition.process_type == ProcessType::Own,
        definition.account is LocalSystem,
        definition.dependencies@.len() == 0,
{
}

} // verus!
