//! The Windows service: how it answers the Service Control Manager, and in which
//! order it comes up and goes down.
use crate::monitor::MonitorState;
use vstd::prelude::*;

verus! {

/// The name of the service.
pub const SERVICE_NAME: &'static str = "WatchDesk";

/// The code of a start that the Service Control Manager did not make
/// (`ERROR_FAILED_SERVICE_CONTROLLER_CONNECT`).
pub const NOT_STARTED_AS_SERVICE: i32 = 1063;

/// Whether a failed start was made from a shell, where help is to be shown in
/// place of an error.
pub fn started_from_shell(error: Option<i32>) -> (res: bool)
    ensures
        res == (error == Some(NOT_STARTED_AS_SERVICE)),
{
    match error {
        Some(code) => code == NOT_STARTED_AS_SERVICE,
        None => false,
    }
}

/// A power setting that changed.
#[derive(Debug, Clone, Copy)]
pub enum PowerSetting {
    /// Whether the monitor is powered.
    MonitorPowerOn(u32),
    /// What the console display does.
    ConsoleDisplayState(u32),
    /// Another one.
    Other,
}

/// What the Service Control Manager asks for.
#[derive(Debug, Clone, Copy)]
pub enum Control {
    Stop,
    Shutdown,
    Interrogate,
    /// A power setting changed.
    PowerSettingChange(PowerSetting),
    /// Another power event.
    OtherPowerEvent,
    /// Anything else.
    Other,
}

/// What the service does about a control.
#[derive(Debug, Clone, Copy)]
pub struct Response {
    /// Whether the service is to end.
    pub shutdown: bool,
    /// The state that the monitor was seen in.
    pub monitor: Option<MonitorState>,
    /// Whether the service knows the control.
    pub handled: bool,
}

/// The state of the monitor that a power setting tells of.
pub open spec fn monitor_of(setting: PowerSetting) -> Option<MonitorState> {
    match setting {
        PowerSetting::MonitorPowerOn(value) => Some(MonitorState::of_power_value(value)),
        PowerSetting::ConsoleDisplayState(value) => Some(MonitorState::of_power_value(value)),
        PowerSetting::Other => None,
    }
}

/// What the service does about a control.
pub open spec fn response_to(control: Control) -> Response {
    Response {
        shutdown: control is Stop || control is Shutdown,
        monitor: match control {
            Control::PowerSettingChange(setting) => monitor_of(setting),
            _ => None,
        },
        handled: !(control is Other),
    }
}

/// What the service does about a control.
pub fn on_control(control: Control) -> (res: Response)
    ensures
        res == response_to(control),
{
    match control {
        Control::Stop | Control::Shutdown => Response {
            shutdown: true,
            monitor: None,
            handled: true,
        },
        Control::Interrogate => Response { shutdown: false, monitor: None, handled: true },
        Control::PowerSettingChange(setting) => {
            let monitor = match setting {
                PowerSetting::MonitorPowerOn(value) => {
                    Some(MonitorState::from_power_value(value))
                },
                PowerSetting::ConsoleDisplayState(value) => {
                    Some(MonitorState::from_power_value(value))
                },
                PowerSetting::Other => None,
            };
            Response { shutdown: false, monitor, handled: true }
        },
        Control::OtherPowerEvent => Response { shutdown: false, monitor: None, handled: true },
        Control::Other => Response { shutdown: false, monitor: None, handled: false },
    }
}

/// What the service tells the Service Control Manager of itself.
#[derive(Debug, Clone, Copy, PartialEq, Eq, Structural)]
pub struct Status {
    /// Whether it runs; if not, it is stopped.
    pub running: bool,
    /// Whether it can be stopped, hears of shutdowns and hears of power events.
    pub accepts_stop: bool,
    pub accepts_shutdown: bool,
    pub accepts_power_events: bool,
    /// How it ended.
    pub exit_code: u32,
}

/// What the service does, one thing after another.
#[derive(Debug, Clone, Copy, PartialEq, Eq, Structural)]
pub enum Phase {
    /// Register the control handler, so that the manager knows of the service.
    RegisterHandler,
    /// Report that the service runs.
    ReportRunning,
    /// Load the configuration.
    LoadConfig,
    /// Report that the service is stopped for want of a configuration.
    ReportFailure,
    /// Ask to be told of the monitor's power.
    RegisterPower,
    /// Run the startup action.
    RunStartup,
    /// Prepare the main loop.
    PrepareLoop,
    /// Run the main loop.
    RunLoop,
    /// Report that the service is stopped.
    ReportStopped,
    /// The service ended as it should.
    Ended,
    /// The service ended with an error.
    Failed,
}

/// What comes after a phase that succeeded.
pub open spec fn following(phase: Phase) -> Phase {
    match phase {
        Phase::RegisterHandler => Phase::ReportRunning,
        Phase::ReportRunning => Phase::LoadConfig,
        Phase::LoadConfig => Phase::RegisterPower,
        Phase::RegisterPower => Phase::RunStartup,
        Phase::RunStartup => Phase::PrepareLoop,
        Phase::PrepareLoop => Phase::RunLoop,
        Phase::RunLoop => Phase::ReportStopped,
        Phase::ReportStopped => Phase::Ended,
        Phase::Ended => Phase::Ended,
        Phase::ReportFailure => Phase::Failed,
        Phase::Failed => Phase::Failed,
    }
}

/// The phases after which the service goes on whatever became of them: to be
/// told of the monitor's power, the startup action, and the main loop.
pub open spec fn best_effort(phase: Phase) -> bool {
    phase is RegisterPower || phase is RunStartup || phase is RunLoop
}

/// Whether the service has ended.
pub open spec fn over(phase: Phase) -> bool {
    phase is Ended || phase is Failed
}

/// What comes after a phase, given whether the phase succeeded. Without a
/// configuration the service reports that before it fails.
pub open spec fn next_phase(phase: Phase, ok: bool) -> Phase {
    if ok || best_effort(phase) || over(phase) {
        following(phase)
    } else if phase is LoadConfig {
        Phase::ReportFailure
    } else {
        Phase::Failed
    }
}

/// What a phase reports, if it reports anything.
pub open spec fn status_in(phase: Phase) -> Option<Status> {
    match phase {
        Phase::ReportRunning => Some(
            Status {
                running: true,
                accepts_stop: true,
                accepts_shutdown: true,
                accepts_power_events: true,
                exit_code: 0,
            },
        ),
        Phase::ReportFailure => Some(
            Status {
                running: false,
                accepts_stop: false,
                accepts_shutdown: false,
                accepts_power_events: false,
                exit_code: 1,
            },
        ),
        Phase::ReportStopped => Some(
            Status {
                running: false,
                accepts_stop: false,
                accepts_shutdown: false,
                accepts_power_events: false,
                exit_code: 0,
            },
        ),
        _ => None,
    }
}

impl Phase {
    /// What comes after this phase, given whether it succeeded. A failure to
    /// be told of the monitor's power, a startup action that fails and an
    /// error of the main loop do not keep the service from going on.
    pub fn next(self, ok: bool) -> (res: Phase)
        ensures
            res == next_phase(self, ok),
    {
        match self {
            Phase::RegisterHandler => if ok {
                Phase::ReportRunning
            } else {
                Phase::Failed
            },
            Phase::ReportRunning => if ok {
                Phase::LoadConfig
            } else {
                Phase::Failed
            },
            Phase::LoadConfig => if ok {
                Phase::RegisterPower
            } else {
                Phase::ReportFailure
            },
            Phase::ReportFailure => Phase::Failed,
            Phase::RegisterPower => Phase::RunStartup,
            Phase::RunStartup => Phase::PrepareLoop,
            Phase::PrepareLoop => if ok {
                Phase::RunLoop
            } else {
                Phase::Failed
            },
            Phase::RunLoop => Phase::ReportStopped,
            Phase::ReportStopped => if ok {
                Phase::Ended
            } else {
                Phase::Failed
            },
            Phase::Ended => Phase::Ended,
            Phase::Failed => Phase::Failed,
        }
    }

    /// What this phase reports, if it reports anything.
    pub fn status(self) -> (res: Option<Status>)
        ensures
            res == status_in(self),
    {
        match self {
            Phase::ReportRunning => Some(
                Status {
                    running: true,
                    accepts_stop: true,
                    accepts_shutdown: true,
                    accepts_power_events: true,
                    exit_code: 0,
                },
            ),
            Phase::ReportFailure => Some(stopped(1)),
            Phase::ReportStopped => Some(stopped(0)),
            _ => None,
        }
    }
}

/// The report of a service that is stopped.
fn stopped(exit_code: u32) -> (res: Status)
    ensures
        res == (Status {
            running: false,
            accepts_stop: false,
            accepts_shutdown: false,
            accepts_power_events: false,
            exit_code,
        }),
{
    Status {
        running: false,
        accepts_stop: false,
        accepts_shutdown: false,
        accepts_power_events: false,
        exit_code,
    }
}

/// The phase that a service is in, given what became of those before.
pub open spec fn phase_after(outcomes: Seq<bool>) -> Phase
    decreases outcomes.len(),
{
    if outcomes.len() == 0 {
        Phase::RegisterHandler
    } else {
        next_phase(phase_after(outcomes.drop_last()), outcomes.last())
    }
}

/// Whether a service was in a phase before the one that it is in.
pub open spec fn passed(outcomes: Seq<bool>, phase: Phase) -> bool {
    exists|n: int| 0 <= n < outcomes.len() && #[trigger] phase_after(outcomes.take(n)) == phase
}

/// How far a phase is from the first.
spec fn rank(phase: Phase) -> nat {
    match phase {
        Phase::RegisterHandler => 0,
        Phase::ReportRunning => 1,
        Phase::LoadConfig => 2,
        Phase::ReportFailure => 3,
        Phase::RegisterPower => 3,
        Phase::RunStartup => 4,
        Phase::PrepareLoop => 5,
        Phase::RunLoop => 6,
        Phase::ReportStopped => 7,
        Phase::Ended => 8,
        Phase::Failed => 8,
    }
}

proof fn lemma_rank_grows(outcomes: Seq<bool>)
    ensures
        over(phase_after(outcomes)) || rank(phase_after(outcomes)) == outcomes.len(),
    decreases outcomes.len(),
{
    if outcomes.len() > 0 {
        lemma_rank_grows(outcomes.drop_last());
    }
}

/// What was passed before the last outcome was passed.
proof fn lemma_passed(outcomes: Seq<bool>, phase: Phase)
    requires
        outcomes.len() > 0,
        passed(outcomes.drop_last(), phase) || phase_after(outcomes.drop_last()) == phase,
    ensures
        passed(outcomes, phase),
{
    let before = outcomes.drop_last();
    if phase_after(before) == phase {
        assert(outcomes.take(outcomes.len() - 1) == before);
    } else {
        let n = choose|n: int|
            0 <= n < before.len() && #[trigger] phase_after(before.take(n)) == phase;
        assert(outcomes.take(n) == before.take(n));
    }
}

/// A service never goes on for ever: after eight phases it has ended, one way
/// or the other.
pub proof fn law_phases_end(outcomes: Seq<bool>)
    requires
        outcomes.len() >= 8,
    ensures
        over(phase_after(outcomes)),
{
    lemma_rank_grows(outcomes);
}

/// The manager knows of the service, and that it runs, before anything that can
/// take long or go wrong is tried.
pub proof fn law_running_is_reported_first(outcomes: Seq<bool>)
    requires
        !(phase_after(outcomes) is RegisterHandler),
        !(phase_after(outcomes) is ReportRunning),
        !(phase_after(outcomes) is Failed),
    ensures
        passed(outcomes, Phase::RegisterHandler),
        passed(outcomes, Phase::ReportRunning),
    decreases outcomes.len(),
{
    let before = outcomes.drop_last();
    if phase_after(before) is ReportRunning {
        assert(before.len() > 0);
        lemma_rank_grows(before);
        assert(phase_after(before.drop_last()) is RegisterHandler);
        lemma_passed(before, Phase::RegisterHandler);
    } else {
        law_running_is_reported_first(before);
    }
    lemma_passed(outcomes, Phase::RegisterHandler);
    lemma_passed(outcomes, Phase::ReportRunning);
}

/// A service that ends as it should has run its main loop and has reported that
/// it is stopped.
pub proof fn law_stop_is_reported(outcomes: Seq<bool>)
    requires
        phase_after(outcomes) is Ended,
    ensures
        passed(outcomes, Phase::RunLoop),
        passed(outcomes, Phase::ReportStopped),
    decreases outcomes.len(),
{
    let before = outcomes.drop_last();
    if phase_after(before) is ReportStopped {
        assert(before.len() > 0);
        assert(phase_after(before.drop_last()) is RunLoop);
        lemma_passed(before, Phase::RunLoop);
    } else {
        law_stop_is_reported(before);
    }
    lemma_passed(outcomes, Phase::RunLoop);
    lemma_passed(outcomes, Phase::ReportStopped);
}

/// A service that accepts controls answers each that it announced: a stop and a
/// shutdown end it, and a power event is never refused.
pub proof fn law_announced_controls_are_handled(control: Control)
    requires
        control is Stop || control is Shutdown || control is PowerSettingChange
            || control is OtherPowerEvent,
    ensures
        response_to(control).handled,
        response_to(control).shutdown <==> control is Stop || control is Shutdown,
{
}

/// A stop and a shutdown end the service, and nothing else does; a control that
/// the service does not know is refused, and no other is. The monitor is heard
/// of from the two settings that tell of it and from nothing else: off at zero,
/// on at every other value.
pub proof fn law_controls_are_answered(control: Control, value: u32)
    ensures
        response_to(control).shutdown <==> control is Stop || control is Shutdown,
        response_to(control).handled <==> control !is Other,
        response_to(control).monitor is Some <==> (control matches Control::PowerSettingChange(s)
            && (s is MonitorPowerOn || s is ConsoleDisplayState)),
        response_to(Control::PowerSettingChange(PowerSetting::MonitorPowerOn(value))).monitor
            == Some(
            if value == 0 {
                MonitorState::Off
            } else {
                MonitorState::On
            },
        ),
        response_to(Control::PowerSettingChange(PowerSetting::ConsoleDisplayState(value))).monitor
            == Some(
            if value == 0 {
                MonitorState::Off
            } else {
                MonitorState::On
            },
        ),
{
}

/// The main loop is run if and only if the handler was registered, running was
/// reported, the configuration was loaded and the loop was prepared, whatever
/// became of the power notification and of the startup action.
pub proof fn law_main_loop_takes_a_sound_start(outcomes: Seq<bool>)
    requires
        outcomes.len() == 6,
    ensures
        phase_after(outcomes) is RunLoop <==> outcomes[0] && outcomes[1] && outcomes[2]
            && outcomes[5],
        phase_after(outcomes) is RunLoop || phase_after(outcomes) is Failed,
        phase_after(outcomes.take(4)) is RunStartup <==> outcomes[0] && outcomes[1] && outcomes[2],
{
    reveal_with_fuel(phase_after, 7);
    let a = outcomes.drop_last();
    let b = a.drop_last();
    let c = b.drop_last();
    let d = c.drop_last();
    let e = d.drop_last();
    assert(e.drop_last().len() == 0);
    assert(outcomes.take(4) == b);
}

/// However the main loop ended, the service reports that it is stopped, and it
/// has ended as it should if and only if that report was taken.
pub proof fn law_end_of_the_loop_is_reported(outcomes: Seq<bool>, looped: bool, reported: bool)
    requires
        phase_after(outcomes) is RunLoop,
    ensures
        phase_after(outcomes.push(looped)) is ReportStopped,
        phase_after(outcomes.push(looped).push(reported)) == (if reported {
            Phase::Ended
        } else {
            Phase::Failed
        }),
{
    reveal_with_fuel(phase_after, 3);
    assert(outcomes.push(looped).drop_last() == outcomes);
    assert(outcomes.push(looped).push(reported).drop_last() == outcomes.push(looped));
}

/// Without a configuration the service reports the failure before it fails, and
/// fails whether or not that report was taken. A service that has ended stays
/// ended, and one that failed stays failed.
pub proof fn law_missing_configuration_is_reported(ok: bool)
    ensures
        next_phase(Phase::LoadConfig, false) is ReportFailure,
        next_phase(Phase::ReportFailure, ok) is Failed,
        next_phase(Phase::Ended, ok) is Ended,
        next_phase(Phase::Failed, ok) is Failed,
        next_phase(Phase::RegisterHandler, false) is Failed,
        next_phase(Phase::ReportRunning, false) is Failed,
{
}

/// Three phases report. The service says that it runs once, and then takes
/// stops, shutdowns and power events; once it is stopped it takes nothing. Only
/// the report of a failure carries a code.
pub proof fn law_reports_are_these(phase: Phase)
    ensures
        status_in(phase) is Some <==> phase is ReportRunning || phase is ReportFailure
            || phase is ReportStopped,
        status_in(phase) matches Some(status) ==> {
            &&& status.running <==> phase is ReportRunning
            &&& status.accepts_stop == status.running
            &&& status.accepts_shutdown == status.running
            &&& status.accepts_power_events == status.running
            &&& status.exit_code == (if phase is ReportFailure {
                1u32
            } else {
                0
            })
        },
{
}

/// Where all goes well the service registers, reports, loads, asks for power
/// events, runs the startup action, prepares and runs its loop, reports and
/// ends, in this order; what may fail on the way changes nothing of it.
pub proof fn law_phases_follow_each_other(asked: bool, started: bool, looped: bool)
    ensures
        next_phase(Phase::RegisterHandler, true) is ReportRunning,
        next_phase(Phase::ReportRunning, true) is LoadConfig,
        next_phase(Phase::LoadConfig, true) is RegisterPower,
        next_phase(Phase::RegisterPower, asked) is RunStartup,
        next_phase(Phase::RunStartup, started) is PrepareLoop,
        next_phase(Phase::PrepareLoop, true) is RunLoop,
        next_phase(Phase::PrepareLoop, false) is Failed,
        next_phase(Phase::RunLoop, looped) is ReportStopped,
        next_phase(Phase::ReportStopped, true) is Ended,
        next_phase(Phase::ReportStopped, false) is Failed,
{
}

/// Help is shown for one error code, that of a start from a shell, and for no
/// other and for none.
pub proof fn law_help_is_shown_for_a_start_from_a_shell(error: Option<i32>, res: bool)
    requires
        call_ensures(started_from_shell, (error,), res),
    ensures
        res <==> error is Some && error->0 == 1063,
{
}

} // verus!
