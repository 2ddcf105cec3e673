//! The action that runs once after Windows booted: switching Bluetooth off.
use crate::config::law_files_lie_in_programdata;
use crate::config::optional_text;
use crate::config::programdata_file;
use crate::config::programdata_path;
use crate::config::Config;
use crate::text;
use crate::text::blank;
use crate::text::law_ends_are_trimmed;
use crate::text::lemma_signed_decimal_is_injective;
use crate::text::lemma_signed_decimal_is_trimmed;
use crate::text::signed_decimal_of;
use crate::text::solid_back;
use crate::text::solid_front;
use crate::text::trimmed;
use vstd::prelude::*;
use vstd::string::StringExecFns;

verus! {

/// How long after the boot the action may still run: a quarter of an hour.
pub const MAX_UPTIME_MILLIS: u64 = 900_000;

/// The name of the action.
pub const BLUETOOTH_ACTION: &'static str = "turn-off-bluetooth";

/// Why the startup action does not run.
#[derive(Debug, Clone, Copy, PartialEq, Eq, Structural)]
pub enum SkipReason {
    /// It is not wanted.
    Disabled,
    /// Windows has been up for too long.
    TooLate,
    /// It already ran in this boot.
    AlreadyRan,
    /// That it runs in this boot could not be recorded.
    Unrecorded,
}

/// What to do next about the startup action.
#[derive(Debug)]
pub enum StartupStep {
    /// Leave it.
    Skip(SkipReason),
    /// Find out which boot this is and what this file holds.
    ReadMarker { path: String },
    /// Write this into this file.
    WriteMarker { path: String, marker: String },
    /// Run it.
    TurnOff,
}

/// What to do next about the startup action, as a value.
pub ghost enum StartupStepView {
    Skip(SkipReason),
    ReadMarker { path: Seq<char> },
    WriteMarker { path: Seq<char>, marker: Seq<char> },
    TurnOff,
}

impl View for StartupStep {
    type V = StartupStepView;

    open spec fn view(&self) -> StartupStepView {
        match self {
            StartupStep::Skip(reason) => StartupStepView::Skip(*reason),
            StartupStep::ReadMarker { path } => StartupStepView::ReadMarker { path: path@ },
            StartupStep::WriteMarker { path, marker } => StartupStepView::WriteMarker {
                path: path@,
                marker: marker@,
            },
            StartupStep::TurnOff => StartupStepView::TurnOff,
        }
    }
}

/// What the marker file of an action holds.
#[derive(Debug)]
pub enum MarkerFile {
    /// There is none.
    Absent,
    /// It cannot be read.
    Unreadable,
    /// This.
    Holds(String),
}

/// The file that tells for which boot an action was claimed.
pub open spec fn marker_file(action: Seq<char>) -> Seq<char> {
    programdata_file(action + ".boot"@)
}

/// The file that tells for which boot an action was claimed.
pub fn marker_path(action: &str) -> (res: String)
    ensures
        res@ == marker_file(action@),
{
    programdata_path(action.to_owned().concat(".boot").as_str())
}

/// What becomes of the startup action when WatchDesk starts.
pub open spec fn plan(config: Config, uptime_millis: u64) -> StartupStepView {
    if !config.startup.turn_off_bluetooth {
        StartupStepView::Skip(SkipReason::Disabled)
    } else if uptime_millis > MAX_UPTIME_MILLIS {
        StartupStepView::Skip(SkipReason::TooLate)
    } else {
        StartupStepView::ReadMarker { path: marker_file(BLUETOOTH_ACTION@) }
    }
}

/// What becomes of the startup action when WatchDesk starts, `uptime_millis`
/// after Windows booted.
pub fn run_once_after_boot(config: &Config, uptime_millis: u64) -> (res: StartupStep)
    ensures
        res@ == plan(*config, uptime_millis),
        res@ == StartupStepView::Skip(SkipReason::TooLate) <==> config.startup.turn_off_bluetooth
            && uptime_millis > 900_000,
{
    if !config.startup.turn_off_bluetooth {
        return StartupStep::Skip(SkipReason::Disabled);
    }
    if uptime_millis > MAX_UPTIME_MILLIS {
        return StartupStep::Skip(SkipReason::TooLate);
    }
    StartupStep::ReadMarker { path: marker_path(BLUETOOTH_ACTION) }
}

/// What marks a boot: the time of the boot, in units of 100 nanoseconds. A
/// negative status says that the time is not known.
pub fn current_boot_marker(status: i32, boot_time: i64) -> (res: Option<String>)
    ensures
        match res {
            Some(marker) => status >= 0 && marker@ == signed_decimal_of(boot_time as int),
            None => status < 0,
        },
{
    if status < 0 {
        None
    } else {
        Some(text::signed_decimal(boot_time))
    }
}

/// Whether an action is already claimed for the boot that `current` marks.
pub open spec fn claimed(file: MarkerFile, current: Seq<char>) -> bool {
    file matches MarkerFile::Holds(previous) && trimmed(previous@) == current
}

/// What becomes of an action once it is known which boot this is, if that is
/// known, and what the action's marker file holds.
pub open spec fn claim(
    action: Seq<char>,
    current: Option<Seq<char>>,
    file: MarkerFile,
) -> StartupStepView {
    if current is None || file is Unreadable {
        StartupStepView::Skip(SkipReason::Unrecorded)
    } else if claimed(file, current->0) {
        StartupStepView::Skip(SkipReason::AlreadyRan)
    } else {
        StartupStepView::WriteMarker { path: marker_file(action), marker: current->0 }
    }
}

/// Claims an action for the boot that `current` marks, unless it is already
/// claimed.
pub fn claim_once_per_boot(action: &str, current: &Option<String>, file: &MarkerFile) -> (res:
    StartupStep)
    ensures
        res@ == claim(action@, optional_text(*current), *file),
{
    let current = match current {
        Some(marker) => marker,
        None => {
            return StartupStep::Skip(SkipReason::Unrecorded);
        },
    };
    match file {
        MarkerFile::Absent => {},
        MarkerFile::Unreadable => {
            return StartupStep::Skip(SkipReason::Unrecorded);
        },
        MarkerFile::Holds(previous) => {
            if text::trim(previous.as_str()) == *current {
                return StartupStep::Skip(SkipReason::AlreadyRan);
            }
        },
    }
    StartupStep::WriteMarker { path: marker_path(action), marker: current.clone() }
}

/// What becomes of the action once the marker was written, or was not: only an
/// action that is on record runs.
pub fn after_marker(written: bool) -> (res: StartupStep)
    ensures
        res@ == (if written {
            StartupStepView::TurnOff
        } else {
            StartupStepView::Skip(SkipReason::Unrecorded)
        }),
{
    if written {
        StartupStep::TurnOff
    } else {
        StartupStep::Skip(SkipReason::Unrecorded)
    }
}

/// What to do about a radio.
#[derive(Debug, Clone, Copy, PartialEq, Eq, Structural)]
pub enum RadioAction {
    /// Nothing: it is not Bluetooth.
    Ignore,
    /// Nothing: it is off.
    Leave,
    /// Switch it off.
    SwitchOff,
}

/// What to do about a radio.
pub open spec fn action_for(bluetooth: bool, off: bool) -> RadioAction {
    if !bluetooth {
        RadioAction::Ignore
    } else if off {
        RadioAction::Leave
    } else {
        RadioAction::SwitchOff
    }
}

/// What to do about a radio.
pub fn radio_action(bluetooth: bool, off: bool) -> (res: RadioAction)
    ensures
        res == action_for(bluetooth, off),
{
    if !bluetooth {
        RadioAction::Ignore
    } else if off {
        RadioAction::Leave
    } else {
        RadioAction::SwitchOff
    }
}

/// Why the radios cannot be switched, if Windows does not allow it; `access` is
/// what Windows says.
pub fn access_failure(allowed: bool, access: &str) -> (res: Option<String>)
    ensures
        match res {
            Some(cause) => !allowed && cause@ == "radio control access was not allowed: "@
                + access@,
            None => allowed,
        },
{
    if allowed {
        None
    } else {
        Some("radio control access was not allowed: ".to_owned().concat(access))
    }
}

/// What Windows answered when a radio was to be switched off: whether it was
/// allowed, and the status in words.
#[derive(Debug)]
pub struct RadioChange {
    pub allowed: bool,
    pub status: String,
}

/// A radio as it was found, and the answer where it was to be switched off.
#[derive(Debug)]
pub struct RadioVisit {
    pub bluetooth: bool,
    pub off: bool,
    pub change: Option<RadioChange>,
}

/// Why a radio was not switched off, if Windows did not allow it; `status` is
/// what Windows says.
pub fn change_failure(allowed: bool, status: &str) -> (res: Option<String>)
    ensures
        match res {
            Some(cause) => !allowed && cause@ == "radio change was not allowed: "@ + status@,
            None => allowed,
        },
{
    if allowed {
        None
    } else {
        Some("radio change was not allowed: ".to_owned().concat(status))
    }
}

/// Why a radio was not switched off, if it was not.
pub open spec fn rejection(change: RadioChange) -> Option<Seq<char>> {
    if change.allowed {
        None
    } else {
        Some("radio change was not allowed: "@ + change.status@)
    }
}

/// Why the first radio that was not switched off was not, if there is one.
pub open spec fn first_rejection(visits: Seq<RadioVisit>) -> Option<Seq<char>>
    decreases visits.len(),
{
    if visits.len() == 0 {
        None
    } else if visits[0].change is Some && rejection(visits[0].change->0) is Some {
        rejection(visits[0].change->0)
    } else {
        first_rejection(visits.skip(1))
    }
}

/// What became of the action once every radio was visited: it failed where
/// Windows did not allow a radio to be switched off, with the cause of the first.
pub fn turn_bluetooth_off(visits: &Vec<RadioVisit>) -> (res: Result<(), String>)
    ensures
        match res {
            Ok(_) => first_rejection(visits@) is None,
            Err(cause) => first_rejection(visits@) == Some(cause@),
        },
{
    let mut i: usize = 0;
    assert(visits@.skip(0) == visits@);
    while i < visits.len()
        invariant
            i <= visits.len(),
            first_rejection(visits@.skip(i as int)) == first_rejection(visits@),
        decreases visits.len() - i,
    {
        assert(visits@.skip(i as int)[0] == visits@[i as int]);
        assert(visits@.skip(i as int).skip(1) == visits@.skip(i + 1));
        if let Some(change) = &visits[i].change {
            if let Some(cause) = change_failure(change.allowed, change.status.as_str()) {
                return Err(cause);
            }
        }
        i = i + 1;
    }
    Ok(())
}

/// A 32-bit word read as a signed number.
pub open spec fn signed_word(value: u32) -> int {
    if value < 0x8000_0000 {
        value as int
    } else {
        value - 0x1_0000_0000
    }
}

/// A status word of Windows as the signed number that it is handed out as.
pub fn unchecked_hresult(value: u32) -> (res: i32)
    ensures
        res == signed_word(value),
{
    if value < 0x8000_0000 {
        value as i32
    } else {
        (value as i64 - 0x1_0000_0000) as i32
    }
}

/// The status word for an apartment that was initialised in another mode.
pub const RPC_E_CHANGED_MODE: u32 = 0x8001_0106;

/// Whether the apartment of Windows Runtime has to be left again, or why it
/// cannot be used. `error` is the status of a failed initialisation; an
/// apartment that was initialised in another mode can be used, but is not ours
/// to leave.
pub fn apartment(error: Option<i32>) -> (res: Result<bool, i32>)
    ensures
        res == (match error {
            None => Ok::<bool, i32>(true),
            Some(code) => if code == signed_word(RPC_E_CHANGED_MODE) {
                Ok(false)
            } else {
                Err(code)
            },
        }),
{
    match error {
        None => Ok(true),
        Some(code) => if code == unchecked_hresult(RPC_E_CHANGED_MODE) {
            Ok(false)
        } else {
            Err(code)
        },
    }
}

/// The action runs once in each boot: what a claim writes keeps every later
/// claim in the same boot out, and none in another boot.
pub proof fn law_once_per_boot(action: Seq<char>, boot: i64, other: i64, file: MarkerFile)
    requires
        file matches MarkerFile::Holds(written) && written@ == signed_decimal_of(boot as int),
    ensures
        boot == other ==> claim(action, Some(signed_decimal_of(other as int)), file)
            == StartupStepView::Skip(SkipReason::AlreadyRan),
        boot != other ==> claim(action, Some(signed_decimal_of(other as int)), file) == (
        StartupStepView::WriteMarker {
            path: marker_file(action),
            marker: signed_decimal_of(other as int),
        }),
{
    lemma_signed_decimal_is_trimmed(boot as int);
    if signed_decimal_of(boot as int) == signed_decimal_of(other as int) {
        lemma_signed_decimal_is_injective(boot as int, other as int);
    }
}

/// An action that was never claimed is free to be claimed in any boot.
pub proof fn law_first_claim_succeeds(action: Seq<char>, current: Seq<char>)
    ensures
        claim(action, Some(current), MarkerFile::Absent) == (StartupStepView::WriteMarker {
            path: marker_file(action),
            marker: current,
        }),
{
}

/// An action that is not switched on never gets as far as its marker file.
pub proof fn law_disabled_action_never_runs(config: Config, uptime_millis: u64)
    requires
        !config.startup.turn_off_bluetooth,
    ensures
        plan(config, uptime_millis) == StartupStepView::Skip(SkipReason::Disabled),
{
}

/// Every Bluetooth radio that is not off is asked to switch off, and no other.
pub proof fn law_bluetooth_radios_are_asked(bluetooth: bool, off: bool)
    ensures
        action_for(bluetooth, off) == RadioAction::SwitchOff <==> bluetooth && !off,
{
}

/// Whether a radio is off once it was visited.
pub open spec fn off_after(visit: RadioVisit) -> bool {
    visit.off || (visit.change is Some && visit.change->0.allowed)
}

/// An action that Windows rejected any part of fails, and after one that
/// succeeds every Bluetooth radio is off, where exactly those radios were asked
/// that were to be.
pub proof fn law_rejected_change_is_an_error(visits: Seq<RadioVisit>)
    ensures
        first_rejection(visits) is Some <==> exists|i: int|
            0 <= i < visits.len() && (#[trigger] visits[i]).change is Some
                && !visits[i].change->0.allowed,
        (forall|i: int|
            0 <= i < visits.len() ==> ((#[trigger] visits[i]).change is Some <==> action_for(
                visits[i].bluetooth,
                visits[i].off,
            ) == RadioAction::SwitchOff)) && first_rejection(visits) is None ==> forall|i: int|
            0 <= i < visits.len() && (#[trigger] visits[i]).bluetooth ==> off_after(visits[i]),
    decreases visits.len(),
{
    if visits.len() > 0 {
        let rest = visits.skip(1);
        law_rejected_change_is_an_error(rest);
        assert forall|i: int| 0 < i < visits.len() implies #[trigger] visits[i] == rest[i - 1] by {}
        assert forall|i: int| 0 <= i < rest.len() implies #[trigger] rest[i] == visits[i + 1] by {}
        if first_rejection(visits) is Some && first_rejection(visits) == first_rejection(rest)
            && !(visits[0].change is Some && !visits[0].change->0.allowed) {
            let k = choose|k: int|
                0 <= k < rest.len() && (#[trigger] rest[k]).change is Some
                    && !rest[k].change->0.allowed;
            assert(visits[k + 1].change is Some);
        }
    }
}

/// An action that is switched on is too late if and only if Windows has been up
/// for more than a quarter of an hour; at every uptime up to that, the first
/// millisecond and the last, the plan is to read the action's marker file.
/// Nothing else of the configuration matters.
pub proof fn law_action_runs_in_the_first_quarter_of_an_hour(config: Config, uptime_millis: u64)
    requires
        config.startup.turn_off_bluetooth,
    ensures
        plan(config, uptime_millis) == StartupStepView::Skip(SkipReason::TooLate) <==> uptime_millis
            > 15 * 60 * 1000,
        uptime_millis <= 15 * 60 * 1000 ==> plan(config, uptime_millis) == (
        StartupStepView::ReadMarker { path: marker_file("turn-off-bluetooth"@) }),
{
}

/// The marker file of an action lies with the service's files and is named
/// after the action, so that no two actions share one.
pub proof fn law_marker_files_are_named_after_actions(action: Seq<char>, other: Seq<char>)
    ensures
        marker_file(action) == "C:\\ProgramData\\WatchDesk"@ + "\\"@ + (action + ".boot"@),
        marker_file(action) == marker_file(other) ==> action == other,
{
    let n = ".boot"@.len();
    law_files_lie_in_programdata(action + ".boot"@, other + ".boot"@);
    if marker_file(action) == marker_file(other) {
        assert((action + ".boot"@).len() == (other + ".boot"@).len());
        assert((action + ".boot"@).take(action.len() as int) == action);
        assert((other + ".boot"@).take(other.len() as int) == other);
    }
}

/// A marker file keeps a claim out if and only if it holds the boot's marker,
/// with any white space around it; every other contents are overwritten with
/// the boot's marker. Where the boot is not known or the file cannot be read
/// nothing is claimed.
pub proof fn law_marker_decides_the_claim(
    action: Seq<char>,
    marker: Seq<char>,
    file: MarkerFile,
    before: Seq<char>,
    contents: Seq<char>,
    after: Seq<char>,
)
    requires
        blank(before, false),
        blank(after, false),
        solid_front(contents, false),
        solid_back(contents, false),
        file matches MarkerFile::Holds(text) && text@ == before + contents + after,
    ensures
        ({
            let claimed = claim(action, Some(marker), file);
            &&& contents == marker ==> claimed == StartupStepView::Skip(SkipReason::AlreadyRan)
            &&& contents != marker ==> claimed == (StartupStepView::WriteMarker {
                path: marker_file(action),
                marker,
            })
            &&& claim(action, None, file) == StartupStepView::Skip(SkipReason::Unrecorded)
            &&& claim(action, Some(marker), MarkerFile::Unreadable) == StartupStepView::Skip(
                SkipReason::Unrecorded,
            )
            &&& claim(action, None, MarkerFile::Absent) == StartupStepView::Skip(
                SkipReason::Unrecorded,
            )
        }),
{
    law_ends_are_trimmed(before, contents, after, false);
}

/// Bluetooth radios that are off are left alone, and all other kinds are not
/// looked at.
pub proof fn law_other_radios_are_left_alone(bluetooth: bool, off: bool)
    ensures
        action_for(bluetooth, off) == RadioAction::Ignore <==> !bluetooth,
        action_for(bluetooth, off) == RadioAction::Leave <==> bluetooth && off,
{
}

/// An action that fails tells of the first radio that was not switched off,
/// with what Windows said of it.
pub proof fn law_first_rejection_is_told(visits: Seq<RadioVisit>, i: int)
    requires
        0 <= i < visits.len(),
        visits[i].change is Some && !visits[i].change->0.allowed,
        forall|j: int|
            0 <= j < i ==> (#[trigger] visits[j]).change is None || visits[j].change->0.allowed,
    ensures
        first_rejection(visits) == Some(
            "radio change was not allowed: "@ + visits[i].change->0.status@,
        ),
    decreases i,
{
    if i > 0 {
        let rest = visits.skip(1);
        assert(visits[0].change is None || visits[0].change->0.allowed);
        assert forall|j: int| 0 <= j < i - 1 implies (#[trigger] rest[j]).change is None
            || rest[j].change->0.allowed by {
            assert(rest[j] == visits[j + 1]);
        }
        law_first_rejection_is_told(rest, i - 1);
    }
}

/// A status word read as a signed number is that word but for a multiple of
/// two to the power of 32, and is what 32 bits can hold.
pub proof fn law_signed_word_is_the_word(value: u32)
    ensures
        i32::MIN <= signed_word(value) <= i32::MAX,
        signed_word(value) == value || signed_word(value) == value - 0x1_0000_0000,
{
}

/// What is to be done next hides nothing in its model.
pub proof fn law_step_models_are_faithful(reason: SkipReason, path: String, marker: String)
    ensures
        StartupStep::Skip(reason)@ == StartupStepView::Skip(reason),
        (StartupStep::ReadMarker { path })@ == (StartupStepView::ReadMarker { path: path@ }),
        (StartupStep::WriteMarker { path, marker })@ == (StartupStepView::WriteMarker {
            path: path@,
            marker: marker@,
        }),
        StartupStep::TurnOff@ == StartupStepView::TurnOff,
{
}

/// What the startup action is about to do goes by the switch and the uptime
/// alone: skipped where it is off, skipped as too late above a quarter of an
/// hour, and else claimed through its marker file.
pub proof fn law_startup_goes_by_switch_and_uptime(
    config: &Config,
    uptime_millis: u64,
    step: StartupStep,
)
    requires
        call_ensures(run_once_after_boot, (config, uptime_millis), step),
    ensures
        step@ == StartupStepView::Skip(SkipReason::Disabled) <==> !config.startup.turn_off_bluetooth,
        step@ == StartupStepView::Skip(SkipReason::TooLate) <==> config.startup.turn_off_bluetooth
            && uptime_millis > 900_000,
        step is ReadMarker <==> config.startup.turn_off_bluetooth && uptime_millis <= 900_000,
        step is ReadMarker ==> step@->ReadMarker_path == marker_file("turn-off-bluetooth"@),
{
}

/// Two boots have the same marker only where they are the same boot, and a boot
/// has one if and only if Windows told its time.
pub proof fn law_boots_are_told_apart(
    status: i32,
    boot: i64,
    other: i64,
    marker: Option<String>,
    other_marker: Option<String>,
)
    requires
        call_ensures(current_boot_marker, (status, boot), marker),
        call_ensures(current_boot_marker, (status, other), other_marker),
    ensures
        marker is Some <==> status >= 0,
        marker is Some && marker->0@ == other_marker->0@ ==> boot == other,
{
    if marker is Some && marker->0@ == other_marker->0@ {
        lemma_signed_decimal_is_injective(boot as int, other as int);
    }
}

/// The action runs if and only if its marker was written.
pub proof fn law_action_takes_a_written_marker(written: bool, step: StartupStep)
    requires
        call_ensures(after_marker, (written,), step),
    ensures
        step is TurnOff <==> written,
        !written ==> step@ == StartupStepView::Skip(SkipReason::Unrecorded),
{
}

/// What Windows does not allow is an error that repeats what Windows said, and
/// what it allows is none, for the access as for each change.
pub proof fn law_refusals_repeat_what_windows_said(
    allowed: bool,
    status: &str,
    access: Option<String>,
    change: Option<String>,
)
    requires
        call_ensures(access_failure, (allowed, status), access),
        call_ensures(change_failure, (allowed, status), change),
    ensures
        access is None <==> allowed,
        change is None <==> allowed,
        !allowed ==> access->0@ == "radio control access was not allowed: "@ + status@,
        !allowed ==> change->0@ == "radio change was not allowed: "@ + status@,
{
}

/// An apartment of ours is left again, one of another mode is used and not
/// left, and any other failure is handed on as it is.
pub proof fn law_apartment_of_another_mode_is_not_left(error: Option<i32>, res: Result<bool, i32>)
    requires
        call_ensures(apartment, (error,), res),
    ensures
        error is None ==> res == Ok::<bool, i32>(true),
        error == Some(-2_147_417_850i32) ==> res == Ok::<bool, i32>(false),
        error is Some && error->0 != -2_147_417_850i32 ==> res == Err::<bool, i32>(error->0),
{
}

} // verus!
