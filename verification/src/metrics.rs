//! The CPU temperature: how it is found in what AMD's command line tool
//! reports, and how the tool is asked again.
//!
//! A temperature is a 32-bit floating point number and stands here as its bits.
//! Among the positive numbers the bits are ordered as the numbers are.
use crate::config::optional_text;
use crate::mqtt::at_least_one;
use crate::mqtt::poll_interval;
use crate::text;
use crate::text::blank;
use crate::text::decimal_of;
use crate::text::first_word_of;
use crate::text::has_prefix;
use crate::text::law_blank_text_has_no_word;
use crate::text::law_ends_are_trimmed;
use crate::text::law_first_word_is_found;
use crate::text::law_front_is_trimmed;
use crate::text::law_prefix_and_rest_make_the_text;
use crate::text::lines_of;
use crate::text::lossy_text;
use crate::text::solid_back;
use crate::text::solid_front;
use crate::text::texts;
use crate::text::trim_back;
use crate::text::trim_front;
use crate::text::trimmed;
use crate::text::white_space;
use vstd::arithmetic::power2::lemma_pow2_unfold;
use vstd::arithmetic::power2::lemma2_to64;
use vstd::arithmetic::power2::pow2;
use vstd::prelude::*;
use vstd::string::StringExecFns;

verus! {

/// How long the command line tool may take.
pub const CLI_TIMEOUT_SECS: u64 = 20;

/// What the command line tool is asked for.
pub fn cli_arguments() -> (res: Vec<String>)
    ensures
        texts(res@) == seq!["--api"@, "GetPMTableData"@],
{
    let mut res: Vec<String> = Vec::new();
    res.push("--api".to_owned());
    res.push("GetPMTableData".to_owned());
    assert(texts(res@) == seq!["--api"@, "GetPMTableData"@]);
    res
}

/// How long to wait after the first failure in a row.
pub const INITIAL_BACKOFF_SECS: u64 = 15;

/// How long to wait at most after a failure.
pub const MAX_BACKOFF_SECS: u64 = 300;

/// What the line with the temperature starts with.
pub const TEMPERATURE_LINE: &'static str = "GetCurrentTemperature";

/// The bits of the number 150.
pub const LIMIT_BITS: u32 = 0x4316_0000;

/// What the line with the temperature says the temperature is: the first word
/// behind the line's name and the dots that fill it up.
pub open spec fn field_of(rest: Seq<char>) -> Option<Seq<char>> {
    first_word_of(trim_back(trim_front(rest, true), true))
}

/// What these lines say the temperature is. The first line with a temperature
/// decides.
pub open spec fn field_in(lines: Seq<Seq<char>>) -> Option<Seq<char>>
    decreases lines.len(),
{
    if lines.len() == 0 {
        None
    } else if has_prefix(trim_front(lines[0], false), TEMPERATURE_LINE@) {
        field_of(trim_front(lines[0], false).skip(TEMPERATURE_LINE@.len() as int))
    } else {
        field_in(lines.skip(1))
    }
}

/// What a report says the temperature is.
pub fn temperature_field(stdout: &str) -> (res: Option<String>)
    ensures
        optional_text(res) == field_in(lines_of(stdout@)),
{
    let lines = text::lines(stdout);
    let ghost all = texts(lines@);
    assert(all.skip(0) == all);
    let mut i: usize = 0;
    while i < lines.len()
        invariant
            i <= lines.len(),
            all == texts(lines@),
            all == lines_of(stdout@),
            field_in(all.skip(i as int)) == field_in(all),
        decreases lines.len() - i,
    {
        let line = text::trim_start(lines[i].as_str());
        assert(all.skip(i as int)[0] == lines@[i as int]@);
        if let Some(rest) = text::strip_prefix(line.as_str(), TEMPERATURE_LINE) {
            let field = text::trim_filler(rest.as_str(), true);
            return text::first_word(field.as_str());
        }
        assert(all.skip(i as int).skip(1) == all.skip(i + 1));
        i = i + 1;
    }
    None
}

/// Whether a temperature can be that of a running CPU: above 0 and below 150
/// degrees. The SDK says -1 where it does not know.
pub open spec fn plausible(bits: u32) -> bool {
    0 < bits < LIMIT_BITS
}

/// The temperature of a report: `number` is what the report says it is, read as
/// a number, if it is one.
pub fn parse_temperature(number: Option<u32>) -> (res: Option<u32>)
    ensures
        res == (if number is Some && plausible(number->0) {
            number
        } else {
            None
        }),
{
    match number {
        Some(bits) => if 0 < bits && bits < LIMIT_BITS {
            Some(bits)
        } else {
            None
        },
        None => None,
    }
}

/// The first thing that these lines say, if they say anything.
pub open spec fn first_remark(lines: Seq<Seq<char>>) -> Seq<char>
    decreases lines.len(),
{
    if lines.len() == 0 {
        "no output"@
    } else if trimmed(lines[0]).len() > 0 {
        trimmed(lines[0])
    } else {
        first_remark(lines.skip(1))
    }
}

/// The first thing that a report says, if it says anything.
pub fn remark(stdout: &str) -> (res: String)
    ensures
        res@ == first_remark(lines_of(stdout@)),
{
    let lines = text::lines(stdout);
    let ghost all = texts(lines@);
    assert(all.skip(0) == all);
    let mut i: usize = 0;
    while i < lines.len()
        invariant
            i <= lines.len(),
            all == texts(lines@),
            all == lines_of(stdout@),
            first_remark(all.skip(i as int)) == first_remark(all),
        decreases lines.len() - i,
    {
        let line = text::trim(lines[i].as_str());
        assert(all.skip(i as int)[0] == lines@[i as int]@);
        if !line.as_str().is_empty() {
            return line;
        }
        assert(all.skip(i as int).skip(1) == all.skip(i + 1));
        i = i + 1;
    }
    "no output".to_owned()
}

/// What became of a run of the command line tool.
#[derive(Debug)]
pub enum ToolRun {
    /// There is no such tool.
    NotFound,
    /// It took too long.
    TimedOut,
    /// It could not be run.
    Failed(String),
    /// It wrote this.
    Output(Vec<u8>),
}

/// What a run of the command line tool says the temperature is.
pub open spec fn run_field(run: ToolRun) -> Option<Seq<char>> {
    match run {
        ToolRun::Output(stdout) => field_in(lines_of(lossy_text(stdout@))),
        _ => None,
    }
}

/// Why a run of the command line tool gave no temperature, in words.
pub open spec fn failure_text(cli: Seq<char>, run: ToolRun) -> Seq<char> {
    match run {
        ToolRun::NotFound => cli + " not found"@,
        ToolRun::TimedOut => cli + " did not return within "@ + decimal_of(
            CLI_TIMEOUT_SECS as nat,
        ) + "s"@,
        ToolRun::Failed(cause) => "failed to run "@ + cli + ": "@ + cause@,
        ToolRun::Output(stdout) => "no temperature in CLI output ("@ + first_remark(
            lines_of(lossy_text(stdout@)),
        ) + ")"@,
    }
}

impl ToolRun {
    /// What the run says the temperature is.
    pub fn field(&self) -> (res: Option<String>)
        ensures
            optional_text(res) == run_field(*self),
    {
        match self {
            ToolRun::Output(stdout) => {
                temperature_field(text::decode(stdout.as_slice()).as_str())
            },
            _ => None,
        }
    }

    /// Why the run gave no temperature, in words.
    fn failure(&self, cli: &str) -> (res: String)
        ensures
            res@ == failure_text(cli@, *self),
    {
        match self {
            ToolRun::NotFound => cli.to_owned().concat(" not found"),
            ToolRun::TimedOut => cli.to_owned().concat(" did not return within ").concat(
                text::decimal(CLI_TIMEOUT_SECS).as_str(),
            ).concat("s"),
            ToolRun::Failed(cause) => "failed to run ".to_owned().concat(cli).concat(": ").concat(
                cause.as_str(),
            ),
            ToolRun::Output(stdout) => {
                let detail = remark(text::decode(stdout.as_slice()).as_str());
                "no temperature in CLI output (".to_owned().concat(detail.as_str()).concat(")")
            },
        }
    }
}

/// The temperature that a run of the command line tool gave, or why it gave
/// none. `number` is what the run says the temperature is, read as a number,
/// if it is one.
pub fn read_temperature(cli: &str, run: &ToolRun, number: Option<u32>) -> (res: Result<u32, String>)
    ensures
        match res {
            Ok(bits) => run is Output && number == Some(bits) && plausible(bits),
            Err(cause) => !(run is Output && number is Some && plausible(number->0)) && cause@
                == failure_text(cli@, *run),
        },
{
    if let ToolRun::Output(_) = run {
        if let Some(bits) = parse_temperature(number) {
            return Ok(bits);
        }
    }
    Err(run.failure(cli))
}

/// What is worth a line in the log.
#[derive(Debug, Clone, Copy, PartialEq, Eq, Structural)]
pub enum Notice {
    /// Nothing.
    Nothing,
    /// That there is a temperature now.
    Available,
    /// That there is none, and why.
    Unavailable,
}

/// Asks for the temperature again and again.
#[derive(Debug)]
pub struct TempReader {
    /// The time between two readings.
    pub interval_secs: u64,
    /// The time to wait after the next failure.
    pub backoff_secs: u64,
    /// The last failure that is worth no second line in the log.
    pub last_error: Option<String>,
    /// Whether it was said that there is a temperature.
    pub reported_ok: bool,
    /// The temperature, while there is one.
    pub latest: Option<u32>,
}

/// Where a reader of the temperature stands, as a value.
pub ghost struct ReaderView {
    pub interval_secs: u64,
    pub backoff_secs: u64,
    pub last_error: Option<Seq<char>>,
    pub reported_ok: bool,
    pub latest: Option<u32>,
}

impl View for TempReader {
    type V = ReaderView;

    open spec fn view(&self) -> ReaderView {
        ReaderView {
            interval_secs: self.interval_secs,
            backoff_secs: self.backoff_secs,
            last_error: optional_text(self.last_error),
            reported_ok: self.reported_ok,
            latest: self.latest,
        }
    }
}

/// Twice a time to wait, but not more than the most there is to wait.
pub open spec fn longer(secs: u64) -> u64 {
    if 2 * secs < MAX_BACKOFF_SECS {
        (2 * secs) as u64
    } else {
        MAX_BACKOFF_SECS
    }
}

impl ReaderView {
    /// A reader that has not read yet.
    pub open spec fn initial(interval_secs: u64) -> ReaderView {
        ReaderView {
            interval_secs: at_least_one(interval_secs),
            backoff_secs: INITIAL_BACKOFF_SECS,
            last_error: None,
            reported_ok: false,
            latest: None,
        }
    }

    /// The time to wait lies between the least and the most there is to wait.
    pub open spec fn wf(self) -> bool {
        &&& self.interval_secs >= 1
        &&& INITIAL_BACKOFF_SECS <= self.backoff_secs <= MAX_BACKOFF_SECS
    }

    /// Where the reader stands after a reading: a temperature, or why there is
    /// none.
    pub open spec fn after(self, reading: Result<u32, Seq<char>>) -> ReaderView {
        match reading {
            Ok(bits) => ReaderView {
                backoff_secs: INITIAL_BACKOFF_SECS,
                last_error: None,
                reported_ok: true,
                latest: Some(bits),
                ..self
            },
            Err(cause) => ReaderView {
                backoff_secs: longer(self.backoff_secs),
                last_error: Some(cause),
                reported_ok: false,
                latest: None,
                ..self
            },
        }
    }

    /// How long the reader waits after a reading.
    pub open spec fn wait(self, reading: Result<u32, Seq<char>>) -> u64 {
        match reading {
            Ok(_) => self.interval_secs,
            Err(_) => self.backoff_secs,
        }
    }

    /// What of a reading is worth a line in the log: the first temperature, and
    /// a failure that is not the one before.
    pub open spec fn notice(self, reading: Result<u32, Seq<char>>) -> Notice {
        match reading {
            Ok(_) => if self.reported_ok {
                Notice::Nothing
            } else {
                Notice::Available
            },
            Err(cause) => if self.last_error == Some(cause) {
                Notice::Nothing
            } else {
                Notice::Unavailable
            },
        }
    }

    /// Where the reader stands after many readings.
    pub open spec fn after_all(self, readings: Seq<Result<u32, Seq<char>>>) -> ReaderView
        decreases readings.len(),
    {
        if readings.len() == 0 {
            self
        } else {
            self.after_all(readings.drop_last()).after(readings.last())
        }
    }
}

/// A reading as a value.
pub open spec fn reading_view(reading: Result<u32, String>) -> Result<u32, Seq<char>> {
    match reading {
        Ok(bits) => Ok(bits),
        Err(cause) => Err(cause@),
    }
}

impl TempReader {
    /// A reader that has not read yet.
    pub fn new(interval_secs: u64) -> (res: TempReader)
        ensures
            res@ == ReaderView::initial(interval_secs),
            res@.wf(),
    {
        TempReader {
            interval_secs: poll_interval(interval_secs),
            backoff_secs: INITIAL_BACKOFF_SECS,
            last_error: None,
            reported_ok: false,
            latest: None,
        }
    }

    /// Takes a reading in: how long to wait before the next one, in seconds,
    /// and what is worth a line in the log.
    pub fn step(&mut self, reading: &Result<u32, String>) -> (res: (u64, Notice))
        ensures
            final(self)@ == old(self)@.after(reading_view(*reading)),
            res.0 == old(self)@.wait(reading_view(*reading)),
            res.1 == old(self)@.notice(reading_view(*reading)),
            old(self)@.wf() ==> final(self)@.wf(),
    {
        match reading {
            Ok(bits) => {
                let notice = if self.reported_ok {
                    Notice::Nothing
                } else {
                    Notice::Available
                };
                self.reported_ok = true;
                self.latest = Some(*bits);
                self.backoff_secs = INITIAL_BACKOFF_SECS;
                self.last_error = None;
                (self.interval_secs, notice)
            },
            Err(cause) => {
                self.latest = None;
                self.reported_ok = false;
                let known = match &self.last_error {
                    Some(last) => *last == *cause,
                    None => false,
                };
                let notice = if known {
                    Notice::Nothing
                } else {
                    Notice::Unavailable
                };
                if !known {
                    self.last_error = Some(cause.clone());
                }
                let wait = self.backoff_secs;
                self.backoff_secs = if wait > MAX_BACKOFF_SECS / 2 {
                    MAX_BACKOFF_SECS
                } else {
                    2 * wait
                };
                (wait, notice)
            },
        }
    }

    /// The temperature, while there is one.
    pub fn latest(&self) -> (res: Option<u32>)
        ensures
            res == self.latest,
    {
        self.latest
    }
}

/// The time to wait doubles from failure to failure, from 15 seconds up to
/// five minutes.
pub proof fn law_failures_back_off(interval_secs: u64, readings: Seq<Result<u32, Seq<char>>>)
    requires
        forall|i: int| 0 <= i < readings.len() ==> readings[i] is Err,
    ensures
        ({
            let reader = ReaderView::initial(interval_secs).after_all(readings);
            let secs = INITIAL_BACKOFF_SECS * pow2(readings.len());
            reader.backoff_secs == (if secs < MAX_BACKOFF_SECS {
                secs
            } else {
                MAX_BACKOFF_SECS as int
            })
        }),
    decreases readings.len(),
{
    lemma2_to64();
    if readings.len() > 0 {
        law_failures_back_off(interval_secs, readings.drop_last());
        lemma_pow2_unfold(readings.len());
    }
}

/// A temperature ends the waiting: the next failure is waited for no longer
/// than the first one was, and it is worth a line in the log again.
pub proof fn law_reading_ends_the_backoff(reader: ReaderView, bits: u32, cause: Seq<char>)
    ensures
        reader.after(Ok(bits)).wait(Err(cause)) == INITIAL_BACKOFF_SECS,
        reader.after(Ok(bits)).notice(Err(cause)) == Notice::Unavailable,
{
}

/// A failure that repeats is worth one line in the log, one that changes is
/// worth another.
pub proof fn law_failures_are_logged_on_change(
    reader: ReaderView,
    cause: Seq<char>,
    next: Seq<char>,
)
    ensures
        reader.after(Err(cause)).notice(Err(next)) == (if next == cause {
            Notice::Nothing
        } else {
            Notice::Unavailable
        }),
{
}

/// The temperature that is held is the one that was read last, and there is
/// none after a failure: a value that the sensor no longer gives is dropped.
pub proof fn law_latest_is_the_last_reading(
    interval_secs: u64,
    readings: Seq<Result<u32, Seq<char>>>,
)
    ensures
        ReaderView::initial(interval_secs).after_all(readings).latest == (if readings.len() == 0 {
            None
        } else {
            match readings.last() {
                Ok(bits) => Some(bits),
                Err(_) => None,
            }
        }),
{
}

/// However the readings go, the time to wait stays between the least and the
/// most there is to wait.
pub proof fn law_waits_are_bounded(interval_secs: u64, readings: Seq<Result<u32, Seq<char>>>)
    ensures
        ReaderView::initial(interval_secs).after_all(readings).wf(),
    decreases readings.len(),
{
    if readings.len() > 0 {
        law_waits_are_bounded(interval_secs, readings.drop_last());
    }
}

/// The temperature is the word behind the dots, whatever words follow it. Dots
/// inside and at the end of the word belong to it.
pub proof fn law_field_stands_behind_the_dots(
    dots: Seq<char>,
    word: Seq<char>,
    rest: Seq<char>,
    after: Seq<char>,
)
    requires
        blank(dots, true),
        word.len() > 0,
        word[0] != '.',
        forall|i: int| 0 <= i < word.len() ==> !white_space(#[trigger] word[i]),
        rest.len() > 0,
        white_space(rest[0]),
        solid_back(rest, true),
        blank(after, true),
    ensures
        field_of(dots + word + rest + after) == Some(word),
{
    let core = word + rest;
    assert(dots + word + rest + after == dots + core + after);
    assert(core[0] == word[0]);
    assert(core.last() == rest.last());
    law_ends_are_trimmed(dots, core, after, true);
    assert(Seq::<char>::empty() + word + rest == core);
    law_first_word_is_found(Seq::empty(), word, rest);
}

/// The temperature may be the last word; then the dots behind it do not belong
/// to it. A line with nothing but dots tells nothing.
pub proof fn law_field_may_stand_last(dots: Seq<char>, word: Seq<char>, after: Seq<char>)
    requires
        blank(dots, true),
        blank(after, true),
        word.len() > 0,
        word[0] != '.',
        word.last() != '.',
        forall|i: int| 0 <= i < word.len() ==> !white_space(#[trigger] word[i]),
    ensures
        field_of(dots + word + after) == Some(word),
        field_of(dots) is None,
{
    let none = Seq::<char>::empty();
    law_ends_are_trimmed(dots, word, after, true);
    assert(none + word + none == word);
    law_first_word_is_found(none, word, none);
    assert(dots + none + none == dots);
    law_ends_are_trimmed(dots, none, none, true);
    law_blank_text_has_no_word(none);
}

/// Whether a line is one that tells of the temperature, with this behind its name.
pub open spec fn tells(line: Seq<char>, rest: Seq<char>) -> bool {
    exists|indent: Seq<char>|
        blank(indent, false) && line == #[trigger] (indent + "GetCurrentTemperature"@) + rest
}

proof fn lemma_telling_line(line: Seq<char>, rest: Seq<char>)
    requires
        tells(line, rest),
    ensures
        has_prefix(trim_front(line, false), TEMPERATURE_LINE@),
        trim_front(line, false).skip(TEMPERATURE_LINE@.len() as int) == rest,
{
    let name = "GetCurrentTemperature"@;
    reveal_strlit("GetCurrentTemperature");
    let indent = choose|indent: Seq<char>|
        blank(indent, false) && line == #[trigger] (indent + name) + rest;
    assert(line == indent + (name + rest));
    assert((name + rest)[0] == name[0]);
    assert(name[0] == 'G');
    law_front_is_trimmed(indent, name + rest, false);
    law_prefix_and_rest_make_the_text(line, name, rest);
}

/// What a report says is what its first line says that tells of the
/// temperature, whatever the lines before and behind it say.
pub proof fn law_first_telling_line_decides(
    lines: Seq<Seq<char>>,
    i: int,
    rest: Seq<char>,
)
    requires
        0 <= i < lines.len(),
        tells(lines[i], rest),
        forall|j: int|
            0 <= j < i ==> !has_prefix(
                trim_front(#[trigger] lines[j], false),
                "GetCurrentTemperature"@,
            ),
    ensures
        field_in(lines) == field_of(rest),
    decreases i,
{
    if i == 0 {
        lemma_telling_line(lines[0], rest);
    } else {
        let tail = lines.skip(1);
        assert(!has_prefix(trim_front(lines[0], false), TEMPERATURE_LINE@));
        assert forall|j: int| 0 <= j < i - 1 implies !has_prefix(
            trim_front(#[trigger] tail[j], false),
            "GetCurrentTemperature"@,
        ) by {
            assert(tail[j] == lines[j + 1]);
        }
        law_first_telling_line_decides(tail, i - 1, rest);
    }
}

/// A report without a line that tells of the temperature says nothing of it.
pub proof fn law_silent_report_says_nothing(lines: Seq<Seq<char>>)
    requires
        forall|j: int|
            0 <= j < lines.len() ==> !has_prefix(
                trim_front(#[trigger] lines[j], false),
                "GetCurrentTemperature"@,
            ),
    ensures
        field_in(lines) is None,
    decreases lines.len(),
{
    if lines.len() > 0 {
        let tail = lines.skip(1);
        assert(!has_prefix(trim_front(lines[0], false), TEMPERATURE_LINE@));
        assert forall|j: int| 0 <= j < tail.len() implies !has_prefix(
            trim_front(#[trigger] tail[j], false),
            "GetCurrentTemperature"@,
        ) by {
            assert(tail[j] == lines[j + 1]);
        }
        law_silent_report_says_nothing(tail);
    }
}

/// A temperature is taken where its bits are those of a number above 0 and
/// below 150, which has the bits 0x43160000; a number with its sign bit set is
/// not taken.
pub proof fn law_plausible_temperatures(bits: u32)
    ensures
        plausible(bits) <==> bits != 0 && bits < 0x4316_0000,
        plausible(bits) ==> bits < 0x8000_0000,
{
}

/// A remark is the first line that is not blank, without the white space around
/// it; blank lines say nothing, however many there are.
pub proof fn law_first_line_that_is_not_blank_is_the_remark(
    lines: Seq<Seq<char>>,
    i: int,
    before: Seq<char>,
    said: Seq<char>,
    after: Seq<char>,
)
    requires
        0 <= i <= lines.len(),
        forall|j: int| 0 <= j < i ==> blank(#[trigger] lines[j], false),
        i < lines.len() ==> said.len() > 0 && lines[i] == before + said + after && blank(
            before,
            false,
        ) && blank(after, false) && solid_front(said, false) && solid_back(said, false),
    ensures
        i < lines.len() ==> first_remark(lines) == said,
        i == lines.len() ==> first_remark(lines) == "no output"@,
    decreases i,
{
    let none = Seq::<char>::empty();
    if i == 0 {
        if lines.len() > 0 {
            law_ends_are_trimmed(before, said, after, false);
        }
    } else {
        let tail = lines.skip(1);
        assert(blank(lines[0], false));
        assert(lines[0] + none + none == lines[0]);
        law_ends_are_trimmed(lines[0], none, none, false);
        assert forall|j: int| 0 <= j < i - 1 implies blank(#[trigger] tail[j], false) by {
            assert(tail[j] == lines[j + 1]);
        }
        law_first_line_that_is_not_blank_is_the_remark(tail, i - 1, before, said, after);
    }
}

/// A run that wrote nothing tells nothing, whatever stopped it; one that wrote
/// something tells what its lines tell.
pub proof fn law_only_output_tells(run: ToolRun, stdout: Vec<u8>)
    ensures
        run !is Output ==> run_field(run) is None,
        run_field(ToolRun::Output(stdout)) == field_in(lines_of(lossy_text(stdout@))),
{
}

/// A failure names the tool and what went wrong with it.
pub proof fn law_failures_name_the_tool(cli: Seq<char>, cause: String, stdout: Vec<u8>)
    ensures
        failure_text(cli, ToolRun::NotFound) == cli + " not found"@,
        failure_text(cli, ToolRun::TimedOut) == cli + " did not return within "@ + decimal_of(20)
            + "s"@,
        failure_text(cli, ToolRun::Failed(cause)) == "failed to run "@ + cli + ": "@ + cause@,
        failure_text(cli, ToolRun::Output(stdout)) == "no temperature in CLI output ("@
            + first_remark(lines_of(lossy_text(stdout@))) + ")"@,
{
}

/// How many failures came in a row at the end.
pub open spec fn failures_in_a_row(readings: Seq<Result<u32, Seq<char>>>) -> nat
    decreases readings.len(),
{
    if readings.len() == 0 || readings.last() is Ok {
        0
    } else {
        1 + failures_in_a_row(readings.drop_last())
    }
}

/// However the readings went before, the time to wait after the next failure is
/// 15 seconds, doubled for each failure in a row before it, and never more than
/// 300; after a temperature it is the interval that was asked for, or a second
/// where that was zero.
pub proof fn law_waits_count_failures_in_a_row(
    interval_secs: u64,
    readings: Seq<Result<u32, Seq<char>>>,
    bits: u32,
    cause: Seq<char>,
)
    ensures
        ({
            let reader = ReaderView::initial(interval_secs).after_all(readings);
            let secs = 15 * pow2(failures_in_a_row(readings));
            &&& reader.wait(Err(cause)) == (if secs < 300 {
                secs
            } else {
                300
            })
            &&& interval_secs > 0 ==> reader.wait(Ok(bits)) == interval_secs
            &&& interval_secs == 0 ==> reader.wait(Ok(bits)) == 1
        }),
    decreases readings.len(),
{
    lemma2_to64();
    if readings.len() > 0 {
        law_waits_count_failures_in_a_row(interval_secs, readings.drop_last(), bits, cause);
        if readings.last() is Err {
            lemma_pow2_unfold(failures_in_a_row(readings));
        }
    }
}

/// However the readings went before, a temperature is worth a line in the log if
/// and only if the reading before it was none, and a failure if and only if the
/// reading before it was not the same failure.
pub proof fn law_changes_are_logged(
    interval_secs: u64,
    readings: Seq<Result<u32, Seq<char>>>,
    bits: u32,
    cause: Seq<char>,
)
    ensures
        ({
            let reader = ReaderView::initial(interval_secs).after_all(readings);
            &&& reader.notice(Ok(bits)) == (if readings.len() > 0 && readings.last() is Ok {
                Notice::Nothing
            } else {
                Notice::Available
            })
            &&& reader.notice(Err(cause)) == (if readings.len() > 0 && readings.last() == Err::<
                u32,
                Seq<char>,
            >(cause) {
                Notice::Nothing
            } else {
                Notice::Unavailable
            })
        }),
{
}

/// The model of a reader shows all that the reader holds.
pub proof fn law_reader_model_is_faithful(reader: TempReader)
    ensures
        reader@.interval_secs == reader.interval_secs,
        reader@.backoff_secs == reader.backoff_secs,
        reader@.reported_ok == reader.reported_ok,
        reader@.latest == reader.latest,
        reader@.last_error is Some <==> reader.last_error is Some,
        reader.last_error is Some ==> reader@.last_error == Some(reader.last_error->0@),
{
}

/// A reading is what it is in its model: a temperature, or why there is none.
pub proof fn law_reading_model_is_faithful(bits: u32, cause: String)
    ensures
        reading_view(Ok(bits)) == Ok::<u32, Seq<char>>(bits),
        reading_view(Err(cause)) == Err::<u32, Seq<char>>(cause@),
{
}

/// A temperature comes out of a run if and only if the run wrote something that
/// reads as a number above 0 and below 150, and then it is that number, to the
/// bit; the filter lets the same numbers through.
pub proof fn law_temperature_is_the_number_that_was_read(
    cli: &str,
    run: &ToolRun,
    number: Option<u32>,
    filtered: Option<u32>,
    reading: Result<u32, String>,
)
    requires
        call_ensures(parse_temperature, (number,), filtered),
        call_ensures(read_temperature, (cli, run, number), reading),
    ensures
        filtered is Some <==> number is Some && 0 < number->0 < 0x4316_0000,
        filtered is Some ==> filtered == number,
        reading is Ok <==> *run is Output && filtered is Some,
        reading is Ok ==> reading->Ok_0 == number->0,
        reading is Err ==> reading->Err_0@ == failure_text(cli@, *run),
{
}

} // verus!
