use watchdesk::metrics::cli_arguments;
use watchdesk::metrics::parse_temperature;
use watchdesk::metrics::read_temperature;
use watchdesk::metrics::remark;
use watchdesk::metrics::temperature_field;
use watchdesk::metrics::Notice;
use watchdesk::metrics::TempReader;
use watchdesk::metrics::ToolRun;
use watchdesk::metrics::LIMIT_BITS;

/// The temperature in a report of the command line tool.
fn temperature(stdout: &str) -> Option<f32> {
    let number = temperature_field(stdout).and_then(|field| field.parse::<f32>().ok());
    parse_temperature(number.map(f32::to_bits)).map(f32::from_bits)
}

#[test]
fn reads_the_temperature_line() {
    let out = "\
GetPMTableData .................................... cHTC Current Limit: 95.000000 celsius\r
GetPMTableData .................................... cHTC Current Value: 47.413761 celsius\r
GetCurrentTemperature ............................. 47.41 Celsius\r
GetAverageCoreVoltage ............................. 1.187500 V\r
";
    assert_eq!(temperature(out), Some(47.41));
}

#[test]
fn rejects_the_deprecated_api_response() {
    let out = "GetCurrentTemperature ............................. Deprecated API. Use GetPMTableData";
    assert_eq!(temperature(out), None);
}

#[test]
fn rejects_unpopulated_and_missing_values() {
    assert_eq!(temperature("GetCurrentTemperature ......... -1.00 Celsius"), None);
    assert_eq!(temperature("User is not admin..."), None);
    assert_eq!(temperature(""), None);
}

#[test]
fn finds_the_field_behind_the_dots() {
    assert_eq!(
        temperature_field("  \tGetCurrentTemperature ... 50.4 Celsius").as_deref(),
        Some("50.4")
    );
    assert_eq!(temperature_field("GetCurrentTemperature50.4").as_deref(), Some("50.4"));
    assert_eq!(temperature_field("GetCurrentTemperature ....").as_deref(), None);
    assert_eq!(temperature_field("XGetCurrentTemperature 50.4").as_deref(), None);
    assert_eq!(
        temperature_field("GetCurrentTemperature .5. Celsius").as_deref(),
        Some("5.")
    );
    assert_eq!(
        temperature_field("GetCurrentTemperature\u{3000}.\u{a0}61.0\u{2003}Celsius").as_deref(),
        Some("61.0")
    );
}

#[test]
fn the_first_temperature_line_decides() {
    let out = "GetCurrentTemperature .. none\nGetCurrentTemperature .. 47.0 Celsius\n";
    assert_eq!(temperature_field(out).as_deref(), Some("none"));
    assert_eq!(temperature(out), None);
}

#[test]
fn accepts_what_lies_between_zero_and_the_limit() {
    assert_eq!(LIMIT_BITS, 150.0f32.to_bits());
    let accepted = [f32::MIN_POSITIVE, 0.5, 47.41, 149.99];
    for value in accepted {
        assert_eq!(parse_temperature(Some(value.to_bits())), Some(value.to_bits()));
    }
    let refused = [0.0, -0.0, -1.0, 150.0, 1000.0, f32::INFINITY, f32::NEG_INFINITY, f32::NAN];
    for value in refused {
        assert_eq!(parse_temperature(Some(value.to_bits())), None);
    }
    assert_eq!(parse_temperature(None), None);
}

#[test]
fn accepts_as_the_numbers_do() {
    let mut bits: u32 = 0;
    loop {
        let value = f32::from_bits(bits);
        let expected = value > 0.0 && value < 150.0;
        assert_eq!(parse_temperature(Some(bits)).is_some(), expected);
        match bits.checked_add(65_521) {
            Some(next) => bits = next,
            None => break,
        }
    }
}

#[test]
fn remarks_on_the_first_line_that_says_anything() {
    assert_eq!(remark("\r\n   \n  User is not admin...  \nmore"), "User is not admin...");
    assert_eq!(remark(" \n\t\n"), "no output");
    assert_eq!(remark(""), "no output");
}

#[test]
fn says_why_there_is_no_temperature() {
    let cli = "C:\\cli.exe";
    assert_eq!(
        read_temperature(cli, &ToolRun::NotFound, None),
        Err("C:\\cli.exe not found".to_string())
    );
    assert_eq!(
        read_temperature(cli, &ToolRun::TimedOut, None),
        Err("C:\\cli.exe did not return within 20s".to_string())
    );
    assert_eq!(
        read_temperature(cli, &ToolRun::Failed("access denied".to_string()), None),
        Err("failed to run C:\\cli.exe: access denied".to_string())
    );
    assert_eq!(
        read_temperature(cli, &ToolRun::Output(b"User is not admin...\r\n".to_vec()), None),
        Err("no temperature in CLI output (User is not admin...)".to_string())
    );
    assert_eq!(
        read_temperature(cli, &ToolRun::Output(Vec::new()), None),
        Err("no temperature in CLI output (no output)".to_string())
    );
}

#[test]
fn reads_a_run_of_the_tool() {
    let run = ToolRun::Output(b"GetCurrentTemperature ..... 47.41 Celsius\r\n".to_vec());
    assert_eq!(run.field().as_deref(), Some("47.41"));
    let bits = 47.41f32.to_bits();
    assert_eq!(read_temperature("cli", &run, Some(bits)), Ok(bits));
    assert_eq!(
        read_temperature("cli", &run, Some((-1.0f32).to_bits())),
        Err("no temperature in CLI output (GetCurrentTemperature ..... 47.41 Celsius)".to_string())
    );
    assert_eq!(ToolRun::NotFound.field(), None);
    assert_eq!(ToolRun::TimedOut.field(), None);
}

#[test]
fn reads_output_that_is_not_utf8() {
    let mut bytes = b"\xff\xfe broken\n".to_vec();
    assert_eq!(
        read_temperature("cli", &ToolRun::Output(bytes.clone()), None),
        Err("no temperature in CLI output (\u{fffd}\u{fffd} broken)".to_string())
    );
    bytes.extend_from_slice(b"GetCurrentTemperature ... 50.4 \xb0C\n");
    assert_eq!(ToolRun::Output(bytes).field().as_deref(), Some("50.4"));
    let run = ToolRun::Output("temp\u{e9}rature\n".as_bytes().to_vec());
    assert_eq!(
        read_temperature("cli", &run, None),
        Err("no temperature in CLI output (temp\u{e9}rature)".to_string())
    );
}

#[test]
fn backs_off_from_failure_to_failure() {
    let mut reader = TempReader::new(5);
    let failure: Result<u32, String> = Err("no".to_string());
    let mut waits: Vec<u64> = Vec::new();
    for _ in 0..8 {
        waits.push(reader.step(&failure).0);
    }
    assert_eq!(waits, vec![15, 30, 60, 120, 240, 300, 300, 300]);
}

#[test]
fn a_reading_ends_the_backoff() {
    let mut reader = TempReader::new(5);
    let failure: Result<u32, String> = Err("no".to_string());
    let reading: Result<u32, String> = Ok(47.41f32.to_bits());
    reader.step(&failure);
    reader.step(&failure);
    assert_eq!(reader.step(&reading), (5, Notice::Available));
    assert_eq!(reader.step(&reading), (5, Notice::Nothing));
    assert_eq!(reader.step(&failure), (15, Notice::Unavailable));
}

#[test]
fn logs_failures_when_they_change() {
    let mut reader = TempReader::new(5);
    assert_eq!(reader.step(&Err("a".to_string())).1, Notice::Unavailable);
    assert_eq!(reader.step(&Err("a".to_string())).1, Notice::Nothing);
    assert_eq!(reader.step(&Err("b".to_string())).1, Notice::Unavailable);
    assert_eq!(reader.step(&Err("a".to_string())).1, Notice::Unavailable);
}

#[test]
fn holds_the_last_reading_only() {
    let mut reader = TempReader::new(5);
    assert_eq!(reader.latest(), None);
    reader.step(&Ok(1));
    reader.step(&Ok(2));
    assert_eq!(reader.latest(), Some(2));
    reader.step(&Err("gone".to_string()));
    assert_eq!(reader.latest(), None);
}

#[test]
fn waits_at_least_a_second() {
    let mut reader = TempReader::new(0);
    assert_eq!(reader.step(&Ok(1)).0, 1);
    let mut slow = TempReader::new(u64::MAX);
    assert_eq!(slow.step(&Ok(1)).0, u64::MAX);
}

#[test]
fn asks_the_tool_for_its_table() {
    assert_eq!(cli_arguments(), vec!["--api", "GetPMTableData"]);
}
