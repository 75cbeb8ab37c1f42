use ollama_manager::events::{Event, Payload, TerminalOutput};
use ollama_manager::process::{CapturedOutput, CapturedText, ProcessInvocation};
use ollama_manager::terminal::{
    execute_terminal_command_finished, execute_terminal_command_finished_at,
    execute_terminal_command_started, execute_terminal_command_started_at, is_empty_command,
    parse_command_line,
};

const T0: &str = "2024-05-01T10:00:00+00:00";
const T1: &str = "2024-05-01T10:00:01+00:00";

fn entry(command: &str, text: &str, timestamp: &str, exit_code: Option<i32>) -> Event {
    Event {
        channel: "output".to_string(),
        payload: Payload::Terminal(TerminalOutput {
            command: command.to_string(),
            output: text.to_string(),
            timestamp: timestamp.to_string(),
            exit_code,
        }),
    }
}

fn ran(stdout: &str, stderr: &str, exit_code: Option<i32>) -> CapturedText {
    CapturedText {
        stdout: stdout.to_string(),
        stderr: stderr.to_string(),
        exit_code,
        spawn_error: None,
    }
}

fn terminal(event: &Event) -> &TerminalOutput {
    match &event.payload {
        Payload::Terminal(entry) => entry,
        other => panic!("terminal entry expected, got {:?}", other),
    }
}

#[test]
fn command_line_splits_into_program_and_arguments() {
    assert_eq!(
        parse_command_line("echo hello"),
        Some(ProcessInvocation {
            program: "echo".to_string(),
            arguments: vec!["hello".to_string()],
        })
    );
    assert_eq!(
        parse_command_line("  ollama   run\tllama3  --verbose "),
        Some(ProcessInvocation {
            program: "ollama".to_string(),
            arguments: vec!["run".to_string(), "llama3".to_string(), "--verbose".to_string()],
        })
    );
}

#[test]
fn command_line_of_one_word_has_no_arguments() {
    assert_eq!(
        parse_command_line("ls"),
        Some(ProcessInvocation { program: "ls".to_string(), arguments: Vec::new() })
    );
}

#[test]
fn command_line_without_a_word_asks_for_nothing() {
    assert_eq!(parse_command_line(""), None);
    assert_eq!(parse_command_line("   \t\n"), None);
}

#[test]
fn command_line_does_not_know_quotes() {
    assert_eq!(
        parse_command_line("echo \"a b\""),
        Some(ProcessInvocation {
            program: "echo".to_string(),
            arguments: vec!["\"a".to_string(), "b\"".to_string()],
        })
    );
}

#[test]
fn execute_echo_hello() {
    let first = execute_terminal_command_started_at("echo hello", T0);
    assert_eq!(first, Some(entry("echo hello", "$ echo hello", T0, None)));
    let invocation = parse_command_line("echo hello").unwrap();
    assert_eq!(invocation.program, "echo");
    assert_eq!(invocation.arguments, vec!["hello".to_string()]);
    let run = CapturedOutput::exited(b"hello\n".to_vec(), Vec::new(), Some(0)).decode();
    let second = execute_terminal_command_finished_at("echo hello", &run, T1);
    assert_eq!(second, entry("echo hello", "hello\n", T1, Some(0)));
}

#[test]
fn execute_echoes_the_line_as_it_was_typed() {
    assert_eq!(
        execute_terminal_command_started_at("  ls   -l ", T0),
        Some(entry("  ls   -l ", "$   ls   -l ", T0, None))
    );
}

#[test]
fn execute_of_an_empty_line_is_silent() {
    for line in ["", " ", "   \t\n", "\u{00A0}\u{3000}"] {
        assert!(is_empty_command(line));
        assert_eq!(parse_command_line(line), None);
        assert_eq!(execute_terminal_command_started_at(line, T0), None);
        assert_eq!(execute_terminal_command_started(line), None);
    }
}

#[test]
fn execute_of_a_line_with_a_word_is_not_empty() {
    for line in ["a", " a ", "echo hello", "\t-\n"] {
        assert!(!is_empty_command(line));
        assert!(parse_command_line(line).is_some());
        assert!(execute_terminal_command_started_at(line, T0).is_some());
        assert!(execute_terminal_command_started(line).is_some());
    }
}

#[test]
fn execute_merges_both_streams_with_a_line_feed() {
    assert_eq!(
        execute_terminal_command_finished_at("cmd", &ran("out", "err", Some(0)), T1),
        entry("cmd", "out\nerr", T1, Some(0))
    );
}

#[test]
fn execute_adds_no_line_feed_to_a_single_stream() {
    assert_eq!(
        execute_terminal_command_finished_at("cmd", &ran("out", "", Some(0)), T1),
        entry("cmd", "out", T1, Some(0))
    );
    assert_eq!(
        execute_terminal_command_finished_at("cmd", &ran("", "err", Some(0)), T1),
        entry("cmd", "err", T1, Some(0))
    );
    assert_eq!(
        execute_terminal_command_finished_at("cmd", &ran("", "", Some(0)), T1),
        entry("cmd", "", T1, Some(0))
    );
}

#[test]
fn execute_publishes_the_exit_code_of_the_process() {
    for code in [0, 1, 2, 127, 255, -1, i32::MAX, i32::MIN] {
        let event = execute_terminal_command_finished_at("cmd", &ran("x", "", Some(code)), T1);
        assert_eq!(terminal(&event).exit_code, Some(code));
    }
    let event = execute_terminal_command_finished_at("cmd", &ran("x", "", None), T1);
    assert_eq!(terminal(&event).exit_code, None);
}

#[test]
fn execute_of_a_missing_program_reports_minus_one() {
    let run = CapturedOutput::spawn_failed("No such file or directory (os error 2)".to_string())
        .decode();
    let event = execute_terminal_command_finished_at("nosuchprogram --flag", &run, T1);
    assert_eq!(
        event,
        entry(
            "nosuchprogram --flag",
            "Error: No such file or directory (os error 2)",
            T1,
            Some(-1)
        )
    );
    assert!(terminal(&event).output.contains("No such file or directory"));
}

fn is_digits(text: &str) -> bool {
    !text.is_empty() && text.chars().all(|c| c.is_ascii_digit())
}

fn has_utc_form(stamp: &str) -> bool {
    let Some(body) = stamp.strip_suffix("+00:00") else {
        return false;
    };
    let year_len = if body.starts_with('+') {
        1 + body[1..].chars().take_while(|c| c.is_ascii_digit()).count()
    } else {
        4
    };
    if !body.is_char_boundary(year_len) || body.len() < year_len + 15 {
        return false;
    }
    let (year, rest) = body.split_at(year_len);
    let year_ok = if let Some(digits) = year.strip_prefix('+') {
        digits.len() >= 5 && is_digits(digits)
    } else {
        year.len() == 4 && is_digits(year)
    };
    if !rest.is_char_boundary(15) {
        return false;
    }
    let (day_and_time, fraction) = rest.split_at(15);
    let shape: Vec<char> = day_and_time
        .chars()
        .map(|c| if c.is_ascii_digit() { '0' } else { c })
        .collect();
    let day_ok = shape.iter().collect::<String>() == "-00-00T00:00:00";
    let fraction_ok = fraction.is_empty()
        || (fraction.starts_with('.')
            && [4, 7, 10].contains(&fraction.len())
            && is_digits(&fraction[1..]));
    year_ok && day_ok && fraction_ok
}

#[test]
fn utc_form_is_told_apart() {
    assert!(has_utc_form("2024-05-01T10:00:00+00:00"));
    assert!(has_utc_form("2024-05-01T10:00:00.250+00:00"));
    assert!(has_utc_form("2024-05-01T10:00:00.250001+00:00"));
    assert!(has_utc_form("2024-05-01T10:00:00.250001002+00:00"));
    assert!(has_utc_form("+12024-05-01T10:00:00+00:00"));
    assert!(!has_utc_form("+00:00"));
    assert!(!has_utc_form("2024-05-01 10:00:00+00:00"));
    assert!(!has_utc_form("2024-05-01T10:00:00Z"));
    assert!(!has_utc_form("2024-05-01T10:00:00+01:00"));
    assert!(!has_utc_form("2024-05-01T10:00:00.25+00:00"));
    assert!(!has_utc_form("24-05-01T10:00:00+00:00"));
}

#[test]
fn execute_now_carries_a_utc_time() {
    let first = execute_terminal_command_started("echo hello").unwrap();
    let entry = terminal(&first);
    assert_eq!(first.channel, "output");
    assert_eq!(entry.command, "echo hello");
    assert_eq!(entry.output, "$ echo hello");
    assert_eq!(entry.exit_code, None);
    assert!(has_utc_form(&entry.timestamp), "{}", entry.timestamp);

    let second = execute_terminal_command_finished("echo hello", &ran("hello\n", "", Some(0)));
    let entry = terminal(&second);
    assert_eq!(entry.output, "hello\n");
    assert_eq!(entry.exit_code, Some(0));
    assert!(has_utc_form(&entry.timestamp), "{}", entry.timestamp);
}

#[test]
fn execute_now_has_the_form_every_time() {
    for _ in 0..200 {
        let event = execute_terminal_command_finished("x", &ran("", "", Some(0)));
        let stamp = &terminal(&event).timestamp;
        assert!(has_utc_form(stamp), "{}", stamp);
    }
}
