//! Running an ad-hoc command line: how it is split, and what is published for it.

use vstd::prelude::*;
use vstd::string::*;
use crate::clock::{is_utc_stamp, utc_now_text};
use crate::events::{
    echoed, output_event, spawn_failure_text, terminal_entry, Event, EventView, PayloadView,
    TerminalView,
};
use crate::process::{CapturedText, CapturedView, InvocationView, ProcessInvocation};
use crate::text::{split_whitespace, words};

verus! {

/// The process that a command line asks for: its first word is the program, the
/// words after it are the arguments. A line without a word asks for nothing.
pub open spec fn command_invocation(command: Seq<char>) -> Option<InvocationView> {
    let parts = words(command);
    if parts.len() == 0 {
        None
    } else {
        Some(InvocationView { program: parts[0], arguments: parts.skip(1) })
    }
}

/// Both captured streams as one text: standard output, then standard error, each
/// only where it is not empty, with a line feed between them where both are there.
pub open spec fn merged_output(stdout: Seq<char>, stderr: Seq<char>) -> Seq<char> {
    if stderr.len() == 0 {
        stdout
    } else if stdout.len() == 0 {
        stderr
    } else {
        stdout + seq!['\n'] + stderr
    }
}

/// What is published at once for a command line: its echo, without an exit code.
/// For a line without a word nothing is published, as nothing will be run.
pub open spec fn command_started(command: Seq<char>, stamp: Seq<char>) -> Option<EventView> {
    if command_invocation(command) is None {
        None
    } else {
        Some(
            output_event(
                TerminalView {
                    command,
                    output: echoed(command),
                    timestamp: stamp,
                    exit_code: None,
                },
            ),
        )
    }
}

/// What is published when the process of a command line has ended: the merged
/// output with the exit code of the process, or, where the process could not be
/// started, the failure with exit code -1.
pub open spec fn command_finished(command: Seq<char>, run: CapturedView, stamp: Seq<char>) -> EventView {
    match run.spawn_error {
        Some(reason) => output_event(
            TerminalView {
                command,
                output: spawn_failure_text(reason),
                timestamp: stamp,
                exit_code: Some(-1i32),
            },
        ),
        None => output_event(
            TerminalView {
                command,
                output: merged_output(run.stdout, run.stderr),
                timestamp: stamp,
                exit_code: run.exit_code,
            },
        ),
    }
}

/// Splits a command line at white space into a program and its arguments.
/// Returns `None` exactly when the line holds no word.
pub fn parse_command_line(command: &str) -> (invocation: Option<ProcessInvocation>)
    ensures
        invocation.deep_view() == command_invocation(command@),
{
    let mut parts = split_whitespace(command);
    if parts.len() == 0 {
        return None;
    }
    let ghost all = parts.deep_view();
    let program = parts.remove(0);
    assert(parts.deep_view() =~= all.skip(1));
    Some(ProcessInvocation { program, arguments: parts })
}

/// Tells whether a command line holds no word, so that there is nothing to run.
pub fn is_empty_command(command: &str) -> (empty: bool)
    ensures
        empty == (command_invocation(command@) is None),
{
    split_whitespace(command).len() == 0
}

/// The event published as soon as a command line is taken up, with `timestamp`
/// on it: see [`command_started`]. `None` exactly when the line holds no word.
pub fn execute_terminal_command_started_at(command: &str, timestamp: &str) -> (event: Option<
    Event,
>)
    ensures
        event.deep_view() == command_started(command@, timestamp@),
{
    if is_empty_command(command) {
        return None;
    }
    let echo = String::from_str("$ ").concat(command);
    Some(terminal_entry(command, echo, timestamp, None))
}

/// The event published when the process of a command line has ended as `run`
/// tells, with `timestamp` on it: see [`command_finished`].
pub fn execute_terminal_command_finished_at(
    command: &str,
    run: &CapturedText,
    timestamp: &str,
) -> (event: Event)
    ensures
        event@ == command_finished(command@, run@, timestamp@),
{
    match &run.spawn_error {
        Some(reason) => {
            let text = String::from_str("Error: ").concat(reason.as_str());
            terminal_entry(command, text, timestamp, Some(-1))
        },
        None => {
            let mut result = String::new();
            if !run.stdout.as_str().is_empty() {
                result.append(run.stdout.as_str());
            }
            if !run.stderr.as_str().is_empty() {
                if !result.as_str().is_empty() {
                    result.push('\n');
                }
                result.append(run.stderr.as_str());
            }
            assert(result@ =~= merged_output(run@.stdout, run@.stderr));
            terminal_entry(command, result, timestamp, run.exit_code)
        },
    }
}

/// The event published as soon as a command line is taken up now: that of
/// [`command_started`], with the current time in UTC on it. `None` exactly when
/// the line holds no word; the clock is not read then.
///
/// Reading the clock stops the program where the system clock stands before the
/// year 1970. [`execute_terminal_command_started_at`] takes the time from its
/// caller and reads no clock.
pub fn execute_terminal_command_started(command: &str) -> (event: Option<Event>)
    ensures
        command_invocation(command@) is None ==> event is None,
        command_invocation(command@) is Some ==> exists|stamp: Seq<char>|
            is_utc_stamp(stamp) && event.deep_view() == #[trigger] command_started(
                command@,
                stamp,
            ),
{
    if is_empty_command(command) {
        return None;
    }
    let stamp = utc_now_text();
    execute_terminal_command_started_at(command, stamp.as_str())
}

/// The event published when the process of a command line has just ended as
/// `run` tells: that of [`command_finished`], with the current time in UTC on it.
///
/// Reading the clock stops the program where the system clock stands before the
/// year 1970. [`execute_terminal_command_finished_at`] takes the time from its
/// caller and reads no clock.
pub fn execute_terminal_command_finished(command: &str, run: &CapturedText) -> (event: Event)
    ensures
        exists|stamp: Seq<char>|
            is_utc_stamp(stamp) && event@ == #[trigger] command_finished(command@, run@, stamp),
{
    let stamp = utc_now_text();
    execute_terminal_command_finished_at(command, run, stamp.as_str())
}

/// An echo is published for a command line exactly when the line asks for a
/// process. The echo carries no exit code. The entry that closes the command
/// carries the exit code of the process where the process started, and -1 where
/// it did not; so it carries an exit code whenever the process could not be
/// started or left one.
pub proof fn lemma_exit_code_published(command: Seq<char>, run: CapturedView, stamp: Seq<char>)
    ensures
        command_started(command, stamp) is Some <==> command_invocation(command) is Some,
        command_started(command, stamp) matches Some(echo) ==> (echo.payload matches PayloadView::Terminal(
            entry,
        ) && entry.exit_code is None),
        command_finished(command, run, stamp).payload matches PayloadView::Terminal(entry),
        run.spawn_error is None ==> command_finished(
            command,
            run,
            stamp,
        ).payload->Terminal_0.exit_code == run.exit_code,
        run.spawn_error is Some ==> command_finished(
            command,
            run,
            stamp,
        ).payload->Terminal_0.exit_code == Some(-1i32),
        command_finished(command, run, stamp).is_terminal_output() <==> (run.spawn_error is Some
            || run.exit_code is Some),
{
}

} // verus!
