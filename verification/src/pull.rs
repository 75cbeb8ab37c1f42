//! Fetching a model: what is published when the fetch starts and when it ends.

use vstd::prelude::*;
use vstd::string::*;
use crate::clock::{is_utc_stamp, utc_now_text};
use crate::events::{
    echoed, output_event, progress_event, spawn_failure_text, terminal_entry, Event, EventView,
    PayloadView, ProgressView, PullProgress, TerminalView,
};
use crate::process::{CapturedText, CapturedView, InvocationView, Outcome, ProcessInvocation};

verus! {

/// The command line that fetches `model`.
pub open spec fn pull_command(model: Seq<char>) -> Seq<char> {
    "ollama pull "@ + model
}

/// The report that opens the fetch of `model`.
pub open spec fn opening_report(model: Seq<char>) -> ProgressView {
    ProgressView {
        model,
        status: "starting"@,
        progress: Some(0u8),
        completed: false,
        error: None,
    }
}

/// The report that closes the fetch of `model`, given how the run ended.
pub open spec fn closing_report(model: Seq<char>, run: CapturedView) -> ProgressView {
    match run.outcome() {
        Outcome::Succeeded => ProgressView {
            model,
            status: "Pull completed successfully"@,
            progress: Some(100u8),
            completed: true,
            error: None,
        },
        Outcome::FailedNonZeroExit => ProgressView {
            model,
            status: "Pull failed"@,
            progress: Some(0u8),
            completed: true,
            error: Some("process failed"@),
        },
        Outcome::FailedToSpawn => ProgressView {
            model,
            status: "Pull failed"@,
            progress: Some(0u8),
            completed: true,
            error: Some("process error: "@ + run.spawn_error->0),
        },
    }
}

/// What is published when the fetch of `model` starts: the opening report, then
/// the echo of the command line.
pub open spec fn pull_started(model: Seq<char>, stamp: Seq<char>) -> Seq<EventView> {
    seq![
        progress_event(opening_report(model)),
        output_event(
            TerminalView {
                command: pull_command(model),
                output: echoed(pull_command(model)),
                timestamp: stamp,
                exit_code: None,
            },
        ),
    ]
}

/// The terminal entry for one captured stream: none where the stream is empty.
pub open spec fn stream_entries(command: Seq<char>, text: Seq<char>, stamp: Seq<char>) -> Seq<
    EventView,
> {
    if text.len() == 0 {
        Seq::empty()
    } else {
        seq![
            output_event(
                TerminalView { command, output: text, timestamp: stamp, exit_code: None },
            ),
        ]
    }
}

/// The terminal entries for a finished run of `command`: the failure with exit
/// code -1 where the process could not start, else standard output, then standard error.
pub open spec fn captured_entries(command: Seq<char>, run: CapturedView, stamp: Seq<char>) -> Seq<
    EventView,
> {
    match run.spawn_error {
        Some(reason) => seq![
            output_event(
                TerminalView {
                    command,
                    output: spawn_failure_text(reason),
                    timestamp: stamp,
                    exit_code: Some(-1i32),
                },
            ),
        ],
        None => stream_entries(command, run.stdout, stamp) + stream_entries(
            command,
            run.stderr,
            stamp,
        ),
    }
}

/// What is published when the fetch of `model` ends: the terminal entries for the
/// run, then the closing report.
pub open spec fn pull_finished(model: Seq<char>, run: CapturedView, stamp: Seq<char>) -> Seq<
    EventView,
> {
    captured_entries(pull_command(model), run, stamp).push(
        progress_event(closing_report(model, run)),
    )
}

/// The process that fetches `model`.
pub fn pull_invocation(model: &str) -> (invocation: ProcessInvocation)
    ensures
        invocation@ == (InvocationView { program: "ollama"@, arguments: seq!["pull"@, model@] }),
{
    let mut arguments: Vec<String> = Vec::new();
    arguments.push(String::from_str("pull"));
    arguments.push(String::from_str(model));
    assert(arguments.deep_view() =~= seq!["pull"@, model@]);
    ProcessInvocation { program: String::from_str("ollama"), arguments }
}

/// The events of a fetch that starts, with `timestamp` on the terminal entry: see
/// [`pull_started`].
pub fn pull_model_started_at(model: &str, timestamp: &str) -> (events: Vec<Event>)
    ensures
        events.deep_view() == pull_started(model@, timestamp@),
{
    let command = String::from_str("ollama pull ").concat(model);
    let echo = String::from_str("$ ").concat(command.as_str());
    let report = PullProgress {
        model: String::from_str(model),
        status: String::from_str("starting"),
        progress: Some(0),
        completed: false,
        error: None,
    };
    let mut events: Vec<Event> = Vec::new();
    events.push(Event::progress(report));
    events.push(terminal_entry(command.as_str(), echo, timestamp, None));
    events
}

/// The events of a fetch whose process has ended as `run` tells, with `timestamp`
/// on the terminal entries: see [`pull_finished`].
pub fn pull_model_finished_at(model: &str, run: &CapturedText, timestamp: &str) -> (events: Vec<
    Event,
>)
    ensures
        events.deep_view() == pull_finished(model@, run@, timestamp@),
{
    let command = String::from_str("ollama pull ").concat(model);
    let mut events: Vec<Event> = Vec::new();
    let report = match &run.spawn_error {
        Some(reason) => {
            let text = String::from_str("Error: ").concat(reason.as_str());
            events.push(terminal_entry(command.as_str(), text, timestamp, Some(-1)));
            PullProgress {
                model: String::from_str(model),
                status: String::from_str("Pull failed"),
                progress: Some(0),
                completed: true,
                error: Some(String::from_str("process error: ").concat(reason.as_str())),
            }
        },
        None => {
            if !run.stdout.as_str().is_empty() {
                events.push(terminal_entry(command.as_str(), run.stdout.clone(), timestamp, None));
            }
            if !run.stderr.as_str().is_empty() {
                events.push(terminal_entry(command.as_str(), run.stderr.clone(), timestamp, None));
            }
            match run.outcome() {
                Outcome::Succeeded => PullProgress {
                    model: String::from_str(model),
                    status: String::from_str("Pull completed successfully"),
                    progress: Some(100),
                    completed: true,
                    error: None,
                },
                _ => PullProgress {
                    model: String::from_str(model),
                    status: String::from_str("Pull failed"),
                    progress: Some(0),
                    completed: true,
                    error: Some(String::from_str("process failed")),
                },
            }
        },
    };
    events.push(Event::progress(report));
    events
}

/// The events of a fetch that starts now: those of [`pull_started`], with the
/// current time in UTC on the terminal entry.
///
/// Reading the clock stops the program where the system clock stands before the
/// year 1970. [`pull_model_started_at`] takes the time from its caller and reads
/// no clock.
pub fn pull_model_started(model: &str) -> (events: Vec<Event>)
    ensures
        exists|stamp: Seq<char>|
            is_utc_stamp(stamp) && events.deep_view() == #[trigger] pull_started(model@, stamp),
{
    let stamp = utc_now_text();
    pull_model_started_at(model, stamp.as_str())
}

/// The events of a fetch whose process has just ended as `run` tells: those of
/// [`pull_finished`], with the current time in UTC on the terminal entries.
///
/// Reading the clock stops the program where the system clock stands before the
/// year 1970. [`pull_model_finished_at`] takes the time from its caller and
/// reads no clock.
pub fn pull_model_finished(model: &str, run: &CapturedText) -> (events: Vec<Event>)
    ensures
        exists|stamp: Seq<char>|
            is_utc_stamp(stamp) && events.deep_view() == #[trigger] pull_finished(
                model@,
                run@,
                stamp,
            ),
{
    let stamp = utc_now_text();
    pull_model_finished_at(model, run, stamp.as_str())
}

/// Of the events of one fetch, start to end, exactly one is a closing progress
/// report, and it comes last. It carries no error if the process succeeded, and an
/// error if the process failed or could not be started. Every percentage reported
/// lies between 0 and 100.
pub proof fn lemma_one_closing_report(
    model: Seq<char>,
    run: CapturedView,
    start_stamp: Seq<char>,
    end_stamp: Seq<char>,
)
    ensures
        ({
            let all = pull_started(model, start_stamp) + pull_finished(model, run, end_stamp);
            &&& all.len() >= 3
            &&& forall|i: int|
                0 <= i < all.len() ==> (#[trigger] all[i].is_terminal_progress() <==> i
                    == all.len() - 1)
            &&& all.last().payload matches PayloadView::Progress(report)
            &&& (report.error is None <==> run.outcome() == Outcome::Succeeded)
            &&& forall|i: int|
                0 <= i < all.len() ==> (#[trigger] all[i].payload matches PayloadView::Progress(p)
                    ==> p.wf() && p.model == model)
        }),
{
}

} // verus!
