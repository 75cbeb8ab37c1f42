//! Asking after the tool and its models: is the tool there, can a model be run,
//! and removing a model.

use vstd::prelude::*;
use vstd::string::*;
use crate::process::{CapturedText, CapturedView, InvocationView, Outcome, ProcessInvocation};

verus! {

/// What the status check answers for a finished run of the tool: whether the tool
/// ran with success, or that it could not be started at all, with the reason the
/// system gave.
pub open spec fn status_result(run: CapturedView) -> Result<bool, Seq<char>> {
    match run.outcome() {
        Outcome::FailedToSpawn => Err("Ollama not found or not running: "@ + run.spawn_error->0),
        Outcome::Succeeded => Ok(true),
        Outcome::FailedNonZeroExit => Ok(false),
    }
}

/// What the check of `model` answers for a finished trial run.
pub open spec fn run_result(model: Seq<char>, run: CapturedView) -> Result<Seq<char>, Seq<char>> {
    match run.outcome() {
        Outcome::FailedToSpawn => Err("Failed to run model: "@ + run.spawn_error->0),
        Outcome::Succeeded => Ok("Model "@ + model + " is ready to run"@),
        Outcome::FailedNonZeroExit => Err(
            "Failed to run model "@ + model + ": "@ + run.stderr,
        ),
    }
}

/// What the removal of `model` answers for a finished run.
pub open spec fn delete_result(model: Seq<char>, run: CapturedView) -> Result<
    Seq<char>,
    Seq<char>,
> {
    match run.outcome() {
        Outcome::FailedToSpawn => Err("Failed to delete model: "@ + run.spawn_error->0),
        Outcome::Succeeded => Ok("Model "@ + model + " deleted successfully"@),
        Outcome::FailedNonZeroExit => Err(
            "Failed to delete model "@ + model + ": "@ + run.stderr,
        ),
    }
}

/// An answer in text, as plain text.
pub open spec fn answer_view(answer: Result<String, String>) -> Result<Seq<char>, Seq<char>> {
    match answer {
        Ok(text) => Ok(text@),
        Err(text) => Err(text@),
    }
}

/// The greeting for `name`.
pub open spec fn greeting(name: Seq<char>) -> Seq<char> {
    "Hello, "@ + name + "! You've been greeted from Rust!"@
}

/// Greets `name`.
pub fn greet(name: &str) -> (text: String)
    ensures
        text@ == greeting(name@),
{
    String::from_str("Hello, ").concat(name).concat("! You've been greeted from Rust!")
}

/// The process that tries whether `model` can be run, without keeping it running.
pub fn run_invocation(model: &str) -> (invocation: ProcessInvocation)
    ensures
        invocation@ == (InvocationView {
            program: "ollama"@,
            arguments: seq!["run"@, model@, "--help"@],
        }),
{
    let mut arguments: Vec<String> = Vec::new();
    arguments.push(String::from_str("run"));
    arguments.push(String::from_str(model));
    arguments.push(String::from_str("--help"));
    assert(arguments.deep_view() =~= seq!["run"@, model@, "--help"@]);
    ProcessInvocation { program: String::from_str("ollama"), arguments }
}

/// The process that removes `model`.
pub fn delete_invocation(model: &str) -> (invocation: ProcessInvocation)
    ensures
        invocation@ == (InvocationView { program: "ollama"@, arguments: seq!["rm"@, model@] }),
{
    let mut arguments: Vec<String> = Vec::new();
    arguments.push(String::from_str("rm"));
    arguments.push(String::from_str(model));
    assert(arguments.deep_view() =~= seq!["rm"@, model@]);
    ProcessInvocation { program: String::from_str("ollama"), arguments }
}

/// Answers the status check for a finished listing run of the tool: see
/// [`status_result`]. Nothing is published for it.
pub fn check_ollama_status(run: &CapturedText) -> (result: Result<bool, String>)
    ensures
        match result {
            Ok(present) => status_result(run@) == Ok::<bool, Seq<char>>(present),
            Err(message) => status_result(run@) == Err::<bool, Seq<char>>(message@),
        },
{
    match &run.spawn_error {
        Some(reason) => Err(
            String::from_str("Ollama not found or not running: ").concat(reason.as_str()),
        ),
        None => match run.outcome() {
            Outcome::Succeeded => Ok(true),
            _ => Ok(false),
        },
    }
}

/// Answers whether `model` can be run, for a finished trial run: see [`run_result`].
pub fn run_model(model: &str, run: &CapturedText) -> (result: Result<String, String>)
    ensures
        answer_view(result) == run_result(model@, run@),
{
    match &run.spawn_error {
        Some(reason) => Err(String::from_str("Failed to run model: ").concat(reason.as_str())),
        None => match run.outcome() {
            Outcome::Succeeded => Ok(
                String::from_str("Model ").concat(model).concat(" is ready to run"),
            ),
            _ => Err(
                String::from_str("Failed to run model ").concat(model).concat(": ").concat(
                    run.stderr.as_str(),
                ),
            ),
        },
    }
}

/// Answers the removal of `model`, for a finished run: see [`delete_result`].
pub fn delete_model(model: &str, run: &CapturedText) -> (result: Result<String, String>)
    ensures
        answer_view(result) == delete_result(model@, run@),
{
    match &run.spawn_error {
        Some(reason) => Err(String::from_str("Failed to delete model: ").concat(reason.as_str())),
        None => match run.outcome() {
            Outcome::Succeeded => Ok(
                String::from_str("Model ").concat(model).concat(" deleted successfully"),
            ),
            _ => Err(
                String::from_str("Failed to delete model ").concat(model).concat(": ").concat(
                    run.stderr.as_str(),
                ),
            ),
        },
    }
}

/// However often the status is checked while the tool is there and runs with
/// success, the answer is the same each time: the tool is present.
pub proof fn lemma_status_stays_true(runs: Seq<CapturedView>)
    requires
        forall|k: int| 0 <= k < runs.len() ==> (#[trigger] runs[k]).outcome() == Outcome::Succeeded,
    ensures
        forall|k: int|
            0 <= k < runs.len() ==> status_result(#[trigger] runs[k]) == Ok::<bool, Seq<char>>(
                true,
            ),
{
}

} // verus!
