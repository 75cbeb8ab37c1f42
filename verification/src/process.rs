//! What is asked of an external process, and what comes back from one run of it.

use vstd::prelude::*;

verus! {

/// A program and the arguments it is started with.
#[derive(Debug, Clone, PartialEq, Eq)]
pub struct ProcessInvocation {
    pub program: String,
    pub arguments: Vec<String>,
}

/// A [`ProcessInvocation`] as plain text.
pub struct InvocationView {
    pub program: Seq<char>,
    pub arguments: Seq<Seq<char>>,
}

impl View for ProcessInvocation {
    type V = InvocationView;

    open spec fn view(&self) -> InvocationView {
        InvocationView { program: self.program@, arguments: self.arguments.deep_view() }
    }
}

impl DeepView for ProcessInvocation {
    type V = InvocationView;

    open spec fn deep_view(&self) -> InvocationView {
        self@
    }
}

/// How a run ended.
#[derive(Debug, Clone, Copy, PartialEq, Eq, Structural)]
pub enum Outcome {
    /// The process ran and reported success.
    Succeeded,
    /// The process could not be started.
    FailedToSpawn,
    /// The process ran and did not report success.
    FailedNonZeroExit,
}

/// What one buffered run of a process left behind, as the bytes it wrote.
///
/// `spawn_error` is set when the process could not be started; the other fields
/// then carry nothing and are not looked at.
#[derive(Debug, Clone, PartialEq, Eq)]
pub struct CapturedOutput {
    pub stdout: Vec<u8>,
    pub stderr: Vec<u8>,
    pub exit_code: Option<i32>,
    pub spawn_error: Option<String>,
}

/// What one buffered run of a process left behind, with its output read as text.
#[derive(Debug, Clone, PartialEq, Eq)]
pub struct CapturedText {
    pub stdout: String,
    pub stderr: String,
    pub exit_code: Option<i32>,
    pub spawn_error: Option<String>,
}

/// A [`CapturedText`] as plain text.
pub struct CapturedView {
    pub stdout: Seq<char>,
    pub stderr: Seq<char>,
    pub exit_code: Option<i32>,
    pub spawn_error: Option<Seq<char>>,
}

impl CapturedView {
    /// A run that could not start failed to spawn; one that ended with exit code 0
    /// succeeded; any other run, one without an exit code too, failed.
    pub open spec fn outcome(self) -> Outcome {
        if self.spawn_error is Some {
            Outcome::FailedToSpawn
        } else if self.exit_code == Some(0i32) {
            Outcome::Succeeded
        } else {
            Outcome::FailedNonZeroExit
        }
    }
}

impl View for CapturedText {
    type V = CapturedView;

    open spec fn view(&self) -> CapturedView {
        CapturedView {
            stdout: self.stdout@,
            stderr: self.stderr@,
            exit_code: self.exit_code,
            spawn_error: self.spawn_error.deep_view(),
        }
    }
}

impl DeepView for CapturedText {
    type V = CapturedView;

    open spec fn deep_view(&self) -> CapturedView {
        self@
    }
}

impl CapturedText {
    /// How the run ended.
    pub fn outcome(&self) -> (o: Outcome)
        ensures
            o == self@.outcome(),
    {
        if self.spawn_error.is_some() {
            Outcome::FailedToSpawn
        } else {
            match self.exit_code {
                Some(code) => if code == 0 {
                    Outcome::Succeeded
                } else {
                    Outcome::FailedNonZeroExit
                },
                None => Outcome::FailedNonZeroExit,
            }
        }
    }
}

/// The text that lossy UTF-8 decoding makes of `bytes`.
pub uninterp spec fn utf8_lossy(bytes: Seq<u8>) -> Seq<char>;

/// `String::from_utf8_lossy` of the standard library: the result depends on the bytes
/// alone, and is called [`utf8_lossy`] of them.
#[verifier::external_body]
pub(crate) fn lossy_text(bytes: &Vec<u8>) -> (text: String)
    ensures
        text@ == utf8_lossy(bytes@),
{
    String::from_utf8_lossy(bytes).into_owned()
}

impl CapturedOutput {
    /// The record of a process that ran to its end.
    pub fn exited(stdout: Vec<u8>, stderr: Vec<u8>, exit_code: Option<i32>) -> (out: CapturedOutput)
        ensures
            out.stdout@ == stdout@,
            out.stderr@ == stderr@,
            out.exit_code == exit_code,
            out.spawn_error is None,
    {
        CapturedOutput { stdout, stderr, exit_code, spawn_error: None }
    }

    /// The record of a process that could not be started, for the given reason.
    pub fn spawn_failed(reason: String) -> (out: CapturedOutput)
        ensures
            out.stdout@.len() == 0,
            out.stderr@.len() == 0,
            out.exit_code is None,
            out.spawn_error.deep_view() == Some(reason@),
    {
        CapturedOutput {
            stdout: Vec::new(),
            stderr: Vec::new(),
            exit_code: None,
            spawn_error: Some(reason),
        }
    }

    /// This record with both streams decoded.
    pub open spec fn decoded(&self) -> CapturedView {
        CapturedView {
            stdout: utf8_lossy(self.stdout@),
            stderr: utf8_lossy(self.stderr@),
            exit_code: self.exit_code,
            spawn_error: self.spawn_error.deep_view(),
        }
    }

    /// Reads both streams as text and keeps the exit code and the spawn error.
    pub fn decode(&self) -> (text: CapturedText)
        ensures
            text@ == self.decoded(),
    {
        let spawn_error = match &self.spawn_error {
            Some(reason) => Some(reason.clone()),
            None => None,
        };
        CapturedText {
            stdout: lossy_text(&self.stdout),
            stderr: lossy_text(&self.stderr),
            exit_code: self.exit_code,
            spawn_error,
        }
    }
}

} // verus!
