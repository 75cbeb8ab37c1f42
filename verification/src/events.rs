//! The payloads that are published to the front end, and the channels they travel on.

use vstd::prelude::*;
use vstd::string::*;

verus! {

/// Where the fetch of a model stands. `progress` is a percentage; a report with
/// `completed` set is the last one of its fetch.
#[derive(Debug, Clone, PartialEq, Eq)]
pub struct PullProgress {
    pub model: String,
    pub status: String,
    pub progress: Option<u8>,
    pub completed: bool,
    pub error: Option<String>,
}

/// A [`PullProgress`] as plain text.
pub struct ProgressView {
    pub model: Seq<char>,
    pub status: Seq<char>,
    pub progress: Option<u8>,
    pub completed: bool,
    pub error: Option<Seq<char>>,
}

impl ProgressView {
    /// The percentage, where there is one, is at most 100.
    pub open spec fn wf(self) -> bool {
        self.progress matches Some(p) ==> p <= 100
    }
}

impl View for PullProgress {
    type V = ProgressView;

    open spec fn view(&self) -> ProgressView {
        ProgressView {
            model: self.model@,
            status: self.status@,
            progress: self.progress,
            completed: self.completed,
            error: self.error.deep_view(),
        }
    }
}

impl DeepView for PullProgress {
    type V = ProgressView;

    open spec fn deep_view(&self) -> ProgressView {
        self@
    }
}

/// One message of a conversation with a model.
#[derive(Debug, Clone, PartialEq, Eq)]
pub struct ChatMessage {
    pub role: String,
    pub content: String,
}

/// A [`ChatMessage`] as plain text.
pub struct ChatView {
    pub role: Seq<char>,
    pub content: Seq<char>,
}

impl View for ChatMessage {
    type V = ChatView;

    open spec fn view(&self) -> ChatView {
        ChatView { role: self.role@, content: self.content@ }
    }
}

impl DeepView for ChatMessage {
    type V = ChatView;

    open spec fn deep_view(&self) -> ChatView {
        self@
    }
}

/// A piece of terminal text that belongs to `command`. The entry that carries an
/// exit code is the last one of its command.
#[derive(Debug, Clone, PartialEq, Eq)]
pub struct TerminalOutput {
    pub command: String,
    pub output: String,
    pub timestamp: String,
    pub exit_code: Option<i32>,
}

/// A [`TerminalOutput`] as plain text.
pub struct TerminalView {
    pub command: Seq<char>,
    pub output: Seq<char>,
    pub timestamp: Seq<char>,
    pub exit_code: Option<i32>,
}

impl View for TerminalOutput {
    type V = TerminalView;

    open spec fn view(&self) -> TerminalView {
        TerminalView {
            command: self.command@,
            output: self.output@,
            timestamp: self.timestamp@,
            exit_code: self.exit_code,
        }
    }
}

impl DeepView for TerminalOutput {
    type V = TerminalView;

    open spec fn deep_view(&self) -> TerminalView {
        self@
    }
}

/// What an event carries.
#[derive(Debug, Clone, PartialEq, Eq)]
pub enum Payload {
    Progress(PullProgress),
    Terminal(TerminalOutput),
    Chat(ChatMessage),
    Text(String),
}

/// A [`Payload`] as plain text.
pub enum PayloadView {
    Progress(ProgressView),
    Terminal(TerminalView),
    Chat(ChatView),
    Text(Seq<char>),
}

impl View for Payload {
    type V = PayloadView;

    open spec fn view(&self) -> PayloadView {
        match self {
            Payload::Progress(p) => PayloadView::Progress(p@),
            Payload::Terminal(t) => PayloadView::Terminal(t@),
            Payload::Chat(c) => PayloadView::Chat(c@),
            Payload::Text(s) => PayloadView::Text(s@),
        }
    }
}

impl DeepView for Payload {
    type V = PayloadView;

    open spec fn deep_view(&self) -> PayloadView {
        self@
    }
}

/// A payload together with the name of the channel it is published on.
#[derive(Debug, Clone, PartialEq, Eq)]
pub struct Event {
    pub channel: String,
    pub payload: Payload,
}

/// An [`Event`] as plain text.
pub struct EventView {
    pub channel: Seq<char>,
    pub payload: PayloadView,
}

impl EventView {
    /// A progress report that closes its fetch.
    pub open spec fn is_terminal_progress(self) -> bool {
        self.payload matches PayloadView::Progress(p) && p.completed
    }

    /// A terminal entry that carries an exit code.
    pub open spec fn is_terminal_output(self) -> bool {
        self.payload matches PayloadView::Terminal(t) && t.exit_code is Some
    }
}

impl View for Event {
    type V = EventView;

    open spec fn view(&self) -> EventView {
        EventView { channel: self.channel@, payload: self.payload@ }
    }
}

impl DeepView for Event {
    type V = EventView;

    open spec fn deep_view(&self) -> EventView {
        self@
    }
}

/// A progress report on the channel `progress`.
pub open spec fn progress_event(report: ProgressView) -> EventView {
    EventView { channel: "progress"@, payload: PayloadView::Progress(report) }
}

/// A terminal entry on the channel `output`.
pub open spec fn output_event(entry: TerminalView) -> EventView {
    EventView { channel: "output"@, payload: PayloadView::Terminal(entry) }
}

/// Plain text on the channel `output`.
pub open spec fn output_text_event(text: Seq<char>) -> EventView {
    EventView { channel: "output"@, payload: PayloadView::Text(text) }
}

/// A chat message on the channel `chat-message`.
pub open spec fn chat_message_event(message: ChatView) -> EventView {
    EventView { channel: "chat-message"@, payload: PayloadView::Chat(message) }
}

/// A failure text on the channel `chat-error`.
pub open spec fn chat_error_event(text: Seq<char>) -> EventView {
    EventView { channel: "chat-error"@, payload: PayloadView::Text(text) }
}

/// How a command line is echoed in the terminal: behind a prompt sign.
pub open spec fn echoed(command: Seq<char>) -> Seq<char> {
    "$ "@ + command
}

/// How a failure to start a process is shown in the terminal.
pub open spec fn spawn_failure_text(reason: Seq<char>) -> Seq<char> {
    "Error: "@ + reason
}

/// The terminal entry with the given fields, ready for the channel `output`.
pub fn terminal_entry(command: &str, output: String, timestamp: &str, exit_code: Option<i32>) -> (event:
    Event)
    ensures
        event@ == output_event(
            TerminalView {
                command: command@,
                output: output@,
                timestamp: timestamp@,
                exit_code,
            },
        ),
{
    Event::output(
        TerminalOutput {
            command: String::from_str(command),
            output,
            timestamp: String::from_str(timestamp),
            exit_code,
        },
    )
}

impl Event {
    /// Wraps a progress report for the channel `progress`.
    pub fn progress(report: PullProgress) -> (event: Event)
        ensures
            event@ == progress_event(report@),
    {
        Event { channel: String::from_str("progress"), payload: Payload::Progress(report) }
    }

    /// Wraps a terminal entry for the channel `output`.
    pub fn output(entry: TerminalOutput) -> (event: Event)
        ensures
            event@ == output_event(entry@),
    {
        Event { channel: String::from_str("output"), payload: Payload::Terminal(entry) }
    }

    /// Wraps plain text for the channel `output`.
    pub fn output_text(text: String) -> (event: Event)
        ensures
            event@ == output_text_event(text@),
    {
        Event { channel: String::from_str("output"), payload: Payload::Text(text) }
    }

    /// Wraps a chat message for the channel `chat-message`.
    pub fn chat_message(message: ChatMessage) -> (event: Event)
        ensures
            event@ == chat_message_event(message@),
    {
        Event { channel: String::from_str("chat-message"), payload: Payload::Chat(message) }
    }

    /// Wraps a failure text for the channel `chat-error`.
    pub fn chat_error(text: String) -> (event: Event)
        ensures
            event@ == chat_error_event(text@),
    {
        Event { channel: String::from_str("chat-error"), payload: Payload::Text(text) }
    }
}

} // verus!
