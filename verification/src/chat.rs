//! One question to a model and the one event that answers it.

use vstd::prelude::*;
use vstd::string::*;
use crate::events::{chat_error_event, chat_message_event, ChatMessage, ChatView, Event, EventView};
use crate::process::{CapturedText, CapturedView, InvocationView, ProcessInvocation};

verus! {

/// The event that answers a question, given the finished run of the tool: the
/// reply of the assistant, which is all of standard output whatever the exit code
/// was, or, where the tool could not be started, the failure.
pub open spec fn chat_reply(run: CapturedView) -> EventView {
    match run.spawn_error {
        Some(reason) => chat_error_event("Failed to get response: "@ + reason),
        None => chat_message_event(ChatView { role: "assistant"@, content: run.stdout }),
    }
}

/// The process that puts `message` to `model`.
pub fn chat_invocation(model: &str, message: &str) -> (invocation: ProcessInvocation)
    ensures
        invocation@ == (InvocationView {
            program: "ollama"@,
            arguments: seq!["run"@, model@, message@],
        }),
{
    let mut arguments: Vec<String> = Vec::new();
    arguments.push(String::from_str("run"));
    arguments.push(String::from_str(model));
    arguments.push(String::from_str(message));
    assert(arguments.deep_view() =~= seq!["run"@, model@, message@]);
    ProcessInvocation { program: String::from_str("ollama"), arguments }
}

/// The one event that answers a question, for a finished run of the tool: see
/// [`chat_reply`].
pub fn send_chat_message(run: &CapturedText) -> (event: Event)
    ensures
        event@ == chat_reply(run@),
{
    match &run.spawn_error {
        Some(reason) => Event::chat_error(
            String::from_str("Failed to get response: ").concat(reason.as_str()),
        ),
        None => Event::chat_message(
            ChatMessage { role: String::from_str("assistant"), content: run.stdout.clone() },
        ),
    }
}

} // verus!
