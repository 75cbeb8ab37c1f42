//! Following a running process line by line: what is published for each thing it reports.

use vstd::prelude::*;
use vstd::string::*;
use crate::events::{output_text_event, Event, EventView};
use crate::process::{lossy_text, utf8_lossy};
use crate::text::{decimal, decimal_text};

verus! {

/// The stream of a process that a line was read from.
#[derive(Debug, Clone, Copy, PartialEq, Eq, Structural)]
pub enum StreamChannel {
    Stdout,
    Stderr,
}

/// One line of output of a running process.
#[derive(Debug, Clone, PartialEq, Eq)]
pub struct StreamedLine {
    pub channel: StreamChannel,
    pub text: String,
}

/// The end of a process. The exit code is absent where the process gave none.
#[derive(Debug, Clone, Copy, PartialEq, Eq, Structural)]
pub struct TerminationSignal {
    pub exit_code: Option<i32>,
}

/// One thing that a running process reports.
#[derive(Debug, Clone, PartialEq, Eq)]
pub enum StreamItem {
    /// A line of output.
    Line(StreamedLine),
    /// The process has ended.
    Terminated(TerminationSignal),
    /// Anything else; it is passed over.
    Other,
}

/// A [`StreamItem`] as plain text.
pub enum ItemView {
    Line { channel: StreamChannel, text: Seq<char> },
    Terminated { exit_code: Option<i32> },
    Other,
}

impl View for StreamItem {
    type V = ItemView;

    open spec fn view(&self) -> ItemView {
        match self {
            StreamItem::Line(line) => ItemView::Line { channel: line.channel, text: line.text@ },
            StreamItem::Terminated(signal) => ItemView::Terminated { exit_code: signal.exit_code },
            StreamItem::Other => ItemView::Other,
        }
    }
}

impl DeepView for StreamItem {
    type V = ItemView;

    open spec fn deep_view(&self) -> ItemView {
        self@
    }
}

/// `text` between the terminal codes that switch red on and off.
pub open spec fn in_red(text: Seq<char>) -> Seq<char> {
    "\x1b[31m"@ + text + "\x1b[0m"@
}

/// What is shown when a process ends: nothing after exit code 0, else a red line
/// that names the exit code, where -1 stands for a missing one.
pub open spec fn exit_notice(exit_code: Option<i32>) -> Seq<char> {
    let shown = match exit_code {
        Some(code) => code,
        None => -1i32,
    };
    if shown == 0 {
        Seq::empty()
    } else {
        in_red("Process exited with code "@ + decimal(shown as int)) + seq!['\n']
    }
}

/// The text published for one report of a running process: a line of standard
/// output as it is, a line of standard error in red, the exit notice at the end,
/// and nothing for anything else.
pub open spec fn streamed_text(item: ItemView) -> Option<Seq<char>> {
    match item {
        ItemView::Line { channel: StreamChannel::Stdout, text } => Some(text),
        ItemView::Line { channel: StreamChannel::Stderr, text } => Some(in_red(text)),
        ItemView::Terminated { exit_code } => Some(exit_notice(exit_code)),
        ItemView::Other => None,
    }
}

/// What is published on the channel `output` for one report of a running
/// process: the text of [`streamed_text`], where there is one.
pub open spec fn streamed_event(item: ItemView) -> Option<EventView> {
    match streamed_text(item) {
        Some(text) => Some(output_text_event(text)),
        None => None,
    }
}

/// What is published for the reports `items[i..]` of a running process, in
/// order. Reading stops with the report that ends the process: what stands behind
/// it is not looked at.
pub open spec fn streamed_from(items: Seq<ItemView>, i: int) -> Seq<EventView>
    decreases items.len() - i,
{
    if i < 0 || i >= items.len() {
        Seq::empty()
    } else {
        let first = match streamed_event(items[i]) {
            Some(event) => seq![event],
            None => Seq::empty(),
        };
        if items[i] is Terminated {
            first
        } else {
            first + streamed_from(items, i + 1)
        }
    }
}

/// What is published for all the reports of one running process, in order.
pub open spec fn streamed_events(items: Seq<ItemView>) -> Seq<EventView> {
    streamed_from(items, 0)
}

/// What to do about one report of a running process.
#[derive(Debug, Clone, PartialEq, Eq)]
pub struct StreamStep {
    /// What to publish, if anything.
    pub event: Option<Event>,
    /// Whether the process has ended, so that no further report is to be read.
    pub finished: bool,
}

impl StreamedLine {
    /// The line that the bytes `bytes` of `channel` make when read as text.
    pub fn decode(channel: StreamChannel, bytes: &Vec<u8>) -> (line: StreamedLine)
        ensures
            line.channel == channel,
            line.text@ == utf8_lossy(bytes@),
    {
        StreamedLine { channel, text: lossy_text(bytes) }
    }
}

/// Decides what one report of a running process leads to: the text of
/// [`streamed_text`] on the channel `output`, and the end of reading exactly when
/// the report is the end of the process.
pub fn run_command_step(item: &StreamItem) -> (step: StreamStep)
    ensures
        step.event.deep_view() == streamed_event(item@),
        step.finished == (item@ is Terminated),
{
    match item {
        StreamItem::Line(line) => {
            let text = match line.channel {
                StreamChannel::Stdout => line.text.clone(),
                StreamChannel::Stderr => String::from_str("\x1b[31m").concat(
                    line.text.as_str(),
                ).concat("\x1b[0m"),
            };
            StreamStep { event: Some(Event::output_text(text)), finished: false }
        },
        StreamItem::Terminated(signal) => {
            let shown: i32 = match signal.exit_code {
                Some(code) => code,
                None => -1,
            };
            let text = if shown == 0 {
                String::new()
            } else {
                let mut notice = String::from_str("\x1b[31m");
                notice.append("Process exited with code ");
                notice.append(decimal_text(shown).as_str());
                notice.append("\x1b[0m");
                notice.push('\n');
                assert(notice@ =~= exit_notice(signal.exit_code));
                notice
            };
            StreamStep { event: Some(Event::output_text(text)), finished: true }
        },
        StreamItem::Other => StreamStep { event: None, finished: false },
    }
}

/// Follows a process through everything it reported, in order, and returns what
/// is published for it: see [`streamed_events`].
pub fn run_command(items: &Vec<StreamItem>) -> (events: Vec<Event>)
    ensures
        events.deep_view() == streamed_events(items.deep_view()),
{
    let mut events: Vec<Event> = Vec::new();
    let mut i: usize = 0;
    while i < items.len()
        invariant
            i <= items.len(),
            streamed_events(items.deep_view()) == events.deep_view() + streamed_from(
                items.deep_view(),
                i as int,
            ),
        decreases items.len() - i,
    {
        let step = run_command_step(&items[i]);
        if let Some(event) = step.event {
            events.push(event);
        }
        if step.finished {
            return events;
        }
        i += 1;
    }
    events
}

/// Once a process has reported its end, nothing that is reported later is
/// published: the reports up to the first end give all there is.
pub proof fn lemma_stream_stops_at_end(items: Seq<ItemView>, end: int)
    requires
        0 <= end < items.len(),
        items[end] is Terminated,
        forall|k: int| 0 <= k < end ==> !(#[trigger] items[k] is Terminated),
    ensures
        streamed_events(items) == streamed_events(items.take(end + 1)),
        streamed_events(items).len() >= 1,
        streamed_events(items).last() == output_text_event(exit_notice(items[end]->exit_code)),
{
    lemma_stream_prefix(items, end, 0);
}

proof fn lemma_stream_prefix(items: Seq<ItemView>, end: int, i: int)
    requires
        0 <= i <= end < items.len(),
        items[end] is Terminated,
        forall|k: int| 0 <= k < end ==> !(#[trigger] items[k] is Terminated),
    ensures
        streamed_from(items, i) == streamed_from(items.take(end + 1), i),
        streamed_from(items, i).len() >= 1,
        streamed_from(items, i).last() == output_text_event(exit_notice(items[end]->exit_code)),
    decreases end - i,
{
    let cut = items.take(end + 1);
    if i < end {
        lemma_stream_prefix(items, end, i + 1);
    }
}

} // verus!
