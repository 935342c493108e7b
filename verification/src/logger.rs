//! The logger and the actions it asks of its host.

use crate::clock::utc_now;
use crate::level::Level;
use crate::text::{
    end_line, end_marker, is_timestamp, lemma_line_count_concat, lemma_line_text_is_one_line,
    lemma_timestamp_is_single_line, line_count, line_text, open_failure, open_failure_text,
    record_line, single_line,
};
use vstd::prelude::*;
use vstd::string::*;

verus! {

/// A log sink: the path of the file and the threshold that events must pass.
/// Both are fixed at construction.
#[derive(Debug, PartialEq, Eq)]
pub struct Logger {
    log_file: String,
    level: Level,
}

/// What a [`Logger`] is, as plain values.
pub struct LoggerView {
    pub log_file: Seq<char>,
    pub level: Level,
}

impl View for Logger {
    type V = LoggerView;

    closed spec fn view(&self) -> LoggerView {
        LoggerView { log_file: self.log_file@, level: self.level }
    }
}

/// What the host is to do once it has tried to open the file for appending.
#[derive(Debug, PartialEq, Eq)]
pub enum Action {
    /// Append the text to the file in a single write, then close the file.
    Append(String),
    /// The file could not be opened: print the text as one line on the
    /// standard error stream and leave the file alone.
    Diagnose(String),
}

/// An [`Action`] as plain values.
pub enum ActionView {
    Append(Seq<char>),
    Diagnose(Seq<char>),
}

impl View for Action {
    type V = ActionView;

    open spec fn view(&self) -> ActionView {
        match self {
            Action::Append(text) => ActionView::Append(text@),
            Action::Diagnose(text) => ActionView::Diagnose(text@),
        }
    }
}

impl ActionView {
    /// The contents of the file after the host has carried out the action on a
    /// file that held `contents`.
    pub open spec fn apply(self, contents: Seq<char>) -> Seq<char> {
        match self {
            ActionView::Append(text) => contents + text,
            ActionView::Diagnose(_) => contents,
        }
    }
}

/// The contents of the file after the host has carried out the actions in
/// order on a file that held `contents`.
pub open spec fn apply_all(actions: Seq<ActionView>, contents: Seq<char>) -> Seq<char>
    decreases actions.len(),
{
    if actions.len() == 0 {
        contents
    } else {
        actions.last().apply(apply_all(actions.drop_last(), contents))
    }
}

impl LoggerView {
    /// `action` is one that writing a line with `message` may ask of the host:
    /// after a successful open, the line with some timestamp; after a failed
    /// one, the diagnostic that names the path.
    pub open spec fn writes(self, opened: bool, message: Seq<char>, action: ActionView) -> bool {
        match action {
            ActionView::Append(text) => opened && exists|stamp: Seq<char>|
                is_timestamp(stamp) && text == #[trigger] line_text(stamp, message),
            ActionView::Diagnose(text) => !opened && text == open_failure_text(self.log_file),
        }
    }
}

impl Logger {
    /// A logger for the file at `log_file` that records events at `level` and
    /// above. Nothing is opened or written.
    pub fn new(log_file: &str, level: Level) -> (logger: Logger)
        ensures
            logger@ == (LoggerView { log_file: log_file@, level }),
    {
        Logger { log_file: String::from_str(log_file), level }
    }

    /// The path of the file.
    pub fn log_file(&self) -> (path: &str)
        ensures
            path@ == self@.log_file,
    {
        self.log_file.as_str()
    }

    /// The threshold.
    pub fn level(&self) -> (level: Level)
        ensures
            level == self@.level,
    {
        self.level
    }

    /// Whether an event at `level` is recorded: it is at least as severe as the
    /// threshold.
    pub fn enabled(&self, level: Level) -> (on: bool)
        ensures
            on == level.passes(self@.level),
    {
        level <= self.level
    }

    /// Records one event. `opened` tells whether the host could open the file
    /// for appending. If it could, the clock is read and the action appends
    /// one line, `[<timestamp>] <message>`; if not, the action is the
    /// diagnostic that names the path, and the event is dropped.
    pub fn log(&self, opened: bool, message: &str) -> (action: Action)
        ensures
            self@.writes(opened, message@, action@),
    {
        if opened {
            let stamp = utc_now();
            let line = record_line(stamp.as_str(), message);
            Action::Append(line)
        } else {
            Action::Diagnose(open_failure(self.log_file.as_str()))
        }
    }

    /// Closes the log when the logger is torn down. As [`Logger::log`], with
    /// `END LOG` for the message.
    pub fn flush(&self, opened: bool) -> (action: Action)
        ensures
            self@.writes(opened, end_marker(), action@),
    {
        if opened {
            let stamp = utc_now();
            let line = end_line(stamp.as_str());
            Action::Append(line)
        } else {
            Action::Diagnose(open_failure(self.log_file.as_str()))
        }
    }
}

/// Nothing is ever taken from the file: whatever it held stays at its start,
/// whatever the message and whether or not the open succeeded.
pub proof fn lemma_write_keeps_contents(
    logger: LoggerView,
    opened: bool,
    message: Seq<char>,
    action: ActionView,
    contents: Seq<char>,
)
    requires
        logger.writes(opened, message, action),
    ensures
        contents.is_prefix_of(action.apply(contents)),
{
}

/// Graceful degradation: after a failed open the file is as it was, and the
/// action is the diagnostic that names the path.
pub proof fn lemma_failed_open_changes_nothing(
    logger: LoggerView,
    message: Seq<char>,
    action: ActionView,
    contents: Seq<char>,
)
    requires
        logger.writes(false, message, action),
    ensures
        action == ActionView::Diagnose(open_failure_text(logger.log_file)),
        action.apply(contents) == contents,
{
}

/// Append-only, one call: after a successful open a message without a line
/// terminator adds exactly one line to the file.
pub proof fn lemma_write_appends_one_line(
    logger: LoggerView,
    message: Seq<char>,
    action: ActionView,
    contents: Seq<char>,
)
    requires
        logger.writes(true, message, action),
        single_line(message),
    ensures
        line_count(action.apply(contents)) == line_count(contents) + 1,
{
    let text = action->Append_0;
    let stamp = choose|stamp: Seq<char>|
        is_timestamp(stamp) && text == #[trigger] line_text(stamp, message);
    lemma_timestamp_is_single_line(stamp);
    lemma_line_text_is_one_line(stamp, message);
    lemma_line_count_concat(contents, text);
}

/// Append-only, any number of calls: after `messages.len()` events were
/// recorded, every open succeeding and no message holding a line terminator,
/// the file holds what it held, followed by exactly one line for each event.
pub proof fn lemma_writes_append_lines(
    logger: LoggerView,
    messages: Seq<Seq<char>>,
    actions: Seq<ActionView>,
    contents: Seq<char>,
)
    requires
        actions.len() == messages.len(),
        forall|i: int|
            0 <= i < messages.len() ==> single_line(#[trigger] messages[i]) && logger.writes(
                true,
                messages[i],
                actions[i],
            ),
    ensures
        contents.is_prefix_of(apply_all(actions, contents)),
        line_count(apply_all(actions, contents)) == line_count(contents) + messages.len(),
    decreases actions.len(),
{
    if actions.len() > 0 {
        let before = apply_all(actions.drop_last(), contents);
        lemma_writes_append_lines(logger, messages.drop_last(), actions.drop_last(), contents);
        lemma_write_appends_one_line(logger, messages.last(), actions.last(), before);
    }
}

/// The closing line: after a successful open, tearing the logger down adds
/// exactly one line to whatever the file held, and that line ends in
/// `END LOG`.
pub proof fn lemma_flush_appends_end_line(
    logger: LoggerView,
    action: ActionView,
    contents: Seq<char>,
)
    requires
        logger.writes(true, end_marker(), action),
    ensures
        contents.is_prefix_of(action.apply(contents)),
        line_count(action.apply(contents)) == line_count(contents) + 1,
        (end_marker() + seq!['\n']).is_suffix_of(action.apply(contents)),
{
    lemma_write_appends_one_line(logger, end_marker(), action, contents);
}

} // verus!
