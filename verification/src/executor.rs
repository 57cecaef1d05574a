//! What the line-tagged executor decides: which part of a child's output line
//! is shown and where it goes, which lines of standard error are kept for a
//! failure report, and what that report holds.

use crate::style::{bold_in, is_styled, Hue};
use crate::text::{
    blank, chars_of, is_blank, last_segment, last_segment_start, lemma_last_segment_shape,
    lemma_last_segment_without_sep, string_of, views,
};
use vstd::prelude::*;

verus! {

/// How many lines of standard error are kept for the failure report.
pub const STDERR_TAIL_LIMIT: usize = 20;

/// What is shown of one line of output: nothing for a blank line, otherwise
/// what follows the last carriage return, so that of a line which a child
/// rewrote in place only the final state appears.
pub open spec fn displayed(line: Seq<char>) -> Option<Seq<char>> {
    if is_blank(line) {
        None
    } else {
        Some(last_segment(line, '\r'))
    }
}

/// A line of output below its tag: the tag, one space, the text.
pub open spec fn tagged(tag: Seq<char>, text: Seq<char>) -> Seq<char> {
    tag + seq![' '] + text
}

/// The kept lines after one more line arrived: the oldest line leaves once the
/// limit is reached.
pub open spec fn push_bounded(tail: Seq<Seq<char>>, line: Seq<char>) -> Seq<Seq<char>> {
    if tail.len() >= STDERR_TAIL_LIMIT {
        tail.drop_first().push(line)
    } else {
        tail.push(line)
    }
}

/// The kept lines after all of `lines` arrived, in order.
pub open spec fn push_all(tail: Seq<Seq<char>>, lines: Seq<Seq<char>>) -> Seq<Seq<char>>
    decreases lines.len(),
{
    if lines.len() == 0 {
        tail
    } else {
        push_bounded(push_all(tail, lines.drop_last()), lines.last())
    }
}

/// The last `limit` entries of `lines`; all of them where there are no more.
pub open spec fn last_lines(lines: Seq<Seq<char>>, limit: nat) -> Seq<Seq<char>> {
    if lines.len() > limit {
        lines.skip(lines.len() - limit)
    } else {
        lines
    }
}

/// The lines that a failure report prints through the status sink: the header
/// and the kept lines, when the child failed and a sink is attached. Without a
/// sink the lines have been printed already, and a success reports nothing.
pub open spec fn report(
    succeeded: bool,
    has_sink: bool,
    header: Seq<char>,
    tail: Seq<Seq<char>>,
) -> Seq<Seq<char>> {
    if !succeeded && has_sink {
        seq![header] + tail
    } else {
        Seq::empty()
    }
}

/// Where one line of a child's output goes.
#[derive(Debug, PartialEq, Eq)]
pub enum LineAction {
    /// The line was blank: nothing is shown.
    Skip,
    /// The text replaces the current message of the status sink.
    Status(String),
    /// The text is printed to standard output as it stands, tag included.
    Print(String),
}

/// Whether `action` is what `line` calls for under `tag`, with or without a sink.
pub open spec fn routed(action: LineAction, line: Seq<char>, tag: Seq<char>, has_sink: bool)
    -> bool {
    match action {
        LineAction::Skip => displayed(line) is None,
        LineAction::Status(text) => has_sink && displayed(line) == Some(text@),
        LineAction::Print(text) => !has_sink && displayed(line) is Some && text@ == tagged(
            tag,
            displayed(line)->0,
        ),
    }
}

/// How a child ended.
#[derive(Clone, Copy, Debug, PartialEq, Eq, Structural)]
pub enum ExitOutcome {
    /// It exited with code zero.
    Success,
    /// It exited with the given code, which is not zero.
    Failed(i32),
    /// A signal ended it, so that there is no exit code.
    Signaled,
}

impl ExitOutcome {
    /// The outcome for the exit code that the operating system reports, `None`
    /// standing for termination by a signal.
    pub fn from_code(code: Option<i32>) -> (outcome: ExitOutcome)
        ensures
            outcome == match code {
                Some(c) => if c == 0 {
                    ExitOutcome::Success
                } else {
                    ExitOutcome::Failed(c)
                },
                None => ExitOutcome::Signaled,
            },
    {
        match code {
            Some(c) => if c == 0 {
                ExitOutcome::Success
            } else {
                ExitOutcome::Failed(c)
            },
            None => ExitOutcome::Signaled,
        }
    }

    pub open spec fn is_success(self) -> bool {
        self == ExitOutcome::Success
    }

    /// Whether the child succeeded.
    #[verifier::when_used_as_spec(is_success)]
    pub fn success(self) -> (b: bool)
        ensures
            b == self.is_success(),
    {
        match self {
            ExitOutcome::Success => true,
            _ => false,
        }
    }

    /// The exit code, where there is one.
    pub fn code(self) -> (code: Option<i32>)
        ensures
            code == match self {
                ExitOutcome::Success => Some(0i32),
                ExitOutcome::Failed(c) => Some(c),
                ExitOutcome::Signaled => None::<i32>,
            },
    {
        match self {
            ExitOutcome::Success => Some(0),
            ExitOutcome::Failed(c) => Some(c),
            ExitOutcome::Signaled => None,
        }
    }
}

/// The last lines that a child wrote to standard error, oldest first, never
/// more than `STDERR_TAIL_LIMIT` of them.
pub struct StderrTail {
    lines: Vec<String>,
}

impl View for StderrTail {
    type V = Seq<Seq<char>>;

    closed spec fn view(&self) -> Seq<Seq<char>> {
        views(self.lines@)
    }
}

impl StderrTail {
    #[verifier::type_invariant]
    spec fn bounded(&self) -> bool {
        self.lines.len() <= STDERR_TAIL_LIMIT
    }

    /// A tail that holds no line yet.
    pub fn new() -> (tail: StderrTail)
        ensures
            tail@ == Seq::<Seq<char>>::empty(),
    {
        let tail = StderrTail { lines: Vec::with_capacity(STDERR_TAIL_LIMIT) };
        tail
    }

    /// The number of lines kept.
    pub fn len(&self) -> (n: usize)
        ensures
            n == self@.len(),
            n <= STDERR_TAIL_LIMIT,
    {
        proof {
            use_type_invariant(self);
        }
        self.lines.len()
    }

    /// The tail with `line` as its newest line; where the limit was reached the
    /// oldest line has left.
    pub fn push(self, line: String) -> (tail: StderrTail)
        ensures
            tail@ == push_bounded(self@, line@),
            tail@.len() <= STDERR_TAIL_LIMIT,
    {
        proof {
            use_type_invariant(&self);
        }
        let mut lines = self.lines;
        if lines.len() >= STDERR_TAIL_LIMIT {
            lines.remove(0);
        }
        lines.push(line);
        StderrTail { lines }
    }

    /// The kept lines, oldest first.
    pub fn into_lines(self) -> (lines: Vec<String>)
        ensures
            views(lines@) == self@,
            lines.len() <= STDERR_TAIL_LIMIT,
    {
        proof {
            use_type_invariant(&self);
        }
        self.lines
    }
}

/// The part of `line` that is shown, if any.
pub fn display_line(line: &str) -> (shown: Option<String>)
    ensures
        match shown {
            Some(text) => displayed(line@) == Some(text@),
            None => displayed(line@) is None,
        },
{
    let chars = chars_of(line);
    if blank(&chars) {
        None
    } else {
        let start = last_segment_start(&chars, '\r');
        Some(string_of(&chars, start, chars.len()))
    }
}

/// `text` below `tag`.
pub fn tag_line(tag: &str, text: &str) -> (line: String)
    ensures
        line@ == tagged(tag@, text@),
{
    let mut line = tag.to_owned();
    line.push(' ');
    line.append(text);
    line
}

/// Where a line from a child's standard output goes: nowhere when it is blank,
/// else its shown part, into the status sink when one is attached and
/// otherwise below the tag to standard output.
pub fn route_stdout(line: &str, tag: &str, has_sink: bool) -> (action: LineAction)
    ensures
        routed(action, line@, tag@, has_sink),
{
    match display_line(line) {
        None => LineAction::Skip,
        Some(text) => if has_sink {
            LineAction::Status(text)
        } else {
            LineAction::Print(tag_line(tag, text.as_str()))
        },
    }
}

/// Where a line from a child's standard error goes, as for standard output,
/// and the tail with the line's shown part kept in it. A blank line leaves the
/// tail as it was.
pub fn route_stderr(line: &str, tag: &str, has_sink: bool, tail: StderrTail) -> (next: (
    LineAction,
    StderrTail,
))
    ensures
        routed(next.0, line@, tag@, has_sink),
        next.1@ == match displayed(line@) {
            Some(text) => push_bounded(tail@, text),
            None => tail@,
        },
        next.1@.len() <= STDERR_TAIL_LIMIT,
{
    match display_line(line) {
        None => {
            proof {
                use_type_invariant(&tail);
            }
            (LineAction::Skip, tail)
        },
        Some(text) => {
            let action = if has_sink {
                LineAction::Status(text.clone())
            } else {
                LineAction::Print(tag_line(tag, text.as_str()))
            };
            (action, tail.push(text))
        },
    }
}

/// The lines of a failure report, given the header line: see `report`.
pub fn failure_report(succeeded: bool, has_sink: bool, header: String, tail: StderrTail) -> (lines:
    Vec<String>)
    ensures
        views(lines@) == report(succeeded, has_sink, header@, tail@),
{
    if !succeeded && has_sink {
        let mut lines: Vec<String> = Vec::new();
        lines.push(header);
        let mut kept = tail.into_lines();
        lines.append(&mut kept);
        lines
    } else {
        let lines: Vec<String> = Vec::new();
        lines
    }
}

/// The words of the header of a failure report.
pub open spec fn header_text() -> Seq<char> {
    "showing last 20 lines of stderr..."@
}

/// The header of a failure report, in bold white as far as the terminal
/// takes colour.
pub fn report_header() -> (header: String)
    ensures
        is_styled(header@, header_text()),
{
    proof {
        reveal_strlit("showing last 20 lines of stderr...");
    }
    bold_in("showing last 20 lines of stderr...", Hue::White)
}

/// What is printed through the status sink once a child has ended: nothing
/// after a success or without a sink, else a header line followed by the kept
/// lines of standard error, oldest first.
pub fn report_failure(succeeded: bool, has_sink: bool, tail: StderrTail) -> (lines: Vec<String>)
    ensures
        succeeded || !has_sink ==> lines@.len() == 0,
        !succeeded && has_sink ==> lines@.len() == tail@.len() + 1 && is_styled(
            lines@[0]@,
            header_text(),
        ) && views(lines@).skip(1) == tail@,
{
    let header = report_header();
    let lines = failure_report(succeeded, has_sink, header, tail);
    assert(views(lines@).len() == lines@.len());
    proof {
        if !succeeded && has_sink {
            assert(views(lines@)[0] == header@);
        }
    }
    lines
}

/// Collapsing carriage returns is idempotent: what is left of a line holds no
/// carriage return, so collapsing it again gives the same text.
pub proof fn lemma_collapse_idempotent(line: Seq<char>)
    ensures
        last_segment(last_segment(line, '\r'), '\r') == last_segment(line, '\r'),
{
    lemma_last_segment_shape(line, '\r');
    lemma_last_segment_without_sep(last_segment(line, '\r'), '\r');
}

/// After any number of lines an empty tail holds the last twenty of them, in
/// the order in which they arrived: the oldest lines are dropped first.
pub proof fn lemma_tail_keeps_last_lines(lines: Seq<Seq<char>>)
    ensures
        push_all(Seq::empty(), lines) == last_lines(lines, STDERR_TAIL_LIMIT as nat),
        push_all(Seq::empty(), lines).len() <= STDERR_TAIL_LIMIT,
    decreases lines.len(),
{
    if lines.len() > 0 {
        let before = lines.drop_last();
        lemma_tail_keeps_last_lines(before);
    }
}

} // verus!
