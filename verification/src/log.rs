//! The lines that notes, warnings and errors are printed as.

use crate::executor::{tag_line, tagged};
use crate::style::{bold_in, is_plain, is_styled, plain_in, Hue};
use vstd::prelude::*;

verus! {

/// A note before it is styled: an arrow and the message.
pub open spec fn note_text(msg: Seq<char>) -> Seq<char> {
    "--> "@ + msg
}

/// A note before it is styled.
pub fn note(msg: &str) -> (text: String)
    ensures
        text@ == note_text(msg@),
{
    let mut text = "--> ".to_owned();
    text.append(msg);
    text
}

/// The line for a note: an arrow and the message, in white as far as the
/// terminal takes colour.
pub fn info(msg: &str) -> (line: String)
    ensures
        is_plain(msg@) ==> is_styled(line@, note_text(msg@)),
{
    proof {
        reveal_strlit("--> ");
    }
    plain_in(note(msg).as_str(), Hue::White)
}

/// The line for an error: the message behind a label in bold red, as far as
/// the terminal takes colour.
pub fn error(msg: &str) -> (line: String)
    ensures
        exists|label: Seq<char>|
            line@ == #[trigger] tagged(label, msg@) && is_styled(label, "[error] "@),
{
    proof {
        reveal_strlit("[error] ");
    }
    let label = bold_in("[error] ", Hue::Red);
    tag_line(label.as_str(), msg)
}

/// The line for a warning: the message behind a label in bold yellow, as far
/// as the terminal takes colour.
pub fn warn(msg: &str) -> (line: String)
    ensures
        exists|label: Seq<char>|
            line@ == #[trigger] tagged(label, msg@) && is_styled(label, "[warn] "@),
{
    proof {
        reveal_strlit("[warn] ");
    }
    let label = bold_in("[warn] ", Hue::Yellow);
    tag_line(label.as_str(), msg)
}

} // verus!
