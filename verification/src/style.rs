//! Colours, palettes and styled text.

use colored::Colorize;
use vstd::prelude::*;

verus! {

/// The colours that tags, badges and messages are drawn in.
#[derive(Clone, Copy, Debug, PartialEq, Eq, Structural)]
pub enum Hue {
    Red,
    Green,
    Yellow,
    Blue,
    Magenta,
    Cyan,
    White,
    BrightGreen,
    BrightYellow,
    BrightBlue,
    BrightMagenta,
    BrightCyan,
}

#[verifier::external_type_specification]
#[verifier::external_body]
pub struct ExColor(colored::Color);

/// The colours that task tags cycle through.
pub open spec fn tag_palette() -> Seq<Hue> {
    seq![
        Hue::Green,
        Hue::Yellow,
        Hue::Blue,
        Hue::Magenta,
        Hue::Cyan,
        Hue::BrightGreen,
        Hue::BrightBlue,
        Hue::BrightMagenta,
        Hue::BrightCyan,
        Hue::BrightYellow,
    ]
}

/// The background colours that badges cycle through.
pub open spec fn badge_palette() -> Seq<Hue> {
    seq![
        Hue::Blue,
        Hue::Magenta,
        Hue::Cyan,
        Hue::Yellow,
        Hue::BrightGreen,
        Hue::BrightBlue,
        Hue::BrightMagenta,
        Hue::BrightCyan,
        Hue::BrightYellow,
    ]
}

/// The tag colour of the task at `index`: the palette is walked round and round,
/// so the colour depends on the index alone.
pub fn tag_color(index: usize) -> (color: Hue)
    ensures
        color == tag_palette()[index as int % 10],
{
    match index % 10 {
        0 => Hue::Green,
        1 => Hue::Yellow,
        2 => Hue::Blue,
        3 => Hue::Magenta,
        4 => Hue::Cyan,
        5 => Hue::BrightGreen,
        6 => Hue::BrightBlue,
        7 => Hue::BrightMagenta,
        8 => Hue::BrightCyan,
        _ => Hue::BrightYellow,
    }
}

/// The badge background of the task at `index`, taken from the badge palette
/// in the same way.
pub fn badge_color(index: usize) -> (color: Hue)
    ensures
        color == badge_palette()[index as int % 9],
{
    match index % 9 {
        0 => Hue::Blue,
        1 => Hue::Magenta,
        2 => Hue::Cyan,
        3 => Hue::Yellow,
        4 => Hue::BrightGreen,
        5 => Hue::BrightBlue,
        6 => Hue::BrightMagenta,
        7 => Hue::BrightCyan,
        _ => Hue::BrightYellow,
    }
}

/// The character that begins an escape sequence.
pub const ESCAPE: char = '\u{1b}';

/// The text holds no escape character.
pub open spec fn is_plain(text: Seq<char>) -> bool {
    forall|i: int| 0 <= i < text.len() ==> text[i] != ESCAPE
}

/// A sequence that switches style: the escape character, a bracket, numbers
/// with semicolons between them, and the letter `m`.
pub open spec fn is_style_sequence(s: Seq<char>) -> bool {
    &&& s.len() >= 3
    &&& s[0] == ESCAPE
    &&& s[1] == '['
    &&& s.last() == 'm'
    &&& forall|i: int| 2 <= i < s.len() - 1 ==> ('0' <= #[trigger] s[i] <= '9' || s[i] == ';')
}

/// The sequence that switches every style off.
pub open spec fn reset_sequence() -> Seq<char> {
    seq![ESCAPE, '[', '0', 'm']
}

/// Whether `out` is `text` as it is shown in some style: the text itself
/// where no colour is in use, or the text behind a style sequence and before
/// the reset sequence.
pub open spec fn is_styled(out: Seq<char>, text: Seq<char>) -> bool {
    out == text || exists|style: Seq<char>|
        (style.len() == 0 || is_style_sequence(style)) && out == #[trigger] (style + text)
            + reset_sequence()
}

/// The `colored::Color` of the same name. Nothing is claimed of the result:
/// it is only handed on to `colored`.
#[verifier::external_body]
fn outside_color(color: Hue) -> colored::Color {
    match color {
        Hue::Red => colored::Color::Red,
        Hue::Green => colored::Color::Green,
        Hue::Yellow => colored::Color::Yellow,
        Hue::Blue => colored::Color::Blue,
        Hue::Magenta => colored::Color::Magenta,
        Hue::Cyan => colored::Color::Cyan,
        Hue::White => colored::Color::White,
        Hue::BrightGreen => colored::Color::BrightGreen,
        Hue::BrightYellow => colored::Color::BrightYellow,
        Hue::BrightBlue => colored::Color::BrightBlue,
        Hue::BrightMagenta => colored::Color::BrightMagenta,
        Hue::BrightCyan => colored::Color::BrightCyan,
    }
}

/// `text` as `colored` renders it in bold with foreground `color`
/// (`Colorize::bold`, `Colorize::color`, then `to_string`). Whether colour is
/// used depends on the terminal and the environment of the process, so the
/// contract leaves that open: the result is the text itself, or the text
/// between a style sequence and the reset sequence. A text that holds an
/// escape character may be changed inside, and nothing is claimed of it.
#[verifier::external_body]
pub(crate) fn bold_in(text: &str, color: Hue) -> (out: String)
    ensures
        is_plain(text@) ==> is_styled(out@, text@),
{
    text.bold().color(outside_color(color)).to_string()
}

/// `text` as `colored` renders it with foreground `color` (`Colorize::color`,
/// then `to_string`): the text itself, or the text between a style sequence
/// and the reset sequence, as for `bold_in`.
#[verifier::external_body]
pub(crate) fn plain_in(text: &str, color: Hue) -> (out: String)
    ensures
        is_plain(text@) ==> is_styled(out@, text@),
{
    text.color(outside_color(color)).to_string()
}

/// `text` as `colored` renders it in bold white on background `color`
/// (`Colorize::bold`, `Colorize::white`, `Colorize::on_color`, then
/// `to_string`): the text itself, or the text between a style sequence and
/// the reset sequence, as for `bold_in`.
#[verifier::external_body]
pub(crate) fn bold_white_on(text: &str, color: Hue) -> (out: String)
    ensures
        is_plain(text@) ==> is_styled(out@, text@),
{
    text.bold().white().on_color(outside_color(color)).to_string()
}

/// The decimal notation of a number holds no escape character.
pub proof fn lemma_plain_decimal(n: nat)
    ensures
        is_plain(crate::text::decimal(n)),
    decreases n,
{
    if n >= 10 {
        lemma_plain_decimal(n / 10);
    }
}

} // verus!
