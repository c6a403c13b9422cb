//! Colours for the tones of a report, as ANSI escape sequences.

use vstd::prelude::*;
use crate::text::{decimal_nat, Line, Piece, Tone};

verus! {

/// A foreground colour of a terminal.
#[derive(Clone, Copy, Debug, PartialEq, Eq, Structural)]
pub enum Hue {
    Black,
    Red,
    Green,
    Yellow,
    Blue,
    Purple,
    Cyan,
    White,
    /// A colour of the 256-colour table.
    Fixed(u8),
    /// A colour given by its red, green and blue parts.
    Rgb(u8, u8, u8),
}

/// The parameters of the escape sequence that selects a foreground colour.
pub open spec fn hue_code(hue: Hue) -> Seq<char> {
    match hue {
        Hue::Black => "30"@,
        Hue::Red => "31"@,
        Hue::Green => "32"@,
        Hue::Yellow => "33"@,
        Hue::Blue => "34"@,
        Hue::Purple => "35"@,
        Hue::Cyan => "36"@,
        Hue::White => "37"@,
        Hue::Fixed(n) => "38;5;"@ + decimal_nat(n as nat),
        Hue::Rgb(r, g, b) => "38;2;"@ + decimal_nat(r as nat) + ";"@ + decimal_nat(g as nat) + ";"@
            + decimal_nat(b as nat),
    }
}

/// `text` between the escape sequence that selects the colour and the one
/// that resets it.
pub open spec fn painted(hue: Hue, text: Seq<char>) -> Seq<char> {
    "\x1b["@ + hue_code(hue) + "m"@ + text + "\x1b[0m"@
}

/// The colour of each tone; plain text has none.
pub open spec fn tone_hue(tone: Tone) -> Option<Hue> {
    match tone {
        Tone::Plain => None,
        Tone::PluginName => Some(Hue::Rgb(97, 127, 166)),
        Tone::ElementName => Some(Hue::Green),
        Tone::PropName => Some(Hue::Rgb(97, 127, 166)),
        Tone::PropValue => Some(Hue::Yellow),
        Tone::Heading => Some(Hue::Yellow),
        Tone::DataType => Some(Hue::Green),
        Tone::ChildLink => Some(Hue::Purple),
        Tone::CapsType => Some(Hue::Yellow),
        Tone::StructName => Some(Hue::Yellow),
        Tone::CapsFeature => Some(Hue::Green),
        Tone::FieldValue => Some(Hue::Rgb(97, 127, 166)),
        Tone::FieldName => Some(Hue::Cyan),
        Tone::PropAttrName => Some(Hue::Yellow),
        Tone::PropAttrValue => Some(Hue::Cyan),
    }
}

/// A piece as a terminal shows it: painted where its tone has a colour.
pub open spec fn styled_piece(piece: Piece) -> Seq<char> {
    match tone_hue(piece.tone) {
        Some(hue) => painted(hue, piece.text),
        None => piece.text,
    }
}

/// A line as a terminal shows it.
pub open spec fn styled_text(pieces: Seq<Piece>) -> Seq<char>
    decreases pieces.len(),
{
    if pieces.len() == 0 {
        Seq::empty()
    } else {
        styled_text(pieces.drop_last()) + styled_piece(pieces.last())
    }
}

/// `ansi_term::Colour::paint`, written out through `Display`: the text
/// comes back between the sequence `ESC [ <code> m`, with the code of the
/// colour as the foreground, and the reset sequence `ESC [ 0 m`.
#[verifier::external_body]
fn paint(hue: Hue, text: &str) -> (out: String)
    ensures
        out@ == painted(hue, text@),
{
    let colour = match hue {
        Hue::Black => ansi_term::Colour::Black,
        Hue::Red => ansi_term::Colour::Red,
        Hue::Green => ansi_term::Colour::Green,
        Hue::Yellow => ansi_term::Colour::Yellow,
        Hue::Blue => ansi_term::Colour::Blue,
        Hue::Purple => ansi_term::Colour::Purple,
        Hue::Cyan => ansi_term::Colour::Cyan,
        Hue::White => ansi_term::Colour::White,
        Hue::Fixed(n) => ansi_term::Colour::Fixed(n),
        Hue::Rgb(r, g, b) => ansi_term::Colour::RGB(r, g, b),
    };
    colour.paint(text).to_string()
}

/// The colour of a tone; plain text has none.
pub fn hue_of(tone: Tone) -> (hue: Option<Hue>)
    ensures
        hue == tone_hue(tone),
{
    match tone {
        Tone::Plain => None,
        Tone::PluginName => Some(Hue::Rgb(97, 127, 166)),
        Tone::ElementName => Some(Hue::Green),
        Tone::PropName => Some(Hue::Rgb(97, 127, 166)),
        Tone::PropValue => Some(Hue::Yellow),
        Tone::Heading => Some(Hue::Yellow),
        Tone::DataType => Some(Hue::Green),
        Tone::ChildLink => Some(Hue::Purple),
        Tone::CapsType => Some(Hue::Yellow),
        Tone::StructName => Some(Hue::Yellow),
        Tone::CapsFeature => Some(Hue::Green),
        Tone::FieldValue => Some(Hue::Rgb(97, 127, 166)),
        Tone::FieldName => Some(Hue::Cyan),
        Tone::PropAttrName => Some(Hue::Yellow),
        Tone::PropAttrValue => Some(Hue::Cyan),
    }
}

/// `text` in the given colour, as a terminal takes it.
pub fn colored(hue: Hue, text: &str) -> (out: String)
    ensures
        out@ == painted(hue, text@),
{
    paint(hue, text)
}

/// A line as a terminal shows it: every piece whose tone has a colour is
/// painted in it, and plain pieces stand as they are.
pub fn styled(line: &Line) -> (out: String)
    ensures
        out@ == styled_text(line@),
{
    let mut out = String::new();
    let mut i: usize = 0;
    while i < line.spans.len()
        invariant
            i <= line.spans.len(),
            out@ == styled_text(line@.take(i as int)),
        decreases line.spans.len() - i,
    {
        proof {
            assert(line@.take(i + 1).drop_last() =~= line@.take(i as int));
        }
        let span = &line.spans[i];
        match hue_of(span.tone) {
            Some(hue) => out.append(paint(hue, span.text.as_str()).as_str()),
            None => out.append(span.text.as_str()),
        }
        i += 1;
    }
    assert(line@.take(i as int) =~= line@);
    out
}

} // verus!
