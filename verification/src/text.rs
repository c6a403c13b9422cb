//! Lines of toned text, and the small string builders the printers share.

use vstd::prelude::*;

verus! {

/// The role a piece of text plays in a report. The `style` module gives each
/// role its colour.
#[derive(Clone, Copy, Debug, PartialEq, Eq, Structural)]
pub enum Tone {
    Plain,
    PluginName,
    ElementName,
    PropName,
    PropValue,
    Heading,
    DataType,
    ChildLink,
    CapsType,
    StructName,
    CapsFeature,
    FieldValue,
    FieldName,
    PropAttrName,
    PropAttrValue,
}

/// The mathematical value of a [`Span`]: a tone and the characters it covers.
pub ghost struct Piece {
    pub tone: Tone,
    pub text: Seq<char>,
}

/// A run of characters with one tone.
#[derive(Clone, Debug)]
pub struct Span {
    pub tone: Tone,
    pub text: String,
}

impl View for Span {
    type V = Piece;

    open spec fn view(&self) -> Piece {
        Piece { tone: self.tone, text: self.text@ }
    }
}

/// One line of a report, without its line terminator.
#[derive(Clone, Debug)]
pub struct Line {
    pub spans: Vec<Span>,
}

impl View for Line {
    type V = Seq<Piece>;

    open spec fn view(&self) -> Seq<Piece> {
        Seq::new(self.spans@.len(), |i: int| self.spans@[i]@)
    }
}

/// A piece with the plain tone.
pub open spec fn plain(text: Seq<char>) -> Piece {
    Piece { tone: Tone::Plain, text }
}

/// A piece with the given tone.
pub open spec fn toned(tone: Tone, text: Seq<char>) -> Piece {
    Piece { tone, text }
}

/// The characters of a line with the tones dropped.
pub open spec fn flat_text(pieces: Seq<Piece>) -> Seq<char>
    decreases pieces.len(),
{
    if pieces.len() == 0 {
        Seq::empty()
    } else {
        flat_text(pieces.drop_last()) + pieces.last().text
    }
}

/// The values of a sequence of lines.
pub open spec fn lines_view(lines: Seq<Line>) -> Seq<Seq<Piece>> {
    Seq::new(lines.len(), |i: int| lines[i]@)
}

impl Line {
    /// An empty line.
    pub fn new() -> (line: Line)
        ensures
            line@ == Seq::<Piece>::empty(),
    {
        let line = Line { spans: Vec::new() };
        assert(line@ =~= Seq::<Piece>::empty());
        line
    }

    /// Appends a piece with the given tone and text.
    pub fn push(&mut self, tone: Tone, text: &str)
        ensures
            final(self)@ == old(self)@.push(toned(tone, text@)),
    {
        let span = Span { tone, text: String::from_str(text) };
        self.spans.push(span);
        assert(self@ =~= old(self)@.push(toned(tone, text@)));
    }

    /// The characters of the line with the tones dropped.
    pub fn text(&self) -> (out: String)
        ensures
            out@ == flat_text(self@),
    {
        let mut out = String::new();
        let mut i: usize = 0;
        while i < self.spans.len()
            invariant
                i <= self.spans.len(),
                out@ == flat_text(self@.take(i as int)),
            decreases self.spans.len() - i,
        {
            out.append(self.spans[i].text.as_str());
            proof {
                assert(self@.take(i + 1).drop_last() =~= self@.take(i as int));
            }
            i += 1;
        }
        assert(self@.take(i as int) =~= self@);
        out
    }
}

/// Appends a finished line to a report.
pub fn emit(out: &mut Vec<Line>, line: Line)
    ensures
        lines_view(final(out)@) == lines_view(old(out)@).push(line@),
{
    out.push(line);
    assert(lines_view(out@) =~= lines_view(old(out)@).push(line@));
}

/// Appends an empty line to a report.
pub fn emit_blank(out: &mut Vec<Line>)
    ensures
        lines_view(final(out)@) == lines_view(old(out)@).push(Seq::<Piece>::empty()),
{
    emit(out, Line::new());
}

/// `String::push` of the standard library: the character is appended and
/// nothing else changes.
pub assume_specification[ String::push ](s: &mut String, ch: char)
    ensures
        final(s)@ == old(s)@.push(ch),
;

/// `count` copies of the character `fill`.
pub open spec fn filled(fill: char, count: nat) -> Seq<char> {
    Seq::new(count, |i: int| fill)
}

/// `text` followed by as many spaces as it lacks to reach `width` characters.
pub open spec fn padded_right(text: Seq<char>, width: nat) -> Seq<char> {
    if text.len() >= width {
        text
    } else {
        text + filled(' ', (width - text.len()) as nat)
    }
}

/// `text` preceded by as many spaces as it lacks to reach `width` characters.
pub open spec fn padded_left(text: Seq<char>, width: nat) -> Seq<char> {
    if text.len() >= width {
        text
    } else {
        filled(' ', (width - text.len()) as nat) + text
    }
}

/// The character of a single decimal digit.
pub open spec fn digit_char(d: nat) -> char
    recommends
        d < 10,
{
    (48 + d) as u8 as char
}

/// The decimal numeral of a natural number, without leading zeros.
pub open spec fn decimal_nat(n: nat) -> Seq<char>
    decreases n,
{
    if n < 10 {
        seq![digit_char(n)]
    } else {
        decimal_nat(n / 10).push(digit_char(n % 10))
    }
}

/// The decimal numeral of an integer, with a minus sign where it is negative.
pub open spec fn decimal_int(i: int) -> Seq<char> {
    if i < 0 {
        seq!['-'] + decimal_nat((-i) as nat)
    } else {
        decimal_nat(i as nat)
    }
}

/// Appends `count` spaces to `out`.
pub fn push_spaces(out: &mut String, count: usize)
    ensures
        final(out)@ == old(out)@ + filled(' ', count as nat),
{
    let mut i: usize = 0;
    while i < count
        invariant
            i <= count,
            out@ == old(out)@ + filled(' ', i as nat),
        decreases count - i,
    {
        out.push(' ');
        i += 1;
        assert(out@ =~= old(out)@ + filled(' ', i as nat));
    }
}

/// A string of `count` spaces.
pub fn spaces(count: usize) -> (out: String)
    ensures
        out@ == filled(' ', count as nat),
{
    let mut out = String::new();
    push_spaces(&mut out, count);
    assert(out@ =~= filled(' ', count as nat));
    out
}

/// Left-aligns `text` in a field of `width` characters.
pub fn pad_right(text: &str, width: usize) -> (out: String)
    ensures
        out@ == padded_right(text@, width as nat),
{
    let mut out = String::from_str(text);
    let len = text.unicode_len();
    if len < width {
        push_spaces(&mut out, width - len);
    }
    out
}

/// Right-aligns `text` in a field of `width` characters.
pub fn pad_left(text: &str, width: usize) -> (out: String)
    ensures
        out@ == padded_left(text@, width as nat),
{
    let len = text.unicode_len();
    let mut out = String::new();
    if len < width {
        push_spaces(&mut out, width - len);
    }
    out.append(text);
    assert(out@ =~= padded_left(text@, width as nat));
    out
}

/// Appends the decimal numeral of `n` to `out`.
pub fn push_decimal_u64(out: &mut String, n: u64)
    ensures
        final(out)@ == old(out)@ + decimal_nat(n as nat),
    decreases n,
{
    if n >= 10 {
        push_decimal_u64(out, n / 10);
    }
    let d: u8 = (n % 10) as u8;
    let c: char = (48u8 + d) as char;
    out.push(c);
    assert(out@ =~= old(out)@ + decimal_nat(n as nat));
}

/// The decimal numeral of an unsigned number.
pub fn decimal_u64(n: u64) -> (out: String)
    ensures
        out@ == decimal_nat(n as nat),
{
    let mut out = String::new();
    push_decimal_u64(&mut out, n);
    assert(out@ =~= decimal_nat(n as nat));
    out
}

/// The decimal numeral of a signed number.
pub fn decimal_i64(n: i64) -> (out: String)
    ensures
        out@ == decimal_int(n as int),
{
    let mut out = String::new();
    if n < 0 {
        out.push('-');
        let magnitude: u64 = ((-(n + 1)) as u64) + 1;
        push_decimal_u64(&mut out, magnitude);
        assert(out@ =~= decimal_int(n as int));
    } else {
        push_decimal_u64(&mut out, n as u64);
        assert(out@ =~= decimal_int(n as int));
    }
    out
}

} // verus!
