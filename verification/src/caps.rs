//! Capability sets and how they are rendered.

use vstd::prelude::*;
use crate::text::{emit, filled, lines_view, pad_left, padded_left, plain, spaces, toned, Line, Piece, Tone};

verus! {

/// One field of a capability structure. `value` is the serialized value, or
/// `None` where the value could not be serialized.
#[derive(Clone, Debug)]
pub struct CapsField {
    pub name: String,
    pub value: Option<String>,
}

/// One alternative of a capability set.
#[derive(Clone, Debug)]
pub struct CapsStructure {
    pub name: String,
    /// The feature tag; `None` stands for plain system memory.
    pub feature: Option<String>,
    pub fields: Vec<CapsField>,
}

/// A capability set: anything, nothing, or a list of alternatives.
#[derive(Clone, Debug)]
pub enum CapsSet {
    Any,
    Empty,
    Structures(Vec<CapsStructure>),
}

/// The feature tag of plain system memory, which is never shown.
pub open spec fn system_memory() -> Seq<char> {
    "memory:SystemMemory"@
}

/// The indentation of the first line of each alternative.
pub open spec fn caps_indent() -> Seq<char> {
    filled(' ', 6)
}

/// Whether a feature tag is shown behind the structure's name.
pub open spec fn shows_feature(feature: Option<String>) -> bool {
    match feature {
        Some(f) => f@ != system_memory(),
        None => false,
    }
}

/// The first line of an alternative: its name and, where shown, its feature.
pub open spec fn structure_header(s: CapsStructure) -> Seq<Piece> {
    if shows_feature(s.feature) {
        seq![
            plain(caps_indent()),
            toned(Tone::StructName, s.name@),
            plain("("@),
            toned(Tone::CapsFeature, s.feature->0@),
            plain(")"@),
        ]
    } else {
        seq![plain(caps_indent()), toned(Tone::StructName, s.name@)]
    }
}

/// The line of a field whose value serialized to `value`.
pub open spec fn field_line(name: Seq<char>, value: Seq<char>) -> Seq<Piece> {
    seq![toned(Tone::FieldName, padded_left(name, 23)), plain(": "@), toned(Tone::FieldValue, value)]
}

/// One line for each field that has a value, in the fields' own order.
pub open spec fn field_lines(fields: Seq<CapsField>) -> Seq<Seq<Piece>>
    decreases fields.len(),
{
    if fields.len() == 0 {
        Seq::empty()
    } else {
        let rest = field_lines(fields.drop_last());
        match fields.last().value {
            Some(v) => rest.push(field_line(fields.last().name@, v@)),
            None => rest,
        }
    }
}

/// The lines of one alternative.
pub open spec fn structure_lines(s: CapsStructure) -> Seq<Seq<Piece>> {
    seq![structure_header(s)] + field_lines(s.fields@)
}

/// The lines of a list of alternatives, in the list's order.
pub open spec fn structures_lines(structures: Seq<CapsStructure>) -> Seq<Seq<Piece>>
    decreases structures.len(),
{
    if structures.len() == 0 {
        Seq::empty()
    } else {
        structures_lines(structures.drop_last()) + structure_lines(structures.last())
    }
}

/// The single line that stands for a capability set without alternatives.
pub open spec fn sentinel_line(word: Seq<char>) -> Seq<Piece> {
    seq![plain(caps_indent()), toned(Tone::CapsType, word)]
}

/// The lines that describe a capability set.
pub open spec fn caps_lines(caps: CapsSet) -> Seq<Seq<Piece>> {
    match caps {
        CapsSet::Any => seq![sentinel_line("ANY"@)],
        CapsSet::Empty => seq![sentinel_line("EMPTY"@)],
        CapsSet::Structures(v) => if v@.len() == 0 {
            seq![sentinel_line("EMPTY"@)]
        } else {
            structures_lines(v@)
        },
    }
}

fn sentinel(word: &str) -> (line: Line)
    ensures
        line@ == sentinel_line(word@),
{
    let mut line = Line::new();
    line.push(Tone::Plain, spaces(6).as_str());
    line.push(Tone::CapsType, word);
    line
}

fn header(s: &CapsStructure) -> (line: Line)
    ensures
        line@ == structure_header(*s),
{
    let mut line = Line::new();
    line.push(Tone::Plain, spaces(6).as_str());
    line.push(Tone::StructName, s.name.as_str());
    match &s.feature {
        Some(f) => {
            let hidden = String::from_str("memory:SystemMemory");
            if !(*f == hidden) {
                line.push(Tone::Plain, "(");
                line.push(Tone::CapsFeature, f.as_str());
                line.push(Tone::Plain, ")");
            }
        },
        None => {},
    }
    line
}

/// Appends the lines of one alternative to `out`: the header, then every
/// field that has a value.
pub fn push_structure(out: &mut Vec<Line>, s: &CapsStructure)
    ensures
        lines_view(final(out)@) == lines_view(old(out)@) + structure_lines(*s),
{
    emit(out, header(s));
    let mut k: usize = 0;
    while k < s.fields.len()
        invariant
            k <= s.fields.len(),
            lines_view(out@) == lines_view(old(out)@).push(structure_header(*s)) + field_lines(
                s.fields@.take(k as int),
            ),
        decreases s.fields.len() - k,
    {
        proof {
            assert(s.fields@.take(k + 1).drop_last() =~= s.fields@.take(k as int));
            assert(s.fields@.take(k + 1).last() == s.fields@[k as int]);
        }
        let field = &s.fields[k];
        match &field.value {
            Some(v) => {
                let mut line = Line::new();
                line.push(Tone::FieldName, pad_left(field.name.as_str(), 23).as_str());
                line.push(Tone::Plain, ": ");
                line.push(Tone::FieldValue, v.as_str());
                assert(line@ =~= field_line(field.name@, v@));
                emit(out, line);
            },
            None => {},
        }
        k += 1;
        assert(lines_view(out@) =~= lines_view(old(out)@).push(structure_header(*s)) + field_lines(
            s.fields@.take(k as int),
        ));
    }
    proof {
        assert(s.fields@.take(k as int) =~= s.fields@);
        assert(lines_view(out@) =~= lines_view(old(out)@) + structure_lines(*s));
    }
}

/// Appends the lines that describe `caps` to `out`.
pub fn print_caps(out: &mut Vec<Line>, caps: &CapsSet)
    ensures
        lines_view(final(out)@) == lines_view(old(out)@) + caps_lines(*caps),
{
    match caps {
        CapsSet::Any => {
            emit(out, sentinel("ANY"));
            assert(lines_view(out@) =~= lines_view(old(out)@) + caps_lines(*caps));
        },
        CapsSet::Empty => {
            emit(out, sentinel("EMPTY"));
            assert(lines_view(out@) =~= lines_view(old(out)@) + caps_lines(*caps));
        },
        CapsSet::Structures(v) => {
            if v.len() == 0 {
                emit(out, sentinel("EMPTY"));
                assert(lines_view(out@) =~= lines_view(old(out)@) + caps_lines(*caps));
            } else {
                let mut i: usize = 0;
                assert(lines_view(out@) =~= lines_view(old(out)@) + structures_lines(v@.take(0)));
                while i < v.len()
                    invariant
                        i <= v.len(),
                        lines_view(out@) == lines_view(old(out)@) + structures_lines(v@.take(i as int)),
                    decreases v.len() - i,
                {
                    proof {
                        assert(v@.take(i + 1).drop_last() =~= v@.take(i as int));
                    }
                    push_structure(out, &v[i]);
                    i += 1;
                    assert(lines_view(out@) =~= lines_view(old(out)@) + structures_lines(v@.take(i as int)));
                }
                assert(v@.take(i as int) =~= v@);
            }
        },
    }
}

/// The lines that describe a capability set.
pub fn render(caps: &CapsSet) -> (lines: Vec<Line>)
    ensures
        lines_view(lines@) == caps_lines(*caps),
        *caps is Any ==> lines_view(lines@) == seq![sentinel_line("ANY"@)],
        *caps is Empty ==> lines_view(lines@) == seq![sentinel_line("EMPTY"@)],
{
    let mut lines: Vec<Line> = Vec::new();
    assert(lines_view(lines@) =~= Seq::<Seq<Piece>>::empty());
    print_caps(&mut lines, caps);
    assert(lines_view(lines@) =~= caps_lines(*caps));
    lines
}

} // verus!
