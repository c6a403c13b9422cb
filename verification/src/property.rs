//! Properties of an element: their flags, their kinds, and how a value is
//! rendered according to the kind of its property.

use vstd::prelude::*;
use crate::caps::{caps_lines, print_caps, CapsSet};
use crate::text::{
    decimal_i64, decimal_int, decimal_nat, decimal_u64, emit, emit_blank, filled, lines_view,
    pad_right, padded_right, plain, spaces, toned, Line, Piece, Tone,
};

verus! {

/// The flags of a property that a report shows.
#[derive(Clone, Copy, Debug)]
pub struct ParamFlags {
    pub readable: bool,
    pub writable: bool,
    pub deprecated: bool,
    pub controllable: bool,
    pub mutable_playing: bool,
    pub mutable_paused: bool,
    pub mutable_ready: bool,
}

/// A number as a property holds it. A real number is carried as its numeral.
#[derive(Clone, Debug)]
pub enum Number {
    Signed(i64),
    Unsigned(u64),
    Real(String),
}

/// The numeric types a ranged property can have.
#[derive(Clone, Copy, Debug, PartialEq, Eq, Structural)]
pub enum NumericKind {
    Long,
    UnsignedLong,
    UnsignedInteger,
    Integer,
    UnsignedInteger64,
    Integer64,
    Float,
    Double,
}

/// One alternative of an enumeration: its value, short name and long name.
#[derive(Clone, Debug)]
pub struct EnumAlternative {
    pub value: i32,
    pub nick: String,
    pub name: String,
}

/// The declared type of a property, with what the type alone determines.
#[derive(Clone, Debug)]
pub enum PropertyKind {
    Text,
    Boolean,
    Ranged { kind: NumericKind, minimum: Number, maximum: Number },
    Enumeration { alternatives: Vec<EnumAlternative> },
    Flags,
    Caps,
    Other,
}

/// A value of a property, live or default.
#[derive(Clone, Debug)]
pub enum PropertyValue {
    Text(Option<String>),
    Boolean(bool),
    Number(Number),
    Enumeration(i32),
    Flags(u32),
    Caps(Option<CapsSet>),
    Other,
}

/// The description of one property of an element type.
#[derive(Clone, Debug)]
pub struct PropertySpec {
    pub name: String,
    pub blurb: Option<String>,
    pub kind: PropertyKind,
    pub flags: ParamFlags,
    /// The name of the type that declared the property.
    pub owner_type: String,
}

/// A property together with its values. `live` is the value read from the
/// element, where it was read.
#[derive(Clone, Debug)]
pub struct Property {
    pub spec: PropertySpec,
    pub live: Option<PropertyValue>,
    pub default_value: PropertyValue,
}

/// The numeral of a number.
pub open spec fn number_text(n: Number) -> Seq<char> {
    match n {
        Number::Signed(i) => decimal_int(i as int),
        Number::Unsigned(u) => decimal_nat(u as nat),
        Number::Real(s) => s@,
    }
}

/// The title under which a numeric type is shown.
pub open spec fn kind_title(kind: NumericKind) -> Seq<char> {
    match kind {
        NumericKind::Long => "Long"@,
        NumericKind::UnsignedLong => "Unsigned Long"@,
        NumericKind::UnsignedInteger => "Unsigned Integer"@,
        NumericKind::Integer => "Integer"@,
        NumericKind::UnsignedInteger64 => "Unsigned Integer64"@,
        NumericKind::Integer64 => "Integer64"@,
        NumericKind::Float => "Float"@,
        NumericKind::Double => "Double"@,
    }
}

/// `text` between double quotes.
pub open spec fn quoted(text: Seq<char>) -> Seq<char> {
    "\""@ + text + "\""@
}

/// The start of the line of a typed value: the indentation and the type's title.
pub open spec fn typed_head(indent: nat, title: Seq<char>) -> Seq<Piece> {
    seq![plain(filled(' ', indent) + ": "@), toned(Tone::DataType, title), plain(". "@)]
}

/// The label that stands before a value.
pub open spec fn default_label() -> Seq<Piece> {
    seq![toned(Tone::PropAttrName, "Default"@), plain(": "@)]
}

/// A value as the last piece of its line.
pub open spec fn value_piece(text: Seq<char>) -> Seq<Piece> {
    seq![toned(Tone::PropAttrValue, text)]
}

/// The line of a string property.
pub open spec fn text_line(value: PropertyValue, indent: nat) -> Seq<Piece> {
    typed_head(indent, "String"@) + default_label() + match value {
        PropertyValue::Text(Some(s)) => value_piece(quoted(s@)),
        PropertyValue::Text(None) => value_piece("null"@),
        _ => Seq::empty(),
    }
}

/// The line of a boolean property.
pub open spec fn boolean_line(value: PropertyValue, indent: nat) -> Seq<Piece> {
    typed_head(indent, "Boolean"@) + default_label() + match value {
        PropertyValue::Boolean(b) => value_piece(if b { "true"@ } else { "false"@ }),
        _ => Seq::empty(),
    }
}

/// The part of a ranged property's line that shows its bounds.
pub open spec fn range_pieces(minimum: Number, maximum: Number) -> Seq<Piece> {
    seq![
        toned(Tone::PropAttrName, "Range"@),
        plain(": "@),
        toned(Tone::PropAttrValue, number_text(minimum)),
        plain(" - "@),
        toned(Tone::PropAttrValue, number_text(maximum)),
        plain(". "@),
    ]
}

/// The line of a ranged numeric property: the bounds are those of the
/// property, whatever the value.
pub open spec fn ranged_line(
    value: PropertyValue,
    kind: NumericKind,
    minimum: Number,
    maximum: Number,
    indent: nat,
) -> Seq<Piece> {
    typed_head(indent, kind_title(kind)) + range_pieces(minimum, maximum) + default_label() + match value {
        PropertyValue::Number(n) => value_piece(number_text(n)),
        _ => Seq::empty(),
    }
}

/// The first alternative with the given value, if there is one.
pub open spec fn find_alternative(alternatives: Seq<EnumAlternative>, value: i32) -> Option<
    EnumAlternative,
>
    decreases alternatives.len(),
{
    if alternatives.len() == 0 {
        None
    } else if alternatives[0].value == value {
        Some(alternatives[0])
    } else {
        find_alternative(alternatives.drop_first(), value)
    }
}

/// The first line of an enumeration property: the value and its short name.
pub open spec fn selection_line(chosen: EnumAlternative, indent: nat) -> Seq<Piece> {
    typed_head(indent, "Enum"@) + default_label() + value_piece(
        decimal_int(chosen.value as int) + ", "@ + quoted(chosen.nick@),
    )
}

/// The line of the alternative that stands at `index` in its enumeration.
pub open spec fn alternative_line(index: nat, alternative: EnumAlternative) -> Seq<Piece> {
    seq![
        plain(filled(' ', 24)),
        toned(Tone::PropAttrName, "("@ + decimal_nat(index) + ")"@),
        plain(": "@),
        toned(Tone::PropAttrValue, padded_right(alternative.nick@, 16)),
        plain(" - "@),
        plain(alternative.name@),
    ]
}

/// One line for each alternative, in declaration order.
pub open spec fn alternative_lines(alternatives: Seq<EnumAlternative>) -> Seq<Seq<Piece>> {
    Seq::new(alternatives.len(), |i: int| alternative_line(i as nat, alternatives[i]))
}

/// The lines of an enumeration property. A value that is no alternative's
/// leaves one empty line.
pub open spec fn enumeration_lines(
    value: PropertyValue,
    alternatives: Seq<EnumAlternative>,
    indent: nat,
) -> Seq<Seq<Piece>> {
    match value {
        PropertyValue::Enumeration(v) => match find_alternative(alternatives, v) {
            Some(chosen) => seq![selection_line(chosen, indent)] + alternative_lines(alternatives),
            None => seq![Seq::empty()],
        },
        _ => seq![Seq::empty()],
    }
}

/// The lines of a property that holds a capability set.
pub open spec fn caps_value_lines(value: PropertyValue) -> Seq<Seq<Piece>> {
    match value {
        PropertyValue::Caps(Some(caps)) => caps_lines(caps).push(Seq::empty()),
        PropertyValue::Caps(None) => seq![seq![plain("Caps (NULL)"@)], Seq::empty()],
        _ => seq![Seq::empty()],
    }
}

/// The lines that show `value` as the value of a property of kind `kind`.
/// The kind alone decides the form; a value of another kind is left out of it.
pub open spec fn value_lines(value: PropertyValue, kind: PropertyKind, indent: nat) -> Seq<Seq<Piece>> {
    match kind {
        PropertyKind::Text => seq![text_line(value, indent)],
        PropertyKind::Boolean => seq![boolean_line(value, indent)],
        PropertyKind::Ranged { kind: k, minimum, maximum } => seq![
            ranged_line(value, k, minimum, maximum, indent),
        ],
        PropertyKind::Enumeration { alternatives } => enumeration_lines(value, alternatives@, indent),
        PropertyKind::Flags => seq![Seq::empty()],
        PropertyKind::Caps => caps_value_lines(value),
        PropertyKind::Other => seq![Seq::empty()],
    }
}

/// The value that a report shows: the live one where the property is
/// readable and was read, else the default.
pub open spec fn shown_value(property: Property) -> PropertyValue {
    if property.spec.flags.readable && property.live is Some {
        property.live->0
    } else {
        property.default_value
    }
}

/// The label list after one more flag was looked at.
pub open spec fn with_label(shown: Seq<Seq<char>>, set: bool, label: Seq<char>) -> Seq<Seq<char>> {
    if set {
        shown.push(label)
    } else {
        shown
    }
}

/// The labels of the flags that are set, in the order in which a report
/// names them.
pub open spec fn flag_labels(flags: ParamFlags) -> Seq<Seq<char>> {
    let l0 = Seq::<Seq<char>>::empty();
    let l1 = with_label(l0, flags.writable, "writable"@);
    let l2 = with_label(l1, flags.readable, "readable"@);
    let l3 = with_label(l2, flags.deprecated, "deprecated"@);
    let l4 = with_label(l3, flags.controllable, "controllable"@);
    let l5 = with_label(l4, flags.mutable_playing, "changeable in NULL, READY, PAUSED or PLAYING state"@);
    let l6 = with_label(l5, flags.mutable_paused, "changeable only in NULL, READY or PAUSED state"@);
    with_label(l6, flags.mutable_ready, "changeable only in NULL or READY state"@)
}

/// The labels as pieces, separated by a comma and a space.
pub open spec fn joined_labels(labels: Seq<Seq<char>>) -> Seq<Piece>
    decreases labels.len(),
{
    if labels.len() == 0 {
        Seq::empty()
    } else if labels.len() == 1 {
        seq![toned(Tone::PropAttrValue, labels[0])]
    } else {
        joined_labels(labels.drop_last()).push(plain(", "@)).push(
            toned(Tone::PropAttrValue, labels.last()),
        )
    }
}

/// The start of the line that names a property's flags.
pub open spec fn flags_head(indent: nat) -> Seq<Piece> {
    seq![plain(filled(' ', indent)), toned(Tone::PropAttrName, "flags"@), plain(": "@)]
}

/// The line that names a property's flags.
pub open spec fn flags_line(flags: ParamFlags, indent: nat) -> Seq<Piece> {
    flags_head(indent) + joined_labels(flag_labels(flags))
}

fn push_label(
    line: &mut Line,
    first: &mut bool,
    set: bool,
    label: &str,
    Ghost(head): Ghost<Seq<Piece>>,
    Ghost(shown): Ghost<Seq<Seq<char>>>,
)
    requires
        old(line)@ == head + joined_labels(shown),
        *old(first) == (shown.len() == 0),
    ensures
        final(line)@ == head + joined_labels(with_label(shown, set, label@)),
        *final(first) == (with_label(shown, set, label@).len() == 0),
{
    if set {
        let ghost next = shown.push(label@);
        assert(next.drop_last() =~= shown);
        if !*first {
            line.push(Tone::Plain, ", ");
        }
        line.push(Tone::PropAttrValue, label);
        *first = false;
        assert(line@ =~= head + joined_labels(next));
    }
}

/// The line that names the flags of a property that are set.
pub fn print_pspec_flags(flags: &ParamFlags, indent: usize) -> (line: Line)
    ensures
        line@ == flags_line(*flags, indent as nat),
{
    let mut line = Line::new();
    line.push(Tone::Plain, spaces(indent).as_str());
    line.push(Tone::PropAttrName, "flags");
    line.push(Tone::Plain, ": ");
    let ghost head = flags_head(indent as nat);
    let ghost l0 = Seq::<Seq<char>>::empty();
    let ghost l1 = with_label(l0, flags.writable, "writable"@);
    let ghost l2 = with_label(l1, flags.readable, "readable"@);
    let ghost l3 = with_label(l2, flags.deprecated, "deprecated"@);
    let ghost l4 = with_label(l3, flags.controllable, "controllable"@);
    let ghost l5 = with_label(
        l4,
        flags.mutable_playing,
        "changeable in NULL, READY, PAUSED or PLAYING state"@,
    );
    let ghost l6 = with_label(l5, flags.mutable_paused, "changeable only in NULL, READY or PAUSED state"@);
    assert(line@ =~= head + joined_labels(l0));
    let mut first = true;
    push_label(&mut line, &mut first, flags.writable, "writable", Ghost(head), Ghost(l0));
    push_label(&mut line, &mut first, flags.readable, "readable", Ghost(head), Ghost(l1));
    push_label(&mut line, &mut first, flags.deprecated, "deprecated", Ghost(head), Ghost(l2));
    push_label(&mut line, &mut first, flags.controllable, "controllable", Ghost(head), Ghost(l3));
    push_label(
        &mut line,
        &mut first,
        flags.mutable_playing,
        "changeable in NULL, READY, PAUSED or PLAYING state",
        Ghost(head),
        Ghost(l4),
    );
    push_label(
        &mut line,
        &mut first,
        flags.mutable_paused,
        "changeable only in NULL, READY or PAUSED state",
        Ghost(head),
        Ghost(l5),
    );
    push_label(
        &mut line,
        &mut first,
        flags.mutable_ready,
        "changeable only in NULL or READY state",
        Ghost(head),
        Ghost(l6),
    );
    line
}

impl PropertySpec {
    /// The bounds of a ranged property; `None` for every other kind.
    pub fn range(&self) -> (bounds: Option<(Number, Number)>)
        ensures
            match self.kind {
                PropertyKind::Ranged { kind, minimum, maximum } => bounds == Some((minimum, maximum)),
                _ => bounds is None,
            },
    {
        match &self.kind {
            PropertyKind::Ranged { kind, minimum, maximum } => Some(
                (copy_number(minimum), copy_number(maximum)),
            ),
            _ => None,
        }
    }
}

/// A copy of a number.
pub fn copy_number(n: &Number) -> (out: Number)
    ensures
        out == *n,
{
    match n {
        Number::Signed(i) => Number::Signed(*i),
        Number::Unsigned(u) => Number::Unsigned(*u),
        Number::Real(s) => Number::Real(s.clone()),
    }
}

/// The numeral of a number.
pub fn number_string(n: &Number) -> (out: String)
    ensures
        out@ == number_text(*n),
{
    match n {
        Number::Signed(i) => decimal_i64(*i),
        Number::Unsigned(u) => decimal_u64(*u),
        Number::Real(s) => s.clone(),
    }
}

/// The title under which a numeric type is shown.
pub fn title_of(kind: NumericKind) -> (title: &'static str)
    ensures
        title@ == kind_title(kind),
{
    match kind {
        NumericKind::Long => "Long",
        NumericKind::UnsignedLong => "Unsigned Long",
        NumericKind::UnsignedInteger => "Unsigned Integer",
        NumericKind::Integer => "Integer",
        NumericKind::UnsignedInteger64 => "Unsigned Integer64",
        NumericKind::Integer64 => "Integer64",
        NumericKind::Float => "Float",
        NumericKind::Double => "Double",
    }
}

/// `text` between double quotes.
pub fn quote(text: &str) -> (out: String)
    ensures
        out@ == quoted(text@),
{
    let mut out = String::from_str("\"");
    out.append(text);
    out.append("\"");
    out
}

fn typed_line(indent: usize, title: &str) -> (line: Line)
    ensures
        line@ == typed_head(indent as nat, title@),
{
    let mut lead = spaces(indent);
    lead.append(": ");
    let mut line = Line::new();
    line.push(Tone::Plain, lead.as_str());
    line.push(Tone::DataType, title);
    line.push(Tone::Plain, ". ");
    assert(line@ =~= typed_head(indent as nat, title@));
    line
}

fn push_default_label(line: &mut Line)
    ensures
        final(line)@ == old(line)@ + default_label(),
{
    line.push(Tone::PropAttrName, "Default");
    line.push(Tone::Plain, ": ");
    assert(line@ =~= old(line)@ + default_label());
}

fn push_value_piece(line: &mut Line, text: &str)
    ensures
        final(line)@ == old(line)@ + value_piece(text@),
{
    line.push(Tone::PropAttrValue, text);
    assert(line@ =~= old(line)@ + value_piece(text@));
}

fn text_value_line(value: &PropertyValue, indent: usize) -> (line: Line)
    ensures
        line@ == text_line(*value, indent as nat),
{
    let mut line = typed_line(indent, "String");
    push_default_label(&mut line);
    match value {
        PropertyValue::Text(Some(s)) => {
            push_value_piece(&mut line, quote(s.as_str()).as_str());
        },
        PropertyValue::Text(None) => {
            push_value_piece(&mut line, "null");
        },
        _ => {
            assert(line@ =~= text_line(*value, indent as nat));
        },
    }
    line
}

fn boolean_value_line(value: &PropertyValue, indent: usize) -> (line: Line)
    ensures
        line@ == boolean_line(*value, indent as nat),
{
    let mut line = typed_line(indent, "Boolean");
    push_default_label(&mut line);
    match value {
        PropertyValue::Boolean(b) => {
            push_value_piece(&mut line, if *b { "true" } else { "false" });
        },
        _ => {
            assert(line@ =~= boolean_line(*value, indent as nat));
        },
    }
    line
}

fn ranged_value_line(
    value: &PropertyValue,
    kind: NumericKind,
    minimum: &Number,
    maximum: &Number,
    indent: usize,
) -> (line: Line)
    ensures
        line@ == ranged_line(*value, kind, *minimum, *maximum, indent as nat),
{
    let mut line = typed_line(indent, title_of(kind));
    let ghost head = line@;
    line.push(Tone::PropAttrName, "Range");
    line.push(Tone::Plain, ": ");
    line.push(Tone::PropAttrValue, number_string(minimum).as_str());
    line.push(Tone::Plain, " - ");
    line.push(Tone::PropAttrValue, number_string(maximum).as_str());
    line.push(Tone::Plain, ". ");
    assert(line@ =~= head + range_pieces(*minimum, *maximum));
    push_default_label(&mut line);
    match value {
        PropertyValue::Number(n) => {
            push_value_piece(&mut line, number_string(n).as_str());
        },
        _ => {
            assert(line@ =~= ranged_line(*value, kind, *minimum, *maximum, indent as nat));
        },
    }
    line
}

/// The position of the first alternative with the given value.
pub fn position_of(alternatives: &Vec<EnumAlternative>, value: i32) -> (found: Option<usize>)
    ensures
        match found {
            Some(i) => i < alternatives.len() && find_alternative(alternatives@, value) == Some(
                alternatives@[i as int],
            ),
            None => find_alternative(alternatives@, value) is None,
        },
{
    let mut i: usize = 0;
    assert(alternatives@.skip(0) =~= alternatives@);
    while i < alternatives.len()
        invariant
            i <= alternatives.len(),
            find_alternative(alternatives@, value) == find_alternative(alternatives@.skip(i as int), value),
        decreases alternatives.len() - i,
    {
        if alternatives[i].value == value {
            return Some(i);
        }
        assert(alternatives@.skip(i as int).drop_first() =~= alternatives@.skip(i + 1));
        i += 1;
    }
    None
}

fn alternative_value_line(index: usize, alternative: &EnumAlternative) -> (line: Line)
    ensures
        line@ == alternative_line(index as nat, *alternative),
{
    let mut label = String::from_str("(");
    label.append(decimal_u64(index as u64).as_str());
    label.append(")");
    let mut line = Line::new();
    line.push(Tone::Plain, spaces(24).as_str());
    line.push(Tone::PropAttrName, label.as_str());
    line.push(Tone::Plain, ": ");
    line.push(Tone::PropAttrValue, pad_right(alternative.nick.as_str(), 16).as_str());
    line.push(Tone::Plain, " - ");
    line.push(Tone::Plain, alternative.name.as_str());
    assert(line@ =~= alternative_line(index as nat, *alternative));
    line
}

fn print_enumeration(
    out: &mut Vec<Line>,
    value: &PropertyValue,
    alternatives: &Vec<EnumAlternative>,
    indent: usize,
)
    ensures
        lines_view(final(out)@) == lines_view(old(out)@) + enumeration_lines(
            *value,
            alternatives@,
            indent as nat,
        ),
{
    let found = match value {
        PropertyValue::Enumeration(v) => position_of(alternatives, *v),
        _ => None,
    };
    match found {
        Some(at) => {
            let chosen = &alternatives[at];
            let mut shown = decimal_i64(chosen.value as i64);
            shown.append(", ");
            shown.append(quote(chosen.nick.as_str()).as_str());
            let mut line = typed_line(indent, "Enum");
            push_default_label(&mut line);
            push_value_piece(&mut line, shown.as_str());
            emit(out, line);
            let ghost base = lines_view(old(out)@).push(selection_line(*chosen, indent as nat));
            let mut i: usize = 0;
            assert(lines_view(out@) =~= base + alternative_lines(alternatives@.take(0)));
            while i < alternatives.len()
                invariant
                    i <= alternatives.len(),
                    lines_view(out@) == base + alternative_lines(alternatives@.take(i as int)),
                decreases alternatives.len() - i,
            {
                emit(out, alternative_value_line(i, &alternatives[i]));
                i += 1;
                assert(lines_view(out@) =~= base + alternative_lines(alternatives@.take(i as int)));
            }
            assert(alternatives@.take(i as int) =~= alternatives@);
            assert(lines_view(out@) =~= lines_view(old(out)@) + enumeration_lines(
                *value,
                alternatives@,
                indent as nat,
            ));
        },
        None => {
            emit_blank(out);
            assert(lines_view(out@) =~= lines_view(old(out)@) + enumeration_lines(
                *value,
                alternatives@,
                indent as nat,
            ));
        },
    }
}

fn print_caps_value(out: &mut Vec<Line>, value: &PropertyValue)
    ensures
        lines_view(final(out)@) == lines_view(old(out)@) + caps_value_lines(*value),
{
    match value {
        PropertyValue::Caps(Some(caps)) => {
            print_caps(out, caps);
            emit_blank(out);
        },
        PropertyValue::Caps(None) => {
            let mut line = Line::new();
            line.push(Tone::Plain, "Caps (NULL)");
            emit(out, line);
            emit_blank(out);
        },
        _ => {
            emit_blank(out);
        },
    }
    assert(lines_view(out@) =~= lines_view(old(out)@) + caps_value_lines(*value));
}

/// Appends to `out` the lines that show `value` as the value of a property
/// of kind `kind`.
pub fn print_value(out: &mut Vec<Line>, value: &PropertyValue, kind: &PropertyKind, indent: usize)
    ensures
        lines_view(final(out)@) == lines_view(old(out)@) + value_lines(*value, *kind, indent as nat),
{
    match kind {
        PropertyKind::Text => {
            emit(out, text_value_line(value, indent));
        },
        PropertyKind::Boolean => {
            emit(out, boolean_value_line(value, indent));
        },
        PropertyKind::Ranged { kind: k, minimum, maximum } => {
            emit(out, ranged_value_line(value, *k, minimum, maximum, indent));
        },
        PropertyKind::Enumeration { alternatives } => {
            print_enumeration(out, value, alternatives, indent);
        },
        PropertyKind::Flags => {
            emit_blank(out);
        },
        PropertyKind::Caps => {
            print_caps_value(out, value);
        },
        PropertyKind::Other => {
            emit_blank(out);
        },
    }
    assert(lines_view(out@) =~= lines_view(old(out)@) + value_lines(*value, *kind, indent as nat));
}

/// The lines that show `value` as the value of the property `spec` describes.
pub fn format_value(value: &PropertyValue, spec: &PropertySpec, indent: usize) -> (lines: Vec<Line>)
    ensures
        lines_view(lines@) == value_lines(*value, spec.kind, indent as nat),
{
    let mut lines: Vec<Line> = Vec::new();
    assert(lines_view(lines@) =~= Seq::<Seq<Piece>>::empty());
    print_value(&mut lines, value, &spec.kind, indent);
    assert(lines_view(lines@) =~= value_lines(*value, spec.kind, indent as nat));
    lines
}

/// The value that a report shows: the live one where the property is
/// readable and was read, else the default.
pub fn select_value(property: &Property) -> (value: &PropertyValue)
    ensures
        *value == shown_value(*property),
        !property.spec.flags.readable ==> *value == property.default_value,
{
    if property.spec.flags.readable {
        match &property.live {
            Some(v) => v,
            None => &property.default_value,
        }
    } else {
        &property.default_value
    }
}

/// Appends to `out` the lines of a property's value: the value is chosen
/// first, then rendered by the property's kind.
pub fn print_default_property_value(out: &mut Vec<Line>, property: &Property, indent: usize)
    ensures
        lines_view(final(out)@) == lines_view(old(out)@) + value_lines(
            shown_value(*property),
            property.spec.kind,
            indent as nat,
        ),
{
    let value = select_value(property);
    print_value(out, value, &property.spec.kind, indent);
}

} // verus!
