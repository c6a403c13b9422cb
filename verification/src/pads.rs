//! Pad templates, live pads, clocking and URI handling of an element.

use vstd::prelude::*;
use crate::caps::{caps_lines, print_caps, CapsSet};
use crate::details::{heading, heading_line, print_property, property_line};
use crate::order::{sorted_indices, sorted_order, texts};
use crate::text::{emit, emit_blank, lines_view, plain, toned, Line, Piece, Tone};

verus! {

/// The direction of a pad.
#[derive(Clone, Copy, Debug, PartialEq, Eq, Structural)]
pub enum PadDirection {
    Src,
    Sink,
    Unknown,
}

/// When a pad of a template exists.
#[derive(Clone, Copy, Debug, PartialEq, Eq, Structural)]
pub enum PadPresence {
    Always,
    Sometimes,
    Request,
}

/// A declared pad of an element type.
#[derive(Clone, Debug)]
pub struct PadTemplate {
    pub name_template: String,
    pub direction: PadDirection,
    pub presence: PadPresence,
    pub caps: CapsSet,
}

/// A pad of an element instance.
#[derive(Clone, Debug)]
pub struct Pad {
    pub direction: PadDirection,
    pub name: String,
    /// The name of the template the pad was made from, where it has one.
    pub template: Option<String>,
    /// The capabilities the pad has negotiated, where it has.
    pub caps: Option<CapsSet>,
}

/// How an element deals with clocks.
#[derive(Clone, Debug)]
pub struct Clocking {
    pub requires_clock: bool,
    pub provides_clock: bool,
    /// The name of the clock the element handed out, where it did.
    pub clock_name: Option<String>,
}

/// The side on which an element handles URIs.
#[derive(Clone, Copy, Debug, PartialEq, Eq, Structural)]
pub enum UriKind {
    Src,
    Sink,
    Unknown,
}

/// The URI handling of an element.
#[derive(Clone, Debug)]
pub struct UriHandler {
    pub kind: UriKind,
    pub protocols: Vec<String>,
}

/// `text` between single quotes.
pub open spec fn single_quoted(text: Seq<char>) -> Seq<char> {
    "'"@ + text + "'"@
}

/// The word for the direction of a pad template.
pub open spec fn template_direction(direction: PadDirection) -> Seq<char> {
    match direction {
        PadDirection::Src => "SOURCE template"@,
        PadDirection::Sink => "SINK template"@,
        PadDirection::Unknown => "UNKNOWN template"@,
    }
}

/// The word for the direction of a live pad.
pub open spec fn pad_direction(direction: PadDirection) -> Seq<char> {
    match direction {
        PadDirection::Src => "SRC"@,
        PadDirection::Sink => "SINK"@,
        PadDirection::Unknown => "UNKNOWN"@,
    }
}

/// The word for the presence of a pad template.
pub open spec fn availability(presence: PadPresence) -> Seq<char> {
    match presence {
        PadPresence::Always => "Always"@,
        PadPresence::Sometimes => "Sometimes"@,
        PadPresence::Request => "On request"@,
    }
}

/// The line that stands before a capability set.
pub open spec fn capabilities_line() -> Seq<Piece> {
    property_line("Capabilities"@, ""@, 0, 4, true)
}

/// The lines of one pad template, closed by an empty line.
pub open spec fn template_lines(template: PadTemplate) -> Seq<Seq<Piece>> {
    seq![
        property_line(
            template_direction(template.direction),
            single_quoted(template.name_template@),
            0,
            2,
            true,
        ),
        property_line("Availability"@, availability(template.presence), 0, 4, true),
        capabilities_line(),
    ] + caps_lines(template.caps) + seq![Seq::empty()]
}

/// The name patterns of a list of templates.
pub open spec fn template_names(templates: Seq<PadTemplate>) -> Seq<Seq<char>> {
    Seq::new(templates.len(), |i: int| templates[i].name_template@)
}

/// The lines of the templates at the places `order` names, in that order.
pub open spec fn templates_in_order(templates: Seq<PadTemplate>, order: Seq<usize>) -> Seq<Seq<Piece>>
    decreases order.len(),
{
    if order.len() == 0 {
        Seq::empty()
    } else {
        templates_in_order(templates, order.drop_last()) + template_lines(templates[order.last() as int])
    }
}

/// The title of the pad templates.
pub open spec fn templates_title() -> Seq<Piece> {
    seq![toned(Tone::Heading, "Pad Templates"@), plain(":"@)]
}

/// The lines that describe the pad templates of a factory, sorted by name
/// pattern.
pub open spec fn pad_template_lines(templates: Seq<PadTemplate>) -> Seq<Seq<Piece>> {
    if templates.len() == 0 {
        seq![templates_title(), seq![plain(" none"@)]]
    } else {
        seq![templates_title()] + templates_in_order(templates, sorted_order(template_names(templates)))
    }
}

/// The line that says which clock an element provides, or that it failed to.
pub open spec fn provided_clock(clock_name: Option<String>) -> Seq<Piece> {
    match clock_name {
        Some(name) => seq![
            toned(Tone::PropValue, "element provides a clock"@),
            plain(": "@),
            toned(Tone::DataType, name@),
        ],
        None => seq![
            toned(Tone::PropValue, "element is supposed to provide a clock but returned NULL"@),
        ],
    }
}

/// The lines that describe how an element deals with clocks. Of the lines
/// below the title only the first is indented.
pub open spec fn clocking_lines(clocking: Clocking) -> Seq<Seq<Piece>> {
    let title = seq![Seq::<Piece>::empty(), property_line("Clocking interaction"@, ""@, 0, 0, true)];
    let lead = seq![plain("  "@)];
    if clocking.requires_clock && clocking.provides_clock {
        title + seq![
            lead + seq![plain("element requires a clock"@)],
            provided_clock(clocking.clock_name),
        ]
    } else if clocking.requires_clock {
        title + seq![lead + seq![plain("element requires a clock"@)]]
    } else if clocking.provides_clock {
        title + seq![lead + provided_clock(clocking.clock_name)]
    } else {
        seq![seq![plain("Element has no clocking capabilities."@)]]
    }
}

/// The sentence that says on which side an element handles URIs.
pub open spec fn uri_role(kind: UriKind) -> Seq<char> {
    match kind {
        UriKind::Src => "Element can act as source."@,
        UriKind::Sink => "Element can act as sink."@,
        UriKind::Unknown => "Element can act as unknown."@,
    }
}

/// The line of one supported URI protocol.
pub open spec fn protocol_line(protocol: Seq<char>) -> Seq<Piece> {
    seq![plain("    "@), toned(Tone::PropAttrValue, protocol)]
}

/// One line for each protocol, in the order given.
pub open spec fn protocol_rows(protocols: Seq<String>) -> Seq<Seq<Piece>> {
    Seq::new(protocols.len(), |i: int| protocol_line(protocols[i]@))
}

/// The lines that describe the URI handling of an element.
pub open spec fn uri_lines(handler: Option<UriHandler>) -> Seq<Seq<Piece>> {
    match handler {
        Some(h) => seq![
            Seq::<Piece>::empty(),
            heading_line("URI handling capabilities:"@),
            seq![plain("  "@), plain(uri_role(h.kind))],
            if h.protocols@.len() == 0 {
                seq![plain("  "@), toned(Tone::PropValue, "No supported URI protocols"@)]
            } else {
                seq![plain("  "@), plain("Supported URI protocols:"@)]
            },
        ] + protocol_rows(h.protocols@),
        None => seq![seq![plain("Element has no URI handling capabilities."@)]],
    }
}

/// The line of a pad's template, where it has one.
pub open spec fn pad_template_row(template: Option<String>) -> Seq<Seq<Piece>> {
    match template {
        Some(t) => seq![property_line("Pad Template"@, single_quoted(t@), 0, 4, true)],
        None => Seq::empty(),
    }
}

/// The lines of a pad's negotiated capabilities, where it has any.
pub open spec fn pad_caps_rows(caps: Option<CapsSet>) -> Seq<Seq<Piece>> {
    match caps {
        Some(c) => seq![capabilities_line()] + caps_lines(c),
        None => Seq::empty(),
    }
}

/// The lines of one live pad.
pub open spec fn pad_lines(pad: Pad) -> Seq<Seq<Piece>> {
    seq![property_line(pad_direction(pad.direction), single_quoted(pad.name@), 0, 2, true)]
        + pad_template_row(pad.template) + pad_caps_rows(pad.caps)
}

/// The lines of a list of pads, in the list's order.
pub open spec fn pads_lines(pads: Seq<Pad>) -> Seq<Seq<Piece>>
    decreases pads.len(),
{
    if pads.len() == 0 {
        Seq::empty()
    } else {
        pads_lines(pads.drop_last()) + pad_lines(pads.last())
    }
}

/// The lines that describe the live pads of an element.
pub open spec fn pad_info_lines(pads: Seq<Pad>) -> Seq<Seq<Piece>> {
    let title = seq![Seq::<Piece>::empty(), heading_line("Pads:"@)];
    if pads.len() == 0 {
        title + seq![seq![plain("  "@), plain("none"@)]]
    } else {
        title + pads_lines(pads)
    }
}

/// `text` between single quotes.
pub fn single_quote(text: &str) -> (out: String)
    ensures
        out@ == single_quoted(text@),
{
    let mut out = String::from_str("'");
    out.append(text);
    out.append("'");
    out
}

fn two_pieces(first_tone: Tone, first: &str, second_tone: Tone, second: &str) -> (line: Line)
    ensures
        line@ == seq![toned(first_tone, first@), toned(second_tone, second@)],
{
    let mut line = Line::new();
    line.push(first_tone, first);
    line.push(second_tone, second);
    assert(line@ =~= seq![toned(first_tone, first@), toned(second_tone, second@)]);
    line
}

fn one_piece(tone: Tone, text: &str) -> (line: Line)
    ensures
        line@ == seq![toned(tone, text@)],
{
    let mut line = Line::new();
    line.push(tone, text);
    line
}

fn print_template(out: &mut Vec<Line>, template: &PadTemplate)
    ensures
        lines_view(final(out)@) == lines_view(old(out)@) + template_lines(*template),
{
    let direction = match template.direction {
        PadDirection::Src => "SOURCE template",
        PadDirection::Sink => "SINK template",
        PadDirection::Unknown => "UNKNOWN template",
    };
    let presence = match template.presence {
        PadPresence::Always => "Always",
        PadPresence::Sometimes => "Sometimes",
        PadPresence::Request => "On request",
    };
    emit(
        out,
        print_property(direction, single_quote(template.name_template.as_str()).as_str(), 0, 2, true),
    );
    emit(out, print_property("Availability", presence, 0, 4, true));
    emit(out, print_property("Capabilities", "", 0, 4, true));
    print_caps(out, &template.caps);
    emit_blank(out);
    assert(lines_view(out@) =~= lines_view(old(out)@) + template_lines(*template));
}

/// Appends to `out` the pad templates of a factory, sorted by name pattern,
/// each with its capabilities.
pub fn print_pad_templates_info(out: &mut Vec<Line>, templates: &Vec<PadTemplate>)
    ensures
        lines_view(final(out)@) == lines_view(old(out)@) + pad_template_lines(templates@),
{
    emit(out, two_pieces(Tone::Heading, "Pad Templates", Tone::Plain, ":"));
    if templates.len() == 0 {
        emit(out, one_piece(Tone::Plain, " none"));
        assert(lines_view(out@) =~= lines_view(old(out)@) + pad_template_lines(templates@));
        return ;
    }
    let mut names: Vec<String> = Vec::new();
    let mut n: usize = 0;
    while n < templates.len()
        invariant
            n <= templates.len(),
            names@.len() == n,
            forall|k: int| 0 <= k < n ==> (#[trigger] names@[k])@ == templates@[k].name_template@,
        decreases templates.len() - n,
    {
        names.push(templates[n].name_template.clone());
        n += 1;
    }
    assert(texts(names@) =~= template_names(templates@));
    let order = sorted_indices(&names);
    let ghost base = lines_view(old(out)@).push(templates_title());
    let mut i: usize = 0;
    assert(order@.take(0) =~= Seq::<usize>::empty());
    assert(lines_view(out@) =~= base + templates_in_order(templates@, order@.take(0)));
    while i < order.len()
        invariant
            i <= order.len(),
            order@.len() == templates@.len(),
            forall|p: int| 0 <= p < order@.len() ==> (#[trigger] order@[p]) < templates@.len(),
            lines_view(out@) == base + templates_in_order(templates@, order@.take(i as int)),
        decreases order.len() - i,
    {
        proof {
            assert(order@.take(i + 1).drop_last() =~= order@.take(i as int));
            assert(order@.take(i + 1).last() == order@[i as int]);
        }
        print_template(out, &templates[order[i]]);
        i += 1;
        assert(lines_view(out@) =~= base + templates_in_order(templates@, order@.take(i as int)));
    }
    assert(order@.take(i as int) =~= order@);
    assert(lines_view(out@) =~= lines_view(old(out)@) + pad_template_lines(templates@));
}

fn provided_clock_line(line: &mut Line, clock_name: &Option<String>)
    ensures
        final(line)@ == old(line)@ + provided_clock(*clock_name),
{
    match clock_name {
        Some(name) => {
            line.push(Tone::PropValue, "element provides a clock");
            line.push(Tone::Plain, ": ");
            line.push(Tone::DataType, name.as_str());
        },
        None => {
            line.push(Tone::PropValue, "element is supposed to provide a clock but returned NULL");
        },
    }
    assert(line@ =~= old(line)@ + provided_clock(*clock_name));
}

/// Appends to `out` how an element deals with clocks.
pub fn print_clocking_info(out: &mut Vec<Line>, clocking: &Clocking)
    ensures
        lines_view(final(out)@) == lines_view(old(out)@) + clocking_lines(*clocking),
{
    if clocking.requires_clock || clocking.provides_clock {
        emit_blank(out);
        emit(out, print_property("Clocking interaction", "", 0, 0, true));
        let mut line = Line::new();
        line.push(Tone::Plain, "  ");
        if clocking.requires_clock {
            line.push(Tone::Plain, "element requires a clock");
            assert(line@ =~= seq![plain("  "@)] + seq![plain("element requires a clock"@)]);
            emit(out, line);
            line = Line::new();
        } else {
            assert(line@ =~= seq![plain("  "@)]);
        }
        if clocking.provides_clock {
            provided_clock_line(&mut line, &clocking.clock_name);
            assert(clocking.requires_clock ==> line@ =~= provided_clock(clocking.clock_name));
            emit(out, line);
        }
    } else {
        emit(out, one_piece(Tone::Plain, "Element has no clocking capabilities."));
    }
    assert(lines_view(out@) =~= lines_view(old(out)@) + clocking_lines(*clocking));
}

/// Appends to `out` the URI handling of an element.
pub fn print_uri_handler_info(out: &mut Vec<Line>, handler: &Option<UriHandler>)
    ensures
        lines_view(final(out)@) == lines_view(old(out)@) + uri_lines(*handler),
{
    match handler {
        Some(h) => {
            let role = match h.kind {
                UriKind::Src => "Element can act as source.",
                UriKind::Sink => "Element can act as sink.",
                UriKind::Unknown => "Element can act as unknown.",
            };
            emit_blank(out);
            emit(out, heading("URI handling capabilities:"));
            emit(out, two_pieces(Tone::Plain, "  ", Tone::Plain, role));
            if h.protocols.len() == 0 {
                emit(out, two_pieces(Tone::Plain, "  ", Tone::PropValue, "No supported URI protocols"));
            } else {
                emit(out, two_pieces(Tone::Plain, "  ", Tone::Plain, "Supported URI protocols:"));
            }
            let ghost base = lines_view(out@);
            let mut i: usize = 0;
            assert(lines_view(out@) =~= base + protocol_rows(h.protocols@.take(0)));
            while i < h.protocols.len()
                invariant
                    i <= h.protocols.len(),
                    lines_view(out@) == base + protocol_rows(h.protocols@.take(i as int)),
                decreases h.protocols.len() - i,
            {
                emit(out, two_pieces(Tone::Plain, "    ", Tone::PropAttrValue, h.protocols[i].as_str()));
                i += 1;
                assert(lines_view(out@) =~= base + protocol_rows(h.protocols@.take(i as int)));
            }
            assert(h.protocols@.take(i as int) =~= h.protocols@);
            assert(lines_view(out@) =~= lines_view(old(out)@) + uri_lines(*handler));
        },
        None => {
            emit(out, one_piece(Tone::Plain, "Element has no URI handling capabilities."));
            assert(lines_view(out@) =~= lines_view(old(out)@) + uri_lines(*handler));
        },
    }
}

fn print_pad(out: &mut Vec<Line>, pad: &Pad)
    ensures
        lines_view(final(out)@) == lines_view(old(out)@) + pad_lines(*pad),
{
    let direction = match pad.direction {
        PadDirection::Src => "SRC",
        PadDirection::Sink => "SINK",
        PadDirection::Unknown => "UNKNOWN",
    };
    emit(out, print_property(direction, single_quote(pad.name.as_str()).as_str(), 0, 2, true));
    match &pad.template {
        Some(t) => {
            emit(out, print_property("Pad Template", single_quote(t.as_str()).as_str(), 0, 4, true));
        },
        None => {},
    }
    match &pad.caps {
        Some(c) => {
            emit(out, print_property("Capabilities", "", 0, 4, true));
            print_caps(out, c);
        },
        None => {},
    }
    assert(lines_view(out@) =~= lines_view(old(out)@) + pad_lines(*pad));
}

/// Appends to `out` the live pads of an element, in the order in which the
/// element holds them.
pub fn print_pad_info(out: &mut Vec<Line>, pads: &Vec<Pad>)
    ensures
        lines_view(final(out)@) == lines_view(old(out)@) + pad_info_lines(pads@),
{
    emit_blank(out);
    emit(out, heading("Pads:"));
    if pads.len() == 0 {
        emit(out, two_pieces(Tone::Plain, "  ", Tone::Plain, "none"));
        assert(lines_view(out@) =~= lines_view(old(out)@) + pad_info_lines(pads@));
        return ;
    }
    let ghost base = lines_view(out@);
    let mut i: usize = 0;
    assert(lines_view(out@) =~= base + pads_lines(pads@.take(0)));
    while i < pads.len()
        invariant
            i <= pads.len(),
            lines_view(out@) == base + pads_lines(pads@.take(i as int)),
        decreases pads.len() - i,
    {
        proof {
            assert(pads@.take(i + 1).drop_last() =~= pads@.take(i as int));
        }
        print_pad(out, &pads[i]);
        i += 1;
        assert(lines_view(out@) =~= base + pads_lines(pads@.take(i as int)));
    }
    assert(pads@.take(i as int) =~= pads@);
    assert(lines_view(out@) =~= lines_view(old(out)@) + pad_info_lines(pads@));
}

} // verus!
