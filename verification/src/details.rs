//! Name-and-value lines, and the details of a factory and of its plugin.

use vstd::prelude::*;
use crate::text::{
    decimal_nat, decimal_u64, emit, emit_blank, filled, lines_view, pad_right, padded_right, plain,
    spaces, toned, Line, Piece, Tone,
};

verus! {

/// The rank of a factory.
#[derive(Clone, Copy, Debug, PartialEq, Eq, Structural)]
pub enum Rank {
    NoRank,
    Marginal,
    Secondary,
    Primary,
    /// A rank that is none of the named ones, with its number.
    Other(i32),
}

/// What a report says of a factory.
#[derive(Clone, Debug)]
pub struct FactoryDetails {
    pub rank: Rank,
    pub long_name: String,
    pub klass: String,
    pub description: String,
    pub author: String,
}

/// What a report says of the plugin that owns a factory.
#[derive(Clone, Debug)]
pub struct PluginDetails {
    pub name: String,
    pub description: String,
    pub filename: Option<String>,
    pub version: String,
    pub license: String,
    pub source: String,
    pub release_date: Option<String>,
    pub package: String,
    pub origin: String,
}

/// The name under which a rank is shown.
pub open spec fn rank_name(rank: Rank) -> Seq<char> {
    match rank {
        Rank::NoRank => "none"@,
        Rank::Marginal => "marginal"@,
        Rank::Secondary => "secondary"@,
        Rank::Primary => "primary"@,
        Rank::Other(_) => "none"@,
    }
}

/// The number under which a rank is shown.
pub open spec fn rank_number(rank: Rank) -> nat {
    match rank {
        Rank::NoRank => 0,
        Rank::Marginal => 64,
        Rank::Secondary => 128,
        Rank::Primary => 256,
        Rank::Other(_) => 0,
    }
}

/// A rank as its line shows it: the name, then the number in parentheses.
pub open spec fn rank_text(rank: Rank) -> Seq<char> {
    rank_name(rank) + " ("@ + decimal_nat(rank_number(rank)) + ")"@
}

/// A line that shows a name and a value: the name is indented and padded to
/// `width`, and a colon follows it where `colon` is set.
pub open spec fn property_line(
    name: Seq<char>,
    value: Seq<char>,
    width: nat,
    indent: nat,
    colon: bool,
) -> Seq<Piece> {
    seq![
        plain(filled(' ', indent)),
        toned(Tone::PropName, padded_right(name, width)),
        plain(if colon { ": "@ } else { ""@ }),
        plain(value),
    ]
}

/// The line of one detail of a factory or plugin.
pub open spec fn detail_line(name: Seq<char>, value: Seq<char>) -> Seq<Piece> {
    property_line(name, value, 25, 2, false)
}

/// A line that holds a heading alone.
pub open spec fn heading_line(title: Seq<char>) -> Seq<Piece> {
    seq![toned(Tone::Heading, title)]
}

/// The lines that describe a factory.
pub open spec fn factory_lines(factory: FactoryDetails) -> Seq<Seq<Piece>> {
    seq![
        heading_line("Factory details:"@),
        detail_line("Rank"@, rank_text(factory.rank)),
        detail_line("Long name"@, factory.long_name@),
        detail_line("Klass"@, factory.klass@),
        detail_line("Description"@, factory.description@),
        detail_line("Author"@, factory.author@),
        Seq::empty(),
    ]
}

/// The text shown for a value that may be absent.
pub open spec fn or_null(text: Option<String>) -> Seq<char> {
    match text {
        Some(t) => t@,
        None => "(null)"@,
    }
}

/// The line of the release date, where the plugin has one.
pub open spec fn release_lines(date: Option<String>) -> Seq<Seq<Piece>> {
    match date {
        Some(d) => seq![detail_line("Source release date"@, d@)],
        None => Seq::empty(),
    }
}

/// The lines that describe a plugin.
pub open spec fn plugin_lines(plugin: PluginDetails) -> Seq<Seq<Piece>> {
    seq![
        heading_line("Plugin details:"@),
        detail_line("Name"@, plugin.name@),
        detail_line("Description"@, plugin.description@),
        detail_line("Filename"@, or_null(plugin.filename)),
        detail_line("Version"@, plugin.version@),
        detail_line("License"@, plugin.license@),
        detail_line("Source module"@, plugin.source@),
    ] + release_lines(plugin.release_date) + seq![
        detail_line("Binary package"@, plugin.package@),
        detail_line("Origin URL"@, plugin.origin@),
        Seq::empty(),
    ]
}

/// The name and the number under which a rank is shown. A rank that is none
/// of the named ones is shown as the lowest.
pub fn get_rank_name(rank: Rank) -> (shown: (&'static str, u32))
    ensures
        shown.0@ == rank_name(rank),
        shown.1 == rank_number(rank),
{
    match rank {
        Rank::NoRank => ("none", 0),
        Rank::Marginal => ("marginal", 64),
        Rank::Secondary => ("secondary", 128),
        Rank::Primary => ("primary", 256),
        Rank::Other(_) => ("none", 0),
    }
}

/// A line that shows a name and a value.
pub fn print_property(name: &str, value: &str, width: usize, indent: usize, colon: bool) -> (line: Line)
    ensures
        line@ == property_line(name@, value@, width as nat, indent as nat, colon),
{
    let mut line = Line::new();
    line.push(Tone::Plain, spaces(indent).as_str());
    line.push(Tone::PropName, pad_right(name, width).as_str());
    line.push(Tone::Plain, if colon { ": " } else { "" });
    line.push(Tone::Plain, value);
    assert(line@ =~= property_line(name@, value@, width as nat, indent as nat, colon));
    line
}

/// The line of one detail of a factory or plugin.
pub fn print_property_details(name: &str, value: &str) -> (line: Line)
    ensures
        line@ == detail_line(name@, value@),
{
    print_property(name, value, 25, 2, false)
}

/// A line that holds a heading alone.
pub fn heading(title: &str) -> (line: Line)
    ensures
        line@ == heading_line(title@),
{
    let mut line = Line::new();
    line.push(Tone::Heading, title);
    line
}

/// Appends the lines that describe a factory to `out`.
pub fn print_factory_details_info(out: &mut Vec<Line>, factory: &FactoryDetails)
    ensures
        lines_view(final(out)@) == lines_view(old(out)@) + factory_lines(*factory),
{
    let (name, number) = get_rank_name(factory.rank);
    let mut rank = String::from_str(name);
    rank.append(" (");
    rank.append(decimal_u64(number as u64).as_str());
    rank.append(")");
    emit(out, heading("Factory details:"));
    emit(out, print_property_details("Rank", rank.as_str()));
    emit(out, print_property_details("Long name", factory.long_name.as_str()));
    emit(out, print_property_details("Klass", factory.klass.as_str()));
    emit(out, print_property_details("Description", factory.description.as_str()));
    emit(out, print_property_details("Author", factory.author.as_str()));
    emit_blank(out);
    assert(lines_view(out@) =~= lines_view(old(out)@) + factory_lines(*factory));
}

/// Appends the lines that describe a plugin to `out`.
pub fn print_plugin_info(out: &mut Vec<Line>, plugin: &PluginDetails)
    ensures
        lines_view(final(out)@) == lines_view(old(out)@) + plugin_lines(*plugin),
{
    emit(out, heading("Plugin details:"));
    emit(out, print_property_details("Name", plugin.name.as_str()));
    emit(out, print_property_details("Description", plugin.description.as_str()));
    match &plugin.filename {
        Some(f) => emit(out, print_property_details("Filename", f.as_str())),
        None => emit(out, print_property_details("Filename", "(null)")),
    }
    emit(out, print_property_details("Version", plugin.version.as_str()));
    emit(out, print_property_details("License", plugin.license.as_str()));
    emit(out, print_property_details("Source module", plugin.source.as_str()));
    match &plugin.release_date {
        Some(d) => emit(out, print_property_details("Source release date", d.as_str())),
        None => {},
    }
    emit(out, print_property_details("Binary package", plugin.package.as_str()));
    emit(out, print_property_details("Origin URL", plugin.origin.as_str()));
    emit_blank(out);
    assert(lines_view(out@) =~= lines_view(old(out)@) + plugin_lines(*plugin));
}

} // verus!
