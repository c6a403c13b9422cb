//! The two reports: the list of all elements, and the full description of
//! one element.

use vstd::prelude::*;
use crate::details::{
    factory_lines, plugin_lines, print_factory_details_info, print_plugin_info, print_property,
    property_line, FactoryDetails, PluginDetails,
};
use crate::hierarchy::{
    hierarchy_lines, interface_lines, print_hierarchy, print_interfaces, TypeTable,
};
use crate::order::{
    is_sorted_order, lemma_lex_total, lemma_sorted_order_unique, name_less, sorted_indices,
    sorted_order, texts,
};
use crate::pads::{
    clocking_lines, pad_info_lines, pad_template_lines, print_clocking_info, print_pad_info,
    print_pad_templates_info, print_uri_handler_info, uri_lines, Clocking, Pad, PadTemplate,
    UriHandler,
};
use crate::property::{
    flags_line, print_default_property_value, print_pspec_flags, shown_value, value_lines, Property,
};
use crate::style::styled_text;
use crate::text::{emit, emit_blank, flat_text, lines_view, plain, toned, Line, Piece, Tone};
use vstd::utf8::encode_utf8;

verus! {

/// What a registry entry is.
#[derive(Clone, Debug)]
pub enum FeatureKind {
    /// An element factory, with the long name of its element.
    Element { long_name: String },
    /// Any other kind of feature; a list of elements leaves it out.
    Other,
}

/// An entry of the registry.
#[derive(Clone, Debug)]
pub struct Feature {
    pub name: String,
    pub kind: FeatureKind,
}

/// A plugin with the features it contributes.
#[derive(Clone, Debug)]
pub struct Plugin {
    pub name: String,
    pub features: Vec<Feature>,
}

/// All that a report says of one element.
#[derive(Clone, Debug)]
pub struct ElementDescription {
    pub factory: FactoryDetails,
    /// The owning plugin; a feature may stand alone.
    pub plugin: Option<PluginDetails>,
    pub types: TypeTable,
    /// The place of the element's own type in `types`.
    pub element_type: usize,
    pub pad_templates: Vec<PadTemplate>,
    pub clocking: Clocking,
    pub uri_handler: Option<UriHandler>,
    pub pads: Vec<Pad>,
    pub properties: Vec<Property>,
}

/// How far the making of an element got.
#[derive(Clone, Debug)]
pub enum Creation {
    /// The feature could not be loaded.
    LoadFailed,
    /// The factory was loaded, but made no element.
    ConstructFailed,
    /// An element was made, and described.
    Created(ElementDescription),
}

/// What the registry answered when asked for a name.
#[derive(Clone, Debug)]
pub enum Lookup {
    /// No element of that name is known.
    Missing,
    /// The name is known; what came of making the element.
    Present(Creation),
}

/// How a report ended.
#[derive(Clone, Copy, Debug, PartialEq, Eq, Structural)]
pub enum Outcome {
    Success,
    NotFound,
    LoadFailure,
    ConstructFailure,
}

impl ElementDescription {
    /// The type table is well formed and holds the element's type.
    pub open spec fn wf(&self) -> bool {
        self.types.wf() && self.element_type < self.types.nodes@.len()
    }

    /// Whether the type table is well formed and holds the element's type.
    pub fn is_well_formed(&self) -> (ok: bool)
        ensures
            ok == self.wf(),
    {
        self.types.is_well_formed() && self.element_type < self.types.nodes.len()
    }
}

/// The process status of an outcome: zero for success, and nothing else.
pub open spec fn status_of(outcome: Outcome) -> int {
    if outcome == Outcome::Success {
        0
    } else {
        -1
    }
}

/// The process status of an outcome.
pub fn exit_status(outcome: Outcome) -> (status: i32)
    ensures
        status == status_of(outcome),
        (status == 0) == (outcome == Outcome::Success),
{
    match outcome {
        Outcome::Success => 0,
        _ => -1,
    }
}

/// The line of one element in the list of all elements.
pub open spec fn listing_line(plugin: Seq<char>, element: Seq<char>, long_name: Seq<char>) -> Seq<Piece> {
    seq![
        toned(Tone::PluginName, plugin),
        plain(":  "@),
        toned(Tone::ElementName, element),
        plain(": "@),
        plain(long_name),
    ]
}

/// The lines of one feature in the list: one line for an element factory,
/// none for anything else.
pub open spec fn feature_lines(plugin: Seq<char>, feature: Feature) -> Seq<Seq<Piece>> {
    match feature.kind {
        FeatureKind::Element { long_name } => seq![listing_line(plugin, feature.name@, long_name@)],
        FeatureKind::Other => Seq::empty(),
    }
}

/// The names of a list of features.
pub open spec fn feature_names(features: Seq<Feature>) -> Seq<Seq<char>> {
    Seq::new(features.len(), |i: int| features[i].name@)
}

/// The lines of the features at the places `order` names, in that order.
pub open spec fn features_in_order(plugin: Seq<char>, features: Seq<Feature>, order: Seq<usize>) -> Seq<
    Seq<Piece>,
>
    decreases order.len(),
{
    if order.len() == 0 {
        Seq::empty()
    } else {
        features_in_order(plugin, features, order.drop_last()) + feature_lines(
            plugin,
            features[order.last() as int],
        )
    }
}

/// The lines of one plugin in the list: its elements, sorted by name.
pub open spec fn plugin_listing(plugin: Plugin) -> Seq<Seq<Piece>> {
    features_in_order(plugin.name@, plugin.features@, sorted_order(feature_names(plugin.features@)))
}

/// The names of a list of plugins.
pub open spec fn plugin_names(plugins: Seq<Plugin>) -> Seq<Seq<char>> {
    Seq::new(plugins.len(), |i: int| plugins[i].name@)
}

/// The lines of the plugins at the places `order` names, in that order.
pub open spec fn plugins_in_order(plugins: Seq<Plugin>, order: Seq<usize>) -> Seq<Seq<Piece>>
    decreases order.len(),
{
    if order.len() == 0 {
        Seq::empty()
    } else {
        plugins_in_order(plugins, order.drop_last()) + plugin_listing(plugins[order.last() as int])
    }
}

/// The list of all elements: plugins sorted by name, and under each plugin
/// its elements sorted by name.
pub open spec fn element_list_lines(plugins: Seq<Plugin>) -> Seq<Seq<Piece>> {
    plugins_in_order(plugins, sorted_order(plugin_names(plugins)))
}

/// Whether a type is one of the framework's generic base types, whose
/// properties a report leaves out.
pub open spec fn is_base_type(name: Seq<char>) -> bool {
    name == "GObject"@ || name == "GstObject"@ || name == "GstPad"@
}

/// The text shown for a property's description.
pub open spec fn blurb_text(blurb: Option<String>) -> Seq<char> {
    match blurb {
        Some(b) => b@,
        None => "(null)"@,
    }
}

/// The lines of one property: its name and description, its flags, and its
/// value.
pub open spec fn property_lines(property: Property) -> Seq<Seq<Piece>> {
    seq![
        property_line(property.spec.name@, blurb_text(property.spec.blurb), 20, 2, true),
        flags_line(property.spec.flags, 24),
    ] + value_lines(shown_value(property), property.spec.kind, 22)
}

/// The lines of a property in a report: none where a generic base type
/// declared it.
pub open spec fn reported_property(property: Property) -> Seq<Seq<Piece>> {
    if is_base_type(property.spec.owner_type@) {
        Seq::empty()
    } else {
        property_lines(property)
    }
}

/// The names of a list of properties.
pub open spec fn property_names(properties: Seq<Property>) -> Seq<Seq<char>> {
    Seq::new(properties.len(), |i: int| properties[i].spec.name@)
}

/// The lines of the properties at the places `order` names, in that order.
pub open spec fn properties_in_order(properties: Seq<Property>, order: Seq<usize>) -> Seq<Seq<Piece>>
    decreases order.len(),
{
    if order.len() == 0 {
        Seq::empty()
    } else {
        properties_in_order(properties, order.drop_last()) + reported_property(
            properties[order.last() as int],
        )
    }
}

/// The title of the properties, and the empty line below it.
pub open spec fn properties_title() -> Seq<Seq<Piece>> {
    seq![seq![toned(Tone::Heading, "Element Properties"@), plain(":"@)], Seq::empty()]
}

/// The lines that describe the properties of an element, sorted by name.
pub open spec fn element_property_lines(properties: Seq<Property>) -> Seq<Seq<Piece>> {
    properties_title() + properties_in_order(properties, sorted_order(property_names(properties)))
}

/// The lines of the owning plugin, where there is one.
pub open spec fn owner_lines(plugin: Option<PluginDetails>) -> Seq<Seq<Piece>> {
    match plugin {
        Some(p) => plugin_lines(p),
        None => Seq::empty(),
    }
}

/// The full description of an element, section by section.
pub open spec fn description_lines(element: ElementDescription) -> Seq<Seq<Piece>> {
    factory_lines(element.factory) + owner_lines(element.plugin) + hierarchy_lines(
        element.types.nodes@,
        element.element_type as int,
    ) + interface_lines(element.types.nodes@[element.element_type as int].interfaces@)
        + pad_template_lines(element.pad_templates@) + clocking_lines(element.clocking) + uri_lines(
        element.uri_handler,
    ) + pad_info_lines(element.pads@) + element_property_lines(element.properties@)
}

/// The line that stands for a failure.
pub open spec fn message_line(text: Seq<char>) -> Seq<Piece> {
    seq![plain(text)]
}

/// The lines of a report on an element that was to be made.
pub open spec fn creation_lines(creation: Creation) -> Seq<Seq<Piece>> {
    match creation {
        Creation::LoadFailed => seq![message_line("selement plugin couldn't be loaded"@)],
        Creation::ConstructFailed => seq![message_line("couldn't construct element for some reason"@)],
        Creation::Created(element) => description_lines(element),
    }
}

/// How a report on an element that was to be made ends.
pub open spec fn creation_outcome(creation: Creation) -> Outcome {
    match creation {
        Creation::LoadFailed => Outcome::LoadFailure,
        Creation::ConstructFailed => Outcome::ConstructFailure,
        Creation::Created(_) => Outcome::Success,
    }
}

/// The message for a name that the registry does not know.
pub open spec fn not_found_text(name: Seq<char>) -> Seq<char> {
    "No such element or plugin '"@ + name + "'"@
}

/// The lines of a report on a name.
pub open spec fn lookup_lines(name: Seq<char>, lookup: Lookup) -> Seq<Seq<Piece>> {
    match lookup {
        Lookup::Missing => seq![message_line(not_found_text(name))],
        Lookup::Present(creation) => creation_lines(creation),
    }
}

/// How a report on a name ends.
pub open spec fn lookup_outcome(lookup: Lookup) -> Outcome {
    match lookup {
        Lookup::Missing => Outcome::NotFound,
        Lookup::Present(creation) => creation_outcome(creation),
    }
}

/// Of two plugins the one with the smaller name is listed first, in
/// whichever order the two are given.
pub proof fn lemma_listing_ignores_given_order(a: Plugin, b: Plugin)
    requires
        name_less(a.name@, b.name@),
    ensures
        element_list_lines(seq![a, b]) == plugin_listing(a) + plugin_listing(b),
        element_list_lines(seq![b, a]) == plugin_listing(a) + plugin_listing(b),
{
    lemma_lex_total(encode_utf8(a.name@), encode_utf8(b.name@));
    let forward = seq![a, b];
    let ascending: Seq<usize> = seq![0, 1];
    assert(ascending[0] == 0 && ascending[1] == 1);
    assert(is_sorted_order(plugin_names(forward), ascending));
    lemma_sorted_order_unique(plugin_names(forward), ascending);
    assert(ascending.drop_last() =~= seq![0usize]);
    assert(seq![0usize].drop_last() =~= Seq::<usize>::empty());
    assert(plugins_in_order(forward, seq![0usize]) =~= plugin_listing(a)) by {
        assert(plugins_in_order(forward, Seq::<usize>::empty()) =~= Seq::<Seq<Piece>>::empty());
    }
    assert(plugins_in_order(forward, ascending) =~= plugin_listing(a) + plugin_listing(b));

    let backward = seq![b, a];
    let descending: Seq<usize> = seq![1, 0];
    assert(descending[0] == 1 && descending[1] == 0);
    assert(is_sorted_order(plugin_names(backward), descending));
    lemma_sorted_order_unique(plugin_names(backward), descending);
    assert(descending.drop_last() =~= seq![1usize]);
    assert(seq![1usize].drop_last() =~= Seq::<usize>::empty());
    assert(plugins_in_order(backward, seq![1usize]) =~= plugin_listing(a)) by {
        assert(plugins_in_order(backward, Seq::<usize>::empty()) =~= Seq::<Seq<Piece>>::empty());
    }
    assert(plugins_in_order(backward, descending) =~= plugin_listing(a) + plugin_listing(b));
}

/// Two reports on the same name and the same answer of the registry are the
/// same, line by line and character by character, plain and coloured.
pub proof fn lemma_report_is_repeatable(
    name: Seq<char>,
    lookup: Lookup,
    first: Seq<Seq<Piece>>,
    second: Seq<Seq<Piece>>,
)
    requires
        first == lookup_lines(name, lookup),
        second == lookup_lines(name, lookup),
    ensures
        first.len() == second.len(),
        forall|i: int|
            0 <= i < first.len() ==> flat_text(#[trigger] first[i]) == flat_text(second[i]) && styled_text(
                first[i],
            ) == styled_text(second[i]),
{
}

fn message(text: &str) -> (line: Line)
    ensures
        line@ == message_line(text@),
{
    let mut line = Line::new();
    line.push(Tone::Plain, text);
    line
}

fn print_feature(out: &mut Vec<Line>, plugin: &str, feature: &Feature)
    ensures
        lines_view(final(out)@) == lines_view(old(out)@) + feature_lines(plugin@, *feature),
{
    match &feature.kind {
        FeatureKind::Element { long_name } => {
            let mut line = Line::new();
            line.push(Tone::PluginName, plugin);
            line.push(Tone::Plain, ":  ");
            line.push(Tone::ElementName, feature.name.as_str());
            line.push(Tone::Plain, ": ");
            line.push(Tone::Plain, long_name.as_str());
            assert(line@ =~= listing_line(plugin@, feature.name@, long_name@));
            emit(out, line);
        },
        FeatureKind::Other => {},
    }
    assert(lines_view(out@) =~= lines_view(old(out)@) + feature_lines(plugin@, *feature));
}

fn print_plugin_listing(out: &mut Vec<Line>, plugin: &Plugin)
    ensures
        lines_view(final(out)@) == lines_view(old(out)@) + plugin_listing(*plugin),
{
    let mut names: Vec<String> = Vec::new();
    let mut n: usize = 0;
    while n < plugin.features.len()
        invariant
            n <= plugin.features.len(),
            names@.len() == n,
            forall|k: int| 0 <= k < n ==> (#[trigger] names@[k])@ == plugin.features@[k].name@,
        decreases plugin.features.len() - n,
    {
        names.push(plugin.features[n].name.clone());
        n += 1;
    }
    assert(texts(names@) =~= feature_names(plugin.features@));
    let order = sorted_indices(&names);
    let ghost base = lines_view(old(out)@);
    let mut i: usize = 0;
    assert(order@.take(0) =~= Seq::<usize>::empty());
    assert(lines_view(out@) =~= base + features_in_order(plugin.name@, plugin.features@, order@.take(0)));
    while i < order.len()
        invariant
            i <= order.len(),
            order@.len() == plugin.features@.len(),
            forall|p: int| 0 <= p < order@.len() ==> (#[trigger] order@[p]) < plugin.features@.len(),
            lines_view(out@) == base + features_in_order(
                plugin.name@,
                plugin.features@,
                order@.take(i as int),
            ),
        decreases order.len() - i,
    {
        proof {
            assert(order@.take(i + 1).drop_last() =~= order@.take(i as int));
            assert(order@.take(i + 1).last() == order@[i as int]);
        }
        print_feature(out, plugin.name.as_str(), &plugin.features[order[i]]);
        i += 1;
        assert(lines_view(out@) =~= base + features_in_order(
            plugin.name@,
            plugin.features@,
            order@.take(i as int),
        ));
    }
    assert(order@.take(i as int) =~= order@);
}

/// Appends to `out` the list of all elements: one line for each element
/// factory, the plugins sorted by name and each plugin's elements sorted by
/// name, whatever the order in which they are given.
pub fn print_element_list(out: &mut Vec<Line>, plugins: &Vec<Plugin>)
    ensures
        lines_view(final(out)@) == lines_view(old(out)@) + element_list_lines(plugins@),
{
    let mut names: Vec<String> = Vec::new();
    let mut n: usize = 0;
    while n < plugins.len()
        invariant
            n <= plugins.len(),
            names@.len() == n,
            forall|k: int| 0 <= k < n ==> (#[trigger] names@[k])@ == plugins@[k].name@,
        decreases plugins.len() - n,
    {
        names.push(plugins[n].name.clone());
        n += 1;
    }
    assert(texts(names@) =~= plugin_names(plugins@));
    let order = sorted_indices(&names);
    let ghost base = lines_view(old(out)@);
    let mut i: usize = 0;
    assert(order@.take(0) =~= Seq::<usize>::empty());
    assert(lines_view(out@) =~= base + plugins_in_order(plugins@, order@.take(0)));
    while i < order.len()
        invariant
            i <= order.len(),
            order@.len() == plugins@.len(),
            forall|p: int| 0 <= p < order@.len() ==> (#[trigger] order@[p]) < plugins@.len(),
            lines_view(out@) == base + plugins_in_order(plugins@, order@.take(i as int)),
        decreases order.len() - i,
    {
        proof {
            assert(order@.take(i + 1).drop_last() =~= order@.take(i as int));
            assert(order@.take(i + 1).last() == order@[i as int]);
        }
        print_plugin_listing(out, &plugins[order[i]]);
        i += 1;
        assert(lines_view(out@) =~= base + plugins_in_order(plugins@, order@.take(i as int)));
    }
    assert(order@.take(i as int) =~= order@);
}

/// Whether a type is one of the framework's generic base types.
pub fn is_base_type_name(name: &String) -> (base: bool)
    ensures
        base == is_base_type(name@),
{
    *name == String::from_str("GObject") || *name == String::from_str("GstObject") || *name
        == String::from_str("GstPad")
}

fn print_reported_property(out: &mut Vec<Line>, property: &Property)
    ensures
        lines_view(final(out)@) == lines_view(old(out)@) + reported_property(*property),
{
    if is_base_type_name(&property.spec.owner_type) {
        assert(lines_view(out@) =~= lines_view(old(out)@) + reported_property(*property));
        return ;
    }
    match &property.spec.blurb {
        Some(b) => emit(out, print_property(property.spec.name.as_str(), b.as_str(), 20, 2, true)),
        None => emit(out, print_property(property.spec.name.as_str(), "(null)", 20, 2, true)),
    }
    emit(out, print_pspec_flags(&property.spec.flags, 24));
    print_default_property_value(out, property, 22);
    assert(lines_view(out@) =~= lines_view(old(out)@) + reported_property(*property));
}

/// Appends to `out` the properties of an element, sorted by name, without
/// those that a generic base type declared.
pub fn print_element_properties(out: &mut Vec<Line>, properties: &Vec<Property>)
    ensures
        lines_view(final(out)@) == lines_view(old(out)@) + element_property_lines(properties@),
{
    let mut names: Vec<String> = Vec::new();
    let mut n: usize = 0;
    while n < properties.len()
        invariant
            n <= properties.len(),
            names@.len() == n,
            forall|k: int| 0 <= k < n ==> (#[trigger] names@[k])@ == properties@[k].spec.name@,
        decreases properties.len() - n,
    {
        names.push(properties[n].spec.name.clone());
        n += 1;
    }
    assert(texts(names@) =~= property_names(properties@));
    let order = sorted_indices(&names);
    let mut title = Line::new();
    title.push(Tone::Heading, "Element Properties");
    title.push(Tone::Plain, ":");
    assert(title@ =~= seq![toned(Tone::Heading, "Element Properties"@), plain(":"@)]);
    emit(out, title);
    emit_blank(out);
    let ghost base = lines_view(old(out)@) + properties_title();
    let mut i: usize = 0;
    assert(order@.take(0) =~= Seq::<usize>::empty());
    assert(lines_view(out@) =~= base + properties_in_order(properties@, order@.take(0)));
    while i < order.len()
        invariant
            i <= order.len(),
            order@.len() == properties@.len(),
            forall|p: int| 0 <= p < order@.len() ==> (#[trigger] order@[p]) < properties@.len(),
            lines_view(out@) == base + properties_in_order(properties@, order@.take(i as int)),
        decreases order.len() - i,
    {
        proof {
            assert(order@.take(i + 1).drop_last() =~= order@.take(i as int));
            assert(order@.take(i + 1).last() == order@[i as int]);
        }
        print_reported_property(out, &properties[order[i]]);
        i += 1;
        assert(lines_view(out@) =~= base + properties_in_order(properties@, order@.take(i as int)));
    }
    assert(order@.take(i as int) =~= order@);
    assert(lines_view(out@) =~= lines_view(old(out)@) + element_property_lines(properties@));
}

/// Appends the full description of an element to `out`.
pub fn print_element_description(out: &mut Vec<Line>, element: &ElementDescription)
    requires
        element.wf(),
    ensures
        lines_view(final(out)@) == lines_view(old(out)@) + description_lines(*element),
{
    print_factory_details_info(out, &element.factory);
    match &element.plugin {
        Some(p) => print_plugin_info(out, p),
        None => {},
    }
    assert(lines_view(out@) =~= lines_view(old(out)@) + factory_lines(element.factory) + owner_lines(
        element.plugin,
    ));
    print_hierarchy(out, &element.types, element.element_type);
    print_interfaces(out, &element.types.nodes[element.element_type]);
    print_pad_templates_info(out, &element.pad_templates);
    print_clocking_info(out, &element.clocking);
    print_uri_handler_info(out, &element.uri_handler);
    print_pad_info(out, &element.pads);
    print_element_properties(out, &element.properties);
    assert(lines_view(out@) =~= lines_view(old(out)@) + description_lines(*element));
}

/// Reports on an element that was to be made: a failure to load or to
/// construct gives its message alone; a made element gives its description.
pub fn print_element_info(out: &mut Vec<Line>, creation: &Creation) -> (outcome: Outcome)
    requires
        creation matches Creation::Created(element) ==> element.wf(),
    ensures
        lines_view(final(out)@) == lines_view(old(out)@) + creation_lines(*creation),
        outcome == creation_outcome(*creation),
        (outcome == Outcome::Success) == (*creation is Created),
{
    match creation {
        Creation::LoadFailed => {
            emit(out, message("selement plugin couldn't be loaded"));
            assert(lines_view(out@) =~= lines_view(old(out)@) + creation_lines(*creation));
            Outcome::LoadFailure
        },
        Creation::ConstructFailed => {
            emit(out, message("couldn't construct element for some reason"));
            assert(lines_view(out@) =~= lines_view(old(out)@) + creation_lines(*creation));
            Outcome::ConstructFailure
        },
        Creation::Created(element) => {
            print_element_description(out, element);
            Outcome::Success
        },
    }
}

/// Reports on the name `feature_name`, given what the registry answered. A
/// name that the registry does not know gives the message that says so, and
/// nothing else.
pub fn print_feature_info(out: &mut Vec<Line>, feature_name: &str, lookup: &Lookup) -> (outcome: Outcome)
    requires
        lookup matches Lookup::Present(Creation::Created(element)) ==> element.wf(),
    ensures
        lines_view(final(out)@) == lines_view(old(out)@) + lookup_lines(feature_name@, *lookup),
        outcome == lookup_outcome(*lookup),
        *lookup is Missing ==> outcome == Outcome::NotFound && lines_view(final(out)@) == lines_view(
            old(out)@,
        ).push(message_line(not_found_text(feature_name@))),
        (outcome == Outcome::Success) == (lookup matches Lookup::Present(Creation::Created(_))),
{
    match lookup {
        Lookup::Missing => {
            let mut text = String::from_str("No such element or plugin '");
            text.append(feature_name);
            text.append("'");
            emit(out, message(text.as_str()));
            assert(lines_view(out@) =~= lines_view(old(out)@) + lookup_lines(feature_name@, *lookup));
            Outcome::NotFound
        },
        Lookup::Present(creation) => print_element_info(out, creation),
    }
}

} // verus!
