//! The single-inheritance type graph and its linearization from the root
//! down to a given type.

use vstd::prelude::*;
use crate::text::{emit, emit_blank, filled, lines_view, plain, spaces, toned, Line, Piece, Tone};

verus! {

/// A type of the framework: its name, the place of its parent in the table,
/// and the interfaces it implements.
#[derive(Clone, Debug)]
pub struct TypeNode {
    pub name: String,
    pub parent: Option<usize>,
    pub interfaces: Vec<String>,
}

/// A table of types. Every type stands behind its parent, so that each
/// parent chain is finite and ends in a type without a parent.
#[derive(Clone, Debug)]
pub struct TypeTable {
    pub nodes: Vec<TypeNode>,
}

/// Every parent stands before its child.
pub open spec fn parents_first(nodes: Seq<TypeNode>) -> bool {
    forall|i: int| 0 <= i < nodes.len() ==> match (#[trigger] nodes[i]).parent {
        Some(p) => p < i,
        None => true,
    }
}

/// The number of ancestors of the type at `at`.
pub open spec fn depth(nodes: Seq<TypeNode>, at: int) -> nat
    decreases at,
{
    if 0 <= at < nodes.len() {
        match nodes[at].parent {
            Some(p) => if p < at {
                depth(nodes, p as int) + 1
            } else {
                0
            },
            None => 0,
        }
    } else {
        0
    }
}

/// The parent chain of the type at `at`: the root first, the type itself last.
pub open spec fn chain(nodes: Seq<TypeNode>, at: int) -> Seq<usize>
    decreases at,
{
    if 0 <= at < nodes.len() {
        match nodes[at].parent {
            Some(p) => if p < at {
                chain(nodes, p as int).push(at as usize)
            } else {
                seq![at as usize]
            },
            None => seq![at as usize],
        }
    } else {
        Seq::empty()
    }
}

/// What holds of every parent chain: it has one entry more than the type has
/// ancestors, begins at a root, ends at the type, steps from parent to child,
/// and names no type twice.
pub proof fn lemma_chain(nodes: Seq<TypeNode>, at: int)
    requires
        parents_first(nodes),
        0 <= at < nodes.len(),
        at <= usize::MAX,
    ensures
        chain(nodes, at).len() == depth(nodes, at) + 1,
        chain(nodes, at).last() == at,
        nodes[chain(nodes, at)[0] as int].parent is None,
        forall|i: int| 0 <= i < chain(nodes, at).len() ==> (#[trigger] chain(nodes, at)[i]) <= at,
        forall|i: int|
            0 < i < chain(nodes, at).len() ==> nodes[(#[trigger] chain(nodes, at)[i]) as int].parent == Some(
                chain(nodes, at)[i - 1],
            ),
        forall|i: int, j: int|
            0 <= i < j < chain(nodes, at).len() ==> (#[trigger] chain(nodes, at)[i]) < (#[trigger] chain(
                nodes,
                at,
            )[j]),
    decreases at,
{
    match nodes[at].parent {
        Some(p) => {
            lemma_chain(nodes, p as int);
            let up = chain(nodes, p as int);
            let all = chain(nodes, at);
            assert(all == up.push(at as usize));
            assert forall|i: int| 0 < i < all.len() implies nodes[(#[trigger] all[i]) as int].parent == Some(
                all[i - 1],
            ) by {
                if i < up.len() {
                    assert(all[i] == up[i]);
                    assert(all[i - 1] == up[i - 1]);
                } else {
                    assert(all[i - 1] == up.last());
                }
            }
            assert forall|i: int, j: int| 0 <= i < j < all.len() implies (#[trigger] all[i]) < (#[trigger] all[j]) by {
                assert(all[i] == up[i]);
                if j < up.len() {
                    assert(all[j] == up[j]);
                }
            }
        },
        None => {},
    }
}

impl TypeTable {
    /// Whether the table is well formed.
    pub open spec fn wf(&self) -> bool {
        parents_first(self.nodes@)
    }

    /// An empty table.
    pub fn new() -> (table: TypeTable)
        ensures
            table.wf(),
            table.nodes@.len() == 0,
    {
        TypeTable { nodes: Vec::new() }
    }

    /// Adds a type and returns its place. A type whose parent is not in the
    /// table yet is refused, and the table stays as it was.
    pub fn add(&mut self, node: TypeNode) -> (place: Option<usize>)
        requires
            old(self).wf(),
        ensures
            final(self).wf(),
            match node.parent {
                Some(p) if p >= old(self).nodes@.len() => place is None && *final(self) == *old(self),
                _ => place == Some(old(self).nodes@.len() as usize) && final(self).nodes@ == old(
                    self,
                ).nodes@.push(node),
            },
    {
        let at = self.nodes.len();
        match node.parent {
            Some(p) => {
                if p >= at {
                    return None;
                }
            },
            None => {},
        }
        self.nodes.push(node);
        Some(at)
    }

    /// Whether every parent stands before its child.
    pub fn is_well_formed(&self) -> (ok: bool)
        ensures
            ok == self.wf(),
    {
        let mut i: usize = 0;
        while i < self.nodes.len()
            invariant
                i <= self.nodes.len(),
                parents_first(self.nodes@.take(i as int)),
            decreases self.nodes.len() - i,
        {
            match self.nodes[i].parent {
                Some(p) => {
                    if p >= i {
                        return false;
                    }
                },
                None => {},
            }
            i += 1;
            assert forall|k: int| 0 <= k < i implies match (#[trigger] self.nodes@.take(i as int)[k]).parent {
                Some(p) => p < k,
                None => true,
            } by {
                if k < i - 1 {
                    assert(self.nodes@.take(i - 1)[k] == self.nodes@.take(i as int)[k]);
                }
            }
        }
        assert(self.nodes@.take(i as int) =~= self.nodes@);
        true
    }
}

/// Visits the parent chain of the type at `type_`, the root first: each
/// visited type's place is appended to `visited`.
pub fn hierarchy_foreach(table: &TypeTable, type_: usize, visited: &mut Vec<usize>)
    requires
        table.wf(),
        type_ < table.nodes@.len(),
    ensures
        final(visited)@ == old(visited)@ + chain(table.nodes@, type_ as int),
    decreases type_,
{
    match table.nodes[type_].parent {
        Some(parent) => {
            hierarchy_foreach(table, parent, visited);
        },
        None => {},
    }
    visited.push(type_);
    assert(visited@ =~= old(visited)@ + chain(table.nodes@, type_ as int));
}

/// The parent chain of `leaf`, as places in the table: the root first, the
/// leaf last, every ancestor once.
pub fn linearize(table: &TypeTable, leaf: usize) -> (order: Vec<usize>)
    requires
        table.wf(),
        leaf < table.nodes@.len(),
    ensures
        order@ == chain(table.nodes@, leaf as int),
        order@.len() == depth(table.nodes@, leaf as int) + 1,
        order@.last() == leaf,
        table.nodes@[order@[0] as int].parent is None,
        forall|i: int| 0 <= i < order@.len() ==> (#[trigger] order@[i]) < table.nodes@.len(),
        forall|i: int| 0 < i < order@.len() ==> table.nodes@[(#[trigger] order@[i]) as int].parent == Some(order@[i - 1]),
        forall|i: int, j: int| 0 <= i < j < order@.len() ==> (#[trigger] order@[i]) != (#[trigger] order@[j]),
{
    let mut order: Vec<usize> = Vec::new();
    hierarchy_foreach(table, leaf, &mut order);
    proof {
        assert(order@ =~= chain(table.nodes@, leaf as int));
        lemma_chain(table.nodes@, leaf as int);
    }
    order
}

/// The line of a type that stands `level` steps below the root of its chain.
pub open spec fn hierarchy_line(level: nat, name: Seq<char>) -> Seq<Piece> {
    if level == 0 {
        seq![toned(Tone::DataType, name)]
    } else {
        seq![
            plain(filled(' ', (5 * (level - 1)) as nat)),
            plain(" "@),
            toned(Tone::ChildLink, "+----"@),
            toned(Tone::DataType, name),
        ]
    }
}

/// One line for each type of a chain, each a step deeper than the one before.
pub open spec fn chain_lines(nodes: Seq<TypeNode>, order: Seq<usize>) -> Seq<Seq<Piece>> {
    Seq::new(order.len(), |i: int| hierarchy_line(i as nat, nodes[order[i] as int].name@))
}

/// The lines that show the hierarchy of the type at `at`, from the root down,
/// and the empty line that closes them.
pub open spec fn hierarchy_lines(nodes: Seq<TypeNode>, at: int) -> Seq<Seq<Piece>> {
    chain_lines(nodes, chain(nodes, at)).push(Seq::empty())
}

/// The line of one implemented interface.
pub open spec fn interface_line(name: Seq<char>) -> Seq<Piece> {
    seq![plain("  "@), toned(Tone::DataType, name)]
}

/// The lines that list the interfaces of a type; none where it has none.
pub open spec fn interface_lines(interfaces: Seq<String>) -> Seq<Seq<Piece>> {
    if interfaces.len() == 0 {
        Seq::empty()
    } else {
        seq![seq![toned(Tone::Heading, "Implemented Interfaces"@), plain(":"@)]] + interface_rows(
            interfaces,
        ) + seq![Seq::empty()]
    }
}

/// One line for each interface, in the order given.
pub open spec fn interface_rows(interfaces: Seq<String>) -> Seq<Seq<Piece>> {
    Seq::new(interfaces.len(), |i: int| interface_line(interfaces[i]@))
}

fn hierarchy_entry(level: usize, name: &str) -> (line: Line)
    ensures
        line@ == hierarchy_line(level as nat, name@),
{
    let mut line = Line::new();
    if level > 0 {
        let mut lead = String::new();
        let mut k: usize = 1;
        assert(lead@ =~= filled(' ', 0));
        while k < level
            invariant
                1 <= k <= level,
                lead@ == filled(' ', (5 * (k - 1)) as nat),
            decreases level - k,
        {
            lead.append(spaces(5).as_str());
            k += 1;
            assert(lead@ =~= filled(' ', (5 * (k - 1)) as nat));
        }
        line.push(Tone::Plain, lead.as_str());
        line.push(Tone::Plain, " ");
        line.push(Tone::ChildLink, "+----");
    }
    line.push(Tone::DataType, name);
    assert(line@ =~= hierarchy_line(level as nat, name@));
    line
}

/// Appends to `out` the hierarchy of the type at `type_`: one line for each
/// type of its parent chain, the root first, and an empty line.
pub fn print_hierarchy(out: &mut Vec<Line>, table: &TypeTable, type_: usize)
    requires
        table.wf(),
        type_ < table.nodes@.len(),
    ensures
        lines_view(final(out)@) == lines_view(old(out)@) + hierarchy_lines(table.nodes@, type_ as int),
{
    let order = linearize(table, type_);
    let mut level: usize = 0;
    assert(lines_view(out@) =~= lines_view(old(out)@) + chain_lines(table.nodes@, order@.take(0)));
    while level < order.len()
        invariant
            level <= order.len(),
            forall|i: int| 0 <= i < order@.len() ==> (#[trigger] order@[i]) < table.nodes@.len(),
            lines_view(out@) == lines_view(old(out)@) + chain_lines(table.nodes@, order@.take(level as int)),
        decreases order.len() - level,
    {
        emit(out, hierarchy_entry(level, table.nodes[order[level]].name.as_str()));
        level += 1;
        assert(lines_view(out@) =~= lines_view(old(out)@) + chain_lines(
            table.nodes@,
            order@.take(level as int),
        ));
    }
    assert(order@.take(level as int) =~= order@);
    emit_blank(out);
    assert(lines_view(out@) =~= lines_view(old(out)@) + hierarchy_lines(table.nodes@, type_ as int));
}

/// Appends to `out` the interfaces that a type implements; nothing where it
/// implements none.
pub fn print_interfaces(out: &mut Vec<Line>, node: &TypeNode)
    ensures
        lines_view(final(out)@) == lines_view(old(out)@) + interface_lines(node.interfaces@),
{
    if node.interfaces.len() == 0 {
        assert(lines_view(out@) =~= lines_view(old(out)@) + interface_lines(node.interfaces@));
        return ;
    }
    let mut title = Line::new();
    title.push(Tone::Heading, "Implemented Interfaces");
    title.push(Tone::Plain, ":");
    assert(title@ =~= seq![toned(Tone::Heading, "Implemented Interfaces"@), plain(":"@)]);
    emit(out, title);
    let ghost base = lines_view(out@);
    let mut i: usize = 0;
    assert(lines_view(out@) =~= base + interface_rows(node.interfaces@.take(0)));
    while i < node.interfaces.len()
        invariant
            i <= node.interfaces.len(),
            lines_view(out@) == base + interface_rows(node.interfaces@.take(i as int)),
        decreases node.interfaces.len() - i,
    {
        let mut line = Line::new();
        line.push(Tone::Plain, "  ");
        line.push(Tone::DataType, node.interfaces[i].as_str());
        assert(line@ =~= interface_line(node.interfaces@[i as int]@));
        emit(out, line);
        i += 1;
        assert(lines_view(out@) =~= base + interface_rows(node.interfaces@.take(i as int)));
    }
    assert(node.interfaces@.take(i as int) =~= node.interfaces@);
    emit_blank(out);
    assert(lines_view(out@) =~= lines_view(old(out)@) + interface_lines(node.interfaces@));
}

} // verus!
