//! The transition table's storage: a directed `petgraph` graph map whose
//! nodes are state codes and whose edge weights are action codes.
use petgraph::graphmap::GraphMap;
use petgraph::Directed;
use vstd::prelude::*;

verus! {

/// The graph map that holds the transition table. Its map is private: every
/// value is built by `new_graph` and grown by `graph_add_edge`, so the order
/// of its adjacency lists always matches the order of its edges.
#[verifier::external_body]
pub struct CodeGraph {
    g: GraphMap<u8, u8, Directed>,
}

/// The edges of the graph map, `(from, to, weight)`, in the order in which
/// each `(from, to)` pair was first inserted.
pub uninterp spec fn graph_edges(g: CodeGraph) -> Seq<(u8, u8, u8)>;

/// Whether the pair `(a, b)` has an edge.
pub open spec fn has_pair(es: Seq<(u8, u8, u8)>, a: u8, b: u8) -> bool {
    exists|i: int| 0 <= i < es.len() && es[i].0 == a && es[i].1 == b
}

/// The first edge of `es` that leaves `a`.
pub open spec fn first_from(es: Seq<(u8, u8, u8)>, a: u8) -> Option<(u8, u8, u8)>
    decreases es.len(),
{
    if es.len() == 0 {
        None
    } else if es[0].0 == a {
        Some(es[0])
    } else {
        first_from(es.drop_first(), a)
    }
}

/// Relies on `GraphMap::new`: a fresh graph map has no edges.
#[verifier::external_body]
pub(crate) fn new_graph() -> (g: CodeGraph)
    ensures
        graph_edges(g) == Seq::<(u8, u8, u8)>::empty(),
{
    CodeGraph { g: GraphMap::new() }
}

/// The edges after `(a, b)` is set to weight `w`: a pair that is new goes
/// after all the others; an existing one keeps its place and takes `w`.
pub open spec fn with_edge(es: Seq<(u8, u8, u8)>, a: u8, b: u8, w: u8) -> Seq<(u8, u8, u8)>
    decreases es.len(),
{
    if es.len() == 0 {
        seq![(a, b, w)]
    } else if es[0].0 == a && es[0].1 == b {
        es.update(0, (a, b, w))
    } else {
        seq![es[0]] + with_edge(es.drop_first(), a, b, w)
    }
}

/// Relies on `GraphMap::add_edge`: edges are kept in an insertion-ordered map
/// keyed by `(a, b)`, so a new pair is appended and an existing one is
/// updated in place.
#[verifier::external_body]
pub(crate) fn graph_add_edge(g: &mut CodeGraph, a: u8, b: u8, w: u8)
    ensures
        graph_edges(*final(g)) == with_edge(graph_edges(*old(g)), a, b, w),
{
    g.g.add_edge(a, b, w);
}

/// Adding a pair that is not there appends it.
pub proof fn lemma_with_edge_new(es: Seq<(u8, u8, u8)>, a: u8, b: u8, w: u8)
    requires
        !has_pair(es, a, b),
    ensures
        with_edge(es, a, b, w) == es.push((a, b, w)),
    decreases es.len(),
{
    if es.len() > 0 {
        assert(!(es[0].0 == a && es[0].1 == b));
        assert forall|i: int| 0 <= i < es.drop_first().len() implies !(es.drop_first()[i].0 == a
            && es.drop_first()[i].1 == b) by {
            assert(es.drop_first()[i] == es[i + 1]);
        }
        lemma_with_edge_new(es.drop_first(), a, b, w);
        assert(seq![es[0]] + es.drop_first().push((a, b, w)) =~= es.push((a, b, w)));
    }
}

/// Every edge after an insertion was there before or is the inserted one.
pub proof fn lemma_with_edge_elems(es: Seq<(u8, u8, u8)>, a: u8, b: u8, w: u8)
    ensures
        forall|i: int|
            0 <= i < with_edge(es, a, b, w).len() ==> es.contains(with_edge(es, a, b, w)[i])
                || with_edge(es, a, b, w)[i] == (a, b, w),
    decreases es.len(),
{
    if es.len() > 0 && !(es[0].0 == a && es[0].1 == b) {
        lemma_with_edge_elems(es.drop_first(), a, b, w);
        let r = with_edge(es, a, b, w);
        assert forall|i: int| 0 <= i < r.len() implies es.contains(r[i]) || r[i] == (a, b, w) by {
            if i > 0 {
                assert(r[i] == with_edge(es.drop_first(), a, b, w)[i - 1]);
                if es.drop_first().contains(r[i]) {
                    let k = choose|k: int| 0 <= k < es.drop_first().len() && es.drop_first()[k] == r[i];
                    assert(es[k + 1] == r[i]);
                }
            } else {
                assert(es[0] == r[0]);
            }
        }
    } else if es.len() > 0 {
        let r = with_edge(es, a, b, w);
        assert forall|i: int| 0 <= i < r.len() implies es.contains(r[i]) || r[i] == (a, b, w) by {
            if i != 0 {
                assert(r[i] == es[i]);
            }
        }
    }
}

/// The edge that `first_from` picks leaves `a` and is one of the edges.
pub proof fn lemma_first_from(es: Seq<(u8, u8, u8)>, a: u8)
    ensures
        first_from(es, a) matches Some(e) ==> e.0 == a && es.contains(e),
    decreases es.len(),
{
    if es.len() > 0 && es[0].0 != a {
        lemma_first_from(es.drop_first(), a);
        if let Some(e) = first_from(es.drop_first(), a) {
            let k = choose|k: int| 0 <= k < es.drop_first().len() && es.drop_first()[k] == e;
            assert(es[k + 1] == e);
        }
    } else if es.len() > 0 {
        assert(es[0] == es[0]);
    }
}

/// Relies on `GraphMap::edges` for a directed graph: it walks `a`'s adjacency
/// list, which gains an outgoing entry each time a new edge `(a, b)` is added.
/// No edge of a `CodeGraph` is ever removed, so the first outgoing edge of `a`
/// is the first inserted one, with its current weight.
#[verifier::external_body]
pub(crate) fn graph_first_edge(g: &CodeGraph, a: u8) -> (r: Option<(u8, u8, u8)>)
    ensures
        r == first_from(graph_edges(*g), a),
{
    g.g.edges(a).next().map(|(x, y, w)| (x, y, *w))
}

/// Relies on `GraphMap::all_edges`: every edge, in insertion order.
#[verifier::external_body]
pub(crate) fn graph_all_edges(g: &CodeGraph) -> (r: Vec<(u8, u8, u8)>)
    ensures
        r@ == graph_edges(*g),
{
    g.g.all_edges().map(|(x, y, w)| (x, y, *w)).collect()
}

} // verus!
