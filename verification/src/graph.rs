//! The package graph: hashed nodes in a `petgraph` graph, with unlabeled
//! edges from parent to child.
//!
//! The children of a node are the targets of its outgoing edges in edge
//! order, which is the order in which the edges were added. `petgraph` lists
//! the most recently added edge first, so what it lists is turned round
//! before it is used.

use vstd::prelude::*;

use crate::error::{PkgResult, SiPkgError, SiPkgErrorView};
use crate::hashed_node::HashedNode;
use crate::node::{NodeKind, PkgNode, PropChildNode};
use petgraph::graph::{Graph, NodeIndex};
use petgraph::{Directed, Direction};

verus! {

/// `petgraph::graph::Graph`: an adjacency list graph with node weights `N`,
/// edge weights `E`, edge type `Ty` and index type `Ix`.
#[verifier::external_type_specification]
#[verifier::external_body]
#[verifier::reject_recursive_types(N)]
#[verifier::reject_recursive_types(E)]
#[verifier::reject_recursive_types(Ty)]
#[verifier::reject_recursive_types(Ix)]
pub struct ExGraph<N, E, Ty, Ix>(Graph<N, E, Ty, Ix>);

/// `petgraph::graph::NodeIndex`: the identifier of a node of a graph.
#[verifier::external_type_specification]
#[verifier::external_body]
#[verifier::reject_recursive_types(Ix)]
pub struct ExNodeIndex<Ix>(NodeIndex<Ix>);

/// `petgraph::Directed`: the marker type of graphs with directed edges.
#[verifier::external_type_specification]
#[verifier::external_body]
pub struct ExDirected(Directed);

/// A package graph.
pub type PkgGraph = Graph<HashedNode, (), Directed, u32>;

/// The nodes that a graph holds: the weight of each node, under its index.
pub uninterp spec fn graph_nodes(graph: Graph<HashedNode, (), Directed, u32>) -> Map<
    NodeIndex<u32>,
    HashedNode,
>;

/// The edges that a graph holds: for each node, the targets of its outgoing
/// edges in the order in which `Graph::neighbors_directed` lists them, which
/// is the most recently added edge first.
pub uninterp spec fn graph_successors(graph: Graph<HashedNode, (), Directed, u32>) -> Map<
    NodeIndex<u32>,
    Seq<NodeIndex<u32>>,
>;

/// Whether `idx` is the index of a node of `graph`.
pub open spec fn has_node(graph: PkgGraph, idx: NodeIndex) -> bool {
    graph_nodes(graph).dom().contains(idx)
}

/// The node of `graph` at `idx`.
pub open spec fn node_at(graph: PkgGraph, idx: NodeIndex) -> HashedNode
    recommends
        has_node(graph, idx),
{
    graph_nodes(graph)[idx]
}

/// The children of the node at `idx`, in edge order, the child whose edge
/// was added first coming first; none where `graph` has no such node.
pub open spec fn children(graph: PkgGraph, idx: NodeIndex) -> Seq<NodeIndex> {
    if has_node(graph, idx) {
        graph_successors(graph)[idx].reverse()
    } else {
        Seq::empty()
    }
}

/// Calls `Graph::node_weight`, which returns the weight of the node at `idx`,
/// and `None` if the graph has no node there.
#[verifier::external_body]
fn node_weight<'a>(graph: &'a PkgGraph, idx: NodeIndex) -> (node: Option<&'a HashedNode>)
    ensures
        node is Some <==> graph_nodes(*graph).dom().contains(idx),
        node matches Some(found) ==> *found == graph_nodes(*graph)[idx],
{
    graph.node_weight(idx)
}

/// Calls `Graph::neighbors_directed` with `Direction::Outgoing` and collects
/// what it lists: the targets of the edges that leave `idx`, and nothing if
/// the graph has no node there. Every target is a node of the graph, because
/// `Graph` only ever holds edges between nodes that it holds.
#[verifier::external_body]
fn outgoing_neighbors(graph: &PkgGraph, idx: NodeIndex) -> (neighbors: Vec<NodeIndex>)
    ensures
        graph_nodes(*graph).dom().contains(idx) ==> neighbors@ == graph_successors(*graph)[idx],
        !graph_nodes(*graph).dom().contains(idx) ==> neighbors@ == Seq::<NodeIndex>::empty(),
        forall|k: int|
            0 <= k < neighbors@.len() ==> graph_nodes(*graph).dom().contains(
                #[trigger] neighbors@[k],
            ),
{
    graph.neighbors_directed(idx, Direction::Outgoing).collect()
}

/// The node at `idx`, or `None` if `graph` has no node there.
pub fn get_node<'a>(graph: &'a PkgGraph, idx: NodeIndex) -> (node: Option<&'a HashedNode>)
    ensures
        node is Some <==> has_node(*graph, idx),
        node matches Some(found) ==> *found == node_at(*graph, idx),
{
    node_weight(graph, idx)
}

/// The node at an index that is known to be in the graph.
pub fn node_ref<'a>(graph: &'a PkgGraph, idx: NodeIndex) -> (node: &'a HashedNode)
    requires
        has_node(*graph, idx),
    ensures
        *node == node_at(*graph, idx),
{
    match node_weight(graph, idx) {
        Some(found) => found,
        None => vstd::pervasive::unreached(),
    }
}

/// The same indices in the opposite order.
fn reversed(indices: &Vec<NodeIndex>) -> (turned: Vec<NodeIndex>)
    ensures
        turned@ == indices@.reverse(),
{
    let mut turned: Vec<NodeIndex> = Vec::new();
    let mut i: usize = indices.len();
    while i > 0
        invariant
            i <= indices@.len(),
            turned@.len() == indices@.len() - i,
            forall|k: int|
                0 <= k < turned@.len() ==> #[trigger] turned@[k] == indices@[indices@.len() - 1
                    - k],
        decreases i,
    {
        i -= 1;
        turned.push(indices[i]);
    }
    assert(turned@ =~= indices@.reverse());
    turned
}

/// The children of the node at `idx`, in edge order. Each of them is a node
/// of the graph.
pub fn children_of(graph: &PkgGraph, idx: NodeIndex) -> (found: Vec<NodeIndex>)
    ensures
        found@ == children(*graph, idx),
        forall|k: int| 0 <= k < found@.len() ==> has_node(*graph, #[trigger] found@[k]),
{
    let listed = outgoing_neighbors(graph, idx);
    let found = reversed(&listed);
    assert(found@ =~= children(*graph, idx));
    assert forall|k: int| 0 <= k < found@.len() implies has_node(*graph, #[trigger] found@[k]) by {
        assert(found@[k] == listed@[listed@.len() - 1 - k]);
    }
    found
}

/// What resolving the node at `idx` as a node of kind `expected` gives: its
/// content if it is of that kind, and otherwise the error that names both
/// kinds.
pub open spec fn resolution(graph: PkgGraph, idx: NodeIndex, expected: NodeKind) -> Result<
    PkgNode,
    SiPkgErrorView,
> {
    let inner = node_at(graph, idx).spec_inner();
    if inner.spec_kind() == expected {
        Ok(inner)
    } else {
        Err(
            SiPkgErrorView::UnexpectedNodeKind(
                expected.spec_as_str(),
                inner.spec_kind().spec_as_str(),
            ),
        )
    }
}

/// Resolves the node at `idx` as a node of kind `expected`. A node of another
/// kind is never handed out in its place.
pub fn resolve<'a>(graph: &'a PkgGraph, idx: NodeIndex, expected: NodeKind) -> (result: PkgResult<
    &'a PkgNode,
>)
    requires
        has_node(*graph, idx),
    ensures
        match result {
            Ok(inner) => resolution(*graph, idx, expected) == Ok::<PkgNode, SiPkgErrorView>(
                *inner,
            ),
            Err(error) => resolution(*graph, idx, expected) == Err::<PkgNode, SiPkgErrorView>(
                error@,
            ),
        },
{
    let inner = node_ref(graph, idx).inner();
    let found = inner.kind();
    if found == expected {
        Ok(inner)
    } else {
        Err(SiPkgError::UnexpectedNodeKind(expected.as_str(), found.as_str()))
    }
}

/// Whether the node at `idx` is the marker of `category`.
pub open spec fn is_marker(graph: PkgGraph, idx: NodeIndex, category: PropChildNode) -> bool {
    has_node(graph, idx) && node_at(graph, idx).spec_inner().spec_is_prop_child(category)
}

/// The first of `candidates` that is the marker of `category`, if there is
/// one.
pub open spec fn first_marker(
    graph: PkgGraph,
    candidates: Seq<NodeIndex>,
    category: PropChildNode,
) -> Option<NodeIndex>
    decreases candidates.len(),
{
    if candidates.len() == 0 {
        None
    } else if is_marker(graph, candidates[0], category) {
        Some(candidates[0])
    } else {
        first_marker(graph, candidates.drop_first(), category)
    }
}

/// The marker of `category` under the node at `parent`: the first child, in
/// edge order, that is one.
pub open spec fn marker_of(graph: PkgGraph, parent: NodeIndex, category: PropChildNode) -> Option<
    NodeIndex,
> {
    first_marker(graph, children(graph, parent), category)
}

/// The entries of `category` under the node at `parent`: the children of the
/// category's marker in edge order, and none where the node has no such
/// marker.
pub open spec fn category_children(
    graph: PkgGraph,
    parent: NodeIndex,
    category: PropChildNode,
) -> Seq<NodeIndex> {
    match marker_of(graph, parent, category) {
        Some(marker) => children(graph, marker),
        None => Seq::empty(),
    }
}

/// What `first_marker` finds is one of the candidates, it is a marker of the
/// category, and no candidate before it is one; it finds nothing exactly
/// when no candidate is a marker of the category.
pub proof fn lemma_first_marker(graph: PkgGraph, candidates: Seq<NodeIndex>, category: PropChildNode)
    ensures
        match first_marker(graph, candidates, category) {
            Some(marker) => exists|k: int|
                {
                    &&& 0 <= k < candidates.len()
                    &&& #[trigger] candidates[k] == marker
                    &&& is_marker(graph, marker, category)
                    &&& forall|j: int|
                        0 <= j < k ==> !is_marker(graph, #[trigger] candidates[j], category)
                },
            None => forall|k: int|
                0 <= k < candidates.len() ==> !is_marker(graph, #[trigger] candidates[k], category),
        },
    decreases candidates.len(),
{
    if candidates.len() == 0 {
    } else if is_marker(graph, candidates[0], category) {
        assert(candidates[0] == candidates[0]);
    } else {
        let rest = candidates.drop_first();
        lemma_first_marker(graph, rest, category);
        match first_marker(graph, rest, category) {
            Some(marker) => {
                let k = choose|k: int|
                    {
                        &&& 0 <= k < rest.len()
                        &&& #[trigger] rest[k] == marker
                        &&& is_marker(graph, marker, category)
                        &&& forall|j: int|
                            0 <= j < k ==> !is_marker(graph, #[trigger] rest[j], category)
                    };
                assert(candidates[k + 1] == marker);
                assert forall|j: int| 0 <= j < k + 1 implies !is_marker(
                    graph,
                    #[trigger] candidates[j],
                    category,
                ) by {
                    if j > 0 {
                        assert(candidates[j] == rest[j - 1]);
                    }
                }
            },
            None => {
                assert forall|k: int| 0 <= k < candidates.len() implies !is_marker(
                    graph,
                    #[trigger] candidates[k],
                    category,
                ) by {
                    if k > 0 {
                        assert(candidates[k] == rest[k - 1]);
                    }
                }
            },
        }
    }
}

/// A node none of whose children is the marker of a category has no entries
/// of that category: the enumeration is empty.
pub proof fn lemma_no_marker_no_entries(graph: PkgGraph, parent: NodeIndex, category: PropChildNode)
    requires
        forall|k: int|
            0 <= k < children(graph, parent).len() ==> !is_marker(
                graph,
                #[trigger] children(graph, parent)[k],
                category,
            ),
    ensures
        marker_of(graph, parent, category) is None,
        category_children(graph, parent, category) == Seq::<NodeIndex>::empty(),
{
    lemma_first_marker(graph, children(graph, parent), category);
}

/// The entries of a category are exactly the children of the category's
/// marker, in edge order, and the marker is the first child of the parent, in
/// edge order, that marks the category.
pub proof fn lemma_entries_keep_edge_order(
    graph: PkgGraph,
    parent: NodeIndex,
    category: PropChildNode,
    marker: NodeIndex,
    position: int,
)
    requires
        0 <= position < children(graph, parent).len(),
        children(graph, parent)[position] == marker,
        is_marker(graph, marker, category),
        forall|j: int|
            0 <= j < position ==> !is_marker(graph, #[trigger] children(graph, parent)[j], category),
    ensures
        marker_of(graph, parent, category) == Some(marker),
        category_children(graph, parent, category) == children(graph, marker),
{
    let candidates = children(graph, parent);
    lemma_first_marker(graph, candidates, category);
    match first_marker(graph, candidates, category) {
        Some(found) => {
            let k = choose|k: int|
                {
                    &&& 0 <= k < candidates.len()
                    &&& #[trigger] candidates[k] == found
                    &&& is_marker(graph, found, category)
                    &&& forall|j: int|
                        0 <= j < k ==> !is_marker(graph, #[trigger] candidates[j], category)
                };
            if k < position {
                assert(!is_marker(graph, candidates[k], category));
            } else if position < k {
                assert(!is_marker(graph, candidates[position], category));
            }
        },
        None => {
            assert(!is_marker(graph, candidates[position], category));
        },
    }
}

/// Looks for the marker of `category` among the children of the node at
/// `parent`, scanning them in edge order.
pub fn find_marker(graph: &PkgGraph, parent: NodeIndex, category: PropChildNode) -> (found: Option<
    NodeIndex,
>)
    ensures
        found == marker_of(*graph, parent, category),
        found matches Some(marker) ==> has_node(*graph, marker),
{
    let candidates = children_of(graph, parent);
    let mut i: usize = 0;
    assert(candidates@.skip(0) == candidates@);
    while i < candidates.len()
        invariant
            i <= candidates@.len(),
            candidates@ == children(*graph, parent),
            forall|k: int|
                0 <= k < candidates@.len() ==> has_node(*graph, #[trigger] candidates@[k]),
            first_marker(*graph, candidates@, category) == first_marker(
                *graph,
                candidates@.skip(i as int),
                category,
            ),
        decreases candidates@.len() - i,
    {
        let candidate = candidates[i];
        proof {
            assert(candidates@.skip(i as int)[0] == candidate);
            assert(candidates@.skip(i as int).drop_first() == candidates@.skip(i + 1));
        }
        if node_ref(graph, candidate).inner().is_prop_child(category) {
            return Some(candidate);
        }
        i += 1;
    }
    None
}

/// Enumerates the entries of `category` under the node at `parent`: the
/// children of the category's marker, in edge order. Where the node has no
/// marker of that category the result is empty; that is no error.
pub fn children_of_category(graph: &PkgGraph, parent: NodeIndex, category: PropChildNode) -> (found:
    Vec<NodeIndex>)
    ensures
        found@ == category_children(*graph, parent, category),
        forall|k: int| 0 <= k < found@.len() ==> has_node(*graph, #[trigger] found@[k]),
{
    match find_marker(graph, parent, category) {
        Some(marker) => children_of(graph, marker),
        None => Vec::new(),
    }
}

} // verus!
