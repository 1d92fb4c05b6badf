//! Typed, read-only views over the nodes of a package graph.
//!
//! A view is built on demand from a graph and a node index. It copies the
//! node's scalar fields, records its hash and keeps a cursor to the node;
//! what lies below the node is read from the graph on every call.

use vstd::prelude::*;

use crate::error::{PkgResult, SiPkgErrorView};
use crate::graph::{has_node, PkgGraph};
use petgraph::graph::NodeIndex;

pub mod attr_func_input;
pub mod map_key_func;
pub mod prop;
pub mod source;
pub mod validation;

verus! {

/// A typed view that is built from one node of a package graph.
pub trait NodeView<'a>: Sized {
    /// What projecting the node of `graph` at `node_idx` gives: the view of
    /// the node if it is of the kind that this view stands for, and otherwise
    /// the error that names the kind that was found.
    spec fn projection(graph: &'a PkgGraph, node_idx: NodeIndex) -> Result<Self, SiPkgErrorView>;

    /// Projects the node of `graph` at `node_idx`.
    fn project_node(graph: &'a PkgGraph, node_idx: NodeIndex) -> (result: PkgResult<Self>)
        requires
            has_node(*graph, node_idx),
        ensures
            outcome(result) == Self::projection(graph, node_idx),
    ;
}

/// The mathematical content of the result of a projection.
pub open spec fn outcome<T>(result: PkgResult<T>) -> Result<T, SiPkgErrorView> {
    match result {
        Ok(view) => Ok(view),
        Err(error) => Err(error@),
    }
}

/// Whether `outcome` is what projecting the nodes at `indices` one by one, in
/// order, gives: the views of all of them, in the same order, if every one is
/// accepted, and otherwise the error of the first one that is refused.
pub open spec fn projects_to<'a, T: NodeView<'a>>(
    graph: &'a PkgGraph,
    indices: Seq<NodeIndex>,
    outcome: Result<Seq<T>, SiPkgErrorView>,
) -> bool {
    match outcome {
        Ok(views) => {
            &&& views.len() == indices.len()
            &&& forall|k: int|
                0 <= k < indices.len() ==> T::projection(graph, #[trigger] indices[k]) == Ok::<
                    T,
                    SiPkgErrorView,
                >(views[k])
        },
        Err(error) => exists|k: int|
            {
                &&& 0 <= k < indices.len()
                &&& T::projection(graph, #[trigger] indices[k]) == Err::<T, SiPkgErrorView>(error)
                &&& forall|j: int|
                    0 <= j < k ==> (#[trigger] T::projection(graph, indices[j])) is Ok
            },
    }
}

/// The mathematical content of the result of a traversal.
pub open spec fn outcome_of<T>(result: PkgResult<Vec<T>>) -> Result<Seq<T>, SiPkgErrorView> {
    match result {
        Ok(views) => Ok(views@),
        Err(error) => Err(error@),
    }
}

/// Projects each of the nodes at `indices`, in order, and stops at the first
/// one that is refused.
pub fn project_all<'a, T: NodeView<'a>>(graph: &'a PkgGraph, indices: &Vec<NodeIndex>) -> (result:
    PkgResult<Vec<T>>)
    requires
        forall|k: int| 0 <= k < indices@.len() ==> has_node(*graph, #[trigger] indices@[k]),
    ensures
        projects_to(graph, indices@, outcome_of(result)),
{
    let mut entries: Vec<T> = Vec::new();
    let mut i: usize = 0;
    while i < indices.len()
        invariant
            i <= indices@.len(),
            entries@.len() == i,
            forall|k: int| 0 <= k < indices@.len() ==> has_node(*graph, #[trigger] indices@[k]),
            forall|k: int|
                0 <= k < i ==> T::projection(graph, #[trigger] indices@[k]) == Ok::<
                    T,
                    SiPkgErrorView,
                >(entries@[k]),
        decreases indices@.len() - i,
    {
        match T::project_node(graph, indices[i]) {
            Ok(view) => {
                entries.push(view);
            },
            Err(error) => {
                return Err(error);
            },
        }
        i += 1;
    }
    Ok(entries)
}

/// Projecting a list of nodes has one outcome only: whatever two traversals
/// of the same nodes of the same graph return, they return the same views in
/// the same order, or the same error.
pub proof fn lemma_traversal_is_repeatable<'a, T: NodeView<'a>>(
    graph: &'a PkgGraph,
    indices: Seq<NodeIndex>,
    first: Result<Seq<T>, SiPkgErrorView>,
    second: Result<Seq<T>, SiPkgErrorView>,
)
    requires
        projects_to(graph, indices, first),
        projects_to(graph, indices, second),
    ensures
        first == second,
{
    match (first, second) {
        (Ok(a), Ok(b)) => {
            assert forall|k: int| 0 <= k < a.len() implies a[k] == b[k] by {
                assert(T::projection(graph, indices[k]) == Ok::<T, SiPkgErrorView>(a[k]));
                assert(T::projection(graph, indices[k]) == Ok::<T, SiPkgErrorView>(b[k]));
            }
            assert(a =~= b);
        },
        (Ok(a), Err(e)) => {
            let k = choose|k: int|
                {
                    &&& 0 <= k < indices.len()
                    &&& T::projection(graph, #[trigger] indices[k]) == Err::<T, SiPkgErrorView>(e)
                    &&& forall|j: int|
                        0 <= j < k ==> (#[trigger] T::projection(graph, indices[j])) is Ok
                };
            assert(T::projection(graph, indices[k]) == Ok::<T, SiPkgErrorView>(a[k]));
        },
        (Err(e), Ok(b)) => {
            let k = choose|k: int|
                {
                    &&& 0 <= k < indices.len()
                    &&& T::projection(graph, #[trigger] indices[k]) == Err::<T, SiPkgErrorView>(e)
                    &&& forall|j: int|
                        0 <= j < k ==> (#[trigger] T::projection(graph, indices[j])) is Ok
                };
            assert(T::projection(graph, indices[k]) == Ok::<T, SiPkgErrorView>(b[k]));
        },
        (Err(e1), Err(e2)) => {
            let k1 = choose|k: int|
                {
                    &&& 0 <= k < indices.len()
                    &&& T::projection(graph, #[trigger] indices[k]) == Err::<T, SiPkgErrorView>(e1)
                    &&& forall|j: int|
                        0 <= j < k ==> (#[trigger] T::projection(graph, indices[j])) is Ok
                };
            let k2 = choose|k: int|
                {
                    &&& 0 <= k < indices.len()
                    &&& T::projection(graph, #[trigger] indices[k]) == Err::<T, SiPkgErrorView>(e2)
                    &&& forall|j: int|
                        0 <= j < k ==> (#[trigger] T::projection(graph, indices[j])) is Ok
                };
            if k1 < k2 {
                assert(T::projection(graph, indices[k1]) is Ok);
            } else if k2 < k1 {
                assert(T::projection(graph, indices[k2]) is Ok);
            }
        },
    }
}

} // verus!
