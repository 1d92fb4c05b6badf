//! Navigational cursors into a package graph.

use vstd::prelude::*;

use crate::graph::PkgGraph;
use petgraph::graph::NodeIndex;

verus! {

/// A cursor: a graph and the index of one of its nodes. A cursor owns
/// nothing and never changes the graph.
#[derive(Clone, Copy, Debug)]
pub struct Source<'a> {
    pub graph: &'a PkgGraph,
    pub node_idx: NodeIndex,
}

impl<'a> Source<'a> {
    /// The cursor to the node of `graph` at `node_idx`.
    pub fn new(graph: &'a PkgGraph, node_idx: NodeIndex) -> (source: Self)
        ensures
            source == (Source { graph, node_idx }),
    {
        Source { graph, node_idx }
    }
}

} // verus!
