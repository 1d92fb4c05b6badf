//! The typed view of a validation node.

use vstd::prelude::*;

use crate::error::{PkgResult, SiPkgError, SiPkgErrorView};
use crate::graph::{has_node, node_at, node_ref, PkgGraph};
use crate::node::{clone_string_option, FuncUniqueId, NodeKind, PkgNode, ValidationSpecKind};
use crate::pkg::source::Source;
use crate::pkg::{outcome, NodeView};
use petgraph::graph::NodeIndex;

verus! {

/// The typed view of a validation node: its scalar fields, its hash and a
/// cursor to it.
#[derive(Clone, Debug)]
pub struct SiPkgValidation<'a> {
    pub kind: ValidationSpecKind,
    pub lower_bound: Option<i64>,
    pub upper_bound: Option<i64>,
    pub expected_string: Option<String>,
    pub func_unique_id: Option<FuncUniqueId>,
    pub hash: crate::hash::Hash,
    pub source: Source<'a>,
}

impl<'a> SiPkgValidation<'a> {
    /// Projects the node of `graph` at `node_idx` as a validation. A node of
    /// any other kind is refused with the kind that it holds.
    pub fn from_graph(graph: &'a PkgGraph, node_idx: NodeIndex) -> (result: PkgResult<Self>)
        requires
            has_node(*graph, node_idx),
        ensures
            outcome(result) == Self::projection(graph, node_idx),
    {
        let hashed = node_ref(graph, node_idx);
        match hashed.inner() {
            PkgNode::Validation(node) => Ok(
                SiPkgValidation {
                    kind: node.kind,
                    lower_bound: node.lower_bound,
                    upper_bound: node.upper_bound,
                    expected_string: clone_string_option(&node.expected_string),
                    func_unique_id: node.func_unique_id,
                    hash: hashed.hash(),
                    source: Source::new(graph, node_idx),
                },
            ),
            unexpected => Err(
                SiPkgError::UnexpectedPkgNodeType(
                    NodeKind::Validation.as_str(),
                    unexpected.node_kind_str(),
                ),
            ),
        }
    }
}

impl<'a> NodeView<'a> for SiPkgValidation<'a> {
    open spec fn projection(graph: &'a PkgGraph, node_idx: NodeIndex) -> Result<
        Self,
        SiPkgErrorView,
    > {
        let hashed = node_at(*graph, node_idx);
        match hashed.spec_inner() {
            PkgNode::Validation(node) => Ok(
                SiPkgValidation {
                    kind: node.kind,
                    lower_bound: node.lower_bound,
                    upper_bound: node.upper_bound,
                    expected_string: node.expected_string,
                    func_unique_id: node.func_unique_id,
                    hash: hashed.spec_hash(),
                    source: Source { graph, node_idx },
                },
            ),
            other => Err(
                SiPkgErrorView::UnexpectedPkgNodeType(
                    NodeKind::Validation.spec_as_str(),
                    other.spec_kind().spec_as_str(),
                ),
            ),
        }
    }

    fn project_node(graph: &'a PkgGraph, node_idx: NodeIndex) -> (result: PkgResult<Self>) {
        Self::from_graph(graph, node_idx)
    }
}

} // verus!
