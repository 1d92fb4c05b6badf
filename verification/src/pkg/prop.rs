//! The typed view of a property node.

use vstd::prelude::*;

use crate::error::{PkgResult, SiPkgError, SiPkgErrorView};
use crate::graph::{
    category_children, children_of_category, get_node, has_node, marker_of, node_at, node_ref,
    PkgGraph,
};
use crate::node::{
    clone_json_option, clone_string_option, clone_url_option, FuncUniqueId, NodeKind, PkgNode,
    PropChildNode, PropNode, PropSpecWidgetKind,
};
use crate::pkg::attr_func_input::SiPkgAttrFuncInput;
use crate::pkg::map_key_func::SiPkgMapKeyFunc;
use crate::pkg::validation::SiPkgValidation;
use crate::pkg::{outcome, outcome_of, project_all, projects_to};
use crate::pkg::source::Source;
use petgraph::graph::NodeIndex;
use serde_json::Value;
use url::Url;

verus! {

/// The typed view of a property node: its scalar fields, its hash and a
/// cursor to it, one variant per property kind.
#[derive(Clone, Debug)]
#[allow(inconsistent_fields)]
pub enum SiPkgProp<'a> {
    Array {
        name: String,
        default_value: Option<Value>,
        func_unique_id: Option<FuncUniqueId>,
        widget_kind: PropSpecWidgetKind,
        widget_options: Option<Value>,
        doc_link: Option<Url>,
        hidden: bool,
        hash: crate::hash::Hash,
        source: Source<'a>,
    },
    Boolean {
        name: String,
        default_value: Option<bool>,
        func_unique_id: Option<FuncUniqueId>,
        widget_kind: PropSpecWidgetKind,
        widget_options: Option<Value>,
        doc_link: Option<Url>,
        hidden: bool,
        hash: crate::hash::Hash,
        source: Source<'a>,
    },
    Mapping {
        name: String,
        default_value: Option<Value>,
        func_unique_id: Option<FuncUniqueId>,
        widget_kind: PropSpecWidgetKind,
        widget_options: Option<Value>,
        doc_link: Option<Url>,
        hidden: bool,
        hash: crate::hash::Hash,
        source: Source<'a>,
    },
    Number {
        name: String,
        default_value: Option<i64>,
        func_unique_id: Option<FuncUniqueId>,
        widget_kind: PropSpecWidgetKind,
        widget_options: Option<Value>,
        doc_link: Option<Url>,
        hidden: bool,
        hash: crate::hash::Hash,
        source: Source<'a>,
    },
    Object {
        name: String,
        default_value: Option<Value>,
        func_unique_id: Option<FuncUniqueId>,
        widget_kind: PropSpecWidgetKind,
        widget_options: Option<Value>,
        doc_link: Option<Url>,
        hidden: bool,
        hash: crate::hash::Hash,
        source: Source<'a>,
    },
    String {
        name: String,
        default_value: Option<String>,
        func_unique_id: Option<FuncUniqueId>,
        widget_kind: PropSpecWidgetKind,
        widget_options: Option<Value>,
        hidden: bool,
        doc_link: Option<Url>,
        hash: crate::hash::Hash,
        source: Source<'a>,
    },
}

impl<'a> SiPkgProp<'a> {
    /// The view of a property node with the given hash, reached through the
    /// given cursor: every scalar field is the node's own, and the kind of the
    /// view is the kind of the node.
    pub open spec fn of_node(node: PropNode, hash: crate::hash::Hash, source: Source<'a>) -> Self {
        match node {
            PropNode::String {
                name,
                default_value,
                func_unique_id,
                widget_kind,
                widget_options,
                hidden,
                doc_link,
            } => SiPkgProp::String {
                name,
                default_value,
                func_unique_id,
                widget_kind,
                widget_options,
                hidden,
                doc_link,
                hash,
                source,
            },
            PropNode::Integer {
                name,
                default_value,
                func_unique_id,
                widget_kind,
                widget_options,
                hidden,
                doc_link,
            } => SiPkgProp::Number {
                name,
                default_value,
                func_unique_id,
                widget_kind,
                widget_options,
                hidden,
                doc_link,
                hash,
                source,
            },
            PropNode::Boolean {
                name,
                default_value,
                func_unique_id,
                widget_kind,
                widget_options,
                hidden,
                doc_link,
            } => SiPkgProp::Boolean {
                name,
                default_value,
                func_unique_id,
                widget_kind,
                widget_options,
                hidden,
                doc_link,
                hash,
                source,
            },
            PropNode::Mapping {
                name,
                default_value,
                func_unique_id,
                widget_kind,
                widget_options,
                hidden,
                doc_link,
            } => SiPkgProp::Mapping {
                name,
                default_value,
                func_unique_id,
                widget_kind,
                widget_options,
                hidden,
                doc_link,
                hash,
                source,
            },
            PropNode::Array {
                name,
                default_value,
                func_unique_id,
                widget_kind,
                widget_options,
                hidden,
                doc_link,
            } => SiPkgProp::Array {
                name,
                default_value,
                func_unique_id,
                widget_kind,
                widget_options,
                hidden,
                doc_link,
                hash,
                source,
            },
            PropNode::Object {
                name,
                default_value,
                func_unique_id,
                widget_kind,
                widget_options,
                hidden,
                doc_link,
            } => SiPkgProp::Object {
                name,
                default_value,
                func_unique_id,
                widget_kind,
                widget_options,
                hidden,
                doc_link,
                hash,
                source,
            },
        }
    }

    /// What projecting the node of `graph` at `node_idx` as a property gives:
    /// the view of the node if it is a property, and otherwise the error that
    /// names the kind that was found.
    pub open spec fn projection(graph: &'a PkgGraph, node_idx: NodeIndex) -> Result<
        Self,
        SiPkgErrorView,
    > {
        let hashed = node_at(*graph, node_idx);
        match hashed.spec_inner() {
            PkgNode::Prop(node) => Ok(
                Self::of_node(node, hashed.spec_hash(), Source { graph, node_idx }),
            ),
            other => Err(
                SiPkgErrorView::UnexpectedPkgNodeType(
                    NodeKind::Prop.spec_as_str(),
                    other.spec_kind().spec_as_str(),
                ),
            ),
        }
    }

    /// Projects the node of `graph` at `node_idx` as a property. A node of any
    /// other kind is refused with the kind that it holds; no view is built
    /// for it.
    pub fn from_graph(graph: &'a PkgGraph, node_idx: NodeIndex) -> (result: PkgResult<Self>)
        requires
            has_node(*graph, node_idx),
        ensures
            outcome(result) == Self::projection(graph, node_idx),
            result is Ok <==> node_at(*graph, node_idx).spec_inner() is Prop,
            result matches Err(error) ==> error is UnexpectedPkgNodeType,
    {
        let prop_hashed_node = node_ref(graph, node_idx);
        let prop_node = match prop_hashed_node.inner() {
            PkgNode::Prop(node) => node,
            unexpected => {
                return Err(
                    SiPkgError::UnexpectedPkgNodeType(
                        NodeKind::Prop.as_str(),
                        unexpected.node_kind_str(),
                    ),
                );
            },
        };

        let hash = prop_hashed_node.hash();
        let source = Source::new(graph, node_idx);

        Ok(
            match prop_node {
                PropNode::String {
                    name,
                    default_value,
                    func_unique_id,
                    widget_kind,
                    widget_options,
                    hidden,
                    doc_link,
                } => SiPkgProp::String {
                    name: name.clone(),
                    default_value: clone_string_option(default_value),
                    func_unique_id: *func_unique_id,
                    widget_kind: *widget_kind,
                    widget_options: clone_json_option(widget_options),
                    hidden: *hidden,
                    doc_link: clone_url_option(doc_link),
                    hash,
                    source,
                },
                PropNode::Integer {
                    name,
                    default_value,
                    func_unique_id,
                    widget_kind,
                    widget_options,
                    hidden,
                    doc_link,
                } => SiPkgProp::Number {
                    name: name.clone(),
                    default_value: *default_value,
                    func_unique_id: *func_unique_id,
                    widget_kind: *widget_kind,
                    widget_options: clone_json_option(widget_options),
                    hidden: *hidden,
                    doc_link: clone_url_option(doc_link),
                    hash,
                    source,
                },
                PropNode::Boolean {
                    name,
                    default_value,
                    func_unique_id,
                    widget_kind,
                    widget_options,
                    hidden,
                    doc_link,
                } => SiPkgProp::Boolean {
                    name: name.clone(),
                    default_value: *default_value,
                    func_unique_id: *func_unique_id,
                    widget_kind: *widget_kind,
                    widget_options: clone_json_option(widget_options),
                    hidden: *hidden,
                    doc_link: clone_url_option(doc_link),
                    hash,
                    source,
                },
                PropNode::Mapping {
                    name,
                    default_value,
                    func_unique_id,
                    widget_kind,
                    widget_options,
                    hidden,
                    doc_link,
                } => SiPkgProp::Mapping {
                    name: name.clone(),
                    default_value: clone_json_option(default_value),
                    func_unique_id: *func_unique_id,
                    widget_kind: *widget_kind,
                    widget_options: clone_json_option(widget_options),
                    hidden: *hidden,
                    doc_link: clone_url_option(doc_link),
                    hash,
                    source,
                },
                PropNode::Array {
                    name,
                    default_value,
                    func_unique_id,
                    widget_kind,
                    widget_options,
                    hidden,
                    doc_link,
                } => SiPkgProp::Array {
                    name: name.clone(),
                    default_value: clone_json_option(default_value),
                    func_unique_id: *func_unique_id,
                    widget_kind: *widget_kind,
                    widget_options: clone_json_option(widget_options),
                    hidden: *hidden,
                    doc_link: clone_url_option(doc_link),
                    hash,
                    source,
                },
                PropNode::Object {
                    name,
                    default_value,
                    func_unique_id,
                    widget_kind,
                    widget_options,
                    hidden,
                    doc_link,
                } => SiPkgProp::Object {
                    name: name.clone(),
                    default_value: clone_json_option(default_value),
                    func_unique_id: *func_unique_id,
                    widget_kind: *widget_kind,
                    widget_options: clone_json_option(widget_options),
                    hidden: *hidden,
                    doc_link: clone_url_option(doc_link),
                    hash,
                    source,
                },
            },
        )
    }

    /// Projects the node of `graph` at `node_idx` as a property, where there is
    /// one: `None` stands for an index at which the graph has no node.
    pub fn project(graph: &'a PkgGraph, node_idx: NodeIndex) -> (found: Option<PkgResult<Self>>)
        ensures
            found is Some <==> has_node(*graph, node_idx),
            found matches Some(result) ==> outcome(result) == Self::projection(graph, node_idx),
    {
        match get_node(graph, node_idx) {
            Some(_) => Some(Self::from_graph(graph, node_idx)),
            None => None,
        }
    }

    /// Projection is repeatable: whatever two projections of the same node of
    /// the same graph return, they return views with the same scalar fields,
    /// the same hash and the same cursor, or the same error.
    pub proof fn lemma_projection_is_repeatable(
        graph: &'a PkgGraph,
        node_idx: NodeIndex,
        first: PkgResult<Self>,
        second: PkgResult<Self>,
    )
        requires
            has_node(*graph, node_idx),
            outcome(first) == Self::projection(graph, node_idx),
            outcome(second) == Self::projection(graph, node_idx),
        ensures
            outcome(first) == outcome(second),
            first matches Ok(a) ==> (second matches Ok(b) && a == b),
    {
    }

    /// A node that is no property is always refused: its projection is the
    /// error that names the property kind and the kind found, never a view.
    pub proof fn lemma_other_kinds_are_refused(graph: &'a PkgGraph, node_idx: NodeIndex)
        requires
            has_node(*graph, node_idx),
            node_at(*graph, node_idx).spec_inner() !is Prop,
        ensures
            Self::projection(graph, node_idx) == Err::<Self, SiPkgErrorView>(
                SiPkgErrorView::UnexpectedPkgNodeType(
                    NodeKind::Prop.spec_as_str(),
                    node_at(*graph, node_idx).spec_inner().spec_kind().spec_as_str(),
                ),
            ),
    {
    }

    /// The function reference identifier of the property, whatever its kind.
    pub open spec fn spec_func_unique_id(&self) -> Option<FuncUniqueId> {
        match *self {
            SiPkgProp::String { func_unique_id, .. }
            | SiPkgProp::Number { func_unique_id, .. }
            | SiPkgProp::Boolean { func_unique_id, .. }
            | SiPkgProp::Mapping { func_unique_id, .. }
            | SiPkgProp::Array { func_unique_id, .. }
            | SiPkgProp::Object { func_unique_id, .. } => func_unique_id,
        }
    }

    /// The name of the property, whatever its kind.
    pub open spec fn spec_name(&self) -> String {
        match *self {
            SiPkgProp::String { name, .. }
            | SiPkgProp::Number { name, .. }
            | SiPkgProp::Boolean { name, .. }
            | SiPkgProp::Mapping { name, .. }
            | SiPkgProp::Array { name, .. }
            | SiPkgProp::Object { name, .. } => name,
        }
    }

    /// The content hash of the property's node, whatever its kind.
    pub open spec fn spec_hash(&self) -> crate::hash::Hash {
        match *self {
            SiPkgProp::String { hash, .. }
            | SiPkgProp::Number { hash, .. }
            | SiPkgProp::Boolean { hash, .. }
            | SiPkgProp::Mapping { hash, .. }
            | SiPkgProp::Array { hash, .. }
            | SiPkgProp::Object { hash, .. } => hash,
        }
    }

    /// The cursor to the property's node, whatever its kind.
    pub open spec fn spec_source(&self) -> Source<'a> {
        match *self {
            SiPkgProp::String { source, .. }
            | SiPkgProp::Number { source, .. }
            | SiPkgProp::Boolean { source, .. }
            | SiPkgProp::Mapping { source, .. }
            | SiPkgProp::Array { source, .. }
            | SiPkgProp::Object { source, .. } => source,
        }
    }

    /// The function reference identifier of the property.
    pub fn func_unique_id(&self) -> (id: Option<FuncUniqueId>)
        ensures
            id == self.spec_func_unique_id(),
    {
        match self {
            SiPkgProp::String { func_unique_id, .. }
            | SiPkgProp::Number { func_unique_id, .. }
            | SiPkgProp::Boolean { func_unique_id, .. }
            | SiPkgProp::Mapping { func_unique_id, .. }
            | SiPkgProp::Array { func_unique_id, .. }
            | SiPkgProp::Object { func_unique_id, .. } => *func_unique_id,
        }
    }

    /// The name of the property.
    pub fn name(&self) -> (name: &str)
        ensures
            name@ == self.spec_name()@,
    {
        match self {
            SiPkgProp::String { name, .. }
            | SiPkgProp::Number { name, .. }
            | SiPkgProp::Boolean { name, .. }
            | SiPkgProp::Mapping { name, .. }
            | SiPkgProp::Array { name, .. }
            | SiPkgProp::Object { name, .. } => name.as_str(),
        }
    }

    /// The content hash of the property's node.
    pub fn hash(&self) -> (hash: crate::hash::Hash)
        ensures
            hash == self.spec_hash(),
    {
        match self {
            SiPkgProp::String { hash, .. }
            | SiPkgProp::Number { hash, .. }
            | SiPkgProp::Boolean { hash, .. }
            | SiPkgProp::Mapping { hash, .. }
            | SiPkgProp::Array { hash, .. }
            | SiPkgProp::Object { hash, .. } => *hash,
        }
    }

    /// The cursor to the property's node.
    pub fn source(&self) -> (source: &Source<'a>)
        ensures
            *source == self.spec_source(),
    {
        match self {
            SiPkgProp::String { source, .. }
            | SiPkgProp::Number { source, .. }
            | SiPkgProp::Boolean { source, .. }
            | SiPkgProp::Mapping { source, .. }
            | SiPkgProp::Array { source, .. }
            | SiPkgProp::Object { source, .. } => source,
        }
    }

    /// The nodes that a category accessor projects: the entries of `category`
    /// under the property's node.
    pub open spec fn entries(&self, category: PropChildNode) -> Seq<NodeIndex> {
        category_children(*self.spec_source().graph, self.spec_source().node_idx, category)
    }

    /// The validations of the property, in edge order. They are read from the
    /// graph on every call. A property without a validations marker has none;
    /// an entry that is no validation is refused with the kind that it holds.
    pub fn validations(&self) -> (result: PkgResult<Vec<SiPkgValidation<'a>>>)
        ensures
            projects_to(
                self.spec_source().graph,
                self.entries(PropChildNode::Validations),
                outcome_of(result),
            ),
            marker_of(
                *self.spec_source().graph,
                self.spec_source().node_idx,
                PropChildNode::Validations,
            ) is None ==> (result matches Ok(views) && views@.len() == 0),
    {
        let source = self.source();
        let child_node_idxs = children_of_category(
            source.graph,
            source.node_idx,
            PropChildNode::Validations,
        );
        project_all(source.graph, &child_node_idxs)
    }

    /// The inputs of the property's attribute function, in edge order. They
    /// are read from the graph on every call. A property without an inputs
    /// marker has none; an entry that is no input is refused with the kind
    /// that it holds.
    pub fn inputs(&self) -> (result: PkgResult<Vec<SiPkgAttrFuncInput<'a>>>)
        ensures
            projects_to(
                self.spec_source().graph,
                self.entries(PropChildNode::AttrFuncInputs),
                outcome_of(result),
            ),
            marker_of(
                *self.spec_source().graph,
                self.spec_source().node_idx,
                PropChildNode::AttrFuncInputs,
            ) is None ==> (result matches Ok(views) && views@.len() == 0),
    {
        let source = self.source();
        let child_node_idxs = children_of_category(
            source.graph,
            source.node_idx,
            PropChildNode::AttrFuncInputs,
        );
        project_all(source.graph, &child_node_idxs)
    }

    /// The map key functions of the property, in edge order. They are read
    /// from the graph on every call. A property without a map key functions
    /// marker has none; an entry that is no map key function is refused with
    /// the kind that it holds.
    pub fn map_key_funcs(&self) -> (result: PkgResult<Vec<SiPkgMapKeyFunc<'a>>>)
        ensures
            projects_to(
                self.spec_source().graph,
                self.entries(PropChildNode::MapKeyFuncs),
                outcome_of(result),
            ),
            marker_of(
                *self.spec_source().graph,
                self.spec_source().node_idx,
                PropChildNode::MapKeyFuncs,
            ) is None ==> (result matches Ok(views) && views@.len() == 0),
    {
        let source = self.source();
        let child_node_idxs = children_of_category(
            source.graph,
            source.node_idx,
            PropChildNode::MapKeyFuncs,
        );
        project_all(source.graph, &child_node_idxs)
    }
}

} // verus!
