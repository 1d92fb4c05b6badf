//! The closed set of node kinds that a package graph can hold.

use vstd::prelude::*;

use serde_json::Value;
use url::Url;

verus! {

/// `serde_json::Value`: a JSON value. Nodes carry such values through without
/// looking inside them.
#[verifier::external_type_specification]
#[verifier::external_body]
pub struct ExJsonValue(Value);

/// `url::Url`: a parsed URL. Nodes carry such links through without looking
/// inside them.
#[verifier::external_type_specification]
#[verifier::external_body]
pub struct ExUrl(Url);

/// Calls `Clone::clone` of `serde_json::Value`, which copies the whole value.
#[verifier::external_body]
pub(crate) fn clone_json(value: &Value) -> (copy: Value)
    ensures
        copy == *value,
{
    value.clone()
}

/// Calls `Clone::clone` of `url::Url`, which copies the serialization and the
/// component offsets.
#[verifier::external_body]
pub(crate) fn clone_url(link: &Url) -> (copy: Url)
    ensures
        copy == *link,
{
    link.clone()
}

/// A copy of an optional JSON value.
pub fn clone_json_option(value: &Option<Value>) -> (copy: Option<Value>)
    ensures
        copy == *value,
{
    match value {
        Some(inner) => Some(clone_json(inner)),
        None => None,
    }
}

/// A copy of an optional link.
pub fn clone_url_option(link: &Option<Url>) -> (copy: Option<Url>)
    ensures
        copy == *link,
{
    match link {
        Some(inner) => Some(clone_url(inner)),
        None => None,
    }
}

/// A copy of an optional string.
pub fn clone_string_option(text: &Option<String>) -> (copy: Option<String>)
    ensures
        copy == *text,
{
    match text {
        Some(inner) => Some(inner.clone()),
        None => None,
    }
}

/// A stable identifier of a function that is defined elsewhere in the package
/// or in the platform. A node that holds one does not own the function.
pub type FuncUniqueId = crate::hash::Hash;

/// How a property is presented for editing.
#[derive(Clone, Copy, Debug, PartialEq, Eq)]
pub enum PropSpecWidgetKind {
    Array,
    Checkbox,
    Color,
    ComboBox,
    Header,
    Mapping,
    SecretSelect,
    Select,
    Text,
    TextArea,
}

/// A property definition, one variant per property kind.
#[derive(Debug, PartialEq, Eq)]
#[allow(inconsistent_fields)]
pub enum PropNode {
    String {
        name: String,
        default_value: Option<String>,
        func_unique_id: Option<FuncUniqueId>,
        widget_kind: PropSpecWidgetKind,
        widget_options: Option<Value>,
        hidden: bool,
        doc_link: Option<Url>,
    },
    Integer {
        name: String,
        default_value: Option<i64>,
        func_unique_id: Option<FuncUniqueId>,
        widget_kind: PropSpecWidgetKind,
        widget_options: Option<Value>,
        hidden: bool,
        doc_link: Option<Url>,
    },
    Boolean {
        name: String,
        default_value: Option<bool>,
        func_unique_id: Option<FuncUniqueId>,
        widget_kind: PropSpecWidgetKind,
        widget_options: Option<Value>,
        hidden: bool,
        doc_link: Option<Url>,
    },
    Mapping {
        name: String,
        default_value: Option<Value>,
        func_unique_id: Option<FuncUniqueId>,
        widget_kind: PropSpecWidgetKind,
        widget_options: Option<Value>,
        hidden: bool,
        doc_link: Option<Url>,
    },
    Array {
        name: String,
        default_value: Option<Value>,
        func_unique_id: Option<FuncUniqueId>,
        widget_kind: PropSpecWidgetKind,
        widget_options: Option<Value>,
        hidden: bool,
        doc_link: Option<Url>,
    },
    Object {
        name: String,
        default_value: Option<Value>,
        func_unique_id: Option<FuncUniqueId>,
        widget_kind: PropSpecWidgetKind,
        widget_options: Option<Value>,
        hidden: bool,
        doc_link: Option<Url>,
    },
}

/// A category marker under a property: a structural node without content
/// that groups the children of one category.
#[derive(Clone, Copy, Debug, PartialEq, Eq, Structural)]
pub enum PropChildNode {
    AttrFuncInputs,
    MapKeyFuncs,
    Props,
    Validations,
}

/// A category marker under the package root.
#[derive(Clone, Copy, Debug, PartialEq, Eq, Structural)]
pub enum CategoryNode {
    Funcs,
    Schemas,
}

/// What a validation checks.
#[derive(Clone, Copy, Debug, PartialEq, Eq)]
pub enum ValidationSpecKind {
    CustomValidation,
    IntegerIsBetweenTwoIntegers,
    IntegerIsNotEmpty,
    StringEquals,
    StringHasPrefix,
    StringIsNotEmpty,
}

/// A validation rule attached to a property.
#[derive(Debug, PartialEq, Eq)]
pub struct ValidationNode {
    pub kind: ValidationSpecKind,
    pub lower_bound: Option<i64>,
    pub upper_bound: Option<i64>,
    pub expected_string: Option<String>,
    pub func_unique_id: Option<FuncUniqueId>,
}

/// Where the input of an attribute function comes from.
#[derive(Clone, Copy, Debug, PartialEq, Eq)]
pub enum AttrFuncInputSpecKind {
    InputSocket,
    OutputSocket,
    Prop,
}

/// One input of the attribute function that computes a property's value.
#[derive(Debug, PartialEq, Eq)]
pub struct AttrFuncInputNode {
    pub name: String,
    pub kind: AttrFuncInputSpecKind,
    /// The property path or the socket name, by `kind`.
    pub location: String,
}

/// The function that computes the value stored under one key of a map.
#[derive(Debug, PartialEq, Eq)]
pub struct MapKeyFuncNode {
    pub key: String,
    pub func_unique_id: FuncUniqueId,
}

/// Which engine runs a function.
#[derive(Clone, Copy, Debug, PartialEq, Eq)]
pub enum FuncSpecBackendKind {
    JsAttribute,
    JsValidation,
    JsWorkflow,
}

/// A function defined by the package.
#[derive(Debug, PartialEq, Eq)]
pub struct FuncNode {
    pub name: String,
    pub display_name: Option<String>,
    pub description: Option<String>,
    pub handler: String,
    pub code_base64: String,
    pub backend_kind: FuncSpecBackendKind,
    pub hidden: bool,
    pub link: Option<Url>,
    pub unique_id: FuncUniqueId,
}

/// A schema.
#[derive(Debug, PartialEq, Eq)]
pub struct SchemaNode {
    pub name: String,
    pub category: String,
    pub category_name: Option<String>,
    pub ui_hidden: bool,
}

/// One variant of a schema.
#[derive(Debug, PartialEq, Eq)]
pub struct SchemaVariantNode {
    pub name: String,
    pub link: Option<Url>,
    pub color: Option<String>,
}

/// The root of a package.
#[derive(Debug, PartialEq, Eq)]
pub struct PackageNode {
    pub name: String,
    pub version: String,
    pub description: String,
    pub created_by: String,
}

/// The content of one node of a package graph.
#[derive(Debug, PartialEq, Eq)]
pub enum PkgNode {
    AttrFuncInput(AttrFuncInputNode),
    Category(CategoryNode),
    Func(FuncNode),
    MapKeyFunc(MapKeyFuncNode),
    Package(PackageNode),
    Prop(PropNode),
    PropChild(PropChildNode),
    Schema(SchemaNode),
    SchemaVariant(SchemaVariantNode),
    Validation(ValidationNode),
}

/// The kind of a node, without its content.
#[derive(Clone, Copy, Debug, PartialEq, Eq, Structural)]
pub enum NodeKind {
    AttrFuncInput,
    Category,
    Func,
    MapKeyFunc,
    Package,
    Prop,
    PropChild,
    Schema,
    SchemaVariant,
    Validation,
}

impl NodeKind {
    /// The name of the kind as it appears in errors.
    pub open spec fn spec_as_str(self) -> Seq<char> {
        match self {
            NodeKind::AttrFuncInput => "attr_func_input"@,
            NodeKind::Category => "category"@,
            NodeKind::Func => "func"@,
            NodeKind::MapKeyFunc => "map_key_func"@,
            NodeKind::Package => "package"@,
            NodeKind::Prop => "prop"@,
            NodeKind::PropChild => "prop_child"@,
            NodeKind::Schema => "schema"@,
            NodeKind::SchemaVariant => "schema_variant"@,
            NodeKind::Validation => "validation"@,
        }
    }

    /// The name of the kind as it appears in errors.
    pub fn as_str(self) -> (name: &'static str)
        ensures
            name@ == self.spec_as_str(),
    {
        match self {
            NodeKind::AttrFuncInput => "attr_func_input",
            NodeKind::Category => "category",
            NodeKind::Func => "func",
            NodeKind::MapKeyFunc => "map_key_func",
            NodeKind::Package => "package",
            NodeKind::Prop => "prop",
            NodeKind::PropChild => "prop_child",
            NodeKind::Schema => "schema",
            NodeKind::SchemaVariant => "schema_variant",
            NodeKind::Validation => "validation",
        }
    }
}

impl PkgNode {
    /// The kind of this node.
    pub open spec fn spec_kind(&self) -> NodeKind {
        match self {
            PkgNode::AttrFuncInput(_) => NodeKind::AttrFuncInput,
            PkgNode::Category(_) => NodeKind::Category,
            PkgNode::Func(_) => NodeKind::Func,
            PkgNode::MapKeyFunc(_) => NodeKind::MapKeyFunc,
            PkgNode::Package(_) => NodeKind::Package,
            PkgNode::Prop(_) => NodeKind::Prop,
            PkgNode::PropChild(_) => NodeKind::PropChild,
            PkgNode::Schema(_) => NodeKind::Schema,
            PkgNode::SchemaVariant(_) => NodeKind::SchemaVariant,
            PkgNode::Validation(_) => NodeKind::Validation,
        }
    }

    /// The kind of this node. Every kind has an arm of its own, so a new kind
    /// does not build until it is handled here.
    pub fn kind(&self) -> (kind: NodeKind)
        ensures
            kind == self.spec_kind(),
    {
        match self {
            PkgNode::AttrFuncInput(_) => NodeKind::AttrFuncInput,
            PkgNode::Category(_) => NodeKind::Category,
            PkgNode::Func(_) => NodeKind::Func,
            PkgNode::MapKeyFunc(_) => NodeKind::MapKeyFunc,
            PkgNode::Package(_) => NodeKind::Package,
            PkgNode::Prop(_) => NodeKind::Prop,
            PkgNode::PropChild(_) => NodeKind::PropChild,
            PkgNode::Schema(_) => NodeKind::Schema,
            PkgNode::SchemaVariant(_) => NodeKind::SchemaVariant,
            PkgNode::Validation(_) => NodeKind::Validation,
        }
    }

    /// The name of this node's kind as it appears in errors.
    pub fn node_kind_str(&self) -> (name: &'static str)
        ensures
            name@ == self.spec_kind().spec_as_str(),
    {
        self.kind().as_str()
    }

    /// Whether this node is the marker of the given category under a property.
    pub open spec fn spec_is_prop_child(&self, category: PropChildNode) -> bool {
        *self == PkgNode::PropChild(category)
    }

    /// Whether this node is the marker of the given category under a property.
    pub fn is_prop_child(&self, category: PropChildNode) -> (is_marker: bool)
        ensures
            is_marker == self.spec_is_prop_child(category),
    {
        match self {
            PkgNode::PropChild(marker) => *marker == category,
            _ => false,
        }
    }
}

} // verus!
