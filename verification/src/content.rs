//! The content of each kind of node as a sequence of fields, and the code
//! that writes it in its canonical encoding.
//!
//! The content of a node starts with the number of its kind. The scalar
//! fields follow in the order in which the node declares them; a closed set
//! is written as the number of the alternative, counted from zero in the
//! order of declaration.

use vstd::prelude::*;

use crate::encoding::{
    all_encode, field_encodes, optional_flag, optional_id, optional_integer, optional_json,
    optional_link, optional_text, ContentWriter, Field,
};
use crate::error::GraphError;
use crate::node::{
    AttrFuncInputNode, AttrFuncInputSpecKind, CategoryNode, FuncNode, FuncSpecBackendKind,
    MapKeyFuncNode, NodeKind, PackageNode, PkgNode, PropChildNode, PropNode, PropSpecWidgetKind,
    SchemaNode, SchemaVariantNode, ValidationNode, ValidationSpecKind,
};

verus! {

impl NodeKind {
    /// The number of the kind.
    pub open spec fn spec_tag(self) -> u8 {
        match self {
            NodeKind::AttrFuncInput => 0,
            NodeKind::Category => 1,
            NodeKind::Func => 2,
            NodeKind::MapKeyFunc => 3,
            NodeKind::Package => 4,
            NodeKind::Prop => 5,
            NodeKind::PropChild => 6,
            NodeKind::Schema => 7,
            NodeKind::SchemaVariant => 8,
            NodeKind::Validation => 9,
        }
    }

    /// The number of the kind.
    pub fn tag(self) -> (tag: u8)
        ensures
            tag == self.spec_tag(),
    {
        match self {
            NodeKind::AttrFuncInput => 0,
            NodeKind::Category => 1,
            NodeKind::Func => 2,
            NodeKind::MapKeyFunc => 3,
            NodeKind::Package => 4,
            NodeKind::Prop => 5,
            NodeKind::PropChild => 6,
            NodeKind::Schema => 7,
            NodeKind::SchemaVariant => 8,
            NodeKind::Validation => 9,
        }
    }
}

impl PropSpecWidgetKind {
    /// The number of the widget kind.
    pub open spec fn spec_tag(self) -> u8 {
        match self {
            PropSpecWidgetKind::Array => 0,
            PropSpecWidgetKind::Checkbox => 1,
            PropSpecWidgetKind::Color => 2,
            PropSpecWidgetKind::ComboBox => 3,
            PropSpecWidgetKind::Header => 4,
            PropSpecWidgetKind::Mapping => 5,
            PropSpecWidgetKind::SecretSelect => 6,
            PropSpecWidgetKind::Select => 7,
            PropSpecWidgetKind::Text => 8,
            PropSpecWidgetKind::TextArea => 9,
        }
    }

    /// The number of the widget kind.
    pub fn tag(self) -> (tag: u8)
        ensures
            tag == self.spec_tag(),
    {
        match self {
            PropSpecWidgetKind::Array => 0,
            PropSpecWidgetKind::Checkbox => 1,
            PropSpecWidgetKind::Color => 2,
            PropSpecWidgetKind::ComboBox => 3,
            PropSpecWidgetKind::Header => 4,
            PropSpecWidgetKind::Mapping => 5,
            PropSpecWidgetKind::SecretSelect => 6,
            PropSpecWidgetKind::Select => 7,
            PropSpecWidgetKind::Text => 8,
            PropSpecWidgetKind::TextArea => 9,
        }
    }
}

impl PropChildNode {
    /// The number of the category.
    pub open spec fn spec_tag(self) -> u8 {
        match self {
            PropChildNode::AttrFuncInputs => 0,
            PropChildNode::MapKeyFuncs => 1,
            PropChildNode::Props => 2,
            PropChildNode::Validations => 3,
        }
    }

    /// The number of the category.
    pub fn tag(self) -> (tag: u8)
        ensures
            tag == self.spec_tag(),
    {
        match self {
            PropChildNode::AttrFuncInputs => 0,
            PropChildNode::MapKeyFuncs => 1,
            PropChildNode::Props => 2,
            PropChildNode::Validations => 3,
        }
    }
}

impl CategoryNode {
    /// The number of the category.
    pub open spec fn spec_tag(self) -> u8 {
        match self {
            CategoryNode::Funcs => 0,
            CategoryNode::Schemas => 1,
        }
    }

    /// The number of the category.
    pub fn tag(self) -> (tag: u8)
        ensures
            tag == self.spec_tag(),
    {
        match self {
            CategoryNode::Funcs => 0,
            CategoryNode::Schemas => 1,
        }
    }
}

impl ValidationSpecKind {
    /// The number of the validation kind.
    pub open spec fn spec_tag(self) -> u8 {
        match self {
            ValidationSpecKind::CustomValidation => 0,
            ValidationSpecKind::IntegerIsBetweenTwoIntegers => 1,
            ValidationSpecKind::IntegerIsNotEmpty => 2,
            ValidationSpecKind::StringEquals => 3,
            ValidationSpecKind::StringHasPrefix => 4,
            ValidationSpecKind::StringIsNotEmpty => 5,
        }
    }

    /// The number of the validation kind.
    pub fn tag(self) -> (tag: u8)
        ensures
            tag == self.spec_tag(),
    {
        match self {
            ValidationSpecKind::CustomValidation => 0,
            ValidationSpecKind::IntegerIsBetweenTwoIntegers => 1,
            ValidationSpecKind::IntegerIsNotEmpty => 2,
            ValidationSpecKind::StringEquals => 3,
            ValidationSpecKind::StringHasPrefix => 4,
            ValidationSpecKind::StringIsNotEmpty => 5,
        }
    }
}

impl AttrFuncInputSpecKind {
    /// The number of the input kind.
    pub open spec fn spec_tag(self) -> u8 {
        match self {
            AttrFuncInputSpecKind::InputSocket => 0,
            AttrFuncInputSpecKind::OutputSocket => 1,
            AttrFuncInputSpecKind::Prop => 2,
        }
    }

    /// The number of the input kind.
    pub fn tag(self) -> (tag: u8)
        ensures
            tag == self.spec_tag(),
    {
        match self {
            AttrFuncInputSpecKind::InputSocket => 0,
            AttrFuncInputSpecKind::OutputSocket => 1,
            AttrFuncInputSpecKind::Prop => 2,
        }
    }
}

impl FuncSpecBackendKind {
    /// The number of the backend kind.
    pub open spec fn spec_tag(self) -> u8 {
        match self {
            FuncSpecBackendKind::JsAttribute => 0,
            FuncSpecBackendKind::JsValidation => 1,
            FuncSpecBackendKind::JsWorkflow => 2,
        }
    }

    /// The number of the backend kind.
    pub fn tag(self) -> (tag: u8)
        ensures
            tag == self.spec_tag(),
    {
        match self {
            FuncSpecBackendKind::JsAttribute => 0,
            FuncSpecBackendKind::JsValidation => 1,
            FuncSpecBackendKind::JsWorkflow => 2,
        }
    }
}

/// Whether `writer` holds, after what `before` held, exactly `content`.
pub open spec fn wrote(writer: &ContentWriter, before: &ContentWriter, content: Seq<Field>) -> bool {
    &&& writer.wf()
    &&& writer.fields() == before.fields() + content
}

impl PropNode {
    /// The number of the property kind.
    pub open spec fn spec_tag(&self) -> u8 {
        match self {
            PropNode::String { .. } => 0,
            PropNode::Integer { .. } => 1,
            PropNode::Boolean { .. } => 2,
            PropNode::Mapping { .. } => 3,
            PropNode::Array { .. } => 4,
            PropNode::Object { .. } => 5,
        }
    }

    /// The default value of the property as a field.
    pub open spec fn spec_default(&self) -> Field {
        match *self {
            PropNode::String { default_value, .. } => optional_text(default_value),
            PropNode::Integer { default_value, .. } => optional_integer(default_value),
            PropNode::Boolean { default_value, .. } => optional_flag(default_value),
            PropNode::Mapping { default_value, .. } => optional_json(default_value),
            PropNode::Array { default_value, .. } => optional_json(default_value),
            PropNode::Object { default_value, .. } => optional_json(default_value),
        }
    }

    /// The fields that every property kind has, after its default value.
    pub open spec fn spec_common(&self) -> (
        String,
        Option<crate::hash::Hash>,
        PropSpecWidgetKind,
        Option<serde_json::Value>,
        bool,
        Option<url::Url>,
    ) {
        match *self {
            PropNode::String { name, func_unique_id, widget_kind, widget_options, hidden, doc_link, .. }
            | PropNode::Integer {
                name,
                func_unique_id,
                widget_kind,
                widget_options,
                hidden,
                doc_link,
                ..
            }
            | PropNode::Boolean {
                name,
                func_unique_id,
                widget_kind,
                widget_options,
                hidden,
                doc_link,
                ..
            }
            | PropNode::Mapping {
                name,
                func_unique_id,
                widget_kind,
                widget_options,
                hidden,
                doc_link,
                ..
            }
            | PropNode::Array {
                name,
                func_unique_id,
                widget_kind,
                widget_options,
                hidden,
                doc_link,
                ..
            }
            | PropNode::Object {
                name,
                func_unique_id,
                widget_kind,
                widget_options,
                hidden,
                doc_link,
                ..
            } => (name, func_unique_id, widget_kind, widget_options, hidden, doc_link),
        }
    }

    /// The content of the property.
    pub open spec fn content(&self) -> Seq<Field> {
        let (name, func_unique_id, widget_kind, widget_options, hidden, doc_link) =
            self.spec_common();
        seq![
            Field::Choice(self.spec_tag()),
            Field::Text(name@),
            self.spec_default(),
            optional_id(func_unique_id),
            Field::Choice(widget_kind.spec_tag()),
            optional_json(widget_options),
            Field::Flag(hidden),
            optional_link(doc_link),
        ]
    }

    /// Writes the fields that every property kind has, after its default
    /// value.
    fn write_common(
        writer: &mut ContentWriter,
        func_unique_id: &Option<crate::hash::Hash>,
        widget_kind: PropSpecWidgetKind,
        widget_options: &Option<serde_json::Value>,
        hidden: bool,
        doc_link: &Option<url::Url>,
    ) -> (result: Result<(), GraphError>)
        requires
            old(writer).wf(),
        ensures
            result is Ok <==> field_encodes(optional_json(*widget_options)),
            match result {
                Ok(_) => wrote(
                    final(writer),
                    old(writer),
                    seq![
                        optional_id(*func_unique_id),
                        Field::Choice(widget_kind.spec_tag()),
                        optional_json(*widget_options),
                        Field::Flag(hidden),
                        optional_link(*doc_link),
                    ],
                ),
                Err(error) => error == GraphError::JsonEncoding,
            },
    {
        writer.optional_id(func_unique_id);
        writer.choice(widget_kind.tag());
        writer.optional_json(widget_options)?;
        writer.flag(hidden);
        writer.optional_link(doc_link);
        assert(writer.fields() =~= old(writer).fields() + seq![
            optional_id(*func_unique_id),
            Field::Choice(widget_kind.spec_tag()),
            optional_json(*widget_options),
            Field::Flag(hidden),
            optional_link(*doc_link),
        ]);
        Ok(())
    }

    /// The content of a property can be encoded exactly when its default
    /// value and its widget options can: no other field holds JSON.
    pub proof fn lemma_encodes(&self)
        ensures
            all_encode(self.content()) <==> field_encodes(self.spec_default()) && field_encodes(
                optional_json(self.spec_common().3),
            ),
    {
        let content = self.content();
        assert(content[2] == self.spec_default());
        assert(content[5] == optional_json(self.spec_common().3));
        if field_encodes(content[2]) && field_encodes(content[5]) {
            assert forall|k: int| 0 <= k < content.len() implies field_encodes(
                #[trigger] content[k],
            ) by {
                if k == 0 {
                } else if k == 1 {
                } else if k == 2 {
                } else if k == 3 {
                } else if k == 4 {
                } else if k == 5 {
                } else if k == 6 {
                } else {
                }
            }
        }
    }

    /// Writes the content of the property. Writing succeeds exactly when
    /// every JSON value that the property holds can be serialized.
    pub fn write_content(&self, writer: &mut ContentWriter) -> (result: Result<(), GraphError>)
        requires
            old(writer).wf(),
        ensures
            result is Ok <==> all_encode(self.content()),
            match result {
                Ok(_) => wrote(final(writer), old(writer), self.content()),
                Err(error) => error == GraphError::JsonEncoding,
            },
    {
        let ghost content = self.content();
        proof {
            self.lemma_encodes();
        }
        match self {
            PropNode::String {
                name,
                default_value,
                func_unique_id,
                widget_kind,
                widget_options,
                hidden,
                doc_link,
            } => {
                writer.choice(0);
                writer.text(name.as_str());
                writer.optional_text(default_value);
                let rest = Self::write_common(
                    writer,
                    func_unique_id,
                    *widget_kind,
                    widget_options,
                    *hidden,
                    doc_link,
                );
                proof {
                    assert(content[5] == optional_json(*widget_options));
                    if rest is Ok {
                        assert(writer.fields() =~= old(writer).fields() + content);
                    }
                }
                rest
            },
            PropNode::Integer {
                name,
                default_value,
                func_unique_id,
                widget_kind,
                widget_options,
                hidden,
                doc_link,
            } => {
                writer.choice(1);
                writer.text(name.as_str());
                writer.optional_integer(*default_value);
                let rest = Self::write_common(
                    writer,
                    func_unique_id,
                    *widget_kind,
                    widget_options,
                    *hidden,
                    doc_link,
                );
                proof {
                    assert(content[5] == optional_json(*widget_options));
                    if rest is Ok {
                        assert(writer.fields() =~= old(writer).fields() + content);
                    }
                }
                rest
            },
            PropNode::Boolean {
                name,
                default_value,
                func_unique_id,
                widget_kind,
                widget_options,
                hidden,
                doc_link,
            } => {
                writer.choice(2);
                writer.text(name.as_str());
                writer.optional_flag(*default_value);
                let rest = Self::write_common(
                    writer,
                    func_unique_id,
                    *widget_kind,
                    widget_options,
                    *hidden,
                    doc_link,
                );
                proof {
                    assert(content[5] == optional_json(*widget_options));
                    if rest is Ok {
                        assert(writer.fields() =~= old(writer).fields() + content);
                    }
                }
                rest
            },
            PropNode::Mapping {
                name,
                default_value,
                func_unique_id,
                widget_kind,
                widget_options,
                hidden,
                doc_link,
            } => {
                writer.choice(3);
                writer.text(name.as_str());
                proof {
                    assert(content[2] == optional_json(*default_value));
                }
                writer.optional_json(default_value)?;
                let rest = Self::write_common(
                    writer,
                    func_unique_id,
                    *widget_kind,
                    widget_options,
                    *hidden,
                    doc_link,
                );
                proof {
                    assert(content[5] == optional_json(*widget_options));
                    if rest is Ok {
                        assert(writer.fields() =~= old(writer).fields() + content);
                    }
                }
                rest
            },
            PropNode::Array {
                name,
                default_value,
                func_unique_id,
                widget_kind,
                widget_options,
                hidden,
                doc_link,
            } => {
                writer.choice(4);
                writer.text(name.as_str());
                proof {
                    assert(content[2] == optional_json(*default_value));
                }
                writer.optional_json(default_value)?;
                let rest = Self::write_common(
                    writer,
                    func_unique_id,
                    *widget_kind,
                    widget_options,
                    *hidden,
                    doc_link,
                );
                proof {
                    assert(content[5] == optional_json(*widget_options));
                    if rest is Ok {
                        assert(writer.fields() =~= old(writer).fields() + content);
                    }
                }
                rest
            },
            PropNode::Object {
                name,
                default_value,
                func_unique_id,
                widget_kind,
                widget_options,
                hidden,
                doc_link,
            } => {
                writer.choice(5);
                writer.text(name.as_str());
                proof {
                    assert(content[2] == optional_json(*default_value));
                }
                writer.optional_json(default_value)?;
                let rest = Self::write_common(
                    writer,
                    func_unique_id,
                    *widget_kind,
                    widget_options,
                    *hidden,
                    doc_link,
                );
                proof {
                    assert(content[5] == optional_json(*widget_options));
                    if rest is Ok {
                        assert(writer.fields() =~= old(writer).fields() + content);
                    }
                }
                rest
            },
        }
    }
}

impl ValidationNode {
    /// The content of the validation.
    pub open spec fn content(&self) -> Seq<Field> {
        seq![
            Field::Choice(self.kind.spec_tag()),
            optional_integer(self.lower_bound),
            optional_integer(self.upper_bound),
            optional_text(self.expected_string),
            optional_id(self.func_unique_id),
        ]
    }

    /// Writes the content of the validation.
    pub fn write_content(&self, writer: &mut ContentWriter)
        requires
            old(writer).wf(),
        ensures
            wrote(final(writer), old(writer), self.content()),
    {
        writer.choice(self.kind.tag());
        writer.optional_integer(self.lower_bound);
        writer.optional_integer(self.upper_bound);
        writer.optional_text(&self.expected_string);
        writer.optional_id(&self.func_unique_id);
        assert(writer.fields() =~= old(writer).fields() + self.content());
    }
}

impl AttrFuncInputNode {
    /// The content of the input.
    pub open spec fn content(&self) -> Seq<Field> {
        seq![
            Field::Text(self.name@),
            Field::Choice(self.kind.spec_tag()),
            Field::Text(self.location@),
        ]
    }

    /// Writes the content of the input.
    pub fn write_content(&self, writer: &mut ContentWriter)
        requires
            old(writer).wf(),
        ensures
            wrote(final(writer), old(writer), self.content()),
    {
        writer.text(self.name.as_str());
        writer.choice(self.kind.tag());
        writer.text(self.location.as_str());
        assert(writer.fields() =~= old(writer).fields() + self.content());
    }
}

impl MapKeyFuncNode {
    /// The content of the map key function.
    pub open spec fn content(&self) -> Seq<Field> {
        seq![Field::Text(self.key@), Field::Id(self.func_unique_id)]
    }

    /// Writes the content of the map key function.
    pub fn write_content(&self, writer: &mut ContentWriter)
        requires
            old(writer).wf(),
        ensures
            wrote(final(writer), old(writer), self.content()),
    {
        writer.text(self.key.as_str());
        writer.id(&self.func_unique_id);
        assert(writer.fields() =~= old(writer).fields() + self.content());
    }
}

impl FuncNode {
    /// The content of the function.
    pub open spec fn content(&self) -> Seq<Field> {
        seq![
            Field::Text(self.name@),
            optional_text(self.display_name),
            optional_text(self.description),
            Field::Text(self.handler@),
            Field::Text(self.code_base64@),
            Field::Choice(self.backend_kind.spec_tag()),
            Field::Flag(self.hidden),
            optional_link(self.link),
            Field::Id(self.unique_id),
        ]
    }

    /// Writes the content of the function.
    pub fn write_content(&self, writer: &mut ContentWriter)
        requires
            old(writer).wf(),
        ensures
            wrote(final(writer), old(writer), self.content()),
    {
        writer.text(self.name.as_str());
        writer.optional_text(&self.display_name);
        writer.optional_text(&self.description);
        writer.text(self.handler.as_str());
        writer.text(self.code_base64.as_str());
        writer.choice(self.backend_kind.tag());
        writer.flag(self.hidden);
        writer.optional_link(&self.link);
        writer.id(&self.unique_id);
        assert(writer.fields() =~= old(writer).fields() + self.content());
    }
}

impl SchemaNode {
    /// The content of the schema.
    pub open spec fn content(&self) -> Seq<Field> {
        seq![
            Field::Text(self.name@),
            Field::Text(self.category@),
            optional_text(self.category_name),
            Field::Flag(self.ui_hidden),
        ]
    }

    /// Writes the content of the schema.
    pub fn write_content(&self, writer: &mut ContentWriter)
        requires
            old(writer).wf(),
        ensures
            wrote(final(writer), old(writer), self.content()),
    {
        writer.text(self.name.as_str());
        writer.text(self.category.as_str());
        writer.optional_text(&self.category_name);
        writer.flag(self.ui_hidden);
        assert(writer.fields() =~= old(writer).fields() + self.content());
    }
}

impl SchemaVariantNode {
    /// The content of the schema variant.
    pub open spec fn content(&self) -> Seq<Field> {
        seq![Field::Text(self.name@), optional_link(self.link), optional_text(self.color)]
    }

    /// Writes the content of the schema variant.
    pub fn write_content(&self, writer: &mut ContentWriter)
        requires
            old(writer).wf(),
        ensures
            wrote(final(writer), old(writer), self.content()),
    {
        writer.text(self.name.as_str());
        writer.optional_link(&self.link);
        writer.optional_text(&self.color);
        assert(writer.fields() =~= old(writer).fields() + self.content());
    }
}

impl PackageNode {
    /// The content of the package root.
    pub open spec fn content(&self) -> Seq<Field> {
        seq![
            Field::Text(self.name@),
            Field::Text(self.version@),
            Field::Text(self.description@),
            Field::Text(self.created_by@),
        ]
    }

    /// Writes the content of the package root.
    pub fn write_content(&self, writer: &mut ContentWriter)
        requires
            old(writer).wf(),
        ensures
            wrote(final(writer), old(writer), self.content()),
    {
        writer.text(self.name.as_str());
        writer.text(self.version.as_str());
        writer.text(self.description.as_str());
        writer.text(self.created_by.as_str());
        assert(writer.fields() =~= old(writer).fields() + self.content());
    }
}

impl PkgNode {
    /// The scalar fields of the node, without the number of its kind. A
    /// category marker has one field, the number of its category.
    pub open spec fn fields(&self) -> Seq<Field> {
        match self {
            PkgNode::AttrFuncInput(node) => node.content(),
            PkgNode::Category(node) => seq![Field::Choice(node.spec_tag())],
            PkgNode::Func(node) => node.content(),
            PkgNode::MapKeyFunc(node) => node.content(),
            PkgNode::Package(node) => node.content(),
            PkgNode::Prop(node) => node.content(),
            PkgNode::PropChild(node) => seq![Field::Choice(node.spec_tag())],
            PkgNode::Schema(node) => node.content(),
            PkgNode::SchemaVariant(node) => node.content(),
            PkgNode::Validation(node) => node.content(),
        }
    }

    /// The content of the node: the number of its kind, then its scalar
    /// fields.
    pub open spec fn content(&self) -> Seq<Field> {
        seq![Field::Choice(self.spec_kind().spec_tag())] + self.fields()
    }

    /// Only a property holds JSON: the content of a node can be encoded
    /// exactly when the node is no property, or is a property whose content
    /// can be encoded.
    pub proof fn lemma_encodes(&self)
        ensures
            all_encode(self.content()) <==> (*self matches PkgNode::Prop(node) ==> all_encode(
                node.content(),
            )),
    {
        let content = self.content();
        let fields = self.fields();
        assert forall|k: int| 0 <= k < fields.len() implies content[k + 1] == #[trigger] fields[k] by {}
        match self {
            PkgNode::Prop(node) => {
                if all_encode(content) {
                    assert forall|k: int| 0 <= k < fields.len() implies field_encodes(
                        #[trigger] fields[k],
                    ) by {
                        assert(field_encodes(content[k + 1]));
                    }
                }
                if all_encode(fields) {
                    assert forall|k: int| 0 <= k < content.len() implies field_encodes(
                        #[trigger] content[k],
                    ) by {
                        if k > 0 {
                            assert(content[k] == fields[k - 1]);
                        }
                    }
                }
            },
            _ => {
                assert forall|k: int| 0 <= k < fields.len() implies !((#[trigger] fields[k]) is Json) by {
                    if k == 0 {
                    } else if k == 1 {
                    } else if k == 2 {
                    } else if k == 3 {
                    } else if k == 4 {
                    } else if k == 5 {
                    } else if k == 6 {
                    } else if k == 7 {
                    } else {
                    }
                }
                assert forall|k: int| 0 <= k < content.len() implies field_encodes(
                    #[trigger] content[k],
                ) by {
                    if k > 0 {
                        assert(content[k] == fields[k - 1]);
                    }
                }
            },
        }
    }

    /// Writes the content of the node. Writing succeeds exactly when every
    /// JSON value that the node holds can be serialized.
    pub fn write_content(&self, writer: &mut ContentWriter) -> (result: Result<(), GraphError>)
        requires
            old(writer).wf(),
        ensures
            result is Ok <==> all_encode(self.content()),
            match result {
                Ok(_) => wrote(final(writer), old(writer), self.content()),
                Err(error) => error == GraphError::JsonEncoding,
            },
    {
        proof {
            self.lemma_encodes();
        }
        writer.choice(self.kind().tag());
        match self {
            PkgNode::AttrFuncInput(node) => node.write_content(writer),
            PkgNode::Category(node) => {
                writer.choice(node.tag());
                assert(writer.fields() =~= old(writer).fields() + self.content());
            },
            PkgNode::Func(node) => node.write_content(writer),
            PkgNode::MapKeyFunc(node) => node.write_content(writer),
            PkgNode::Package(node) => node.write_content(writer),
            PkgNode::Prop(node) => {
                let written = node.write_content(writer);
                proof {
                    if written is Ok {
                        assert(writer.fields() =~= old(writer).fields() + self.content());
                    }
                }
                return written;
            },
            PkgNode::PropChild(node) => {
                writer.choice(node.tag());
                assert(writer.fields() =~= old(writer).fields() + self.content());
            },
            PkgNode::Schema(node) => node.write_content(writer),
            PkgNode::SchemaVariant(node) => node.write_content(writer),
            PkgNode::Validation(node) => node.write_content(writer),
        }
        assert(writer.fields() =~= old(writer).fields() + self.content());
        Ok(())
    }
}

} // verus!
