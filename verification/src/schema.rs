//! Authoring-time value objects for schemas, and the builder that validates
//! them.
//!
//! A builder collects field values and hands out the finished value only
//! when `build` is called. A required field that was never set makes `build`
//! fail with the name of that field; an optional one takes its default.

use vstd::prelude::*;

use crate::error::SpecError;

verus! {

/// One variant of a schema, as authored.
#[derive(Debug, PartialEq, Eq)]
pub struct SchemaVariantSpec {
    pub name: String,
    pub color: Option<String>,
}

/// The mathematical content of a [`SchemaVariantSpec`].
pub struct SchemaVariantSpecView {
    pub name: Seq<char>,
    pub color: Option<Seq<char>>,
}

/// The characters of an optional string.
pub open spec fn text_view(text: Option<String>) -> Option<Seq<char>> {
    match text {
        Some(inner) => Some(inner@),
        None => None,
    }
}

impl View for SchemaVariantSpec {
    type V = SchemaVariantSpecView;

    open spec fn view(&self) -> SchemaVariantSpecView {
        SchemaVariantSpecView { name: self.name@, color: text_view(self.color) }
    }
}

impl Clone for SchemaVariantSpec {
    fn clone(&self) -> (copy: Self)
        ensures
            copy@ == self@,
            copy == *self,
    {
        SchemaVariantSpec {
            name: self.name.clone(),
            color: match &self.color {
                Some(color) => Some(color.clone()),
                None => None,
            },
        }
    }
}

impl SchemaVariantSpec {
    /// A variant with the given name and no color.
    pub fn new(name: &str) -> (variant: Self)
        ensures
            variant@ == (SchemaVariantSpecView { name: name@, color: None }),
    {
        SchemaVariantSpec { name: name.to_owned(), color: None }
    }
}

/// The contents of a list of variants.
pub open spec fn variants_view(variants: Seq<SchemaVariantSpec>) -> Seq<SchemaVariantSpecView> {
    Seq::new(variants.len(), |k: int| variants[k]@)
}

/// A copy of a list of variants.
fn clone_variants(variants: &Vec<SchemaVariantSpec>) -> (copy: Vec<SchemaVariantSpec>)
    ensures
        variants_view(copy@) == variants_view(variants@),
{
    let mut copy: Vec<SchemaVariantSpec> = Vec::new();
    let mut i: usize = 0;
    while i < variants.len()
        invariant
            i <= variants@.len(),
            copy@.len() == i,
            forall|k: int| 0 <= k < i ==> (#[trigger] copy@[k])@ == variants@[k]@,
        decreases variants@.len() - i,
    {
        copy.push(variants[i].clone());
        i += 1;
    }
    assert(variants_view(copy@) =~= variants_view(variants@));
    copy
}

/// A schema, as authored: a pure value with no ties to a graph.
#[derive(Debug, PartialEq, Eq)]
pub struct SchemaSpec {
    pub name: String,
    pub category: String,
    pub category_name: Option<String>,
    pub variants: Vec<SchemaVariantSpec>,
    pub ui_hidden: bool,
}

/// The mathematical content of a [`SchemaSpec`].
pub struct SchemaSpecView {
    pub name: Seq<char>,
    pub category: Seq<char>,
    pub category_name: Option<Seq<char>>,
    pub variants: Seq<SchemaVariantSpecView>,
    pub ui_hidden: bool,
}

impl View for SchemaSpec {
    type V = SchemaSpecView;

    open spec fn view(&self) -> SchemaSpecView {
        SchemaSpecView {
            name: self.name@,
            category: self.category@,
            category_name: text_view(self.category_name),
            variants: variants_view(self.variants@),
            ui_hidden: self.ui_hidden,
        }
    }
}

/// The mathematical content of a [`SchemaSpecBuilder`]: for each field, the
/// value that was set, if any.
pub struct SchemaSpecBuilderView {
    pub name: Option<Seq<char>>,
    pub category: Option<Seq<char>>,
    pub category_name: Option<Option<Seq<char>>>,
    pub variants: Option<Seq<SchemaVariantSpecView>>,
    pub ui_hidden: Option<bool>,
}

impl SchemaSpecBuilderView {
    /// The builder in which nothing is set.
    pub open spec fn unset() -> Self {
        SchemaSpecBuilderView {
            name: None,
            category: None,
            category_name: None,
            variants: None,
            ui_hidden: None,
        }
    }

    /// The variants collected so far: none where the field was never set.
    pub open spec fn collected(self) -> Seq<SchemaVariantSpecView> {
        match self.variants {
            Some(variants) => variants,
            None => Seq::empty(),
        }
    }

    /// The builder after one more variant was appended.
    pub open spec fn with_variant(self, item: SchemaVariantSpecView) -> Self {
        SchemaSpecBuilderView { variants: Some(self.collected().push(item)), ..self }
    }

    /// What finalizing gives: the name of the first required field that is
    /// not set, in the order name, category; and otherwise the schema, with
    /// the defaults for what was not set: no display category, no variants,
    /// shown.
    pub open spec fn build(self) -> Result<SchemaSpecView, Seq<char>> {
        if self.name is None {
            Err("name"@)
        } else if self.category is None {
            Err("category"@)
        } else {
            Ok(
                SchemaSpecView {
                    name: self.name->0,
                    category: self.category->0,
                    category_name: match self.category_name {
                        Some(category_name) => category_name,
                        None => None,
                    },
                    variants: self.collected(),
                    ui_hidden: match self.ui_hidden {
                        Some(ui_hidden) => ui_hidden,
                        None => false,
                    },
                },
            )
        }
    }
}

/// Collects the fields of a [`SchemaSpec`].
#[derive(Debug)]
pub struct SchemaSpecBuilder {
    name: Option<String>,
    category: Option<String>,
    category_name: Option<Option<String>>,
    variants: Option<Vec<SchemaVariantSpec>>,
    ui_hidden: Option<bool>,
}

impl View for SchemaSpecBuilder {
    type V = SchemaSpecBuilderView;

    closed spec fn view(&self) -> SchemaSpecBuilderView {
        SchemaSpecBuilderView {
            name: text_view(self.name),
            category: text_view(self.category),
            category_name: match self.category_name {
                Some(category_name) => Some(text_view(category_name)),
                None => None,
            },
            variants: match self.variants {
                Some(variants) => Some(variants_view(variants@)),
                None => None,
            },
            ui_hidden: self.ui_hidden,
        }
    }
}

impl Default for SchemaSpecBuilder {
    fn default() -> (builder: Self)
        ensures
            builder@ == SchemaSpecBuilderView::unset(),
    {
        SchemaSpecBuilder {
            name: None,
            category: None,
            category_name: None,
            variants: None,
            ui_hidden: None,
        }
    }
}

impl Clone for SchemaSpecBuilder {
    /// A copy that shares nothing with the builder it was made from: what is
    /// set on one of them afterwards is not set on the other.
    fn clone(&self) -> (copy: Self)
        ensures
            copy@ == self@,
    {
        SchemaSpecBuilder {
            name: match &self.name {
                Some(name) => Some(name.clone()),
                None => None,
            },
            category: match &self.category {
                Some(category) => Some(category.clone()),
                None => None,
            },
            category_name: match &self.category_name {
                Some(Some(category_name)) => Some(Some(category_name.clone())),
                Some(None) => Some(None),
                None => None,
            },
            variants: match &self.variants {
                Some(variants) => Some(clone_variants(variants)),
                None => None,
            },
            ui_hidden: self.ui_hidden,
        }
    }
}

impl SchemaSpec {
    /// A builder in which nothing is set.
    #[must_use]
    pub fn builder() -> (builder: SchemaSpecBuilder)
        ensures
            builder@ == SchemaSpecBuilderView::unset(),
    {
        SchemaSpecBuilder::default()
    }
}

impl SchemaSpecBuilder {
    /// Sets the name.
    pub fn name(&mut self, value: &str) -> (builder: &mut Self)
        ensures
            builder@ == (SchemaSpecBuilderView { name: Some(value@), ..old(self)@ }),
            *final(self) == *final(builder),
    {
        self.name = Some(value.to_owned());
        self
    }

    /// Sets the category.
    pub fn category(&mut self, value: &str) -> (builder: &mut Self)
        ensures
            builder@ == (SchemaSpecBuilderView { category: Some(value@), ..old(self)@ }),
            *final(self) == *final(builder),
    {
        self.category = Some(value.to_owned());
        self
    }

    /// Sets the display category.
    pub fn category_name(&mut self, value: &str) -> (builder: &mut Self)
        ensures
            builder@ == (SchemaSpecBuilderView {
                category_name: Some(Some(value@)),
                ..old(self)@
            }),
            *final(self) == *final(builder),
    {
        self.category_name = Some(Some(value.to_owned()));
        self
    }

    /// Appends one variant to the variants collected so far.
    pub fn variant(&mut self, item: SchemaVariantSpec) -> (builder: &mut Self)
        ensures
            builder@ == old(self)@.with_variant(item@),
            *final(self) == *final(builder),
    {
        let mut collected = match self.variants.take() {
            Some(variants) => variants,
            None => Vec::new(),
        };
        let ghost before = variants_view(collected@);
        assert(before =~= old(self)@.collected());
        collected.push(item);
        assert(variants_view(collected@) =~= before.push(item@));
        self.variants = Some(collected);
        self
    }

    /// Replaces the variants collected so far.
    pub fn variants(&mut self, value: Vec<SchemaVariantSpec>) -> (builder: &mut Self)
        ensures
            builder@ == (SchemaSpecBuilderView {
                variants: Some(variants_view(value@)),
                ..old(self)@
            }),
            *final(self) == *final(builder),
    {
        self.variants = Some(value);
        self
    }

    /// Sets whether the schema is hidden.
    pub fn ui_hidden(&mut self, value: bool) -> (builder: &mut Self)
        ensures
            builder@ == (SchemaSpecBuilderView { ui_hidden: Some(value), ..old(self)@ }),
            *final(self) == *final(builder),
    {
        self.ui_hidden = Some(value);
        self
    }

    /// Finalizes the builder. The builder itself is left as it is.
    pub fn build(&self) -> (result: Result<SchemaSpec, SpecError>)
        ensures
            match self@.build() {
                Ok(schema) => result matches Ok(built) && built@ == schema,
                Err(field) => result matches Err(error) && error.spec_field() == field,
            },
    {
        let name = match &self.name {
            Some(name) => name.clone(),
            None => {
                return Err(SpecError::MissingField("name"));
            },
        };
        let category = match &self.category {
            Some(category) => category.clone(),
            None => {
                return Err(SpecError::MissingField("category"));
            },
        };
        let category_name = match &self.category_name {
            Some(Some(category_name)) => Some(category_name.clone()),
            Some(None) => None,
            None => None,
        };
        let variants = match &self.variants {
            Some(variants) => clone_variants(variants),
            None => Vec::new(),
        };
        let ui_hidden = match self.ui_hidden {
            Some(ui_hidden) => ui_hidden,
            None => false,
        };
        let built = SchemaSpec { name, category, category_name, variants, ui_hidden };
        assert(built@.variants =~= self@.collected());
        Ok(built)
    }
}

impl TryFrom<SchemaSpecBuilder> for SchemaSpec {
    type Error = SpecError;

    /// Finalizes the builder and uses it up: the fields move into the
    /// schema.
    fn try_from(value: SchemaSpecBuilder) -> (result: Result<Self, SpecError>)
        ensures
            match value@.build() {
                Ok(schema) => result matches Ok(built) && built@ == schema,
                Err(field) => result matches Err(error) && error.spec_field() == field,
            },
    {
        let name = match value.name {
            Some(name) => name,
            None => {
                return Err(SpecError::MissingField("name"));
            },
        };
        let category = match value.category {
            Some(category) => category,
            None => {
                return Err(SpecError::MissingField("category"));
            },
        };
        let category_name = match value.category_name {
            Some(category_name) => category_name,
            None => None,
        };
        let variants = match value.variants {
            Some(variants) => variants,
            None => Vec::new(),
        };
        let ui_hidden = match value.ui_hidden {
            Some(ui_hidden) => ui_hidden,
            None => false,
        };
        let built = SchemaSpec { name, category, category_name, variants, ui_hidden };
        assert(built@.variants =~= value@.collected());
        Ok(built)
    }
}

/// What `try_from` returns is stated by its own contract, over the views of
/// the builder and of the schema; nothing is claimed of it through
/// `try_from_spec`.
impl vstd::std_specs::convert::TryFromSpecImpl<SchemaSpecBuilder> for SchemaSpec {
    open spec fn obeys_try_from_spec() -> bool {
        false
    }

    open spec fn try_from_spec(value: SchemaSpecBuilder) -> Result<Self, SpecError> {
        arbitrary()
    }
}

/// Variants come out in the order in which they were appended: a builder
/// whose required fields are set, finalized after two appends, gives the
/// variants that it had collected before, then the first appended, then the
/// second. Where it had collected none, these two are all.
pub proof fn lemma_appended_variants_keep_their_order(
    builder: SchemaSpecBuilderView,
    first: SchemaVariantSpecView,
    second: SchemaVariantSpecView,
)
    requires
        builder.name is Some,
        builder.category is Some,
    ensures
        builder.with_variant(first).with_variant(second).build() matches Ok(schema)
            && schema.variants == builder.collected().push(first).push(second),
        builder.variants is None ==> (builder.with_variant(first).with_variant(second).build()
            matches Ok(schema) && schema.variants == seq![first, second]),
{
    if builder.variants is None {
        assert(builder.collected().push(first).push(second) =~= seq![first, second]);
    }
}

/// Finalizing fails exactly when a required field is not set, and then it
/// names the name before the category.
pub proof fn lemma_build_fails_on_missing_fields(builder: SchemaSpecBuilderView)
    ensures
        builder.build() is Ok <==> (builder.name is Some && builder.category is Some),
        builder.name is None ==> builder.build() == Err::<SchemaSpecView, Seq<char>>("name"@),
        builder.name is Some && builder.category is None ==> builder.build() == Err::<
            SchemaSpecView,
            Seq<char>,
        >("category"@),
{
}

} // verus!
