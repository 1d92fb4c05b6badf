use si_pkg::error::SpecError;
use si_pkg::schema::{SchemaSpec, SchemaSpecBuilder, SchemaVariantSpec};

fn variant(name: &str) -> SchemaVariantSpec {
    SchemaVariantSpec::new(name)
}

#[test]
fn a_missing_category_fails_the_build() {
    let result = SchemaSpec::builder().name("x").build();
    assert_eq!(result, Err(SpecError::MissingField("category")));
    assert_eq!(result.unwrap_err().field(), "category");
}

#[test]
fn name_and_category_are_enough() {
    let schema = SchemaSpec::builder().name("x").category("y").build().unwrap();
    assert_eq!(schema.name, "x");
    assert_eq!(schema.category, "y");
    assert_eq!(schema.category_name, None);
    assert!(schema.variants.is_empty());
    assert!(!schema.ui_hidden);
}

#[test]
fn a_missing_name_is_named_first() {
    assert_eq!(SchemaSpec::builder().build(), Err(SpecError::MissingField("name")));
    assert_eq!(
        SchemaSpec::builder().category("y").build(),
        Err(SpecError::MissingField("name"))
    );
    assert_eq!(
        SchemaSpec::builder().ui_hidden(true).category_name("z").variant(variant("v")).build(),
        Err(SpecError::MissingField("name"))
    );
}

#[test]
fn appended_variants_keep_their_order() {
    let schema = SchemaSpec::builder()
        .name("x")
        .category("y")
        .variant(variant("v1"))
        .variant(variant("v2"))
        .build()
        .unwrap();
    assert_eq!(schema.variants, vec![variant("v1"), variant("v2")]);
}

#[test]
fn variants_replace_and_variant_appends() {
    let schema = SchemaSpec::builder()
        .name("x")
        .category("y")
        .variant(variant("dropped"))
        .variants(vec![variant("a"), variant("b")])
        .variant(variant("c"))
        .build()
        .unwrap();
    assert_eq!(schema.variants, vec![variant("a"), variant("b"), variant("c")]);

    let emptied =
        SchemaSpec::builder().name("x").category("y").variant(variant("a")).variants(vec![]).build();
    assert!(emptied.unwrap().variants.is_empty());
}

#[test]
fn every_setter_sets_its_field() {
    let schema = SchemaSpec::builder()
        .name("first")
        .name("instance")
        .category("compute")
        .category_name("Compute")
        .ui_hidden(true)
        .build()
        .unwrap();
    assert_eq!(
        schema,
        SchemaSpec {
            name: "instance".to_string(),
            category: "compute".to_string(),
            category_name: Some("Compute".to_string()),
            variants: vec![],
            ui_hidden: true,
        }
    );
    let shown = SchemaSpec::builder().name("n").category("c").ui_hidden(false).build().unwrap();
    assert!(!shown.ui_hidden);
}

#[test]
fn build_leaves_the_builder_as_it_is() {
    let mut builder = SchemaSpec::builder();
    builder.name("x");
    assert!(builder.build().is_err());
    builder.category("y").variant(variant("v1"));
    let first = builder.build().unwrap();
    let second = builder.build().unwrap();
    assert_eq!(first, second);
    builder.variant(variant("v2"));
    assert_eq!(builder.build().unwrap().variants.len(), 2);
    assert_eq!(first.variants.len(), 1);
}

#[test]
fn a_cloned_builder_is_independent() {
    let mut first = SchemaSpec::builder();
    first.name("x").category("y").variant(variant("shared"));
    let mut copy = first.clone();
    copy.name("copy").variant(variant("only in the copy")).ui_hidden(true);
    first.category_name("only in the first");

    let from_first = first.build().unwrap();
    let from_copy = copy.build().unwrap();
    assert_eq!(from_first.name, "x");
    assert_eq!(from_first.variants, vec![variant("shared")]);
    assert_eq!(from_first.category_name.as_deref(), Some("only in the first"));
    assert!(!from_first.ui_hidden);
    assert_eq!(from_copy.name, "copy");
    assert_eq!(from_copy.variants, vec![variant("shared"), variant("only in the copy")]);
    assert_eq!(from_copy.category_name, None);
    assert!(from_copy.ui_hidden);
}

#[test]
fn try_from_finalizes_the_builder() {
    let mut builder = SchemaSpecBuilder::default();
    builder.name("x").category("y").variant(variant("v"));
    let expected = builder.build().unwrap();
    assert_eq!(SchemaSpec::try_from(builder), Ok(expected));

    let mut incomplete = SchemaSpecBuilder::default();
    incomplete.name("x");
    assert_eq!(SchemaSpec::try_from(incomplete), Err(SpecError::MissingField("category")));
    assert_eq!(
        SchemaSpec::try_from(SchemaSpecBuilder::default()),
        Err(SpecError::MissingField("name"))
    );
}

#[test]
fn a_variant_is_cloned_field_by_field() {
    let colored = SchemaVariantSpec { name: "v".to_string(), color: Some("#00ff00".to_string()) };
    assert_eq!(colored.clone(), colored);
    assert_ne!(colored, variant("v"));
    assert_eq!(variant("v").color, None);
    assert_eq!(variant("v").name, "v");
}
