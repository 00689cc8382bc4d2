//! Keeping sibling struct declarations in sync: the emitted field-name
//! lists of a base struct and of its views are compared, so that a rename
//! applied to one struct but not the other fails a test instead of silently
//! desynchronizing the two.

use std::collections::BTreeSet;

use field_names::ast::{GenericsText, RawBody, RawDecl, RawField, StructStyle};
use field_names::ast::AnnotationOption;
use field_names::fields::Receiver;

fn no_generics() -> GenericsText {
    GenericsText {
        impl_generics: String::new(),
        ty_generics: String::new(),
        where_clause: String::new(),
    }
}

fn lifetime_generics() -> GenericsText {
    GenericsText {
        impl_generics: "<'a>".to_string(),
        ty_generics: "<'a>".to_string(),
        where_clause: String::new(),
    }
}

fn field(name: &str) -> RawField {
    RawField { name: Some(name.to_string()), options: vec![] }
}

fn skipped_field(name: &str) -> RawField {
    RawField {
        name: Some(name.to_string()),
        options: vec![AnnotationOption { name: "skip".to_string(), has_value: false }],
    }
}

fn named_struct(ident: &str, generics: GenericsText, fields: Vec<RawField>) -> RawDecl {
    RawDecl {
        ident: ident.to_string(),
        generics,
        body: RawBody::Struct { style: StructStyle::Named, fields },
    }
}

/// `Base { target, lorem, ipsum, dolor, lorem_computation, secret(skip) }`.
fn base() -> Receiver {
    Receiver::from_raw(&named_struct(
        "Base",
        no_generics(),
        vec![
            field("target"),
            field("lorem"),
            field("ipsum"),
            field("dolor"),
            field("lorem_computation"),
            skipped_field("secret"),
        ],
    ))
    .unwrap()
}

/// `View<'a> { target, lorem, ipsum, dolor }`: a view of `Base` whose field
/// order must stay in sync with it.
fn view() -> Receiver {
    Receiver::from_raw(&named_struct(
        "View",
        lifetime_generics(),
        vec![field("target"), field("lorem"), field("ipsum"), field("dolor")],
    ))
    .unwrap()
}

/// `PartialView<'a> { lorem, target }`: a subset of `Base`, order free.
fn partial_view() -> Receiver {
    Receiver::from_raw(&named_struct(
        "PartialView",
        lifetime_generics(),
        vec![field("lorem"), field("target")],
    ))
    .unwrap()
}

/// `Raw { dest, lorem, ipsum, dolor }`: the unvalidated form of `Base`,
/// where a rename of `dest` to `target` was never applied.
fn raw() -> Receiver {
    Receiver::from_raw(&named_struct(
        "Raw",
        no_generics(),
        vec![field("dest"), field("lorem"), field("ipsum"), field("dolor")],
    ))
    .unwrap()
}

#[test]
fn base_and_view_in_sync_preserve_source_order() {
    const DELIBERATELY_OMITTED_FROM_VIEW: &[&str] = &["lorem_computation"];

    let base_fields = base().fields_to_emit();
    let view_fields = view()
        .fields_to_emit()
        .into_iter()
        .chain(DELIBERATELY_OMITTED_FROM_VIEW.iter().map(|s| s.to_string()))
        .collect::<Vec<_>>();
    assert_eq!(base_fields, view_fields);
}

#[test]
fn base_and_partial_view_in_sync_ignore_source_order() {
    let base_fields = base().fields_to_emit().into_iter().collect::<BTreeSet<_>>();
    let partial_view_fields = partial_view().fields_to_emit().into_iter().collect::<BTreeSet<_>>();

    let unexpected_fields = partial_view_fields.difference(&base_fields).collect::<Vec<_>>();

    if !unexpected_fields.is_empty() {
        panic!("Fields not in base: {:?}", unexpected_fields);
    }
}

#[test]
#[should_panic]
fn base_and_raw_not_in_sync() {
    const KNOWN_OMISSIONS_FROM_RAW: &[&str] = &["lorem_computation"];

    let base_fields = base().fields_to_emit();
    let raw_fields = raw()
        .fields_to_emit()
        .into_iter()
        .chain(KNOWN_OMISSIONS_FROM_RAW.iter().map(|s| s.to_string()))
        .collect::<Vec<_>>();
    assert_eq!(base_fields, raw_fields);
}
