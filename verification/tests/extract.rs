//! Decoding, filtering and emission, exercised end to end on concrete
//! declarations.

use field_names::ast::{
    AnnotationOption, GenericsText, RawBody, RawDecl, RawField, RawVariant, StructStyle,
    VariantShape,
};
use field_names::decode::DecodeErrorKind;
use field_names::{derive_field_names, derive_variant_names, fields, variants};

fn no_generics() -> GenericsText {
    GenericsText {
        impl_generics: String::new(),
        ty_generics: String::new(),
        where_clause: String::new(),
    }
}

fn field(name: &str) -> RawField {
    RawField { name: Some(name.to_string()), options: vec![] }
}

fn field_with(name: &str, options: Vec<AnnotationOption>) -> RawField {
    RawField { name: Some(name.to_string()), options }
}

fn skip_option() -> AnnotationOption {
    AnnotationOption { name: "skip".to_string(), has_value: false }
}

fn named_struct(ident: &str, fields: Vec<RawField>) -> RawDecl {
    RawDecl {
        ident: ident.to_string(),
        generics: no_generics(),
        body: RawBody::Struct { style: StructStyle::Named, fields },
    }
}

fn variant(name: &str, shape: VariantShape) -> RawVariant {
    RawVariant { name: name.to_string(), shape, options: vec![] }
}

fn variant_with(name: &str, shape: VariantShape, options: Vec<AnnotationOption>) -> RawVariant {
    RawVariant { name: name.to_string(), shape, options }
}

fn enum_decl(ident: &str, variants: Vec<RawVariant>) -> RawDecl {
    RawDecl {
        ident: ident.to_string(),
        generics: no_generics(),
        body: RawBody::Enum { variants },
    }
}

#[test]
fn fields_simple() {
    let input = fields::Receiver::from_raw(&named_struct(
        "Example",
        vec![field("hello"), field("world")],
    ))
    .unwrap();

    assert_eq!(input.fields_to_emit(), vec!["hello".to_string(), "world".to_string()]);
}

#[test]
fn skip_field() {
    let input = fields::Receiver::from_raw(&named_struct(
        "Example",
        vec![field("hello"), field_with("hidden", vec![skip_option()]), field("world")],
    ))
    .unwrap();

    assert_eq!(input.fields_to_emit(), vec!["hello".to_string(), "world".to_string()]);
}

#[test]
fn variants_simple() {
    let input = variants::Receiver::from_raw(&enum_decl(
        "Example",
        vec![variant("Hello", VariantShape::Tuple), variant("World", VariantShape::StructLike)],
    ))
    .unwrap();

    assert_eq!(input.variants_to_emit(), vec!["Hello".to_string(), "World".to_string()]);
}

#[test]
fn skip_variant() {
    let input = variants::Receiver::from_raw(&enum_decl(
        "Example",
        vec![
            variant("Hello", VariantShape::Tuple),
            variant_with("Secret", VariantShape::Tuple, vec![skip_option()]),
            variant("World", VariantShape::StructLike),
        ],
    ))
    .unwrap();

    assert_eq!(input.variants_to_emit(), vec!["Hello".to_string(), "World".to_string()]);
}

#[test]
fn order_is_declaration_order() {
    let input = fields::Receiver::from_raw(&named_struct(
        "Example",
        vec![field("zeta"), field("alpha"), field("mu")],
    ))
    .unwrap();

    assert_eq!(
        input.fields_to_emit(),
        vec!["zeta".to_string(), "alpha".to_string(), "mu".to_string()]
    );
}

#[test]
fn all_fields_skipped_is_empty_not_error() {
    let result = derive_field_names(&named_struct(
        "Example",
        vec![
            field_with("hello", vec![skip_option()]),
            field_with("world", vec![skip_option()]),
        ],
    ));

    let fragment = result.unwrap();
    assert_eq!(
        fragment,
        "#[automatically_derived] impl  Example  { const FIELDS: [&'static str; 0] = []; }"
            .to_string()
    );
}

#[test]
fn variant_payload_shape_is_irrelevant() {
    let with_payloads = variants::Receiver::from_raw(&enum_decl(
        "Example",
        vec![
            variant("Unit", VariantShape::Unit),
            variant("Tuple", VariantShape::Tuple),
            variant("Record", VariantShape::StructLike),
        ],
    ))
    .unwrap();
    let all_unit = variants::Receiver::from_raw(&enum_decl(
        "Example",
        vec![
            variant("Unit", VariantShape::Unit),
            variant("Tuple", VariantShape::Unit),
            variant("Record", VariantShape::Unit),
        ],
    ))
    .unwrap();

    assert_eq!(
        with_payloads.variants_to_emit(),
        vec!["Unit".to_string(), "Tuple".to_string(), "Record".to_string()]
    );
    assert_eq!(with_payloads.variants_to_emit(), all_unit.variants_to_emit());
}

#[test]
fn generics_do_not_change_the_list() {
    let plain = fields::Receiver::from_raw(&named_struct(
        "Example",
        vec![field("hello"), field("world")],
    ))
    .unwrap();
    let generic = fields::Receiver::from_raw(&RawDecl {
        ident: "Example".to_string(),
        generics: GenericsText {
            impl_generics: "<T>".to_string(),
            ty_generics: "<T>".to_string(),
            where_clause: String::new(),
        },
        body: RawBody::Struct {
            style: StructStyle::Named,
            fields: vec![field("hello"), field("world")],
        },
    })
    .unwrap();

    assert_eq!(plain.fields_to_emit(), generic.fields_to_emit());
}

#[test]
fn generics_are_echoed_into_the_fragment() {
    let fragment = derive_field_names(&RawDecl {
        ident: "Example".to_string(),
        generics: GenericsText {
            impl_generics: "<T: Clone>".to_string(),
            ty_generics: "<T>".to_string(),
            where_clause: "where T: Send".to_string(),
        },
        body: RawBody::Struct {
            style: StructStyle::Named,
            fields: vec![field("hello"), field("world")],
        },
    })
    .unwrap();

    assert_eq!(
        fragment,
        "#[automatically_derived] impl <T: Clone> Example<T> where T: Send \
         { const FIELDS: [&'static str; 2] = [\"hello\", \"world\"]; }"
            .to_string()
    );
}

#[test]
fn variant_fragment_text() {
    let fragment = derive_variant_names(&enum_decl(
        "Example",
        vec![
            variant("Hello", VariantShape::Tuple),
            variant_with("Secret", VariantShape::Tuple, vec![skip_option()]),
            variant("World", VariantShape::StructLike),
        ],
    ))
    .unwrap();

    assert_eq!(
        fragment,
        "#[automatically_derived] impl  Example  \
         { const VARIANTS: [&'static str; 2] = [\"Hello\", \"World\"]; }"
            .to_string()
    );
}

#[test]
fn count_is_rendered_in_decimal() {
    let names: Vec<&str> = vec![
        "a", "b", "c", "d", "e", "f", "g", "h", "i", "j", "k", "l",
    ];
    let fragment = derive_variant_names(&enum_decl(
        "Example",
        names.iter().map(|n| variant(n, VariantShape::Unit)).collect(),
    ))
    .unwrap();

    assert!(fragment.contains(": [&'static str; 12] = "));
}

#[test]
fn tuple_struct_is_rejected() {
    let result = derive_field_names(&RawDecl {
        ident: "Example".to_string(),
        generics: no_generics(),
        body: RawBody::Struct {
            style: StructStyle::TupleStyle,
            fields: vec![RawField { name: None, options: vec![] }],
        },
    });

    let err = result.unwrap_err();
    assert!(matches!(err.kind, DecodeErrorKind::UnsupportedShape));
    assert_eq!(err.message(), "Example: unsupported declaration shape".to_string());
}

#[test]
fn unit_struct_is_rejected() {
    let result = derive_field_names(&RawDecl {
        ident: "Example".to_string(),
        generics: no_generics(),
        body: RawBody::Struct { style: StructStyle::UnitStyle, fields: vec![] },
    });

    assert!(matches!(result.unwrap_err().kind, DecodeErrorKind::UnsupportedShape));
}

#[test]
fn union_is_rejected_by_both_extractors() {
    let decl = RawDecl {
        ident: "Example".to_string(),
        generics: no_generics(),
        body: RawBody::Union,
    };

    assert!(matches!(
        derive_field_names(&decl).unwrap_err().kind,
        DecodeErrorKind::UnsupportedShape
    ));
    assert!(matches!(
        derive_variant_names(&decl).unwrap_err().kind,
        DecodeErrorKind::UnsupportedShape
    ));
}

#[test]
fn enum_is_rejected_by_the_field_extractor() {
    let result = derive_field_names(&enum_decl(
        "Example",
        vec![variant("Hello", VariantShape::Unit)],
    ));

    assert!(matches!(result.unwrap_err().kind, DecodeErrorKind::UnsupportedShape));
}

#[test]
fn struct_is_rejected_by_the_variant_extractor() {
    let result = derive_variant_names(&named_struct("Example", vec![field("hello")]));

    assert!(matches!(result.unwrap_err().kind, DecodeErrorKind::UnsupportedShape));
}

#[test]
fn unnamed_field_is_rejected() {
    let result = derive_field_names(&RawDecl {
        ident: "Example".to_string(),
        generics: no_generics(),
        body: RawBody::Struct {
            style: StructStyle::Named,
            fields: vec![field("hello"), RawField { name: None, options: vec![] }],
        },
    });

    let err = result.unwrap_err();
    assert!(matches!(err.kind, DecodeErrorKind::MissingMemberName));
    assert_eq!(err.message(), "Example: every field must have a name".to_string());
}

#[test]
fn unknown_option_is_rejected() {
    let result = derive_field_names(&named_struct(
        "Example",
        vec![field_with(
            "hello",
            vec![AnnotationOption { name: "rename".to_string(), has_value: false }],
        )],
    ));

    let err = result.unwrap_err();
    match &err.kind {
        DecodeErrorKind::UnknownOption { option } => assert_eq!(option.as_str(), "rename"),
        other => panic!("expected an unknown-option error, got {:?}", other),
    }
    assert_eq!(err.message(), "Example: unknown option `rename`".to_string());
}

#[test]
fn option_with_value_is_rejected() {
    let result = derive_variant_names(&enum_decl(
        "Example",
        vec![variant_with(
            "Hello",
            VariantShape::Unit,
            vec![AnnotationOption { name: "skip".to_string(), has_value: true }],
        )],
    ));

    let err = result.unwrap_err();
    match &err.kind {
        DecodeErrorKind::MalformedAnnotation { option } => assert_eq!(option.as_str(), "skip"),
        other => panic!("expected a malformed-annotation error, got {:?}", other),
    }
    assert_eq!(err.message(), "Example: option `skip` does not take a value".to_string());
}

#[test]
fn first_offending_member_decides_the_error() {
    let result = derive_field_names(&named_struct(
        "Example",
        vec![
            field("hello"),
            field_with(
                "bad",
                vec![AnnotationOption { name: "rename".to_string(), has_value: false }],
            ),
            RawField { name: None, options: vec![] },
        ],
    ));

    assert!(matches!(result.unwrap_err().kind, DecodeErrorKind::UnknownOption { .. }));
}

#[test]
fn duplicate_source_names_are_mirrored() {
    let input = fields::Receiver::from_raw(&named_struct(
        "Example",
        vec![field("hello"), field("hello")],
    ))
    .unwrap();

    assert_eq!(input.fields_to_emit(), vec!["hello".to_string(), "hello".to_string()]);
}

#[test]
fn regeneration_is_byte_identical() {
    let decl = named_struct(
        "Example",
        vec![field("hello"), field_with("hidden", vec![skip_option()]), field("world")],
    );

    let first = derive_field_names(&decl).unwrap();
    let second = derive_field_names(&decl).unwrap();
    assert_eq!(first.as_bytes(), second.as_bytes());
}
