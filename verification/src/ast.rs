//! The input model: a raw type declaration as handed over by whatever parses
//! the host language's syntax, reduced to plain values. Decoding validates a
//! `RawDecl` into the receiver types of the two extractors.

use vstd::prelude::*;

verus! {

/// One option found under this tool's annotation namespace on a member,
/// e.g. the `skip` in `#[field_names(skip)]`. `has_value` records whether
/// the option was written with a value (`skip = ...`), which no recognized
/// option accepts.
pub struct AnnotationOption {
    pub name: String,
    pub has_value: bool,
}

/// Mathematical image of an `AnnotationOption`.
pub ghost struct AnnotationOptionV {
    pub name: Seq<char>,
    pub has_value: bool,
}

impl View for AnnotationOption {
    type V = AnnotationOptionV;

    open spec fn view(&self) -> AnnotationOptionV {
        AnnotationOptionV { name: self.name@, has_value: self.has_value }
    }
}

impl DeepView for AnnotationOption {
    type V = AnnotationOptionV;

    open spec fn deep_view(&self) -> AnnotationOptionV {
        self.view()
    }
}

/// A member of a struct-shaped declaration: its name is absent exactly when
/// the field is positional (a tuple field), which the field extractor rejects.
pub struct RawField {
    pub name: Option<String>,
    pub options: Vec<AnnotationOption>,
}

pub ghost struct RawFieldV {
    pub name: Option<Seq<char>>,
    pub options: Seq<AnnotationOptionV>,
}

impl View for RawField {
    type V = RawFieldV;

    open spec fn view(&self) -> RawFieldV {
        RawFieldV { name: self.name.deep_view(), options: self.options.deep_view() }
    }
}

impl DeepView for RawField {
    type V = RawFieldV;

    open spec fn deep_view(&self) -> RawFieldV {
        self.view()
    }
}

/// The internal payload shape of an enum variant. The variant extractor
/// carries it only to record that it never influences the result.
pub enum VariantShape {
    Unit,
    Tuple,
    StructLike,
}

/// A member of an enum-shaped declaration: variants always carry a name.
pub struct RawVariant {
    pub name: String,
    pub shape: VariantShape,
    pub options: Vec<AnnotationOption>,
}

pub ghost struct RawVariantV {
    pub name: Seq<char>,
    pub shape: VariantShape,
    pub options: Seq<AnnotationOptionV>,
}

impl View for RawVariant {
    type V = RawVariantV;

    open spec fn view(&self) -> RawVariantV {
        RawVariantV { name: self.name@, shape: self.shape, options: self.options.deep_view() }
    }
}

impl DeepView for RawVariant {
    type V = RawVariantV;

    open spec fn deep_view(&self) -> RawVariantV {
        self.view()
    }
}

/// How a struct-shaped declaration writes its fields.
pub enum StructStyle {
    /// Curly-brace fields, every one named.
    Named,
    /// Parenthesized positional fields.
    TupleStyle,
    /// No field list at all.
    UnitStyle,
}

/// The body of a declaration: mutually exclusive shapes.
pub enum RawBody {
    Struct { style: StructStyle, fields: Vec<RawField> },
    Enum { variants: Vec<RawVariant> },
    Union,
}

pub ghost enum RawBodyV {
    Struct { style: StructStyle, fields: Seq<RawFieldV> },
    Enum { variants: Seq<RawVariantV> },
    Union,
}

impl View for RawBody {
    type V = RawBodyV;

    open spec fn view(&self) -> RawBodyV {
        match self {
            RawBody::Struct { style, fields } => RawBodyV::Struct {
                style: *style,
                fields: fields.deep_view(),
            },
            RawBody::Enum { variants } => RawBodyV::Enum { variants: variants.deep_view() },
            RawBody::Union => RawBodyV::Union,
        }
    }
}

/// The generics signature of the declaration, already split the way an
/// `impl` block needs it. It is only echoed into the emitted fragment,
/// never inspected; empty strings stand for an absent part.
pub struct GenericsText {
    pub impl_generics: String,
    pub ty_generics: String,
    pub where_clause: String,
}

pub ghost struct GenericsTextV {
    pub impl_generics: Seq<char>,
    pub ty_generics: Seq<char>,
    pub where_clause: Seq<char>,
}

impl GenericsText {
    /// A fresh value carrying the same three parts.
    pub fn duplicate(&self) -> (r: GenericsText)
        ensures
            r@ == self@,
    {
        GenericsText {
            impl_generics: self.impl_generics.clone(),
            ty_generics: self.ty_generics.clone(),
            where_clause: self.where_clause.clone(),
        }
    }
}

impl View for GenericsText {
    type V = GenericsTextV;

    open spec fn view(&self) -> GenericsTextV {
        GenericsTextV {
            impl_generics: self.impl_generics@,
            ty_generics: self.ty_generics@,
            where_clause: self.where_clause@,
        }
    }
}

/// A whole raw declaration: the type's identifier, its generics signature,
/// and its member list in source order.
pub struct RawDecl {
    pub ident: String,
    pub generics: GenericsText,
    pub body: RawBody,
}

pub ghost struct RawDeclV {
    pub ident: Seq<char>,
    pub generics: GenericsTextV,
    pub body: RawBodyV,
}

impl View for RawDecl {
    type V = RawDeclV;

    open spec fn view(&self) -> RawDeclV {
        RawDeclV { ident: self.ident@, generics: self.generics@, body: self.body@ }
    }
}

} // verus!
