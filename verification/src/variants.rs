//! The variant-name extractor: accepts any enumeration, whatever each
//! variant's payload shape, and emits the ordered list of its non-skipped
//! variant names.

use vstd::prelude::*;

use crate::ast::GenericsText;
use crate::ast::GenericsTextV;
use crate::ast::RawBodyV;
use crate::ast::RawDecl;
use crate::ast::RawDeclV;
use crate::ast::RawVariantV;
use crate::decode;
use crate::decode::DecodeError;
use crate::decode::DecodeErrorKind;
use crate::decode::DecodeErrorKindV;
use crate::decode::DecodeErrorV;
use crate::decode::Member;
use crate::decode::MemberV;
use crate::emit;

verus! {

/// A validated enum-shaped declaration: the type's identifier, its generics
/// signature, and its variants in source order.
pub struct Receiver {
    pub ident: String,
    pub generics: GenericsText,
    pub variants: Vec<Member>,
}

pub ghost struct ReceiverV {
    pub ident: Seq<char>,
    pub generics: GenericsTextV,
    pub variants: Seq<MemberV>,
}

impl View for Receiver {
    type V = ReceiverV;

    open spec fn view(&self) -> ReceiverV {
        ReceiverV {
            ident: self.ident@,
            generics: self.generics@,
            variants: self.variants.deep_view(),
        }
    }
}

/// The variant list of an enum-shaped declaration; empty for any other
/// shape.
pub open spec fn enum_variants(d: RawDeclV) -> Seq<RawVariantV> {
    match d.body {
        RawBodyV::Enum { variants } => variants,
        _ => Seq::empty(),
    }
}

/// The declarations the variant extractor accepts: any enumeration whose
/// variants are annotated only from the closed option set. Variant payload
/// shapes are never a reason for rejection.
pub open spec fn decodable(d: RawDeclV) -> bool {
    &&& d.body matches RawBodyV::Enum { variants }
    &&& decode::variants_wf(enum_variants(d))
}

/// The receiver a decodable declaration validates to.
pub open spec fn decoded(d: RawDeclV) -> ReceiverV {
    ReceiverV {
        ident: d.ident,
        generics: d.generics,
        variants: decode::members_of_variants(enum_variants(d)),
    }
}

/// The error a rejected declaration is reported with: any shape other than
/// an enumeration is unsupported; an enumeration fails on its first
/// ill-formed variant annotation.
pub open spec fn decode_failure(d: RawDeclV) -> DecodeErrorV {
    DecodeErrorV {
        decl: d.ident,
        kind: match d.body {
            RawBodyV::Enum { variants } => decode::variants_error(variants),
            _ => DecodeErrorKindV::UnsupportedShape,
        },
    }
}

impl Receiver {
    /// Validate a raw declaration for variant-name extraction.
    pub fn from_raw(raw: &RawDecl) -> (r: Result<Receiver, DecodeError>)
        ensures
            r is Ok <==> decodable(raw@),
            r matches Ok(rec) ==> rec@ == decoded(raw@),
            r matches Err(e) ==> e@ == decode_failure(raw@),
    {
        match &raw.body {
            crate::ast::RawBody::Enum { variants } => {
                match decode::decode_variants(variants) {
                    Ok(members) => Ok(
                        Receiver {
                            ident: raw.ident.clone(),
                            generics: raw.generics.duplicate(),
                            variants: members,
                        },
                    ),
                    Err(kind) => Err(DecodeError { decl: raw.ident.clone(), kind }),
                }
            },
            _ => Err(
                DecodeError { decl: raw.ident.clone(), kind: DecodeErrorKind::UnsupportedShape },
            ),
        }
    }

    /// The ordered variant names to emit: skipped variants removed, source
    /// declaration order kept.
    pub fn variants_to_emit(&self) -> (r: Vec<String>)
        ensures
            r.deep_view() == emit::emitted(self@.variants),
    {
        emit::names_to_emit(&self.variants)
    }

    /// Render the fragment that attaches the variant-name list to the type.
    pub fn to_fragment(&self) -> (r: String)
        ensures
            r@ == emit::fragment_text(
                self@.ident,
                self@.generics,
                "VARIANTS"@,
                emit::emitted(self@.variants),
            ),
    {
        let names = self.variants_to_emit();
        emit::render_fragment(&self.ident, &self.generics, "VARIANTS", &names)
    }
}

} // verus!
