//! The field-name extractor: accepts a structure whose every field is named
//! and emits the ordered list of its non-skipped field names.

use vstd::prelude::*;

use crate::ast::GenericsText;
use crate::ast::GenericsTextV;
use crate::ast::RawBodyV;
use crate::ast::RawDecl;
use crate::ast::RawDeclV;
use crate::ast::RawFieldV;
use crate::ast::StructStyle;
use crate::decode;
use crate::decode::DecodeError;
use crate::decode::DecodeErrorKind;
use crate::decode::DecodeErrorKindV;
use crate::decode::DecodeErrorV;
use crate::decode::Member;
use crate::decode::MemberV;
use crate::emit;

verus! {

/// A validated struct-shaped declaration: the type's identifier, its
/// generics signature, and its fields in source order.
pub struct Receiver {
    pub ident: String,
    pub generics: GenericsText,
    pub fields: Vec<Member>,
}

pub ghost struct ReceiverV {
    pub ident: Seq<char>,
    pub generics: GenericsTextV,
    pub fields: Seq<MemberV>,
}

impl View for Receiver {
    type V = ReceiverV;

    open spec fn view(&self) -> ReceiverV {
        ReceiverV { ident: self.ident@, generics: self.generics@, fields: self.fields.deep_view() }
    }
}

/// The field list of a struct-shaped declaration; empty for any other shape.
pub open spec fn struct_fields(d: RawDeclV) -> Seq<RawFieldV> {
    match d.body {
        RawBodyV::Struct { fields, .. } => fields,
        _ => Seq::empty(),
    }
}

/// The declarations the field extractor accepts: curly-brace structs whose
/// every field is named and annotated only from the closed option set.
pub open spec fn decodable(d: RawDeclV) -> bool {
    &&& d.body matches RawBodyV::Struct { style: StructStyle::Named, fields }
    &&& decode::fields_wf(struct_fields(d))
}

/// The receiver a decodable declaration validates to.
pub open spec fn decoded(d: RawDeclV) -> ReceiverV {
    ReceiverV {
        ident: d.ident,
        generics: d.generics,
        fields: decode::members_of_fields(struct_fields(d)),
    }
}

/// The error a rejected declaration is reported with: any shape other than
/// a named-field struct is unsupported; a named-field struct fails on its
/// first ill-formed field.
pub open spec fn decode_failure(d: RawDeclV) -> DecodeErrorV {
    DecodeErrorV {
        decl: d.ident,
        kind: match d.body {
            RawBodyV::Struct { style: StructStyle::Named, fields } => decode::fields_error(fields),
            _ => DecodeErrorKindV::UnsupportedShape,
        },
    }
}

impl Receiver {
    /// Validate a raw declaration for field-name extraction.
    pub fn from_raw(raw: &RawDecl) -> (r: Result<Receiver, DecodeError>)
        ensures
            r is Ok <==> decodable(raw@),
            r matches Ok(rec) ==> rec@ == decoded(raw@),
            r matches Err(e) ==> e@ == decode_failure(raw@),
    {
        match &raw.body {
            crate::ast::RawBody::Struct { style: StructStyle::Named, fields } => {
                match decode::decode_fields(fields) {
                    Ok(members) => Ok(
                        Receiver {
                            ident: raw.ident.clone(),
                            generics: raw.generics.duplicate(),
                            fields: members,
                        },
                    ),
                    Err(kind) => Err(DecodeError { decl: raw.ident.clone(), kind }),
                }
            },
            _ => Err(
                DecodeError { decl: raw.ident.clone(), kind: DecodeErrorKind::UnsupportedShape },
            ),
        }
    }

    /// The ordered field names to emit: skipped fields removed, source
    /// declaration order kept.
    pub fn fields_to_emit(&self) -> (r: Vec<String>)
        ensures
            r.deep_view() == emit::emitted(self@.fields),
    {
        emit::names_to_emit(&self.fields)
    }

    /// Render the fragment that attaches the field-name list to the type.
    pub fn to_fragment(&self) -> (r: String)
        ensures
            r@ == emit::fragment_text(
                self@.ident,
                self@.generics,
                "FIELDS"@,
                emit::emitted(self@.fields),
            ),
    {
        let names = self.fields_to_emit();
        emit::render_fragment(&self.ident, &self.generics, "FIELDS", &names)
    }
}

} // verus!
