//! Compile-time reflection over type declarations: given a structure with
//! named fields or an enumeration, produce the ordered list of its member
//! names, honouring per-member `skip` annotations, and render the code
//! fragment that attaches that list to the type as a fixed-size constant.
//!
//! One generation request is a pure function of one raw declaration: decode
//! it into a validated receiver, filter and order its members, and emit the
//! fragment — or fail at decode with a diagnostic and emit nothing.

pub mod ast;
pub mod decode;
pub mod emit;
pub mod fields;
pub mod laws;
pub mod variants;

use vstd::prelude::*;

use crate::ast::RawDecl;
use crate::ast::RawDeclV;
use crate::decode::DecodeError;

verus! {

/// The fragment the field extractor emits for a decodable declaration.
pub open spec fn field_fragment(d: RawDeclV) -> Seq<char> {
    emit::fragment_text(
        d.ident,
        d.generics,
        "FIELDS"@,
        emit::emitted(decode::members_of_fields(fields::struct_fields(d))),
    )
}

/// The fragment the variant extractor emits for a decodable declaration.
pub open spec fn variant_fragment(d: RawDeclV) -> Seq<char> {
    emit::fragment_text(
        d.ident,
        d.generics,
        "VARIANTS"@,
        emit::emitted(decode::members_of_variants(variants::enum_variants(d))),
    )
}

/// One whole field-name generation request: decode the declaration, filter
/// and order its fields, and render the fragment attaching the `FIELDS`
/// constant; reject exactly the declarations that are not named-field
/// structs with well-formed annotations, producing no fragment for those.
pub fn derive_field_names(input: &RawDecl) -> (r: Result<String, DecodeError>)
    ensures
        r is Ok <==> fields::decodable(input@),
        r matches Ok(fragment) ==> fragment@ == field_fragment(input@),
        r matches Err(e) ==> e@ == fields::decode_failure(input@),
{
    match fields::Receiver::from_raw(input) {
        Ok(receiver) => Ok(receiver.to_fragment()),
        Err(e) => Err(e),
    }
}

/// One whole variant-name generation request: decode the declaration,
/// filter and order its variants, and render the fragment attaching the
/// `VARIANTS` constant; reject exactly the declarations that are not
/// enumerations with well-formed annotations, producing no fragment for
/// those.
pub fn derive_variant_names(input: &RawDecl) -> (r: Result<String, DecodeError>)
    ensures
        r is Ok <==> variants::decodable(input@),
        r matches Ok(fragment) ==> fragment@ == variant_fragment(input@),
        r matches Err(e) ==> e@ == variants::decode_failure(input@),
{
    match variants::Receiver::from_raw(input) {
        Ok(receiver) => Ok(receiver.to_fragment()),
        Err(e) => Err(e),
    }
}

} // verus!
