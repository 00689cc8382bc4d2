//! Decoding: turn the raw members of a declaration into validated `Member`
//! values, or fail with the first violated constraint. The recognized
//! annotation option set is closed: exactly `skip`, written without a value.

use vstd::prelude::*;

use crate::ast::AnnotationOption;
use crate::ast::AnnotationOptionV;
use crate::ast::RawField;
use crate::ast::RawFieldV;
use crate::ast::RawVariant;
use crate::ast::RawVariantV;

verus! {

/// Why one generation request was rejected at decode time.
#[derive(Debug)]
pub enum DecodeErrorKind {
    /// The declaration is not of the shape this extractor accepts.
    UnsupportedShape,
    /// A field has no name where a name is required.
    MissingMemberName,
    /// An annotation option this tool does not recognize.
    UnknownOption { option: String },
    /// A recognized option written with a value it does not take.
    MalformedAnnotation { option: String },
}

pub ghost enum DecodeErrorKindV {
    UnsupportedShape,
    MissingMemberName,
    UnknownOption { option: Seq<char> },
    MalformedAnnotation { option: Seq<char> },
}

impl View for DecodeErrorKind {
    type V = DecodeErrorKindV;

    open spec fn view(&self) -> DecodeErrorKindV {
        match self {
            DecodeErrorKind::UnsupportedShape => DecodeErrorKindV::UnsupportedShape,
            DecodeErrorKind::MissingMemberName => DecodeErrorKindV::MissingMemberName,
            DecodeErrorKind::UnknownOption { option } => DecodeErrorKindV::UnknownOption {
                option: option@,
            },
            DecodeErrorKind::MalformedAnnotation { option } => DecodeErrorKindV::MalformedAnnotation {
                option: option@,
            },
        }
    }
}

/// A decode failure, tied to the declaration it rejects so that the
/// diagnostic can identify the offender.
#[derive(Debug)]
pub struct DecodeError {
    pub decl: String,
    pub kind: DecodeErrorKind,
}

pub ghost struct DecodeErrorV {
    pub decl: Seq<char>,
    pub kind: DecodeErrorKindV,
}

impl View for DecodeError {
    type V = DecodeErrorV;

    open spec fn view(&self) -> DecodeErrorV {
        DecodeErrorV { decl: self.decl@, kind: self.kind@ }
    }
}

/// The constraint a rejected member or declaration violated, in words.
pub open spec fn kind_message(k: DecodeErrorKindV) -> Seq<char> {
    match k {
        DecodeErrorKindV::UnsupportedShape => "unsupported declaration shape"@,
        DecodeErrorKindV::MissingMemberName => "every field must have a name"@,
        DecodeErrorKindV::UnknownOption { option } => "unknown option `"@ + option + "`"@,
        DecodeErrorKindV::MalformedAnnotation { option } => "option `"@ + option
            + "` does not take a value"@,
    }
}

/// The diagnostic a decode failure surfaces: the offending declaration's
/// identifier, then the violated constraint.
pub open spec fn error_message(e: DecodeErrorV) -> Seq<char> {
    e.decl + ": "@ + kind_message(e.kind)
}

impl DecodeError {
    /// Render the diagnostic for this failure.
    pub fn message(&self) -> (r: String)
        ensures
            r@ == error_message(self@),
    {
        let mut out = self.decl.clone();
        out.append(": ");
        match &self.kind {
            DecodeErrorKind::UnsupportedShape => {
                out.append("unsupported declaration shape");
            },
            DecodeErrorKind::MissingMemberName => {
                out.append("every field must have a name");
            },
            DecodeErrorKind::UnknownOption { option } => {
                out.append("unknown option `");
                out.append(option.as_str());
                out.append("`");
            },
            DecodeErrorKind::MalformedAnnotation { option } => {
                out.append("option `");
                out.append(option.as_str());
                out.append("` does not take a value");
            },
        }
        assert(out@ =~= error_message(self@));
        out
    }
}

/// A validated member, of either extractor: its name and whether a `skip`
/// annotation excludes it from the emitted list.
pub struct Member {
    pub name: String,
    pub skip: bool,
}

pub ghost struct MemberV {
    pub name: Seq<char>,
    pub skip: bool,
}

impl View for Member {
    type V = MemberV;

    open spec fn view(&self) -> MemberV {
        MemberV { name: self.name@, skip: self.skip }
    }
}

impl DeepView for Member {
    type V = MemberV;

    open spec fn deep_view(&self) -> MemberV {
        self.view()
    }
}

/// The option's name is the one recognized keyword.
pub open spec fn opt_recognized(o: AnnotationOptionV) -> bool {
    o.name == "skip"@
}

/// A well-formed option: the recognized keyword, written without a value.
pub open spec fn opt_wf(o: AnnotationOptionV) -> bool {
    opt_recognized(o) && !o.has_value
}

pub open spec fn opts_wf(s: Seq<AnnotationOptionV>) -> bool {
    forall|i: int| 0 <= i < s.len() ==> opt_wf(s[i])
}

/// The skip flag a well-formed option list denotes: present exactly when
/// some `skip` option was written.
pub open spec fn skip_of(s: Seq<AnnotationOptionV>) -> bool {
    s.len() > 0
}

/// The error an ill-formed option is reported with.
pub open spec fn opt_error(o: AnnotationOptionV) -> DecodeErrorKindV {
    if !opt_recognized(o) {
        DecodeErrorKindV::UnknownOption { option: o.name }
    } else {
        DecodeErrorKindV::MalformedAnnotation { option: o.name }
    }
}

/// Index of the first ill-formed option (the list's length if none is).
pub open spec fn first_bad_opt(s: Seq<AnnotationOptionV>) -> int
    decreases s.len(),
{
    if s.len() == 0 {
        0
    } else if !opt_wf(s.first()) {
        0
    } else {
        1 + first_bad_opt(s.drop_first())
    }
}

/// The error an ill-formed option list is reported with: that of its first
/// ill-formed option.
pub open spec fn opts_error(s: Seq<AnnotationOptionV>) -> DecodeErrorKindV {
    opt_error(s[first_bad_opt(s)])
}

pub proof fn lemma_first_bad_opt(s: Seq<AnnotationOptionV>, i: int)
    requires
        0 <= i < s.len(),
        !opt_wf(s[i]),
        forall|j: int| 0 <= j < i ==> opt_wf(s[j]),
    ensures
        first_bad_opt(s) == i,
    decreases i,
{
    if i == 0 {
        assert(s.first() == s[0]);
    } else {
        assert(opt_wf(s[0]));
        assert(opt_wf(s.first()));
        assert(s.drop_first()[i - 1] == s[i]);
        assert(forall|j: int| 0 <= j < i - 1 ==> s.drop_first()[j] == s[j + 1] && opt_wf(s[j + 1]));
        lemma_first_bad_opt(s.drop_first(), i - 1);
    }
}

/// Read the skip flag off one member's annotation options, rejecting any
/// option outside the closed set and any value on the recognized one.
pub fn decode_skip(options: &Vec<AnnotationOption>) -> (r: Result<bool, DecodeErrorKind>)
    ensures
        r is Ok <==> opts_wf(options.deep_view()),
        r matches Ok(s) ==> s == skip_of(options.deep_view()),
        r matches Err(k) ==> !opts_wf(options.deep_view()) && k@ == opts_error(
            options.deep_view(),
        ),
{
    let ghost optsv = options.deep_view();
    let mut i: usize = 0;
    while i < options.len()
        invariant
            0 <= i <= options.len(),
            optsv == options.deep_view(),
            optsv.len() == options.len(),
            forall|j: int| 0 <= j < i ==> opt_wf(optsv[j]),
        decreases options.len() - i,
    {
        let o = &options[i];
        assert(optsv[i as int] == o@);
        let skip_word = String::from_str("skip");
        if !(o.name == skip_word) {
            proof {
                lemma_first_bad_opt(optsv, i as int);
            }
            return Err(DecodeErrorKind::UnknownOption { option: o.name.clone() });
        }
        if o.has_value {
            proof {
                lemma_first_bad_opt(optsv, i as int);
            }
            return Err(DecodeErrorKind::MalformedAnnotation { option: o.name.clone() });
        }
        i = i + 1;
    }
    Ok(options.len() > 0)
}

/// A field the field extractor accepts: named, with well-formed options.
pub open spec fn field_wf(f: RawFieldV) -> bool {
    f.name is Some && opts_wf(f.options)
}

pub open spec fn fields_wf(s: Seq<RawFieldV>) -> bool {
    forall|i: int| 0 <= i < s.len() ==> field_wf(s[i])
}

/// The validated member a well-formed field decodes to.
pub open spec fn member_of_field(f: RawFieldV) -> MemberV {
    MemberV { name: f.name.unwrap(), skip: skip_of(f.options) }
}

pub open spec fn members_of_fields(s: Seq<RawFieldV>) -> Seq<MemberV> {
    s.map_values(|f: RawFieldV| member_of_field(f))
}

/// The error an ill-formed field is reported with: a missing name counts
/// before its options.
pub open spec fn field_error(f: RawFieldV) -> DecodeErrorKindV {
    if f.name is None {
        DecodeErrorKindV::MissingMemberName
    } else {
        opts_error(f.options)
    }
}

pub open spec fn first_bad_field(s: Seq<RawFieldV>) -> int
    decreases s.len(),
{
    if s.len() == 0 {
        0
    } else if !field_wf(s.first()) {
        0
    } else {
        1 + first_bad_field(s.drop_first())
    }
}

/// The error an ill-formed field list is reported with: that of its first
/// ill-formed field.
pub open spec fn fields_error(s: Seq<RawFieldV>) -> DecodeErrorKindV {
    field_error(s[first_bad_field(s)])
}

pub proof fn lemma_first_bad_field(s: Seq<RawFieldV>, i: int)
    requires
        0 <= i < s.len(),
        !field_wf(s[i]),
        forall|j: int| 0 <= j < i ==> field_wf(s[j]),
    ensures
        first_bad_field(s) == i,
    decreases i,
{
    if i == 0 {
        assert(s.first() == s[0]);
    } else {
        assert(field_wf(s[0]));
        assert(field_wf(s.first()));
        assert(forall|j: int| 0 <= j < i - 1 ==> s.drop_first()[j] == s[j + 1] && field_wf(
            s[j + 1],
        ));
        lemma_first_bad_field(s.drop_first(), i - 1);
    }
}

/// Decode a struct-shaped declaration's field list in source order,
/// stopping at the first field that violates a constraint.
pub fn decode_fields(fields: &Vec<RawField>) -> (r: Result<Vec<Member>, DecodeErrorKind>)
    ensures
        r is Ok <==> fields_wf(fields.deep_view()),
        r matches Ok(ms) ==> ms.deep_view() == members_of_fields(fields.deep_view()),
        r matches Err(k) ==> !fields_wf(fields.deep_view()) && k@ == fields_error(
            fields.deep_view(),
        ),
{
    let ghost fsv = fields.deep_view();
    let mut out: Vec<Member> = Vec::new();
    let mut i: usize = 0;
    while i < fields.len()
        invariant
            0 <= i <= fields.len(),
            fsv == fields.deep_view(),
            fsv.len() == fields.len(),
            forall|j: int| 0 <= j < i ==> field_wf(fsv[j]),
            out.deep_view() == members_of_fields(fsv.take(i as int)),
        decreases fields.len() - i,
    {
        let f = &fields[i];
        assert(fsv[i as int] == f@);
        match &f.name {
            None => {
                proof {
                    lemma_first_bad_field(fsv, i as int);
                }
                return Err(DecodeErrorKind::MissingMemberName);
            },
            Some(name) => {
                match decode_skip(&f.options) {
                    Err(k) => {
                        proof {
                            lemma_first_bad_field(fsv, i as int);
                        }
                        return Err(k);
                    },
                    Ok(skip) => {
                        let m = Member { name: name.clone(), skip };
                        assert(m@ == member_of_field(fsv[i as int]));
                        out.push(m);
                        assert(out.deep_view() =~= members_of_fields(fsv.take(i as int)).push(
                            member_of_field(fsv[i as int]),
                        ));
                        assert(members_of_fields(fsv.take(i + 1)) =~= members_of_fields(
                            fsv.take(i as int),
                        ).push(member_of_field(fsv[i as int])));
                    },
                }
            },
        }
        i = i + 1;
    }
    assert(fsv.take(fsv.len() as int) =~= fsv);
    Ok(out)
}

/// A variant the variant extractor accepts: its options are well-formed;
/// its payload shape is never consulted.
pub open spec fn variant_wf(v: RawVariantV) -> bool {
    opts_wf(v.options)
}

pub open spec fn variants_wf(s: Seq<RawVariantV>) -> bool {
    forall|i: int| 0 <= i < s.len() ==> variant_wf(s[i])
}

/// The validated member a well-formed variant decodes to: name and skip
/// flag only, independent of the variant's payload shape.
pub open spec fn member_of_variant(v: RawVariantV) -> MemberV {
    MemberV { name: v.name, skip: skip_of(v.options) }
}

pub open spec fn members_of_variants(s: Seq<RawVariantV>) -> Seq<MemberV> {
    s.map_values(|v: RawVariantV| member_of_variant(v))
}

pub open spec fn first_bad_variant(s: Seq<RawVariantV>) -> int
    decreases s.len(),
{
    if s.len() == 0 {
        0
    } else if !variant_wf(s.first()) {
        0
    } else {
        1 + first_bad_variant(s.drop_first())
    }
}

/// The error an ill-formed variant list is reported with: that of the first
/// ill-formed option of its first ill-formed variant.
pub open spec fn variants_error(s: Seq<RawVariantV>) -> DecodeErrorKindV {
    opts_error(s[first_bad_variant(s)].options)
}

pub proof fn lemma_first_bad_variant(s: Seq<RawVariantV>, i: int)
    requires
        0 <= i < s.len(),
        !variant_wf(s[i]),
        forall|j: int| 0 <= j < i ==> variant_wf(s[j]),
    ensures
        first_bad_variant(s) == i,
    decreases i,
{
    if i == 0 {
        assert(s.first() == s[0]);
    } else {
        assert(variant_wf(s[0]));
        assert(variant_wf(s.first()));
        assert(forall|j: int| 0 <= j < i - 1 ==> s.drop_first()[j] == s[j + 1] && variant_wf(
            s[j + 1],
        ));
        lemma_first_bad_variant(s.drop_first(), i - 1);
    }
}

/// Decode an enum-shaped declaration's variant list in source order,
/// stopping at the first variant that violates a constraint.
pub fn decode_variants(variants: &Vec<RawVariant>) -> (r: Result<Vec<Member>, DecodeErrorKind>)
    ensures
        r is Ok <==> variants_wf(variants.deep_view()),
        r matches Ok(ms) ==> ms.deep_view() == members_of_variants(variants.deep_view()),
        r matches Err(k) ==> !variants_wf(variants.deep_view()) && k@ == variants_error(
            variants.deep_view(),
        ),
{
    let ghost vsv = variants.deep_view();
    let mut out: Vec<Member> = Vec::new();
    let mut i: usize = 0;
    while i < variants.len()
        invariant
            0 <= i <= variants.len(),
            vsv == variants.deep_view(),
            vsv.len() == variants.len(),
            forall|j: int| 0 <= j < i ==> variant_wf(vsv[j]),
            out.deep_view() == members_of_variants(vsv.take(i as int)),
        decreases variants.len() - i,
    {
        let v = &variants[i];
        assert(vsv[i as int] == v@);
        match decode_skip(&v.options) {
            Err(k) => {
                proof {
                    lemma_first_bad_variant(vsv, i as int);
                }
                return Err(k);
            },
            Ok(skip) => {
                let m = Member { name: v.name.clone(), skip };
                assert(m@ == member_of_variant(vsv[i as int]));
                out.push(m);
                assert(out.deep_view() =~= members_of_variants(vsv.take(i as int)).push(
                    member_of_variant(vsv[i as int]),
                ));
                assert(members_of_variants(vsv.take(i + 1)) =~= members_of_variants(
                    vsv.take(i as int),
                ).push(member_of_variant(vsv[i as int])));
            },
        }
        i = i + 1;
    }
    assert(vsv.take(vsv.len() as int) =~= vsv);
    Ok(out)
}

} // verus!
