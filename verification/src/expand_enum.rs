//! What `#[derive(Schema)]` decides for an enum. Two shapes are
//! recognised:
//!
//! - a **unit-variant enum** (no `#[serde(tag = "...")]`): every variant
//!   is a unit variant, emitted as a string enum of the wire names;
//! - an **internally tagged enum** (`#[serde(tag = "...")]`): every
//!   variant is a newtype wrapping a `Schema`-deriving struct, emitted as
//!   a `oneOf` with the tag as discriminator.
//!
//! Struct variants and tuple variants with other than one field are
//! rejected whatever the tag mode; so are a tag on a unit-only enum, data
//! without a tag, a unit variant in a tagged enum, and a newtype whose
//! inner type is a scalar, a known wrapper or not a single-segment path.
//! Variant wire names follow the container `rename_all` / variant
//! `rename` precedence and must be pairwise distinct.

use vstd::prelude::*;

use crate::doc::{compose_enum_description, doc_description, enum_description, parse_doc_attrs, DocAttr};
use crate::expand_common::{
    check_unique_at, container_rule_spec, entry_model, error_model, fail, generics_spec,
    reject_unsupported_generic_params, rename_all_from_scan, scan_at, scan_failure,
    uniqueness_spec, wire_entry_at, wire_spec, Diagnostic, Failure, GenericParam, MacroError,
    Site, WireModel,
};
use crate::field::{type_text, unwrap_spec, unwrap_type, TypeExpr, Wrapper};
use crate::rename::{RenameAll, RenameTarget, WireEntry};
use crate::serde_scan::{scan_model, scan_result, ScanFailure, ScanModel, SerdeMeta, SerdePosition};
use crate::text::{nat_decimal, opt_view, push_all, push_str, str_equal, string_from_chars, u64_decimal};

verus! {

/// The fields of one variant.
#[derive(Debug)]
pub enum VariantFields {
    Unit,
    /// A tuple variant, with the types of its fields.
    Unnamed(Vec<TypeExpr>),
    /// A struct variant.
    Named,
}

/// One variant of the derive input.
#[derive(Debug)]
pub struct VariantInput {
    pub ident: String,
    pub serde: Vec<SerdeMeta>,
    pub docs: Vec<DocAttr>,
    pub fields: VariantFields,
}

/// An enum as the derive reads it.
#[derive(Debug)]
pub struct EnumInput {
    pub ident: String,
    pub serde: Vec<SerdeMeta>,
    pub docs: Vec<DocAttr>,
    pub generics: Vec<GenericParam>,
    pub variants: Vec<VariantInput>,
}

/// One arm of the emitted `oneOf`.
#[derive(Debug, PartialEq, Eq)]
pub struct ArmPlan {
    pub wire: String,
    /// The caller's handle on the inner struct type.
    pub inner: usize,
    pub description: Option<String>,
}

/// What the emitted schema holds.
#[derive(Debug, PartialEq, Eq)]
pub enum EnumPlan {
    StringEnum { values: Vec<String>, description: Option<String> },
    OneOf { tag: String, arms: Vec<ArmPlan>, description: Option<String> },
}

/// An arm as plain values.
pub struct ArmModel {
    pub wire: Seq<char>,
    pub inner: usize,
    pub description: Option<Seq<char>>,
}

/// The enum plan as plain values.
pub enum EnumModel {
    StringEnum { values: Seq<Seq<char>>, description: Option<Seq<char>> },
    OneOf { tag: Seq<char>, arms: Seq<ArmModel>, description: Option<Seq<char>> },
}

pub open spec fn arm_model(a: ArmPlan) -> ArmModel {
    ArmModel { wire: a.wire@, inner: a.inner, description: opt_view(a.description) }
}

pub open spec fn enum_model(p: EnumPlan) -> EnumModel {
    match p {
        EnumPlan::StringEnum { values, description } => EnumModel::StringEnum {
            values: crate::text::string_views(values@),
            description: opt_view(description),
        },
        EnumPlan::OneOf { tag, arms, description } => EnumModel::OneOf {
            tag: tag@,
            arms: arms@.map_values(|a: ArmPlan| arm_model(a)),
            description: opt_view(description),
        },
    }
}

pub open spec fn no_variants_message() -> Seq<char> {
    "frieze: enums with no variants cannot be represented as an OAS schema."@
}

pub open spec fn tuple_variant_message(variant: Seq<char>, n: nat, enum_ident: Seq<char>) -> Seq<
    char,
> {
    "frieze: tuple variants with multiple fields (variant `"@ + variant + "` has "@ + nat_decimal(n)
        + ") are not supported. Define a named newtype struct: #[derive(Schema)] struct "@
        + variant + " { ... }; enum "@ + enum_ident + " { "@ + variant + "("@ + variant
        + "), ... }."@
}

pub open spec fn struct_variant_message(variant: Seq<char>, enum_ident: Seq<char>) -> Seq<char> {
    "frieze: struct variants (variant `"@ + variant
        + "` has named fields) are not supported. Define a named struct and use a newtype variant: #[derive(Schema)] struct "@
        + variant + "Data { ... }; enum "@ + enum_ident + " { "@ + variant + "("@ + variant
        + "Data), ... }."@
}

pub open spec fn unit_only_tag_message(ident: Seq<char>, tag: Seq<char>) -> Seq<char> {
    "frieze: enum `"@ + ident + "` is unit-only and does not need `#[serde(tag = \""@ + tag
        + "\")]`. Remove the attribute to emit it as a string enum (`{type: string, enum: [...]}`). frieze reserves `#[serde(tag = \"...\")]` for enums whose variants carry data."@
}

pub open spec fn untagged_data_message(ident: Seq<char>) -> Seq<char> {
    "frieze: enum `"@ + ident
        + "` has data-carrying variants but no `#[serde(tag = \"...\")]` attribute. Add an internal tag to declare the discriminator property, e.g. `#[serde(tag = \"kind\")]`. Choose a tag name that does not conflict with any field of the inner structs (commonly `type`, `kind`, `label`, `event_type`)."@
}

pub open spec fn tagged_unit_message(ident: Seq<char>, tag: Seq<char>, variant: Seq<char>) -> Seq<
    char,
> {
    "frieze: enum `"@ + ident + "` has `#[serde(tag = \""@ + tag
        + "\")]` but contains a unit variant `"@ + variant
        + "`. internal-tagged enums require every variant to be a newtype wrapping a Schema-implementing struct; unit variants would serialize to `{\""@
        + tag + "\": \""@ + variant
        + "\"}`, indistinguishable on the wire from an empty struct variant. Either split unit variants into a separate enum (emitted as `{type: string, enum: [...]}`), or give the unit variant a payload as a named struct."@
}

pub open spec fn wrapper_inner_message(variant: Seq<char>, rendered: Seq<char>) -> Seq<char> {
    "frieze: newtype variant `"@ + variant + "` wraps `"@ + rendered
        + "`, which is not a struct. internal-tagged enums require every newtype variant to wrap a struct that implements `Schema` (i.e. has #[derive(Schema)]). Define a named struct: #[derive(Schema)] struct "@
        + variant + "Data { ... }."@
}

pub open spec fn scalar_inner_message(variant: Seq<char>, rendered: Seq<char>) -> Seq<char> {
    "frieze: newtype variant `"@ + variant + "` wraps a non-Schema type (`"@ + rendered
        + "`). internal-tagged enums require every newtype variant to wrap a struct that implements `Schema` (i.e. has #[derive(Schema)]). Define a named struct: #[derive(Schema)] struct "@
        + variant + "Data { value: "@ + rendered + " }."@
}

pub open spec fn form_inner_message(variant: Seq<char>, rendered: Seq<char>) -> Seq<char> {
    "frieze: newtype variant `"@ + variant + "` wraps an unsupported type form (`"@ + rendered
        + "`). internal-tagged variants require the inner to be a single-identifier struct path."@
}

pub open spec fn qualified_inner_message(variant: Seq<char>, rendered: Seq<char>) -> Seq<char> {
    "frieze: newtype variant `"@ + variant + "` wraps a qualified path (`"@ + rendered
        + "`); use a `use` statement to bring the type into scope."@
}

/// The rendered type is one of the supported scalars.
pub open spec fn is_scalar_text(x: Seq<char>) -> bool {
    ||| x == "i32"@
    ||| x == "i64"@
    ||| x == "u32"@
    ||| x == "u64"@
    ||| x == "f32"@
    ||| x == "f64"@
    ||| x == "bool"@
    ||| x == "String"@
}

/// The inner type of a tagged newtype variant must be a single-segment
/// path naming a struct: known wrappers, scalars, other type forms and
/// qualified paths are rejected.
pub open spec fn newtype_inner_spec(variant: Seq<char>, t: TypeExpr) -> Result<usize, Seq<char>> {
    if unwrap_spec(t, Wrapper::Option) is Some || unwrap_spec(t, Wrapper::Vec) is Some
        || unwrap_spec(t, Wrapper::Maybe) is Some {
        Err(wrapper_inner_message(variant, type_text(t)))
    } else if is_scalar_text(type_text(t)) {
        Err(scalar_inner_message(variant, type_text(t)))
    } else {
        match t {
            TypeExpr::Other { text, .. } => Err(form_inner_message(variant, text@)),
            TypeExpr::Path { segments, node, text, .. } => if segments@.len() != 1 {
                Err(qualified_inner_message(variant, text@))
            } else {
                Ok(node)
            },
        }
    }
}

/// The shape of variant `i`: unit and newtype variants pass.
pub open spec fn classify_failure(v: VariantInput, enum_ident: Seq<char>, i: int) -> Option<
    Failure,
> {
    match v.fields {
        VariantFields::Unit => None,
        VariantFields::Unnamed(ts) => if ts@.len() == 1 {
            None
        } else {
            Some(
                fail(
                    Site::MemberShape(i as usize),
                    tuple_variant_message(v.ident@, ts@.len(), enum_ident),
                ),
            )
        },
        VariantFields::Named => Some(
            fail(Site::MemberShape(i as usize), struct_variant_message(v.ident@, enum_ident)),
        ),
    }
}

/// The first rejected shape among the first `k` variants.
pub open spec fn classify_upto(vs: Seq<VariantInput>, enum_ident: Seq<char>, k: int) -> Option<
    Failure,
>
    decreases k,
{
    if k <= 0 {
        None
    } else {
        match classify_upto(vs, enum_ident, k - 1) {
            Some(f) => Some(f),
            None => classify_failure(vs[k - 1], enum_ident, k - 1),
        }
    }
}

pub open spec fn all_unit(vs: Seq<VariantInput>) -> bool {
    forall|i: int| 0 <= i < vs.len() ==> (#[trigger] vs[i]).fields is Unit
}

/// Variant `i` of a string enum: its wire value, its doc, its entry.
pub open spec fn string_step(v: VariantInput, rule: RenameAll, i: int) -> Result<
    (Seq<char>, Option<Seq<char>>, WireModel),
    Failure,
> {
    match scan_result(v.serde@) {
        Err(e) => Err(scan_failure(e, false, i)),
        Ok(sc) => match wire_spec(v.ident@, sc.rename, rule, RenameTarget::Variant, i) {
            Err(f) => Err(f),
            Ok(wm) => Ok((wm.wire, doc_description(v.docs@), wm)),
        },
    }
}

pub open spec fn string_upto(vs: Seq<VariantInput>, rule: RenameAll, k: int) -> Result<
    Seq<(Seq<char>, Option<Seq<char>>, WireModel)>,
    Failure,
>
    decreases k,
{
    if k <= 0 {
        Ok(Seq::<(Seq<char>, Option<Seq<char>>, WireModel)>::empty())
    } else {
        match string_upto(vs, rule, k - 1) {
            Err(f) => Err(f),
            Ok(acc) => match string_step(vs[k - 1], rule, k - 1) {
                Err(f) => Err(f),
                Ok(x) => Ok(acc.push(x)),
            },
        }
    }
}

/// Variant `i` of a tagged enum: its arm and its entry.
pub open spec fn arm_step(
    v: VariantInput,
    rule: RenameAll,
    enum_ident: Seq<char>,
    tag: Seq<char>,
    i: int,
) -> Result<(ArmModel, WireModel), Failure> {
    match v.fields {
        VariantFields::Unit => Err(
            fail(Site::MemberShape(i as usize), tagged_unit_message(enum_ident, tag, v.ident@)),
        ),
        VariantFields::Named => Err(
            fail(Site::MemberShape(i as usize), struct_variant_message(v.ident@, enum_ident)),
        ),
        VariantFields::Unnamed(ts) => match newtype_inner_spec(v.ident@, ts@[0]) {
            Err(m) => Err(fail(Site::VariantInner(i as usize), m)),
            Ok(node) => match scan_result(v.serde@) {
                Err(e) => Err(scan_failure(e, false, i)),
                Ok(sc) => match wire_spec(v.ident@, sc.rename, rule, RenameTarget::Variant, i) {
                    Err(f) => Err(f),
                    Ok(wm) => Ok(
                        (
                            ArmModel {
                                wire: wm.wire,
                                inner: node,
                                description: doc_description(v.docs@),
                            },
                            wm,
                        ),
                    ),
                },
            },
        },
    }
}

pub open spec fn arms_upto(
    vs: Seq<VariantInput>,
    rule: RenameAll,
    enum_ident: Seq<char>,
    tag: Seq<char>,
    k: int,
) -> Result<Seq<(ArmModel, WireModel)>, Failure>
    decreases k,
{
    if k <= 0 {
        Ok(Seq::<(ArmModel, WireModel)>::empty())
    } else {
        match arms_upto(vs, rule, enum_ident, tag, k - 1) {
            Err(f) => Err(f),
            Ok(acc) => match arm_step(vs[k - 1], rule, enum_ident, tag, k - 1) {
                Err(f) => Err(f),
                Ok(x) => Ok(acc.push(x)),
            },
        }
    }
}

/// The string-enum branch.
pub open spec fn string_enum_spec(input: EnumInput, rule: RenameAll) -> Result<EnumModel, Failure> {
    match string_upto(input.variants@, rule, input.variants@.len() as int) {
        Err(f) => Err(f),
        Ok(xs) => match uniqueness_spec(
            xs.map_values(|x: (Seq<char>, Option<Seq<char>>, WireModel)| x.2),
            "variant"@,
        ) {
            Some(f) => Err(f),
            None => Ok(
                EnumModel::StringEnum {
                    values: xs.map_values(|x: (Seq<char>, Option<Seq<char>>, WireModel)| x.0),
                    description: enum_description(
                        doc_description(input.docs@),
                        xs.map_values(
                            |x: (Seq<char>, Option<Seq<char>>, WireModel)| (x.0, x.1),
                        ),
                    ),
                },
            ),
        },
    }
}

/// The `oneOf` branch.
pub open spec fn one_of_spec(input: EnumInput, rule: RenameAll, tag: Seq<char>) -> Result<
    EnumModel,
    Failure,
> {
    match arms_upto(input.variants@, rule, input.ident@, tag, input.variants@.len() as int) {
        Err(f) => Err(f),
        Ok(xs) => match uniqueness_spec(
            xs.map_values(|x: (ArmModel, WireModel)| x.1),
            "variant"@,
        ) {
            Some(f) => Err(f),
            None => Ok(
                EnumModel::OneOf {
                    tag,
                    arms: xs.map_values(|x: (ArmModel, WireModel)| x.0),
                    description: enum_description(
                        doc_description(input.docs@),
                        xs.map_values(|x: (ArmModel, WireModel)| (x.0.wire, x.0.description)),
                    ),
                },
            ),
        },
    }
}

/// The derive's decision for an enum, in its order of checks: at least
/// one variant, the generic parameters, the container's serde entries
/// and `rename_all` mode, each variant's shape, then the branch the tag
/// selects.
pub open spec fn enum_spec(input: EnumInput) -> Result<EnumModel, Failure> {
    let vs = input.variants@;
    if vs.len() == 0 {
        Err(fail(Site::Item, no_variants_message()))
    } else {
        match generics_spec(input.generics@, "enum"@, input.ident@) {
            Some(f) => Err(f),
            None => match scan_result(input.serde@) {
                Err(e) => Err(scan_failure(e, true, 0)),
                Ok(sc) => match container_rule_spec(sc) {
                    Err(f) => Err(f),
                    Ok(rule) => match classify_upto(vs, input.ident@, vs.len() as int) {
                        Some(f) => Err(f),
                        None => match sc.tag {
                            Some((tag, _)) => if all_unit(vs) {
                                Err(fail(Site::Item, unit_only_tag_message(input.ident@, tag)))
                            } else {
                                one_of_spec(input, rule, tag)
                            },
                            None => if !all_unit(vs) {
                                Err(fail(Site::Item, untagged_data_message(input.ident@)))
                            } else {
                                string_enum_spec(input, rule)
                            },
                        },
                    },
                },
            },
        }
    }
}

fn is_scalar_name(x: &str) -> (r: bool)
    ensures
        r == is_scalar_text(x@),
{
    str_equal(x, "i32") || str_equal(x, "i64") || str_equal(x, "u32") || str_equal(x, "u64")
        || str_equal(x, "f32") || str_equal(x, "f64") || str_equal(x, "bool") || str_equal(
        x,
        "String",
    )
}

fn text_of(t: &TypeExpr) -> (r: &String)
    ensures
        r@ == type_text(*t),
{
    match t {
        TypeExpr::Path { text, .. } => text,
        TypeExpr::Other { text, .. } => text,
    }
}

/// The inner type of a tagged newtype variant: its handle, or the
/// diagnostic that rejects it.
pub fn extract_newtype_inner_type(variant: &str, inner: &TypeExpr) -> (r: Result<usize, String>)
    ensures
        match r {
            Ok(n) => newtype_inner_spec(variant@, *inner) == Ok::<usize, Seq<char>>(n),
            Err(m) => newtype_inner_spec(variant@, *inner) == Err::<usize, Seq<char>>(m@),
        },
{
    let rendered = text_of(inner).as_str();
    let mut out: Vec<char> = Vec::new();
    if unwrap_type(inner, Wrapper::Option).is_some() || unwrap_type(inner, Wrapper::Vec).is_some()
        || unwrap_type(inner, Wrapper::Maybe).is_some() {
        push_str(&mut out, "frieze: newtype variant `");
        push_str(&mut out, variant);
        push_str(&mut out, "` wraps `");
        push_str(&mut out, rendered);
        push_str(
            &mut out,
            "`, which is not a struct. internal-tagged enums require every newtype variant to wrap a struct that implements `Schema` (i.e. has #[derive(Schema)]). Define a named struct: #[derive(Schema)] struct ",
        );
        push_str(&mut out, variant);
        push_str(&mut out, "Data { ... }.");
        return Err(string_from_chars(&out));
    }
    if is_scalar_name(rendered) {
        push_str(&mut out, "frieze: newtype variant `");
        push_str(&mut out, variant);
        push_str(&mut out, "` wraps a non-Schema type (`");
        push_str(&mut out, rendered);
        push_str(
            &mut out,
            "`). internal-tagged enums require every newtype variant to wrap a struct that implements `Schema` (i.e. has #[derive(Schema)]). Define a named struct: #[derive(Schema)] struct ",
        );
        push_str(&mut out, variant);
        push_str(&mut out, "Data { value: ");
        push_str(&mut out, rendered);
        push_str(&mut out, " }.");
        return Err(string_from_chars(&out));
    }
    match inner {
        TypeExpr::Other { .. } => {
            push_str(&mut out, "frieze: newtype variant `");
            push_str(&mut out, variant);
            push_str(&mut out, "` wraps an unsupported type form (`");
            push_str(&mut out, rendered);
            push_str(
                &mut out,
                "`). internal-tagged variants require the inner to be a single-identifier struct path.",
            );
            Err(string_from_chars(&out))
        },
        TypeExpr::Path { segments, node, .. } => {
            if segments.len() != 1 {
                push_str(&mut out, "frieze: newtype variant `");
                push_str(&mut out, variant);
                push_str(&mut out, "` wraps a qualified path (`");
                push_str(&mut out, rendered);
                push_str(&mut out, "`); use a `use` statement to bring the type into scope.");
                Err(string_from_chars(&out))
            } else {
                Ok(*node)
            }
        },
    }
}

fn message_error(site: Site, out: &Vec<char>) -> (r: MacroError)
    ensures
        error_model(r) == fail(site, out@),
{
    MacroError { site, diagnostic: Diagnostic::Message(string_from_chars(out)) }
}

fn struct_variant_error(i: usize, variant: &str, enum_ident: &str) -> (r: MacroError)
    ensures
        error_model(r) == fail(Site::MemberShape(i), struct_variant_message(variant@, enum_ident@)),
{
    let mut out: Vec<char> = Vec::new();
    push_str(&mut out, "frieze: struct variants (variant `");
    push_str(&mut out, variant);
    push_str(
        &mut out,
        "` has named fields) are not supported. Define a named struct and use a newtype variant: #[derive(Schema)] struct ",
    );
    push_str(&mut out, variant);
    push_str(&mut out, "Data { ... }; enum ");
    push_str(&mut out, enum_ident);
    push_str(&mut out, " { ");
    push_str(&mut out, variant);
    push_str(&mut out, "(");
    push_str(&mut out, variant);
    push_str(&mut out, "Data), ... }.");
    message_error(Site::MemberShape(i), &out)
}

fn tuple_variant_error(i: usize, variant: &str, n: usize, enum_ident: &str) -> (r: MacroError)
    ensures
        error_model(r) == fail(
            Site::MemberShape(i),
            tuple_variant_message(variant@, n as nat, enum_ident@),
        ),
{
    let mut out: Vec<char> = Vec::new();
    push_str(&mut out, "frieze: tuple variants with multiple fields (variant `");
    push_str(&mut out, variant);
    push_str(&mut out, "` has ");
    let digits = u64_decimal(n as u64);
    push_all(&mut out, &digits);
    push_str(
        &mut out,
        ") are not supported. Define a named newtype struct: #[derive(Schema)] struct ",
    );
    push_str(&mut out, variant);
    push_str(&mut out, " { ... }; enum ");
    push_str(&mut out, enum_ident);
    push_str(&mut out, " { ");
    push_str(&mut out, variant);
    push_str(&mut out, "(");
    push_str(&mut out, variant);
    push_str(&mut out, "), ... }.");
    message_error(Site::MemberShape(i), &out)
}

fn tagged_unit_error(i: usize, enum_ident: &str, tag: &str, variant: &str) -> (r: MacroError)
    ensures
        error_model(r) == fail(
            Site::MemberShape(i),
            tagged_unit_message(enum_ident@, tag@, variant@),
        ),
{
    let mut out: Vec<char> = Vec::new();
    push_str(&mut out, "frieze: enum `");
    push_str(&mut out, enum_ident);
    push_str(&mut out, "` has `#[serde(tag = \"");
    push_str(&mut out, tag);
    push_str(&mut out, "\")]` but contains a unit variant `");
    push_str(&mut out, variant);
    push_str(
        &mut out,
        "`. internal-tagged enums require every variant to be a newtype wrapping a Schema-implementing struct; unit variants would serialize to `{\"",
    );
    push_str(&mut out, tag);
    push_str(&mut out, "\": \"");
    push_str(&mut out, variant);
    push_str(
        &mut out,
        "\"}`, indistinguishable on the wire from an empty struct variant. Either split unit variants into a separate enum (emitted as `{type: string, enum: [...]}`), or give the unit variant a payload as a named struct.",
    );
    message_error(Site::MemberShape(i), &out)
}

proof fn lemma_classify_persists(vs: Seq<VariantInput>, e: Seq<char>, k: int, m: int)
    requires
        0 <= k <= m,
        classify_upto(vs, e, k) is Some,
    ensures
        classify_upto(vs, e, m) == classify_upto(vs, e, k),
    decreases m - k,
{
    if k < m {
        lemma_classify_persists(vs, e, k, m - 1);
    }
}

proof fn lemma_string_persists(vs: Seq<VariantInput>, rule: RenameAll, k: int, m: int)
    requires
        0 <= k <= m,
        string_upto(vs, rule, k) is Err,
    ensures
        string_upto(vs, rule, m) == string_upto(vs, rule, k),
    decreases m - k,
{
    if k < m {
        lemma_string_persists(vs, rule, k, m - 1);
    }
}

proof fn lemma_arms_persists(
    vs: Seq<VariantInput>,
    rule: RenameAll,
    e: Seq<char>,
    tag: Seq<char>,
    k: int,
    m: int,
)
    requires
        0 <= k <= m,
        arms_upto(vs, rule, e, tag, k) is Err,
    ensures
        arms_upto(vs, rule, e, tag, m) == arms_upto(vs, rule, e, tag, k),
    decreases m - k,
{
    if k < m {
        lemma_arms_persists(vs, rule, e, tag, k, m - 1);
    }
}

proof fn lemma_classified(vs: Seq<VariantInput>, e: Seq<char>, n: int)
    requires
        0 <= n <= vs.len(),
        classify_upto(vs, e, n) is None,
    ensures
        forall|k: int| 0 <= k < n ==> classify_failure(#[trigger] vs[k], e, k) is None,
    decreases n,
{
    if n > 0 {
        lemma_classified(vs, e, n - 1);
    }
}

/// Checks every variant's shape; returns whether all are unit variants.
fn classify_variants(vs: &Vec<VariantInput>, enum_ident: &str) -> (r: Result<bool, MacroError>)
    ensures
        match r {
            Ok(u) => classify_upto(vs@, enum_ident@, vs@.len() as int) is None && u == all_unit(
                vs@,
            ),
            Err(e) => classify_upto(vs@, enum_ident@, vs@.len() as int) == Some(error_model(e)),
        },
{
    let mut units = true;
    let mut i: usize = 0;
    while i < vs.len()
        invariant
            i <= vs@.len(),
            classify_upto(vs@, enum_ident@, i as int) is None,
            units == forall|k: int| 0 <= k < i ==> (#[trigger] vs@[k]).fields is Unit,
        decreases vs@.len() - i,
    {
        let v = &vs[i];
        match &v.fields {
            VariantFields::Unit => {},
            VariantFields::Unnamed(ts) => {
                if ts.len() != 1 {
                    let e = tuple_variant_error(i, v.ident.as_str(), ts.len(), enum_ident);
                    proof {
                        lemma_classify_persists(vs@, enum_ident@, i + 1, vs@.len() as int);
                    }
                    return Err(e);
                }
                units = false;
            },
            VariantFields::Named => {
                let e = struct_variant_error(i, v.ident.as_str(), enum_ident);
                proof {
                    lemma_classify_persists(vs@, enum_ident@, i + 1, vs@.len() as int);
                }
                return Err(e);
            },
        }
        i = i + 1;
    }
    Ok(units)
}

/// Collects the string-enum plan.
fn expand_string_enum(input: &EnumInput, rule: RenameAll) -> (r: Result<EnumPlan, MacroError>)
    ensures
        match r {
            Ok(p) => string_enum_spec(*input, rule) == Ok::<EnumModel, Failure>(enum_model(p)),
            Err(e) => string_enum_spec(*input, rule) == Err::<EnumModel, Failure>(error_model(e)),
        },
{
    let vs = &input.variants;
    let mut values: Vec<String> = Vec::new();
    let mut descriptions: Vec<(String, Option<String>)> = Vec::new();
    let mut entries: Vec<WireEntry> = Vec::new();
    let mut i: usize = 0;
    assert(Seq::new(
        0nat,
        |k: int| (values@[k]@, opt_view(descriptions@[k].1), entry_model(entries@[k])),
    ) =~= Seq::<(Seq<char>, Option<Seq<char>>, WireModel)>::empty());
    while i < vs.len()
        invariant
            vs@ == input.variants@,
            i <= vs@.len(),
            values@.len() == i,
            descriptions@.len() == i,
            entries@.len() == i,
            string_upto(vs@, rule, i as int) == Ok::<
                Seq<(Seq<char>, Option<Seq<char>>, WireModel)>,
                Failure,
            >(
                Seq::new(
                    i as nat,
                    |k: int|
                        (
                            values@[k]@,
                            opt_view(descriptions@[k].1),
                            entry_model(entries@[k]),
                        ),
                ),
            ),
            forall|k: int| 0 <= k < i ==> (#[trigger] descriptions@[k]).0@ == values@[k]@,
        decreases vs@.len() - i,
    {
        let v = &vs[i];
        let ghost before = string_upto(vs@, rule, i as int);
        let step: Result<WireEntry, MacroError> = match scan_at(
            &v.serde,
            SerdePosition::EnumVariant,
            Some(i),
        ) {
            Err(e) => Err(e),
            Ok(scan) => wire_entry_at(&v.ident, &scan, rule, RenameTarget::Variant, i),
        };
        match step {
            Err(e) => {
                proof {
                    assert(string_upto(vs@, rule, i + 1) == Err::<
                        Seq<(Seq<char>, Option<Seq<char>>, WireModel)>,
                        Failure,
                    >(error_model(e)));
                    lemma_string_persists(vs@, rule, i + 1, vs@.len() as int);
                }
                return Err(e);
            },
            Ok(entry) => {
                let doc = parse_doc_attrs(&v.docs);
                let value = entry.1.clone();
                let name = entry.1.clone();
                values.push(value);
                descriptions.push((name, doc));
                entries.push(entry);
                proof {
                    assert(Seq::new(
                        (i + 1) as nat,
                        |k: int|
                            (
                                values@[k]@,
                                opt_view(descriptions@[k].1),
                                entry_model(entries@[k]),
                            ),
                    ) =~= before->Ok_0.push(
                        (values@[i as int]@, opt_view(doc), entry_model(entry)),
                    ));
                }
            },
        }
        i = i + 1;
    }
    let ghost xs = Seq::new(
        vs@.len(),
        |k: int| (values@[k]@, opt_view(descriptions@[k].1), entry_model(entries@[k])),
    );
    proof {
        assert(xs.map_values(|x: (Seq<char>, Option<Seq<char>>, WireModel)| x.2)
            =~= entries@.map_values(|e: WireEntry| entry_model(e)));
    }
    match check_unique_at(&entries, "variant") {
        Ok(()) => {},
        Err(e) => {
            return Err(e);
        },
    }
    let enum_doc = parse_doc_attrs(&input.docs);
    let description = match &enum_doc {
        Some(d) => compose_enum_description(Some(d.as_str()), &descriptions),
        None => compose_enum_description(None, &descriptions),
    };
    proof {
        assert(xs.map_values(|x: (Seq<char>, Option<Seq<char>>, WireModel)| x.0)
            =~= crate::text::string_views(values@));
        assert(xs.map_values(|x: (Seq<char>, Option<Seq<char>>, WireModel)| (x.0, x.1))
            =~= crate::doc::variant_docs(descriptions@));
        assert(opt_view(enum_doc) == doc_description(input.docs@));
    }
    Ok(EnumPlan::StringEnum { values, description })
}

/// Variant `i` of a tagged enum: its arm and its wire entry.
fn arm_for(v: &VariantInput, i: usize, rule: RenameAll, enum_ident: &str, tag: &str) -> (r: Result<
    (ArmPlan, WireEntry),
    MacroError,
>)
    requires
        classify_failure(*v, enum_ident@, i as int) is None,
    ensures
        match r {
            Ok((a, e)) => arm_step(*v, rule, enum_ident@, tag@, i as int) == Ok::<
                (ArmModel, WireModel),
                Failure,
            >((arm_model(a), entry_model(e))),
            Err(e) => arm_step(*v, rule, enum_ident@, tag@, i as int) == Err::<
                (ArmModel, WireModel),
                Failure,
            >(error_model(e)),
        },
{
    match &v.fields {
        VariantFields::Unit => Err(
            tagged_unit_error(i, enum_ident, tag, v.ident.as_str()),
        ),
        VariantFields::Named => Err(
            struct_variant_error(i, v.ident.as_str(), enum_ident),
        ),
        VariantFields::Unnamed(ts) => {
            if ts.len() == 0 {
                Err(struct_variant_error(i, v.ident.as_str(), enum_ident))
            } else {
                match extract_newtype_inner_type(v.ident.as_str(), &ts[0]) {
                    Err(message) => Err(
                        MacroError {
                            site: Site::VariantInner(i),
                            diagnostic: Diagnostic::Message(message),
                        },
                    ),
                    Ok(node) => match scan_at(&v.serde, SerdePosition::EnumVariant, Some(i)) {
                        Err(e) => Err(e),
                        Ok(scan) => match wire_entry_at(
                            &v.ident,
                            &scan,
                            rule,
                            RenameTarget::Variant,
                            i,
                        ) {
                            Err(e) => Err(e),
                            Ok(entry) => {
                                let description = parse_doc_attrs(&v.docs);
                                let wire = entry.1.clone();
                                Ok((ArmPlan { wire, inner: node, description }, entry))
                            },
                        },
                    },
                }
            }
        },
    }
}

/// Collects the `oneOf` plan.
fn expand_one_of(input: &EnumInput, rule: RenameAll, tag: &String) -> (r: Result<
    EnumPlan,
    MacroError,
>)
    requires
        classify_upto(input.variants@, input.ident@, input.variants@.len() as int) is None,
    ensures
        match r {
            Ok(p) => one_of_spec(*input, rule, tag@) == Ok::<EnumModel, Failure>(enum_model(p)),
            Err(e) => one_of_spec(*input, rule, tag@) == Err::<EnumModel, Failure>(error_model(e)),
        },
{
    let vs = &input.variants;
    let mut arms: Vec<ArmPlan> = Vec::new();
    let mut descriptions: Vec<(String, Option<String>)> = Vec::new();
    let mut entries: Vec<WireEntry> = Vec::new();
    let mut i: usize = 0;
    assert(Seq::new(0nat, |k: int| (arm_model(arms@[k]), entry_model(entries@[k])))
        =~= Seq::<(ArmModel, WireModel)>::empty());
    proof {
        lemma_classified(vs@, input.ident@, vs@.len() as int);
    }
    while i < vs.len()
        invariant
            vs@ == input.variants@,
            forall|k: int|
                0 <= k < vs@.len() ==> classify_failure(#[trigger] vs@[k], input.ident@, k)
                    is None,
            i <= vs@.len(),
            arms@.len() == i,
            descriptions@.len() == i,
            entries@.len() == i,
            arms_upto(vs@, rule, input.ident@, tag@, i as int) == Ok::<
                Seq<(ArmModel, WireModel)>,
                Failure,
            >(Seq::new(i as nat, |k: int| (arm_model(arms@[k]), entry_model(entries@[k])))),
            forall|k: int|
                0 <= k < i ==> (#[trigger] descriptions@[k]).0@ == arms@[k].wire@ && opt_view(
                    descriptions@[k].1,
                ) == opt_view(arms@[k].description),
        decreases vs@.len() - i,
    {
        let v = &vs[i];
        let ghost before = arms_upto(vs@, rule, input.ident@, tag@, i as int);
        let step = arm_for(v, i, rule, input.ident.as_str(), tag.as_str());
        match step {
            Err(e) => {
                proof {
                    assert(arms_upto(vs@, rule, input.ident@, tag@, i + 1) == Err::<
                        Seq<(ArmModel, WireModel)>,
                        Failure,
                    >(error_model(e)));
                    lemma_arms_persists(
                        vs@,
                        rule,
                        input.ident@,
                        tag@,
                        i + 1,
                        vs@.len() as int,
                    );
                }
                return Err(e);
            },
            Ok((arm, entry)) => {
                let name = arm.wire.clone();
                let doc = match &arm.description {
                    Some(d) => Some(d.clone()),
                    None => None,
                };
                descriptions.push((name, doc));
                arms.push(arm);
                entries.push(entry);
                proof {
                    assert(Seq::new(
                        (i + 1) as nat,
                        |k: int| (arm_model(arms@[k]), entry_model(entries@[k])),
                    ) =~= before->Ok_0.push((arm_model(arm), entry_model(entry))));
                }
            },
        }
        i = i + 1;
    }
    let ghost xs = Seq::new(vs@.len(), |k: int| (arm_model(arms@[k]), entry_model(entries@[k])));
    proof {
        assert(xs.map_values(|x: (ArmModel, WireModel)| x.1) =~= entries@.map_values(
            |e: WireEntry| entry_model(e),
        ));
    }
    match check_unique_at(&entries, "variant") {
        Ok(()) => {},
        Err(e) => {
            return Err(e);
        },
    }
    let enum_doc = parse_doc_attrs(&input.docs);
    let description = match &enum_doc {
        Some(d) => compose_enum_description(Some(d.as_str()), &descriptions),
        None => compose_enum_description(None, &descriptions),
    };
    proof {
        assert(xs.map_values(|x: (ArmModel, WireModel)| x.0) =~= arms@.map_values(
            |a: ArmPlan| arm_model(a),
        ));
        assert(xs.map_values(|x: (ArmModel, WireModel)| (x.0.wire, x.0.description))
            =~= crate::doc::variant_docs(descriptions@));
        assert(opt_view(enum_doc) == doc_description(input.docs@));
    }
    let tag_text = tag.clone();
    Ok(EnumPlan::OneOf { tag: tag_text, arms, description })
}

/// Decides what `#[derive(Schema)]` emits for an enum, or where and why
/// it is rejected.
pub fn expand_enum(input: &EnumInput) -> (r: Result<EnumPlan, MacroError>)
    ensures
        match r {
            Ok(p) => enum_spec(*input) == Ok::<EnumModel, Failure>(enum_model(p)),
            Err(e) => enum_spec(*input) == Err::<EnumModel, Failure>(error_model(e)),
        },
{
    let ident = input.ident.as_str();
    if input.variants.len() == 0 {
        let mut out: Vec<char> = Vec::new();
        push_str(&mut out, "frieze: enums with no variants cannot be represented as an OAS schema.");
        return Err(message_error(Site::Item, &out));
    }
    match reject_unsupported_generic_params(&input.generics, "enum", ident) {
        Ok(()) => {},
        Err(e) => {
            return Err(e);
        },
    }
    let container_scan = match scan_at(&input.serde, SerdePosition::EnumContainer, None) {
        Ok(s) => s,
        Err(e) => {
            return Err(e);
        },
    };
    let rule = match rename_all_from_scan(&container_scan) {
        Ok(m) => m,
        Err(e) => {
            return Err(e);
        },
    };
    let units = match classify_variants(&input.variants, ident) {
        Ok(u) => u,
        Err(e) => {
            return Err(e);
        },
    };
    match &container_scan.tag {
        Some((tag, _)) => {
            if units {
                let mut out: Vec<char> = Vec::new();
                push_str(&mut out, "frieze: enum `");
                push_str(&mut out, ident);
                push_str(&mut out, "` is unit-only and does not need `#[serde(tag = \"");
                push_str(&mut out, tag.as_str());
                push_str(
                    &mut out,
                    "\")]`. Remove the attribute to emit it as a string enum (`{type: string, enum: [...]}`). frieze reserves `#[serde(tag = \"...\")]` for enums whose variants carry data.",
                );
                return Err(message_error(Site::Item, &out));
            }
            expand_one_of(input, rule, tag)
        },
        None => {
            if !units {
                let mut out: Vec<char> = Vec::new();
                push_str(&mut out, "frieze: enum `");
                push_str(&mut out, ident);
                push_str(
                    &mut out,
                    "` has data-carrying variants but no `#[serde(tag = \"...\")]` attribute. Add an internal tag to declare the discriminator property, e.g. `#[serde(tag = \"kind\")]`. Choose a tag name that does not conflict with any field of the inner structs (commonly `type`, `kind`, `label`, `event_type`).",
                );
                return Err(message_error(Site::Item, &out));
            }
            expand_string_enum(input, rule)
        },
    }
}

} // verus!
