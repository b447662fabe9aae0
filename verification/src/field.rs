//! Field-level analysis for `#[derive(Schema)]` on named structs: the
//! syntactic shape of a field's type decides its property type and its
//! presence.
//!
//! | Rust shape                                                       | Presence | Nullability        |
//! |------------------------------------------------------------------|----------|--------------------|
//! | `T` (scalar)                                                     | required | non-nullable       |
//! | `Option<T>` (serde default)                                      | required | nullable           |
//! | `Option<T>` + `#[serde(skip_serializing_if = "Option::is_none")]`| optional | non-nullable       |
//! | `Maybe<T>`                                                       | optional | nullable           |
//! | `Vec<T>`                                                         | required | array, items as T  |
//! | `Vec<Option<T>>`                                                 | required | array, items nullable |
//! | `Option<Vec<T>>`                                                 | required | nullable array     |
//! | `Option<Vec<Option<T>>>`                                         | required | nullable array, items nullable |
//!
//! `Option<Option<T>>`, `Vec<Vec<T>>`, `Vec<Maybe<T>>`, `Option<Maybe<T>>`,
//! `Maybe<Option<T>>` and `Maybe<Maybe<T>>` are rejected, as is a
//! `Maybe<T>` field without the `default` / `skip_serializing_if` pair.

use vstd::prelude::*;

use crate::serde_scan::{
    has_maybe_attribute_pair, is_option_skip_predicate, maybe_pair, option_skip, scan_model,
    ScanModel, SerdeScan,
};
use crate::text::{opt_view, push_str, str_equal, string_from_chars, string_views};

verus! {

/// A field type as the macro reads it.
#[derive(Debug)]
pub enum TypeExpr {
    /// A path type without a qualified self (`a::b::C<..>`).
    Path {
        /// The identifiers of the path's segments.
        segments: Vec<String>,
        /// The type argument of the last segment, when it carries
        /// exactly one angle-bracketed argument and that argument is a
        /// type.
        argument: Option<Box<TypeExpr>>,
        /// The caller's handle on this type node.
        node: usize,
        /// The type's tokens rendered without white space.
        text: String,
    },
    /// Any other type form (reference, tuple, array, qualified self, ...).
    Other { node: usize, text: String },
}

/// The property type of a field.
#[derive(Debug, PartialEq, Eq)]
pub enum PropertyShape {
    Int32,
    Int64,
    UInt32,
    UInt64,
    Float,
    Double,
    String,
    Boolean,
    /// A reference to the `Schema` of the type node named by the handle.
    Reference(usize),
    Array(Box<PropertyShape>),
    Nullable(Box<PropertyShape>),
}

/// Whether a property must be present on the wire.
#[derive(Debug, Clone, Copy, PartialEq, Eq, Structural)]
pub enum Presence {
    Required,
    Optional,
}

/// The wrappers recognised by path.
#[derive(Debug, Clone, Copy, PartialEq, Eq, Structural)]
pub enum Wrapper {
    /// `Option`, `std::option::Option`, `core::option::Option`.
    Option,
    /// `Vec`, `std::vec::Vec`, `alloc::vec::Vec`.
    Vec,
    /// `Maybe`, `frieze::Maybe`, `frieze_model::Maybe`.
    Maybe,
}

pub open spec fn type_text(t: TypeExpr) -> Seq<char> {
    match t {
        TypeExpr::Path { text, .. } => text@,
        TypeExpr::Other { text, .. } => text@,
    }
}

/// The segment identifiers name the wrapper.
pub open spec fn names_wrapper(segments: Seq<Seq<char>>, w: Wrapper) -> bool {
    match w {
        Wrapper::Option => segments == seq!["Option"@] || segments == seq![
            "std"@,
            "option"@,
            "Option"@,
        ] || segments == seq!["core"@, "option"@, "Option"@],
        Wrapper::Vec => segments == seq!["Vec"@] || segments == seq!["std"@, "vec"@, "Vec"@]
            || segments == seq!["alloc"@, "vec"@, "Vec"@],
        Wrapper::Maybe => segments == seq!["Maybe"@] || segments == seq!["frieze"@, "Maybe"@]
            || segments == seq!["frieze_model"@, "Maybe"@],
    }
}

/// `T` when `t` is the wrapper `w` applied to the single type `T`.
pub open spec fn unwrap_spec(t: TypeExpr, w: Wrapper) -> Option<TypeExpr> {
    match t {
        TypeExpr::Path { segments, argument, .. } => if names_wrapper(
            string_views(segments@),
            w,
        ) {
            match argument {
                Some(b) => Some(*b),
                None => None,
            }
        } else {
            None
        },
        TypeExpr::Other { .. } => None,
    }
}

/// The supported shapes, listed in the diagnostics.
pub open spec fn supported_list() -> Seq<char> {
    "; only the following are supported in Phase 1: i32, i64, u32, u64, f32, f64, bool, String, Vec<T>, Vec<Option<T>>, Option<T>, Option<Vec<T>>, Maybe<T> (for any supported scalar T). Future PRs will add more."@
}

/// The standard "unsupported field type" message.
pub open spec fn unsupported_text(rendered: Seq<char>) -> Seq<char> {
    "frieze: unsupported field type `"@ + rendered + "`"@ + supported_list()
}

/// The "unsupported field type" message naming the wrapper around the
/// offending type.
pub open spec fn unsupported_inside_text(rendered: Seq<char>, container: Seq<char>) -> Seq<char> {
    "frieze: unsupported field type `"@ + rendered + "` inside "@ + container + supported_list()
}

pub open spec fn qualified_path_text() -> Seq<char> {
    "frieze: qualified paths in field type are not supported. Use a `use` statement to bring the type into scope."@
}

/// A leaf type: a known scalar, or a reference to another `Schema` when
/// it is a single-segment path.
pub open spec fn scalar_spec(t: TypeExpr) -> Result<PropertyShape, Seq<char>> {
    let x = type_text(t);
    if x == "i32"@ {
        Ok(PropertyShape::Int32)
    } else if x == "i64"@ {
        Ok(PropertyShape::Int64)
    } else if x == "u32"@ {
        Ok(PropertyShape::UInt32)
    } else if x == "u64"@ {
        Ok(PropertyShape::UInt64)
    } else if x == "f32"@ {
        Ok(PropertyShape::Float)
    } else if x == "f64"@ {
        Ok(PropertyShape::Double)
    } else if x == "String"@ {
        Ok(PropertyShape::String)
    } else if x == "bool"@ {
        Ok(PropertyShape::Boolean)
    } else {
        match t {
            TypeExpr::Path { segments, node, .. } => if segments@.len() > 1 {
                Err(qualified_path_text())
            } else {
                Ok(PropertyShape::Reference(node))
            },
            TypeExpr::Other { text, .. } => Err(unsupported_text(text@)),
        }
    }
}

/// The items of `Vec<vec_inner>`: `Option<T>` is allowed inside (nullable
/// items), nested `Vec` and `Maybe` are not.
pub open spec fn vec_element_spec(vec_inner: TypeExpr) -> Result<PropertyShape, Seq<char>> {
    if unwrap_spec(vec_inner, Wrapper::Vec) is Some {
        Err("frieze: nested Vec is not supported."@)
    } else if unwrap_spec(vec_inner, Wrapper::Maybe) is Some {
        Err(
            "frieze: Vec<Maybe<T>> is not allowed; array elements are always present on the wire. Use Vec<Option<T>> if elements may be null."@,
        )
    } else {
        match unwrap_spec(vec_inner, Wrapper::Option) {
            Some(o) => if unwrap_spec(o, Wrapper::Option) is Some {
                Err("frieze: nested Option is not supported."@)
            } else if unwrap_spec(o, Wrapper::Maybe) is Some {
                Err("frieze: Option<Maybe<T>> is ambiguous; presence is doubly defined."@)
            } else if unwrap_spec(o, Wrapper::Vec) is Some {
                Err("frieze: nested Vec is not supported."@)
            } else {
                match scalar_spec(o) {
                    Ok(s) => Ok(PropertyShape::Nullable(Box::new(s))),
                    Err(_) => Err(unsupported_inside_text(type_text(o), "Vec<Option<...>>"@)),
                }
            },
            None => match scalar_spec(vec_inner) {
                Ok(s) => Ok(s),
                Err(_) => Err(unsupported_inside_text(type_text(vec_inner), "Vec<...>"@)),
            },
        }
    }
}

/// What `Maybe<inner>` holds: a scalar, or a `Vec<T>` / `Vec<Option<T>>`.
pub open spec fn maybe_inner_spec(inner: TypeExpr) -> Result<PropertyShape, Seq<char>> {
    match unwrap_spec(inner, Wrapper::Vec) {
        Some(v) => match vec_element_spec(v) {
            Ok(e) => Ok(PropertyShape::Array(Box::new(e))),
            Err(m) => Err(m),
        },
        None => match scalar_spec(inner) {
            Ok(s) => Ok(s),
            Err(_) => Err(unsupported_inside_text(type_text(inner), "Maybe<...>"@)),
        },
    }
}

/// The message of a `Maybe<T>` field without the attribute pair.
pub open spec fn maybe_pair_text(field_name: Seq<char>) -> Seq<char> {
    if field_name.len() == 0 {
        "frieze: `Maybe<T>` field requires both `#[serde(default)]` and `#[serde(skip_serializing_if = \"Maybe::is_missing\")]`. Add: #[serde(default, skip_serializing_if = \"Maybe::is_missing\")]"@
    } else {
        "frieze: `Maybe<T>` field `"@ + field_name
            + "` requires both `#[serde(default)]` and `#[serde(skip_serializing_if = \"Maybe::is_missing\")]`. Add: #[serde(default, skip_serializing_if = \"Maybe::is_missing\")]"@
    }
}

/// The diagnostic of a bare `default` on a field that is no `Maybe<T>`.
pub open spec fn default_off_maybe_text() -> Seq<char> {
    "frieze: `#[serde(default)]` is only supported on a `Maybe<T>` field, together with `skip_serializing_if = \"Maybe::is_missing\"`."@
}

/// The diagnostic of a `skip_serializing_if` predicate the field's shape
/// does not recognise.
pub open spec fn skip_predicate_text(predicate: Seq<char>) -> Seq<char> {
    "frieze: `#[serde(skip_serializing_if = \""@ + predicate
        + "\")]` is not supported here; only `Option::is_none` on an `Option<T>` field and `Maybe::is_missing` on a `Maybe<T>` field are recognised."@
}

/// The attribute check of an `Option<T>` field: no `default`, and no
/// predicate but `Option::is_none`.
pub open spec fn option_attrs_spec(scan: ScanModel) -> Option<Seq<char>> {
    if scan.default_bare {
        Some(default_off_maybe_text())
    } else {
        match scan.skip_serializing_if {
            Some(p) => if p == "Option::is_none"@ {
                None
            } else {
                Some(skip_predicate_text(p))
            },
            None => None,
        }
    }
}

/// The attribute check of a `Vec<T>` or leaf field: neither `default` nor
/// a predicate.
pub open spec fn plain_attrs_spec(scan: ScanModel) -> Option<Seq<char>> {
    if scan.default_bare {
        Some(default_off_maybe_text())
    } else {
        match scan.skip_serializing_if {
            Some(p) => Some(skip_predicate_text(p)),
            None => None,
        }
    }
}

/// The property type and presence of a field, or the diagnostic that
/// rejects it, following the table in the module documentation. The
/// serde attributes must fit the shape: the bare `default` belongs to
/// `Maybe<T>` only, and the only predicates are `Option::is_none` on
/// `Option<T>` and `Maybe::is_missing` on `Maybe<T>`.
pub open spec fn field_spec(ty: TypeExpr, scan: ScanModel, field_name: Seq<char>) -> Result<
    (PropertyShape, Presence),
    Seq<char>,
> {
    match unwrap_spec(ty, Wrapper::Maybe) {
        Some(inner) => if unwrap_spec(inner, Wrapper::Option) is Some {
            Err(
                "frieze: Maybe<Option<T>> is ambiguous; nullability is doubly defined. Use Maybe<T> alone."@,
            )
        } else if unwrap_spec(inner, Wrapper::Maybe) is Some {
            Err("frieze: nested Maybe is not supported."@)
        } else if !maybe_pair(scan) {
            Err(maybe_pair_text(field_name))
        } else {
            match maybe_inner_spec(inner) {
                Ok(e) => Ok((PropertyShape::Nullable(Box::new(e)), Presence::Optional)),
                Err(m) => Err(m),
            }
        },
        None => match unwrap_spec(ty, Wrapper::Option) {
            Some(inner) => if unwrap_spec(inner, Wrapper::Option) is Some {
                Err("frieze: nested Option is not supported."@)
            } else if unwrap_spec(inner, Wrapper::Maybe) is Some {
                Err(
                    "frieze: Option<Maybe<T>> is ambiguous; presence is doubly defined. Use Maybe<T> alone."@,
                )
            } else if let Some(m) = option_attrs_spec(scan) {
                Err(m)
            } else {
                match unwrap_spec(inner, Wrapper::Vec) {
                    Some(v) => match vec_element_spec(v) {
                        Ok(e) => Ok(
                            (
                                PropertyShape::Nullable(Box::new(PropertyShape::Array(Box::new(e)))),
                                Presence::Required,
                            ),
                        ),
                        Err(m) => Err(m),
                    },
                    None => match scalar_spec(inner) {
                        Ok(s) => if option_skip(scan) {
                            Ok((s, Presence::Optional))
                        } else {
                            Ok((PropertyShape::Nullable(Box::new(s)), Presence::Required))
                        },
                        Err(_) => Err(unsupported_inside_text(type_text(inner), "Option<...>"@)),
                    },
                }
            },
            None => if let Some(m) = plain_attrs_spec(scan) {
                Err(m)
            } else {
                match unwrap_spec(ty, Wrapper::Vec) {
                Some(v) => match vec_element_spec(v) {
                    Ok(e) => Ok((PropertyShape::Array(Box::new(e)), Presence::Required)),
                    Err(m) => Err(m),
                },
                None => match scalar_spec(ty) {
                    Ok(s) => Ok((s, Presence::Required)),
                    Err(m) => Err(m),
                },
                }
            },
        },
    }
}

fn segments_are(segments: &Vec<String>, expected: &Vec<&str>) -> (r: bool)
    ensures
        r == (string_views(segments@) == expected@.map_values(|s: &str| s@)),
{
    if segments.len() != expected.len() {
        assert(string_views(segments@).len() != expected@.map_values(|s: &str| s@).len());
        return false;
    }
    let mut i: usize = 0;
    while i < segments.len()
        invariant
            segments@.len() == expected@.len(),
            i <= segments@.len(),
            forall|k: int| 0 <= k < i ==> segments@[k]@ == expected@[k]@,
        decreases segments@.len() - i,
    {
        if !str_equal(segments[i].as_str(), expected[i]) {
            assert(string_views(segments@)[i as int] != expected@.map_values(|s: &str| s@)[i as int]);
            return false;
        }
        i = i + 1;
    }
    assert(string_views(segments@) =~= expected@.map_values(|s: &str| s@));
    true
}

fn names_wrapper_exec(segments: &Vec<String>, w: Wrapper) -> (r: bool)
    ensures
        r == names_wrapper(string_views(segments@), w),
{
    let (a, b, c) = match w {
        Wrapper::Option => (vec!["Option"], vec!["std", "option", "Option"], vec![
            "core",
            "option",
            "Option",
        ]),
        Wrapper::Vec => (vec!["Vec"], vec!["std", "vec", "Vec"], vec!["alloc", "vec", "Vec"]),
        Wrapper::Maybe => (vec!["Maybe"], vec!["frieze", "Maybe"], vec!["frieze_model", "Maybe"]),
    };
    proof {
        match w {
            Wrapper::Option => {
                assert(a@.map_values(|s: &str| s@) =~= seq!["Option"@]);
                assert(b@.map_values(|s: &str| s@) =~= seq!["std"@, "option"@, "Option"@]);
                assert(c@.map_values(|s: &str| s@) =~= seq!["core"@, "option"@, "Option"@]);
            },
            Wrapper::Vec => {
                assert(a@.map_values(|s: &str| s@) =~= seq!["Vec"@]);
                assert(b@.map_values(|s: &str| s@) =~= seq!["std"@, "vec"@, "Vec"@]);
                assert(c@.map_values(|s: &str| s@) =~= seq!["alloc"@, "vec"@, "Vec"@]);
            },
            Wrapper::Maybe => {
                assert(a@.map_values(|s: &str| s@) =~= seq!["Maybe"@]);
                assert(b@.map_values(|s: &str| s@) =~= seq!["frieze"@, "Maybe"@]);
                assert(c@.map_values(|s: &str| s@) =~= seq!["frieze_model"@, "Maybe"@]);
            },
        }
    }
    segments_are(segments, &a) || segments_are(segments, &b) || segments_are(segments, &c)
}

/// `T` when `t` is the wrapper `w` applied to the single type `T`.
pub fn unwrap_type(t: &TypeExpr, w: Wrapper) -> (r: Option<&TypeExpr>)
    ensures
        unwrap_spec(*t, w) == match r {
            Some(x) => Some(*x),
            None => None,
        },
{
    match t {
        TypeExpr::Path { segments, argument, .. } => {
            if names_wrapper_exec(segments, w) {
                match argument {
                    Some(b) => Some(&**b),
                    None => None,
                }
            } else {
                None
            }
        },
        TypeExpr::Other { .. } => None,
    }
}

fn text_of(t: &TypeExpr) -> (r: &String)
    ensures
        r@ == type_text(*t),
{
    match t {
        TypeExpr::Path { text, .. } => text,
        TypeExpr::Other { text, .. } => text,
    }
}

fn unsupported_inside(t: &TypeExpr, container: &str) -> (r: String)
    ensures
        r@ == unsupported_inside_text(type_text(*t), container@),
{
    let mut out: Vec<char> = Vec::new();
    push_str(&mut out, "frieze: unsupported field type `");
    push_str(&mut out, text_of(t).as_str());
    push_str(&mut out, "` inside ");
    push_str(&mut out, container);
    push_str(
        &mut out,
        "; only the following are supported in Phase 1: i32, i64, u32, u64, f32, f64, bool, String, Vec<T>, Vec<Option<T>>, Option<T>, Option<Vec<T>>, Maybe<T> (for any supported scalar T). Future PRs will add more.",
    );
    string_from_chars(&out)
}

fn message(s: &str) -> (r: String)
    ensures
        r@ == s@,
{
    let mut out: Vec<char> = Vec::new();
    push_str(&mut out, s);
    string_from_chars(&out)
}

/// Standard "unsupported field type" message.
pub fn unsupported_message(rendered: &str) -> (r: String)
    ensures
        r@ == unsupported_text(rendered@),
{
    let mut out: Vec<char> = Vec::new();
    push_str(&mut out, "frieze: unsupported field type `");
    push_str(&mut out, rendered);
    push_str(&mut out, "`");
    push_str(
        &mut out,
        "; only the following are supported in Phase 1: i32, i64, u32, u64, f32, f64, bool, String, Vec<T>, Vec<Option<T>>, Option<T>, Option<Vec<T>>, Maybe<T> (for any supported scalar T). Future PRs will add more.",
    );
    string_from_chars(&out)
}

/// Maps a leaf type to its property type: a known scalar, or a
/// reference to another `Schema` when it is a single-segment path
/// (generic arguments allowed); qualified paths and other type forms are
/// rejected.
pub fn scalar_property_type(t: &TypeExpr) -> (r: Result<PropertyShape, String>)
    ensures
        match r {
            Ok(s) => scalar_spec(*t) == Ok::<PropertyShape, Seq<char>>(s),
            Err(m) => scalar_spec(*t) == Err::<PropertyShape, Seq<char>>(m@),
        },
{
    let x = text_of(t).as_str();
    if str_equal(x, "i32") {
        Ok(PropertyShape::Int32)
    } else if str_equal(x, "i64") {
        Ok(PropertyShape::Int64)
    } else if str_equal(x, "u32") {
        Ok(PropertyShape::UInt32)
    } else if str_equal(x, "u64") {
        Ok(PropertyShape::UInt64)
    } else if str_equal(x, "f32") {
        Ok(PropertyShape::Float)
    } else if str_equal(x, "f64") {
        Ok(PropertyShape::Double)
    } else if str_equal(x, "String") {
        Ok(PropertyShape::String)
    } else if str_equal(x, "bool") {
        Ok(PropertyShape::Boolean)
    } else {
        match t {
            TypeExpr::Path { segments, node, .. } => {
                if segments.len() > 1 {
                    Err(
                        message(
                            "frieze: qualified paths in field type are not supported. Use a `use` statement to bring the type into scope.",
                        ),
                    )
                } else {
                    Ok(PropertyShape::Reference(*node))
                }
            },
            TypeExpr::Other { text, .. } => Err(unsupported_message(text.as_str())),
        }
    }
}

/// The items of `Vec<vec_inner>`, rejecting nested `Vec` and `Maybe`;
/// `Option<T>` inside gives nullable items.
pub fn vec_element_property_type(vec_inner: &TypeExpr) -> (r: Result<PropertyShape, String>)
    ensures
        match r {
            Ok(s) => vec_element_spec(*vec_inner) == Ok::<PropertyShape, Seq<char>>(s),
            Err(m) => vec_element_spec(*vec_inner) == Err::<PropertyShape, Seq<char>>(m@),
        },
{
    if unwrap_type(vec_inner, Wrapper::Vec).is_some() {
        return Err(message("frieze: nested Vec is not supported."));
    }
    if unwrap_type(vec_inner, Wrapper::Maybe).is_some() {
        return Err(
            message(
                "frieze: Vec<Maybe<T>> is not allowed; array elements are always present on the wire. Use Vec<Option<T>> if elements may be null.",
            ),
        );
    }
    match unwrap_type(vec_inner, Wrapper::Option) {
        Some(o) => {
            if unwrap_type(o, Wrapper::Option).is_some() {
                return Err(message("frieze: nested Option is not supported."));
            }
            if unwrap_type(o, Wrapper::Maybe).is_some() {
                return Err(
                    message("frieze: Option<Maybe<T>> is ambiguous; presence is doubly defined."),
                );
            }
            if unwrap_type(o, Wrapper::Vec).is_some() {
                return Err(message("frieze: nested Vec is not supported."));
            }
            match scalar_property_type(o) {
                Ok(s) => Ok(PropertyShape::Nullable(Box::new(s))),
                Err(_) => Err(unsupported_inside(o, "Vec<Option<...>>")),
            }
        },
        None => match scalar_property_type(vec_inner) {
            Ok(s) => Ok(s),
            Err(_) => Err(unsupported_inside(vec_inner, "Vec<...>")),
        },
    }
}

/// What `Maybe<inner>` holds: a scalar, or a `Vec<T>` / `Vec<Option<T>>`.
fn maybe_inner_property_type(inner: &TypeExpr) -> (r: Result<PropertyShape, String>)
    ensures
        match r {
            Ok(s) => maybe_inner_spec(*inner) == Ok::<PropertyShape, Seq<char>>(s),
            Err(m) => maybe_inner_spec(*inner) == Err::<PropertyShape, Seq<char>>(m@),
        },
{
    match unwrap_type(inner, Wrapper::Vec) {
        Some(v) => match vec_element_property_type(v) {
            Ok(e) => Ok(PropertyShape::Array(Box::new(e))),
            Err(m) => Err(m),
        },
        None => match scalar_property_type(inner) {
            Ok(s) => Ok(s),
            Err(_) => Err(unsupported_inside(inner, "Maybe<...>")),
        },
    }
}

fn skip_predicate_message(predicate: &str) -> (r: String)
    ensures
        r@ == skip_predicate_text(predicate@),
{
    let mut out: Vec<char> = Vec::new();
    push_str(&mut out, "frieze: `#[serde(skip_serializing_if = \"");
    push_str(&mut out, predicate);
    push_str(
        &mut out,
        "\")]` is not supported here; only `Option::is_none` on an `Option<T>` field and `Maybe::is_missing` on a `Maybe<T>` field are recognised.",
    );
    string_from_chars(&out)
}

fn default_off_maybe_message() -> (r: String)
    ensures
        r@ == default_off_maybe_text(),
{
    message(
        "frieze: `#[serde(default)]` is only supported on a `Maybe<T>` field, together with `skip_serializing_if = \"Maybe::is_missing\"`.",
    )
}

/// The attribute check of an `Option<T>` field.
fn option_attrs(scan: &SerdeScan) -> (r: Option<String>)
    ensures
        opt_view(r) == option_attrs_spec(scan_model(*scan)),
{
    if scan.default_bare {
        return Some(default_off_maybe_message());
    }
    match &scan.skip_serializing_if {
        Some(p) => if str_equal(p.as_str(), "Option::is_none") {
            None
        } else {
            Some(skip_predicate_message(p.as_str()))
        },
        None => None,
    }
}

/// The attribute check of a `Vec<T>` or leaf field.
fn plain_attrs(scan: &SerdeScan) -> (r: Option<String>)
    ensures
        opt_view(r) == plain_attrs_spec(scan_model(*scan)),
{
    if scan.default_bare {
        return Some(default_off_maybe_message());
    }
    match &scan.skip_serializing_if {
        Some(p) => Some(skip_predicate_message(p.as_str())),
        None => None,
    }
}

fn maybe_pair_message(field_name: &str) -> (r: String)
    ensures
        r@ == maybe_pair_text(field_name@),
{
    let name = crate::text::chars_of(field_name);
    let mut out: Vec<char> = Vec::new();
    if name.len() == 0 {
        push_str(
            &mut out,
            "frieze: `Maybe<T>` field requires both `#[serde(default)]` and `#[serde(skip_serializing_if = \"Maybe::is_missing\")]`. Add: #[serde(default, skip_serializing_if = \"Maybe::is_missing\")]",
        );
    } else {
        push_str(&mut out, "frieze: `Maybe<T>` field `");
        push_str(&mut out, field_name);
        push_str(
            &mut out,
            "` requires both `#[serde(default)]` and `#[serde(skip_serializing_if = \"Maybe::is_missing\")]`. Add: #[serde(default, skip_serializing_if = \"Maybe::is_missing\")]",
        );
    }
    string_from_chars(&out)
}

/// Decides the property type and presence of one struct field from its
/// type and its scanned serde attributes: `Maybe<T>`, then `Option<T>`
/// (with the `skip_serializing_if` discrimination), then `Vec<T>`, then
/// a leaf type. An error carries the diagnostic, which belongs at the
/// field's type.
pub fn parse_field(ty: &TypeExpr, scan: &SerdeScan, field_name: &str) -> (r: Result<
    (PropertyShape, Presence),
    String,
>)
    ensures
        match r {
            Ok(p) => field_spec(*ty, scan_model(*scan), field_name@) == Ok::<
                (PropertyShape, Presence),
                Seq<char>,
            >(p),
            Err(m) => field_spec(*ty, scan_model(*scan), field_name@) == Err::<
                (PropertyShape, Presence),
                Seq<char>,
            >(m@),
        },
{
    if let Some(inner) = unwrap_type(ty, Wrapper::Maybe) {
        if unwrap_type(inner, Wrapper::Option).is_some() {
            return Err(
                message(
                    "frieze: Maybe<Option<T>> is ambiguous; nullability is doubly defined. Use Maybe<T> alone.",
                ),
            );
        }
        if unwrap_type(inner, Wrapper::Maybe).is_some() {
            return Err(message("frieze: nested Maybe is not supported."));
        }
        if !has_maybe_attribute_pair(scan) {
            return Err(maybe_pair_message(field_name));
        }
        match maybe_inner_property_type(inner) {
            Ok(e) => Ok((PropertyShape::Nullable(Box::new(e)), Presence::Optional)),
            Err(m) => Err(m),
        }
    } else if let Some(inner) = unwrap_type(ty, Wrapper::Option) {
        if unwrap_type(inner, Wrapper::Option).is_some() {
            return Err(message("frieze: nested Option is not supported."));
        }
        if unwrap_type(inner, Wrapper::Maybe).is_some() {
            return Err(
                message(
                    "frieze: Option<Maybe<T>> is ambiguous; presence is doubly defined. Use Maybe<T> alone.",
                ),
            );
        }
        if let Some(m) = option_attrs(scan) {
            return Err(m);
        }
        if let Some(v) = unwrap_type(inner, Wrapper::Vec) {
            return match vec_element_property_type(v) {
                Ok(e) => Ok(
                    (
                        PropertyShape::Nullable(Box::new(PropertyShape::Array(Box::new(e)))),
                        Presence::Required,
                    ),
                ),
                Err(m) => Err(m),
            };
        }
        match scalar_property_type(inner) {
            Ok(s) => {
                if is_option_skip_predicate(scan) {
                    Ok((s, Presence::Optional))
                } else {
                    Ok((PropertyShape::Nullable(Box::new(s)), Presence::Required))
                }
            },
            Err(_) => Err(unsupported_inside(inner, "Option<...>")),
        }
    } else if let Some(m) = plain_attrs(scan) {
        Err(m)
    } else if let Some(v) = unwrap_type(ty, Wrapper::Vec) {
        match vec_element_property_type(v) {
            Ok(e) => Ok((PropertyShape::Array(Box::new(e)), Presence::Required)),
            Err(m) => Err(m),
        }
    } else {
        match scalar_property_type(ty) {
            Ok(s) => Ok((s, Presence::Required)),
            Err(m) => Err(m),
        }
    }
}

/// The type reached by peeling `Vec<..>`, `Option<..>` and `Maybe<..>`
/// layers (none of which is a `Schema` itself): the type whose
/// `register_into` a derived `register_into` calls.
pub open spec fn terminal_type(t: TypeExpr) -> TypeExpr
    decreases t,
{
    match t {
        TypeExpr::Path { argument: Some(b), .. } => if unwrap_spec(t, Wrapper::Vec) is Some
            || unwrap_spec(t, Wrapper::Option) is Some || unwrap_spec(t, Wrapper::Maybe) is Some {
            terminal_type(*b)
        } else {
            t
        },
        _ => t,
    }
}

/// The terminal type under any `Vec` / `Option` / `Maybe` layers.
pub fn strip_collection_wrappers(t: &TypeExpr) -> (r: &TypeExpr)
    ensures
        *r == terminal_type(*t),
    decreases t,
{
    if let Some(inner) = unwrap_type(t, Wrapper::Vec) {
        return strip_collection_wrappers(inner);
    }
    if let Some(inner) = unwrap_type(t, Wrapper::Option) {
        return strip_collection_wrappers(inner);
    }
    if let Some(inner) = unwrap_type(t, Wrapper::Maybe) {
        return strip_collection_wrappers(inner);
    }
    t
}

} // verus!
