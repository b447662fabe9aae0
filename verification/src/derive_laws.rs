//! Laws of the derive's decisions: what a field's property type keeps of
//! its Rust type, and how an enum's wire names are formed.

use vstd::prelude::*;

use crate::field::{
    field_spec, names_wrapper, scalar_spec, terminal_type, type_text, unwrap_spec, Presence,
    PropertyShape, TypeExpr, Wrapper,
};
use crate::expand_common::container_rule_spec;
use crate::expand_enum::{
    arm_step, arms_upto, enum_spec, string_step, string_upto, ArmModel, EnumInput, EnumModel,
    VariantInput,
};
use crate::expand_common::WireModel;
use crate::expand_struct::{field_step, fields_upto, struct_spec, FieldInput, PropertyModel, StructInput};
use crate::rename::{
    field_rule, is_snake_ident, law_snake_pascal_round_trip, pascal_of, variant_rule, RenameAll,
};
use crate::serde_scan::{scan_result, ScanModel};
use crate::text::string_views;

verus! {

/// What a scalar value is: an integer of a signedness and a width, a
/// floating-point number of a width, text, or a truth value.
pub enum ValueKind {
    Int { signed: bool, bits: nat },
    Float { bits: nat },
    Text,
    Truth,
}

/// The values of the Rust scalar types the derive knows.
pub open spec fn rust_scalar_kind(name: Seq<char>) -> Option<ValueKind> {
    if name == "i32"@ {
        Some(ValueKind::Int { signed: true, bits: 32 })
    } else if name == "i64"@ {
        Some(ValueKind::Int { signed: true, bits: 64 })
    } else if name == "u32"@ {
        Some(ValueKind::Int { signed: false, bits: 32 })
    } else if name == "u64"@ {
        Some(ValueKind::Int { signed: false, bits: 64 })
    } else if name == "f32"@ {
        Some(ValueKind::Float { bits: 32 })
    } else if name == "f64"@ {
        Some(ValueKind::Float { bits: 64 })
    } else if name == "String"@ {
        Some(ValueKind::Text)
    } else if name == "bool"@ {
        Some(ValueKind::Truth)
    } else {
        None
    }
}

/// The values a scalar property type describes (`Int32` is the OAS
/// `integer` of format `int32`, `UInt64` the one of format `uint64`,
/// `Float` / `Double` the `number` of format `float` / `double`).
pub open spec fn shape_kind(s: PropertyShape) -> Option<ValueKind> {
    match s {
        PropertyShape::Int32 => Some(ValueKind::Int { signed: true, bits: 32 }),
        PropertyShape::Int64 => Some(ValueKind::Int { signed: true, bits: 64 }),
        PropertyShape::UInt32 => Some(ValueKind::Int { signed: false, bits: 32 }),
        PropertyShape::UInt64 => Some(ValueKind::Int { signed: false, bits: 64 }),
        PropertyShape::Float => Some(ValueKind::Float { bits: 32 }),
        PropertyShape::Double => Some(ValueKind::Float { bits: 64 }),
        PropertyShape::String => Some(ValueKind::Text),
        PropertyShape::Boolean => Some(ValueKind::Truth),
        _ => None,
    }
}

/// A known scalar type maps to the property type of exactly its values:
/// the same signedness and width for an integer, the same width for a
/// float, text for `String`, a truth value for `bool`. As a field of its
/// own, without serde attributes, it is a required property of that type.
pub proof fn law_scalars_keep_their_values(t: TypeExpr, scan: ScanModel, field_name: Seq<char>)
    requires
        rust_scalar_kind(type_text(t)) is Some,
    ensures
        scalar_spec(t) matches Ok(s) && shape_kind(s) == rust_scalar_kind(type_text(t)),
        unwrap_spec(t, Wrapper::Maybe) is None && unwrap_spec(t, Wrapper::Option) is None
            && unwrap_spec(t, Wrapper::Vec) is None && !scan.default_bare
            && scan.skip_serializing_if is None ==> (field_spec(t, scan, field_name) matches Ok(
            (s, p),
        ) && p == Presence::Required && shape_kind(s) == rust_scalar_kind(type_text(t))),
{
    reveal_strlit("i32");
    reveal_strlit("i64");
    reveal_strlit("u32");
    reveal_strlit("u64");
    reveal_strlit("f32");
    reveal_strlit("f64");
    reveal_strlit("String");
    reveal_strlit("bool");
}

/// The number of `Vec` layers among the wrappers of a type.
pub open spec fn vec_layers(t: TypeExpr) -> nat
    decreases t,
{
    match t {
        TypeExpr::Path { argument: Some(b), .. } => if unwrap_spec(t, Wrapper::Vec) is Some {
            1 + vec_layers(*b)
        } else if unwrap_spec(t, Wrapper::Option) is Some || unwrap_spec(t, Wrapper::Maybe) is Some {
            vec_layers(*b)
        } else {
            0
        },
        _ => 0,
    }
}

/// The number of array layers of a property type.
pub open spec fn array_layers(s: PropertyShape) -> nat
    decreases s,
{
    match s {
        PropertyShape::Array(b) => 1 + array_layers(*b),
        PropertyShape::Nullable(b) => array_layers(*b),
        _ => 0,
    }
}

/// The property type under every array and nullable layer.
pub open spec fn shape_leaf(s: PropertyShape) -> PropertyShape
    decreases s,
{
    match s {
        PropertyShape::Array(b) => shape_leaf(*b),
        PropertyShape::Nullable(b) => shape_leaf(*b),
        _ => s,
    }
}

proof fn lemma_wrappers_exclusive(segments: Seq<Seq<char>>, a: Wrapper, b: Wrapper)
    requires
        names_wrapper(segments, a),
        names_wrapper(segments, b),
    ensures
        a == b,
{
    reveal_strlit("Option");
    reveal_strlit("std");
    reveal_strlit("option");
    reveal_strlit("core");
    reveal_strlit("Vec");
    reveal_strlit("vec");
    reveal_strlit("alloc");
    reveal_strlit("Maybe");
    reveal_strlit("frieze");
    reveal_strlit("frieze_model");
    if segments.len() == 1 {
        assert(segments[0].len() == 6 || segments[0].len() == 3 || segments[0].len() == 5) by {
            if names_wrapper(segments, Wrapper::Option) {
                assert(segments[0] == "Option"@);
            }
        }
    }
    if segments.len() >= 2 {
        assert(segments[0].len() > 0);
    }
    match (a, b) {
        (Wrapper::Option, Wrapper::Vec) | (Wrapper::Vec, Wrapper::Option) => {
            if segments.len() == 1 {
                assert(segments[0].len() == 6 || segments[0].len() == 3);
            } else {
                assert(segments[1].len() == 6 || segments[1].len() == 3);
            }
        },
        (Wrapper::Option, Wrapper::Maybe) | (Wrapper::Maybe, Wrapper::Option) => {
            if segments.len() == 1 {
                assert(segments[0].len() == 6 || segments[0].len() == 5);
            } else {
                assert(segments.len() == 3 || segments.len() == 2);
            }
        },
        (Wrapper::Vec, Wrapper::Maybe) | (Wrapper::Maybe, Wrapper::Vec) => {
            if segments.len() == 1 {
                assert(segments[0].len() == 3 || segments[0].len() == 5);
            } else {
                assert(segments.len() == 3 || segments.len() == 2);
            }
        },
        _ => {},
    }
}

proof fn lemma_unwraps_exclusive(t: TypeExpr, a: Wrapper, b: Wrapper)
    requires
        unwrap_spec(t, a) is Some,
        unwrap_spec(t, b) is Some,
    ensures
        a == b,
{
    match t {
        TypeExpr::Path { segments, .. } => lemma_wrappers_exclusive(string_views(segments@), a, b),
        _ => {},
    }
}

/// A type under wrapper `w` has the `Vec` layers of its argument, one
/// more for `Vec`; a type under no wrapper has none.
proof fn lemma_vec_layers_step(t: TypeExpr)
    ensures
        unwrap_spec(t, Wrapper::Vec) matches Some(x) ==> vec_layers(t) == 1 + vec_layers(x),
        unwrap_spec(t, Wrapper::Option) matches Some(x) ==> vec_layers(t) == vec_layers(x),
        unwrap_spec(t, Wrapper::Maybe) matches Some(x) ==> vec_layers(t) == vec_layers(x),
        unwrap_spec(t, Wrapper::Vec) is None && unwrap_spec(t, Wrapper::Option) is None
            && unwrap_spec(t, Wrapper::Maybe) is None ==> vec_layers(t) == 0
            && terminal_type(t) == t,
        unwrap_spec(t, Wrapper::Vec) matches Some(x) ==> terminal_type(t) == terminal_type(x),
        unwrap_spec(t, Wrapper::Option) matches Some(x) ==> terminal_type(t) == terminal_type(x),
        unwrap_spec(t, Wrapper::Maybe) matches Some(x) ==> terminal_type(t) == terminal_type(x),
{
    if unwrap_spec(t, Wrapper::Option) is Some && unwrap_spec(t, Wrapper::Vec) is Some {
        lemma_unwraps_exclusive(t, Wrapper::Option, Wrapper::Vec);
    }
    if unwrap_spec(t, Wrapper::Maybe) is Some && unwrap_spec(t, Wrapper::Vec) is Some {
        lemma_unwraps_exclusive(t, Wrapper::Maybe, Wrapper::Vec);
    }
}

/// A leaf type (no wrapper) the scalar mapping accepts.
proof fn lemma_leaf(t: TypeExpr, s: PropertyShape)
    requires
        unwrap_spec(t, Wrapper::Vec) is None,
        unwrap_spec(t, Wrapper::Option) is None,
        unwrap_spec(t, Wrapper::Maybe) is None,
        scalar_spec(t) == Ok::<PropertyShape, Seq<char>>(s),
    ensures
        vec_layers(t) == 0,
        array_layers(s) == 0,
        shape_leaf(s) == s,
        terminal_type(t) == t,
        nullable_layers(s) == 0,
        optional_layers(t) == 0,
{
    lemma_vec_layers_step(t);
    lemma_optional_layers_step(t);
}

/// The items of `Vec<x>`: one `Vec` layer fewer than the field, no array.
proof fn lemma_vec_element(x: TypeExpr, e: PropertyShape)
    requires
        crate::field::vec_element_spec(x) == Ok::<PropertyShape, Seq<char>>(e),
    ensures
        array_layers(e) == vec_layers(x),
        shape_leaf(e) == scalar_spec(terminal_type(x))->Ok_0,
        scalar_spec(terminal_type(x)) is Ok,
{
    lemma_vec_layers_step(x);
    match unwrap_spec(x, Wrapper::Option) {
        Some(o) => {
            lemma_vec_layers_step(o);
            lemma_leaf(o, scalar_spec(o)->Ok_0);
        },
        None => {
            lemma_leaf(x, e);
        },
    }
}

/// A field's property type mirrors its Rust type: one array layer for
/// every `Vec` layer of the type (a `Maybe<Vec<T>>` is a nullable array,
/// never a bare `T`), and under all layers the property type of the
/// type's innermost scalar. A `Maybe<T>` field is always an optional,
/// nullable property.
pub proof fn law_field_shape_mirrors_type(ty: TypeExpr, scan: ScanModel, field_name: Seq<char>)
    requires
        field_spec(ty, scan, field_name) is Ok,
    ensures
        array_layers(field_spec(ty, scan, field_name)->Ok_0.0) == vec_layers(ty),
        scalar_spec(terminal_type(ty)) is Ok,
        shape_leaf(field_spec(ty, scan, field_name)->Ok_0.0) == scalar_spec(terminal_type(ty))->Ok_0,
        unwrap_spec(ty, Wrapper::Maybe) is Some ==> field_spec(ty, scan, field_name)->Ok_0.1
            == Presence::Optional && field_spec(ty, scan, field_name)->Ok_0.0 is Nullable,
{
    let shape = field_spec(ty, scan, field_name)->Ok_0.0;
    lemma_vec_layers_step(ty);
    match unwrap_spec(ty, Wrapper::Maybe) {
        Some(inner) => {
            lemma_vec_layers_step(inner);
            match unwrap_spec(inner, Wrapper::Vec) {
                Some(v) => {
                    let e = crate::field::vec_element_spec(v)->Ok_0;
                    lemma_vec_element(v, e);
                    let arr = PropertyShape::Array(Box::new(e));
                    assert(shape == PropertyShape::Nullable(Box::new(arr)));
                    assert(array_layers(arr) == 1 + array_layers(e));
                    assert(shape_leaf(arr) == shape_leaf(e));
                },
                None => {
                    let x = scalar_spec(inner)->Ok_0;
                    lemma_leaf(inner, x);
                    assert(shape == PropertyShape::Nullable(Box::new(x)));
                },
            }
        },
        None => match unwrap_spec(ty, Wrapper::Option) {
            Some(inner) => {
                lemma_vec_layers_step(inner);
                match unwrap_spec(inner, Wrapper::Vec) {
                    Some(v) => {
                        let e = crate::field::vec_element_spec(v)->Ok_0;
                        lemma_vec_element(v, e);
                        let arr = PropertyShape::Array(Box::new(e));
                        assert(shape == PropertyShape::Nullable(Box::new(arr)));
                        assert(array_layers(arr) == 1 + array_layers(e));
                        assert(shape_leaf(arr) == shape_leaf(e));
                    },
                    None => {
                        let x = scalar_spec(inner)->Ok_0;
                        lemma_leaf(inner, x);
                        assert(shape == x || shape == PropertyShape::Nullable(Box::new(x)));
                    },
                }
            },
            None => match unwrap_spec(ty, Wrapper::Vec) {
                Some(v) => {
                    let e = crate::field::vec_element_spec(v)->Ok_0;
                    lemma_vec_element(v, e);
                    assert(shape == PropertyShape::Array(Box::new(e)));
                },
                None => {
                    lemma_leaf(ty, scalar_spec(ty)->Ok_0);
                },
            },
        },
    }
}

/// The number of `Option` and `Maybe` layers among the wrappers of a type.
pub open spec fn optional_layers(t: TypeExpr) -> nat
    decreases t,
{
    match t {
        TypeExpr::Path { argument: Some(b), .. } => if unwrap_spec(t, Wrapper::Vec) is Some {
            optional_layers(*b)
        } else if unwrap_spec(t, Wrapper::Option) is Some || unwrap_spec(t, Wrapper::Maybe) is Some {
            1 + optional_layers(*b)
        } else {
            0
        },
        _ => 0,
    }
}

/// The number of nullable layers of a property type.
pub open spec fn nullable_layers(s: PropertyShape) -> nat
    decreases s,
{
    match s {
        PropertyShape::Array(b) => nullable_layers(*b),
        PropertyShape::Nullable(b) => 1 + nullable_layers(*b),
        _ => 0,
    }
}

proof fn lemma_optional_layers_step(t: TypeExpr)
    ensures
        unwrap_spec(t, Wrapper::Vec) matches Some(x) ==> optional_layers(t) == optional_layers(x),
        unwrap_spec(t, Wrapper::Option) matches Some(x) ==> optional_layers(t) == 1
            + optional_layers(x),
        unwrap_spec(t, Wrapper::Maybe) matches Some(x) ==> optional_layers(t) == 1
            + optional_layers(x),
        unwrap_spec(t, Wrapper::Vec) is None && unwrap_spec(t, Wrapper::Option) is None
            && unwrap_spec(t, Wrapper::Maybe) is None ==> optional_layers(t) == 0,
{
    if unwrap_spec(t, Wrapper::Option) is Some && unwrap_spec(t, Wrapper::Vec) is Some {
        lemma_unwraps_exclusive(t, Wrapper::Option, Wrapper::Vec);
    }
    if unwrap_spec(t, Wrapper::Maybe) is Some && unwrap_spec(t, Wrapper::Vec) is Some {
        lemma_unwraps_exclusive(t, Wrapper::Maybe, Wrapper::Vec);
    }
}

proof fn lemma_vec_element_nullable(x: TypeExpr, e: PropertyShape)
    requires
        crate::field::vec_element_spec(x) == Ok::<PropertyShape, Seq<char>>(e),
    ensures
        nullable_layers(e) == optional_layers(x),
{
    lemma_optional_layers_step(x);
    match unwrap_spec(x, Wrapper::Option) {
        Some(o) => {
            lemma_optional_layers_step(o);
            lemma_leaf(o, scalar_spec(o)->Ok_0);
        },
        None => {
            lemma_leaf(x, e);
        },
    }
}

/// Nullability and presence mirror the type too: every `Option` and
/// `Maybe` layer makes one nullable layer, except that an `Option<T>` of
/// a scalar `T` carrying `skip_serializing_if = "Option::is_none"` is an
/// optional, non-nullable property instead. A property is optional
/// exactly for a `Maybe<T>` field and for that `Option<T>` case.
pub proof fn law_field_nullability_mirrors_type(ty: TypeExpr, scan: ScanModel, field_name: Seq<char>)
    requires
        field_spec(ty, scan, field_name) is Ok,
    ensures
        ({
            let skipped_option = unwrap_spec(ty, Wrapper::Option) matches Some(inner) && unwrap_spec(
                inner,
                Wrapper::Vec,
            ) is None && scan.skip_serializing_if == Some("Option::is_none"@);
            let (shape, presence) = field_spec(ty, scan, field_name)->Ok_0;
            &&& nullable_layers(shape) + (if skipped_option {
                1int
            } else {
                0int
            }) == optional_layers(ty)
            &&& (presence == Presence::Optional) == (unwrap_spec(ty, Wrapper::Maybe) is Some
                || skipped_option)
        }),
{
    let shape = field_spec(ty, scan, field_name)->Ok_0.0;
    lemma_optional_layers_step(ty);
    if unwrap_spec(ty, Wrapper::Maybe) is Some && unwrap_spec(ty, Wrapper::Option) is Some {
        lemma_unwraps_exclusive(ty, Wrapper::Maybe, Wrapper::Option);
    }
    match unwrap_spec(ty, Wrapper::Maybe) {
        Some(inner) => {
            lemma_optional_layers_step(inner);
            match unwrap_spec(inner, Wrapper::Vec) {
                Some(v) => {
                    let e = crate::field::vec_element_spec(v)->Ok_0;
                    lemma_vec_element_nullable(v, e);
                    let arr = PropertyShape::Array(Box::new(e));
                    assert(shape == PropertyShape::Nullable(Box::new(arr)));
                    assert(nullable_layers(arr) == nullable_layers(e));
                },
                None => {
                    let x = scalar_spec(inner)->Ok_0;
                    lemma_leaf(inner, x);
                    assert(shape == PropertyShape::Nullable(Box::new(x)));
                },
            }
        },
        None => match unwrap_spec(ty, Wrapper::Option) {
            Some(inner) => {
                lemma_optional_layers_step(inner);
                match unwrap_spec(inner, Wrapper::Vec) {
                    Some(v) => {
                        let e = crate::field::vec_element_spec(v)->Ok_0;
                        lemma_vec_element_nullable(v, e);
                        let arr = PropertyShape::Array(Box::new(e));
                        assert(shape == PropertyShape::Nullable(Box::new(arr)));
                        assert(nullable_layers(arr) == nullable_layers(e));
                    },
                    None => {
                        let x = scalar_spec(inner)->Ok_0;
                        lemma_leaf(inner, x);
                    },
                }
            },
            None => match unwrap_spec(ty, Wrapper::Vec) {
                Some(v) => {
                    let e = crate::field::vec_element_spec(v)->Ok_0;
                    lemma_vec_element_nullable(v, e);
                    assert(shape == PropertyShape::Array(Box::new(e)));
                },
                None => {
                    lemma_leaf(ty, scalar_spec(ty)->Ok_0);
                },
            },
        },
    }
}

proof fn lemma_fields_elements(fields: Seq<FieldInput>, rule: RenameAll, k: int)
    requires
        0 <= k,
        fields_upto(fields, rule, k) is Ok,
    ensures
        fields_upto(fields, rule, k)->Ok_0.len() == k,
        forall|i: int| 0 <= i < k ==> (#[trigger] field_step(fields[i], rule, i)) is Ok,
        forall|i: int|
            0 <= i < k ==> (#[trigger] fields_upto(fields, rule, k)->Ok_0[i]) == field_step(
                fields[i],
                rule,
                i,
            )->Ok_0,
    decreases k,
{
    if k > 0 {
        lemma_fields_elements(fields, rule, k - 1);
        let prev = fields_upto(fields, rule, k - 1)->Ok_0;
        let cur = fields_upto(fields, rule, k)->Ok_0;
        assert(field_step(fields[k - 1], rule, k - 1) is Ok);
        assert(cur == prev.push(field_step(fields[k - 1], rule, k - 1)->Ok_0));
        assert forall|i: int| 0 <= i < k implies (#[trigger] fields_upto(fields, rule, k)->Ok_0[i])
            == field_step(fields[i], rule, i)->Ok_0 by {
            if i < k - 1 {
                assert(cur[i] == prev[i]);
            }
        }
    }
}

/// The wire name serde gives field `f` under the container rule: its own
/// `rename`, else serde's field rule applied to its identifier.
pub open spec fn field_wire_name(f: FieldInput, rule: RenameAll) -> Seq<char> {
    match scan_result(f.serde@)->Ok_0.rename {
        Some((name, _)) => name,
        None => field_rule(rule, f.ident@),
    }
}

/// Every field of an accepted struct is named on the wire as serde names
/// it: by its own `rename`, else by the container's `rename_all` under
/// the field rule (a snake_case identifier is kept under `snake_case` and
/// becomes PascalCase under `PascalCase`). Its property type is the one
/// its own type and serde attributes give.
pub proof fn law_struct_properties_follow_their_fields(input: StructInput, i: int)
    requires
        struct_spec(input) is Ok,
        input.fields is Named,
        0 <= i < input.fields->Named_0@.len(),
    ensures
        ({
            let rule = container_rule_spec(scan_result(input.serde@)->Ok_0)->Ok_0;
            let f = input.fields->Named_0@[i];
            let p = struct_spec(input)->Ok_0.properties[i];
            &&& p.wire == field_wire_name(f, rule)
            &&& field_spec(f.ty, scan_result(f.serde@)->Ok_0, f.ident@) == Ok::<
                (PropertyShape, Presence),
                Seq<char>,
            >((p.shape, p.presence))
            &&& rule == RenameAll::SnakeCase && scan_result(f.serde@)->Ok_0.rename is None
                ==> p.wire == f.ident@
            &&& rule == RenameAll::PascalCase && scan_result(f.serde@)->Ok_0.rename is None
                ==> p.wire == pascal_of(f.ident@)
        }),
{
    let sc = scan_result(input.serde@)->Ok_0;
    let rule = container_rule_spec(sc)->Ok_0;
    let fields = input.fields->Named_0@;
    lemma_fields_elements(fields, rule, fields.len() as int);
    let xs = fields_upto(fields, rule, fields.len() as int)->Ok_0;
    assert(xs[i] == field_step(fields[i], rule, i)->Ok_0);
    let props = xs.map_values(|x: (PropertyModel, WireModel)| x.0);
    assert(props[i] == xs[i].0);
}

proof fn lemma_arms_elements(
    vs: Seq<VariantInput>,
    rule: RenameAll,
    e: Seq<char>,
    tag: Seq<char>,
    k: int,
)
    requires
        0 <= k,
        arms_upto(vs, rule, e, tag, k) is Ok,
    ensures
        arms_upto(vs, rule, e, tag, k)->Ok_0.len() == k,
        forall|i: int| 0 <= i < k ==> (#[trigger] arm_step(vs[i], rule, e, tag, i)) is Ok,
        forall|i: int|
            0 <= i < k ==> (#[trigger] arms_upto(vs, rule, e, tag, k)->Ok_0[i]) == arm_step(
                vs[i],
                rule,
                e,
                tag,
                i,
            )->Ok_0,
    decreases k,
{
    if k > 0 {
        lemma_arms_elements(vs, rule, e, tag, k - 1);
        let prev = arms_upto(vs, rule, e, tag, k - 1)->Ok_0;
        let cur = arms_upto(vs, rule, e, tag, k)->Ok_0;
        assert(arm_step(vs[k - 1], rule, e, tag, k - 1) is Ok);
        assert(cur == prev.push(arm_step(vs[k - 1], rule, e, tag, k - 1)->Ok_0));
        assert forall|i: int| 0 <= i < k implies (#[trigger] arms_upto(vs, rule, e, tag, k)->Ok_0[i])
            == arm_step(vs[i], rule, e, tag, i)->Ok_0 by {
            if i < k - 1 {
                assert(cur[i] == prev[i]);
            }
        }
    }
}

proof fn lemma_string_elements(vs: Seq<VariantInput>, rule: RenameAll, k: int)
    requires
        0 <= k,
        string_upto(vs, rule, k) is Ok,
    ensures
        string_upto(vs, rule, k)->Ok_0.len() == k,
        forall|i: int| 0 <= i < k ==> (#[trigger] string_step(vs[i], rule, i)) is Ok,
        forall|i: int|
            0 <= i < k ==> (#[trigger] string_upto(vs, rule, k)->Ok_0[i]) == string_step(
                vs[i],
                rule,
                i,
            )->Ok_0,
    decreases k,
{
    if k > 0 {
        lemma_string_elements(vs, rule, k - 1);
        let prev = string_upto(vs, rule, k - 1)->Ok_0;
        let cur = string_upto(vs, rule, k)->Ok_0;
        assert(string_step(vs[k - 1], rule, k - 1) is Ok);
        assert(cur == prev.push(string_step(vs[k - 1], rule, k - 1)->Ok_0));
        assert forall|i: int| 0 <= i < k implies (#[trigger] string_upto(vs, rule, k)->Ok_0[i])
            == string_step(vs[i], rule, i)->Ok_0 by {
            if i < k - 1 {
                assert(cur[i] == prev[i]);
            }
        }
    }
}

/// The wire name serde gives variant `v` under the container rule: its
/// own `rename`, else serde's variant rule applied to its identifier.
pub open spec fn variant_wire_name(v: VariantInput, rule: RenameAll) -> Seq<char> {
    match scan_result(v.serde@)->Ok_0.rename {
        Some((name, _)) => name,
        None => variant_rule(rule, v.ident@),
    }
}

/// Every variant of an accepted enum is named on the wire as serde names
/// it: by its own `rename`, else by the container's `rename_all` under
/// the variant rule (a PascalCase identifier becomes snake_case under
/// `snake_case`). A tagged enum's `oneOf` arms and a string enum's values
/// are named alike.
pub proof fn law_enum_wire_names_follow_the_variant_rule(input: EnumInput, i: int)
    requires
        enum_spec(input) is Ok,
        0 <= i < input.variants@.len(),
    ensures
        ({
            let rule = container_rule_spec(scan_result(input.serde@)->Ok_0)->Ok_0;
            let v = input.variants@[i];
            &&& enum_spec(input)->Ok_0 matches EnumModel::OneOf { arms, .. } ==> arms[i].wire
                == variant_wire_name(v, rule)
            &&& enum_spec(input)->Ok_0 matches EnumModel::StringEnum { values, .. } ==> values[i]
                == variant_wire_name(v, rule)
        }),
        ({
            let rule = container_rule_spec(scan_result(input.serde@)->Ok_0)->Ok_0;
            let v = input.variants@[i];
            forall|f: Seq<char>|
                rule == RenameAll::SnakeCase && scan_result(v.serde@)->Ok_0.rename is None
                    && is_snake_ident(f) && v.ident@ == pascal_of(f) ==> #[trigger]
                variant_wire_name(v, rule) == f
        }),
{
    let sc = scan_result(input.serde@)->Ok_0;
    let rule = container_rule_spec(sc)->Ok_0;
    let vs = input.variants@;
    let v = vs[i];
    match sc.tag {
        Some((tag, _)) => {
            lemma_arms_elements(vs, rule, input.ident@, tag, vs.len() as int);
            let xs = arms_upto(vs, rule, input.ident@, tag, vs.len() as int)->Ok_0;
            assert(xs[i] == arm_step(v, rule, input.ident@, tag, i)->Ok_0);
            let arms = xs.map_values(|x: (ArmModel, WireModel)| x.0);
            assert(arms[i] == xs[i].0);
        },
        None => {
            lemma_string_elements(vs, rule, vs.len() as int);
            let xs = string_upto(vs, rule, vs.len() as int)->Ok_0;
            assert(xs[i] == string_step(v, rule, i)->Ok_0);
            let values = xs.map_values(|x: (Seq<char>, Option<Seq<char>>, WireModel)| x.0);
            assert(values[i] == xs[i].0);
        },
    }
    assert forall|f: Seq<char>|
        rule == RenameAll::SnakeCase && scan_result(v.serde@)->Ok_0.rename is None && is_snake_ident(
            f,
        ) && v.ident@ == pascal_of(f) implies #[trigger] variant_wire_name(v, rule) == f by {
        law_snake_pascal_round_trip(f);
    }
}

} // verus!
