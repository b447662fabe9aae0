//! The versioned OAS emitter: turns schema values into the wire tree of
//! the OAS version a document targets.
//!
//! Within an object schema the key order is `$ref, type, description,
//! format, minimum, items, required, properties, allOf, oneOf, nullable`.
//! On top of that order:
//!
//! - **OAS 3.0**: nullability is emitted as `nullable: true` at the tail
//!   and `type` stays a scalar. A reference carrying a `description`
//!   and/or `nullable` intent is wrapped as
//!   `{description?, allOf: [{$ref}], nullable?}`.
//! - **OAS 3.1**: nullability folds into `type` as `[<base>, "null"]`; no
//!   `nullable` key is emitted. A `description` sits next to `$ref`; a
//!   nullable reference becomes `{description?, oneOf: [{$ref}, {type:
//!   "null"}]}`.
//!
//! String-enum and `oneOf` schemas have the same shape under both
//! versions.

use vstd::prelude::*;

use crate::object_schema::{MinimumBound, ObjectSchema};
use crate::one_of_schema::{OneOfSchema, OneOfVariant};
use crate::schema_object::SchemaObject;
use crate::schema_type::{schema_type_name, SchemaType};
use crate::string_enum_schema::StringEnumSchema;
use crate::version::Version;
use crate::wire::{entries_view, push_entry, push_item, seq_view, wire_view, Wire, WireView};

verus! {

/// A wire mapping entry.
pub type Entry = (Seq<char>, WireView);

/// `{$ref: r}`.
pub open spec fn ref_object(r: Seq<char>) -> WireView {
    WireView::Mapping(seq![("$ref"@, WireView::Str(r))])
}

/// `{type: "null"}`.
pub open spec fn null_type_object() -> WireView {
    WireView::Mapping(seq![("type"@, WireView::Str("null"@))])
}

/// The `key: value` entry of an optional string field.
pub open spec fn opt_str_entry(key: Seq<char>, value: Option<String>) -> Seq<Entry> {
    match value {
        Some(x) => seq![(key, WireView::Str(x@))],
        None => seq![],
    }
}

/// The list of string scalars holding `l`.
pub open spec fn strings_wire(l: Seq<String>) -> Seq<WireView>
    decreases l.len(),
{
    if l.len() == 0 {
        Seq::empty()
    } else {
        strings_wire(l.drop_last()).push(WireView::Str(l.last()@))
    }
}

/// The schema accepts `null` too.
pub open spec fn is_nullable(s: ObjectSchema) -> bool {
    s.nullable == Some(true)
}

/// The `nullable: true` tail entry, when it applies.
pub open spec fn nullable_tail(applies: bool) -> Seq<Entry> {
    if applies {
        seq![("nullable"@, WireView::Bool(true))]
    } else {
        seq![]
    }
}

/// The wire form of a reference schema `r` carrying the companions of `s`.
pub open spec fn reference_wire(r: Seq<char>, s: ObjectSchema, v: Version) -> WireView {
    match v {
        Version::V3_0 => if !is_nullable(s) && s.description is None {
            WireView::Mapping(seq![("$ref"@, WireView::Str(r))])
        } else {
            WireView::Mapping(
                opt_str_entry("description"@, s.description) + seq![
                    ("allOf"@, WireView::List(seq![ref_object(r)])),
                ] + nullable_tail(is_nullable(s)),
            )
        },
        Version::V3_1 => if is_nullable(s) {
            WireView::Mapping(
                opt_str_entry("description"@, s.description) + seq![
                    ("oneOf"@, WireView::List(seq![ref_object(r), null_type_object()])),
                ],
            )
        } else {
            WireView::Mapping(
                seq![("$ref"@, WireView::Str(r))] + opt_str_entry("description"@, s.description),
            )
        },
    }
}

/// The `type` entry of a non-reference schema.
pub open spec fn type_entry(s: ObjectSchema, v: Version) -> Seq<Entry> {
    match s.ty {
        None => seq![],
        Some(t) => if v == Version::V3_1 && is_nullable(s) {
            seq![
                ("type"@, WireView::List(
                    seq![WireView::Str(schema_type_name(t)), WireView::Str("null"@)],
                )),
            ]
        } else {
            seq![("type"@, WireView::Str(schema_type_name(t)))]
        },
    }
}

/// The `minimum` entry.
pub open spec fn minimum_entry(m: Option<MinimumBound>) -> Seq<Entry> {
    match m {
        None => seq![],
        Some(MinimumBound::Whole(i)) => seq![("minimum"@, WireView::Int(i))],
        Some(MinimumBound::Fractional(bits)) => seq![("minimum"@, WireView::Float(bits))],
    }
}

/// The `required` entry: omitted when no property is required.
pub open spec fn required_entry(required: Seq<String>) -> Seq<Entry> {
    if required.len() > 0 {
        seq![("required"@, WireView::List(strings_wire(required)))]
    } else {
        seq![]
    }
}

/// The `items` entry.
pub open spec fn items_entry(s: ObjectSchema, v: Version) -> Seq<Entry>
    decreases s, 0nat,
{
    match s.items {
        Some(b) => seq![("items"@, object_wire(*b, v))],
        None => seq![],
    }
}

/// The `properties` entry.
pub open spec fn properties_entry(s: ObjectSchema, v: Version) -> Seq<Entry>
    decreases s, 0nat,
{
    match s.properties {
        Some(p) => seq![("properties"@, WireView::Mapping(properties_wire(p@, v)))],
        None => seq![],
    }
}

/// The `allOf` entry.
pub open spec fn all_of_entry(s: ObjectSchema, v: Version) -> Seq<Entry>
    decreases s, 0nat,
{
    match s.all_of {
        Some(l) => seq![("allOf"@, WireView::List(schemas_wire(l@, v)))],
        None => seq![],
    }
}

/// The `oneOf` entry.
pub open spec fn one_of_entry(s: ObjectSchema, v: Version) -> Seq<Entry>
    decreases s, 0nat,
{
    match s.one_of {
        Some(l) => seq![("oneOf"@, WireView::List(schemas_wire(l@, v)))],
        None => seq![],
    }
}

/// The entries of a non-reference object schema, in canonical order.
pub open spec fn object_entries(s: ObjectSchema, v: Version) -> Seq<Entry>
    decreases s, 1nat,
{
    type_entry(s, v) + opt_str_entry("description"@, s.description) + opt_str_entry(
        "format"@,
        s.format,
    ) + minimum_entry(s.minimum) + items_entry(s, v) + required_entry(s.required@)
        + properties_entry(s, v) + all_of_entry(s, v) + one_of_entry(s, v) + nullable_tail(
        v == Version::V3_0 && is_nullable(s),
    )
}

/// The wire form of an object schema under version `v`.
pub open spec fn object_wire(s: ObjectSchema, v: Version) -> WireView
    decreases s, 2nat,
{
    match s.reference {
        Some(r) => reference_wire(r@, s, v),
        None => WireView::Mapping(object_entries(s, v)),
    }
}

/// The wire forms of a list of schemas.
pub open spec fn schemas_wire(l: Seq<ObjectSchema>, v: Version) -> Seq<WireView>
    decreases l, 0nat,
{
    if l.len() == 0 {
        Seq::empty()
    } else {
        schemas_wire(l.subrange(0, l.len() - 1), v).push(object_wire(l[l.len() - 1], v))
    }
}

/// The wire form of a `properties` map.
pub open spec fn properties_wire(p: Seq<(String, ObjectSchema)>, v: Version) -> Seq<Entry>
    decreases p, 0nat,
{
    if p.len() == 0 {
        Seq::empty()
    } else {
        properties_wire(p.subrange(0, p.len() - 1), v).push(
            (p[p.len() - 1].0@, object_wire(p[p.len() - 1].1, v)),
        )
    }
}

/// The wire form of a string-enum schema: `type, description?, enum`.
pub open spec fn string_enum_wire(s: StringEnumSchema, v: Version) -> WireView {
    WireView::Mapping(
        seq![("type"@, WireView::Str("string"@))] + opt_str_entry("description"@, s.description)
            + seq![("enum"@, WireView::List(strings_wire(s.values@)))],
    )
}

/// The synthetic tag-property object of one `oneOf` arm:
/// `{type: object, required: [tag], properties: {tag: {type: string,
/// enum: [wire_name]}}}`.
pub open spec fn tag_property_object(tag: Seq<char>, wire_name: Seq<char>) -> WireView {
    WireView::Mapping(
        seq![
            ("type"@, WireView::Str("object"@)),
            ("required"@, WireView::List(seq![WireView::Str(tag)])),
            ("properties"@, WireView::Mapping(
                seq![
                    (tag, WireView::Mapping(
                        seq![
                            ("type"@, WireView::Str("string"@)),
                            ("enum"@, WireView::List(seq![WireView::Str(wire_name)])),
                        ],
                    )),
                ],
            )),
        ],
    )
}

/// One `oneOf` arm: `{allOf: [{$ref: inner}, <tag-property object>]}`.
pub open spec fn one_of_arm(tag: Seq<char>, variant: OneOfVariant) -> WireView {
    WireView::Mapping(
        seq![
            ("allOf"@, WireView::List(
                seq![
                    ref_object(variant.inner_reference@),
                    tag_property_object(tag, variant.wire_name@),
                ],
            )),
        ],
    )
}

/// The arms of a `oneOf` schema, in declaration order.
pub open spec fn one_of_arms(tag: Seq<char>, variants: Seq<OneOfVariant>) -> Seq<WireView>
    decreases variants.len(),
{
    if variants.len() == 0 {
        Seq::empty()
    } else {
        one_of_arms(tag, variants.drop_last()).push(one_of_arm(tag, variants.last()))
    }
}

/// The wire form of a `oneOf` schema: `description?, oneOf,
/// discriminator` — the discriminator carries only `propertyName`.
pub open spec fn one_of_wire(s: OneOfSchema, v: Version) -> WireView {
    WireView::Mapping(
        opt_str_entry("description"@, s.description) + seq![
            ("oneOf"@, WireView::List(one_of_arms(s.tag@, s.variants@))),
            ("discriminator"@, WireView::Mapping(
                seq![("propertyName"@, WireView::Str(s.tag@))],
            )),
        ],
    )
}

/// The wire form of a registered schema: each variant emits its own form.
pub open spec fn schema_object_wire(s: SchemaObject, v: Version) -> WireView {
    match s {
        SchemaObject::OneOf(o) => one_of_wire(o, v),
        SchemaObject::StringEnum(e) => string_enum_wire(e, v),
        SchemaObject::Object(o) => object_wire(o, v),
    }
}

/// The wire form of a `components.schemas` map, in insertion order.
pub open spec fn registry_wire(m: Seq<(String, SchemaObject)>, v: Version) -> Seq<Entry>
    decreases m.len(),
{
    if m.len() == 0 {
        Seq::empty()
    } else {
        registry_wire(m.drop_last(), v).push((m.last().0@, schema_object_wire(m.last().1, v)))
    }
}

// ------------------------------------------------------------------
// Executable emitters.

fn key(s: &str) -> (r: String)
    ensures
        r@ == s@,
{
    s.to_string()
}

fn str_value(s: &String) -> (r: Wire)
    ensures
        wire_view(r) == WireView::Str(s@),
{
    Wire::Str(s.clone())
}

/// Appends the entry of an optional string field.
fn push_opt_str(entries: &mut Vec<(String, Wire)>, k: &str, value: &Option<String>)
    ensures
        entries_view(final(entries)@) == entries_view(old(entries)@) + opt_str_entry(k@, *value),
{
    match value {
        Some(x) => {
            push_entry(entries, key(k), str_value(x));
        },
        None => {},
    }
}

/// The wire list of a list of strings.
pub fn strings_list(l: &Vec<String>) -> (r: Wire)
    ensures
        wire_view(r) == WireView::List(strings_wire(l@)),
{
    let mut items: Vec<Wire> = Vec::new();
    let mut i: usize = 0;
    while i < l.len()
        invariant
            i <= l@.len(),
            seq_view(items@) == strings_wire(l@.take(i as int)),
        decreases l@.len() - i,
    {
        push_item(&mut items, str_value(&l[i]));
        i = i + 1;
        proof {
            assert(l@.take(i as int).drop_last() == l@.take(i - 1));
        }
    }
    assert(l@.take(l@.len() as int) == l@);
    Wire::List(items)
}

fn ref_object_exec(r: &String) -> (w: Wire)
    ensures
        wire_view(w) == ref_object(r@),
{
    let mut e: Vec<(String, Wire)> = Vec::new();
    push_entry(&mut e, key("$ref"), str_value(r));
    Wire::Mapping(e)
}

fn null_type_object_exec() -> (w: Wire)
    ensures
        wire_view(w) == null_type_object(),
{
    let mut e: Vec<(String, Wire)> = Vec::new();
    push_entry(&mut e, key("type"), Wire::Str(key("null")));
    Wire::Mapping(e)
}

fn push_nullable_tail(entries: &mut Vec<(String, Wire)>, applies: bool)
    ensures
        entries_view(final(entries)@) == entries_view(old(entries)@) + nullable_tail(applies),
{
    if applies {
        push_entry(entries, key("nullable"), Wire::Bool(true));
    }
}

/// `[x]` as a wire list.
fn single_list(x: Wire) -> (w: Wire)
    ensures
        wire_view(w) == WireView::List(seq![wire_view(x)]),
{
    let mut items: Vec<Wire> = Vec::new();
    push_item(&mut items, x);
    assert(seq_view(items@) =~= seq![wire_view(x)]);
    Wire::List(items)
}

/// `[x, y]` as a wire list.
fn pair_list(x: Wire, y: Wire) -> (w: Wire)
    ensures
        wire_view(w) == WireView::List(seq![wire_view(x), wire_view(y)]),
{
    let mut items: Vec<Wire> = Vec::new();
    push_item(&mut items, x);
    push_item(&mut items, y);
    assert(seq_view(items@) =~= seq![wire_view(x), wire_view(y)]);
    Wire::List(items)
}

/// Emits a reference schema.
fn reference_wire_exec(r: &String, s: &ObjectSchema, v: Version) -> (w: Wire)
    ensures
        wire_view(w) == reference_wire(r@, *s, v),
{
    let nullable = match s.nullable {
        Some(b) => b,
        None => false,
    };
    assert(nullable == is_nullable(*s));
    let mut e: Vec<(String, Wire)> = Vec::new();
    assert(entries_view(e@) =~= Seq::<Entry>::empty());
    match v {
        Version::V3_0 => {
            if !nullable && s.description.is_none() {
                push_entry(&mut e, key("$ref"), str_value(r));
                assert(entries_view(e@) =~= seq![("$ref"@, WireView::Str(r@))]);
            } else {
                push_opt_str(&mut e, "description", &s.description);
                push_entry(&mut e, key("allOf"), single_list(ref_object_exec(r)));
                push_nullable_tail(&mut e, nullable);
                assert(entries_view(e@) =~= opt_str_entry("description"@, s.description) + seq![
                    ("allOf"@, WireView::List(seq![ref_object(r@)])),
                ] + nullable_tail(is_nullable(*s)));
            }
        },
        Version::V3_1 => {
            if nullable {
                push_opt_str(&mut e, "description", &s.description);
                push_entry(
                    &mut e,
                    key("oneOf"),
                    pair_list(ref_object_exec(r), null_type_object_exec()),
                );
                assert(entries_view(e@) =~= opt_str_entry("description"@, s.description) + seq![
                    ("oneOf"@, WireView::List(seq![ref_object(r@), null_type_object()])),
                ]);
            } else {
                push_entry(&mut e, key("$ref"), str_value(r));
                push_opt_str(&mut e, "description", &s.description);
                assert(entries_view(e@) =~= seq![("$ref"@, WireView::Str(r@))] + opt_str_entry(
                    "description"@,
                    s.description,
                ));
            }
        },
    }
    w_mapping(e)
}

fn w_mapping(e: Vec<(String, Wire)>) -> (w: Wire)
    ensures
        wire_view(w) == WireView::Mapping(entries_view(e@)),
{
    Wire::Mapping(e)
}

/// The `type`, `description`, `format` and `minimum` entries of a
/// non-reference schema.
fn scalar_entries(s: &ObjectSchema, v: Version) -> (e: Vec<(String, Wire)>)
    ensures
        entries_view(e@) == type_entry(*s, v) + opt_str_entry("description"@, s.description)
            + opt_str_entry("format"@, s.format) + minimum_entry(s.minimum),
{
    let nullable = match s.nullable {
        Some(b) => b,
        None => false,
    };
    let mut e: Vec<(String, Wire)> = Vec::new();
    assert(entries_view(e@) =~= Seq::<Entry>::empty());
    if let Some(t) = s.ty {
        if v == Version::V3_1 && nullable {
            let w = pair_list(Wire::Str(t.wire_name()), Wire::Str(key("null")));
            push_entry(&mut e, key("type"), w);
        } else {
            push_entry(&mut e, key("type"), Wire::Str(t.wire_name()));
        }
    }
    assert(entries_view(e@) =~= type_entry(*s, v));
    let ghost a1 = entries_view(e@);
    push_opt_str(&mut e, "description", &s.description);
    push_opt_str(&mut e, "format", &s.format);
    let ghost a2 = entries_view(e@);
    match s.minimum {
        Some(MinimumBound::Whole(i)) => {
            push_entry(&mut e, key("minimum"), Wire::Int(i));
        },
        Some(MinimumBound::Fractional(bits)) => {
            push_entry(&mut e, key("minimum"), Wire::Float(bits));
        },
        None => {},
    }
    assert(entries_view(e@) =~= a2 + minimum_entry(s.minimum));
    e
}

/// Emits an object schema under version `v`.
#[verifier::rlimit(40)]
pub fn object_schema_wire(s: &ObjectSchema, v: Version) -> (w: Wire)
    ensures
        wire_view(w) == object_wire(*s, v),
    decreases s,
{
    if let Some(r) = &s.reference {
        return reference_wire_exec(r, s, v);
    }
    let nullable = match s.nullable {
        Some(b) => b,
        None => false,
    };
    let mut e = scalar_entries(s, v);
    let ghost a3 = entries_view(e@);
    if let Some(items) = &s.items {
        let w = object_schema_wire(items, v);
        push_entry(&mut e, key("items"), w);
    }
    assert(entries_view(e@) =~= a3 + items_entry(*s, v));
    let ghost a4 = entries_view(e@);
    if s.required.len() > 0 {
        push_entry(&mut e, key("required"), strings_list(&s.required));
    }
    assert(entries_view(e@) =~= a4 + required_entry(s.required@));
    let ghost a5 = entries_view(e@);
    if let Some(p) = &s.properties {
        let w = properties_wire_exec(p, v);
        push_entry(&mut e, key("properties"), w);
    }
    assert(entries_view(e@) =~= a5 + properties_entry(*s, v));
    let ghost a6 = entries_view(e@);
    if let Some(l) = &s.all_of {
        let w = schemas_wire_exec(l, v);
        push_entry(&mut e, key("allOf"), w);
    }
    assert(entries_view(e@) =~= a6 + all_of_entry(*s, v));
    let ghost a7 = entries_view(e@);
    if let Some(l) = &s.one_of {
        let w = schemas_wire_exec(l, v);
        push_entry(&mut e, key("oneOf"), w);
    }
    assert(entries_view(e@) =~= a7 + one_of_entry(*s, v));
    let ghost a8 = entries_view(e@);
    push_nullable_tail(&mut e, v == Version::V3_0 && nullable);
    assert(entries_view(e@) =~= object_entries(*s, v));
    w_mapping(e)
}

/// Emits a list of schemas.
fn schemas_wire_exec(l: &Vec<ObjectSchema>, v: Version) -> (w: Wire)
    ensures
        wire_view(w) == WireView::List(schemas_wire(l@, v)),
    decreases l,
{
    let mut items: Vec<Wire> = Vec::new();
    let mut i: usize = 0;
    while i < l.len()
        invariant
            i <= l@.len(),
            seq_view(items@) == schemas_wire(l@.subrange(0, i as int), v),
        decreases l@.len() - i,
    {
        proof {
            assert(decreases_to!(l => l@));
            assert(decreases_to!(l@ => l@[i as int]));
        }
        let w = object_schema_wire(&l[i], v);
        push_item(&mut items, w);
        i = i + 1;
        proof {
            let sub = l@.subrange(0, i as int);
            assert(sub.subrange(0, sub.len() - 1) =~= l@.subrange(0, i - 1));
        }
    }
    assert(l@.subrange(0, l@.len() as int) =~= l@);
    Wire::List(items)
}

/// Emits a `properties` map.
fn properties_wire_exec(p: &Vec<(String, ObjectSchema)>, v: Version) -> (w: Wire)
    ensures
        wire_view(w) == WireView::Mapping(properties_wire(p@, v)),
    decreases p,
{
    let mut entries: Vec<(String, Wire)> = Vec::new();
    let mut i: usize = 0;
    while i < p.len()
        invariant
            i <= p@.len(),
            entries_view(entries@) == properties_wire(p@.subrange(0, i as int), v),
        decreases p@.len() - i,
    {
        proof {
            assert(decreases_to!(p => p@));
            assert(decreases_to!(p@ => p@[i as int]));
            assert(decreases_to!(p@[i as int] => p@[i as int].1));
        }
        let w = object_schema_wire(&p[i].1, v);
        push_entry(&mut entries, p[i].0.clone(), w);
        i = i + 1;
        proof {
            let sub = p@.subrange(0, i as int);
            assert(sub.subrange(0, sub.len() - 1) =~= p@.subrange(0, i - 1));
        }
    }
    assert(p@.subrange(0, p@.len() as int) =~= p@);
    Wire::Mapping(entries)
}

/// Emits a string-enum schema: `type: string, description?, enum`.
pub fn string_enum_schema_wire(s: &StringEnumSchema, v: Version) -> (w: Wire)
    ensures
        wire_view(w) == string_enum_wire(*s, v),
{
    let mut e: Vec<(String, Wire)> = Vec::new();
    assert(entries_view(e@) =~= Seq::<Entry>::empty());
    push_entry(&mut e, key("type"), Wire::Str(key("string")));
    push_opt_str(&mut e, "description", &s.description);
    push_entry(&mut e, key("enum"), strings_list(&s.values));
    assert(entries_view(e@) =~= seq![("type"@, WireView::Str("string"@))] + opt_str_entry(
        "description"@,
        s.description,
    ) + seq![("enum"@, WireView::List(strings_wire(s.values@)))]);
    w_mapping(e)
}

/// Emits the synthetic tag-property object of one `oneOf` arm.
fn tag_property_object_exec(tag: &String, wire_name: &String) -> (w: Wire)
    ensures
        wire_view(w) == tag_property_object(tag@, wire_name@),
{
    let mut constraint: Vec<(String, Wire)> = Vec::new();
    push_entry(&mut constraint, key("type"), Wire::Str(key("string")));
    push_entry(&mut constraint, key("enum"), single_list(str_value(wire_name)));
    assert(entries_view(constraint@) =~= seq![
        ("type"@, WireView::Str("string"@)),
        ("enum"@, WireView::List(seq![WireView::Str(wire_name@)])),
    ]);
    let mut properties: Vec<(String, Wire)> = Vec::new();
    push_entry(&mut properties, tag.clone(), w_mapping(constraint));
    let mut e: Vec<(String, Wire)> = Vec::new();
    push_entry(&mut e, key("type"), Wire::Str(key("object")));
    push_entry(&mut e, key("required"), single_list(str_value(tag)));
    push_entry(&mut e, key("properties"), w_mapping(properties));
    let ghost pv = entries_view(properties@);
    assert(pv =~= seq![
        (tag@, WireView::Mapping(
            seq![
                ("type"@, WireView::Str("string"@)),
                ("enum"@, WireView::List(seq![WireView::Str(wire_name@)])),
            ],
        )),
    ]);
    assert(entries_view(e@) =~= seq![
        ("type"@, WireView::Str("object"@)),
        ("required"@, WireView::List(seq![WireView::Str(tag@)])),
        ("properties"@, WireView::Mapping(pv)),
    ]);
    w_mapping(e)
}

/// Emits one `oneOf` arm.
fn one_of_arm_exec(tag: &String, variant: &OneOfVariant) -> (w: Wire)
    ensures
        wire_view(w) == one_of_arm(tag@, *variant),
{
    let pair = pair_list(
        ref_object_exec(&variant.inner_reference),
        tag_property_object_exec(tag, &variant.wire_name),
    );
    let mut e: Vec<(String, Wire)> = Vec::new();
    push_entry(&mut e, key("allOf"), pair);
    assert(entries_view(e@) =~= seq![
        ("allOf"@, WireView::List(
            seq![
                ref_object(variant.inner_reference@),
                tag_property_object(tag@, variant.wire_name@),
            ],
        )),
    ]);
    w_mapping(e)
}

/// Emits a `oneOf` schema: `description?, oneOf, discriminator`.
pub fn one_of_schema_wire(s: &OneOfSchema, v: Version) -> (w: Wire)
    ensures
        wire_view(w) == one_of_wire(*s, v),
{
    let mut arms: Vec<Wire> = Vec::new();
    let mut i: usize = 0;
    while i < s.variants.len()
        invariant
            i <= s.variants@.len(),
            seq_view(arms@) == one_of_arms(s.tag@, s.variants@.take(i as int)),
        decreases s.variants@.len() - i,
    {
        push_item(&mut arms, one_of_arm_exec(&s.tag, &s.variants[i]));
        i = i + 1;
        proof {
            assert(s.variants@.take(i as int).drop_last() == s.variants@.take(i - 1));
        }
    }
    assert(s.variants@.take(s.variants@.len() as int) == s.variants@);
    let mut discriminator: Vec<(String, Wire)> = Vec::new();
    push_entry(&mut discriminator, key("propertyName"), str_value(&s.tag));
    assert(entries_view(discriminator@) =~= seq![("propertyName"@, WireView::Str(s.tag@))]);
    let mut e: Vec<(String, Wire)> = Vec::new();
    assert(entries_view(e@) =~= Seq::<Entry>::empty());
    push_opt_str(&mut e, "description", &s.description);
    push_entry(&mut e, key("oneOf"), Wire::List(arms));
    push_entry(&mut e, key("discriminator"), w_mapping(discriminator));
    assert(entries_view(e@) =~= opt_str_entry("description"@, s.description) + seq![
        ("oneOf"@, WireView::List(one_of_arms(s.tag@, s.variants@))),
        ("discriminator"@, WireView::Mapping(seq![("propertyName"@, WireView::Str(s.tag@))])),
    ]);
    w_mapping(e)
}

/// Emits a registered schema through the emitter of its variant.
pub fn schema_object_wire_exec(s: &SchemaObject, v: Version) -> (w: Wire)
    ensures
        wire_view(w) == schema_object_wire(*s, v),
{
    match s {
        SchemaObject::OneOf(o) => one_of_schema_wire(o, v),
        SchemaObject::StringEnum(e) => string_enum_schema_wire(e, v),
        SchemaObject::Object(o) => object_schema_wire(o, v),
    }
}

/// Emits a `components.schemas` map, entries in insertion order.
pub fn registry_wire_exec(m: &Vec<(String, SchemaObject)>, v: Version) -> (w: Wire)
    ensures
        wire_view(w) == WireView::Mapping(registry_wire(m@, v)),
{
    let mut e: Vec<(String, Wire)> = Vec::new();
    let mut i: usize = 0;
    while i < m.len()
        invariant
            i <= m@.len(),
            entries_view(e@) == registry_wire(m@.take(i as int), v),
        decreases m@.len() - i,
    {
        push_entry(&mut e, m[i].0.clone(), schema_object_wire_exec(&m[i].1, v));
        i = i + 1;
        proof {
            assert(m@.take(i as int).drop_last() == m@.take(i - 1));
        }
    }
    assert(m@.take(m@.len() as int) == m@);
    w_mapping(e)
}

} // verus!
