//! Laws of the versioned emitter.

use vstd::prelude::*;

use crate::emit::{
    all_of_entry, is_nullable, items_entry, minimum_entry, null_type_object, nullable_tail,
    object_entries, object_wire, one_of_entry, one_of_wire, opt_str_entry, properties_entry,
    properties_wire, ref_object, required_entry, schema_object_wire, schemas_wire,
    string_enum_wire, type_entry, Entry,
};
use crate::object_schema::ObjectSchema;
use crate::one_of_schema::OneOfSchema;
use crate::schema_object::SchemaObject;
use crate::schema_type::schema_type_name;
use crate::string_enum_schema::StringEnumSchema;
use crate::version::Version;
use crate::wire::WireView;

verus! {

/// The keys of a wire mapping, in order.
pub open spec fn keys_of(entries: Seq<Entry>) -> Seq<Seq<char>> {
    entries.map_values(|e: Entry| e.0)
}

/// `true` when `w` is a mapping with an entry under `key`.
pub open spec fn has_key(w: WireView, key: Seq<char>) -> bool {
    match w {
        WireView::Mapping(entries) => keys_of(entries).contains(key),
        _ => false,
    }
}

proof fn lemma_keys_concat(a: Seq<Entry>, b: Seq<Entry>)
    ensures
        keys_of(a + b) == keys_of(a) + keys_of(b),
{
    assert(keys_of(a + b) =~= keys_of(a) + keys_of(b));
}

/// A string-enum schema is emitted identically under OAS 3.0 and 3.1.
pub proof fn law_string_enum_is_version_neutral(s: StringEnumSchema)
    ensures
        string_enum_wire(s, Version::V3_0) == string_enum_wire(s, Version::V3_1),
{
}

/// A `oneOf` schema is emitted identically under OAS 3.0 and 3.1, and its
/// `discriminator` block carries `propertyName` alone (no `mapping`).
pub proof fn law_one_of_is_version_neutral_and_has_no_mapping(s: OneOfSchema, v: Version)
    ensures
        one_of_wire(s, Version::V3_0) == one_of_wire(s, Version::V3_1),
        one_of_wire(s, v) matches WireView::Mapping(entries) && entries.last() == (
            "discriminator"@,
            WireView::Mapping(seq![("propertyName"@, WireView::Str(s.tag@))]),
        ),
{
}

/// A registered schema is emitted exactly as the schema it holds.
pub proof fn law_dispatch_matches_variant(s: SchemaObject, v: Version)
    ensures
        match s {
            SchemaObject::OneOf(o) => schema_object_wire(s, v) == one_of_wire(o, v),
            SchemaObject::StringEnum(e) => schema_object_wire(s, v) == string_enum_wire(e, v),
            SchemaObject::Object(o) => schema_object_wire(s, v) == object_wire(o, v),
        },
{
}

/// A bare reference (no description, not nullable) emits `$ref` alone,
/// under both versions.
pub proof fn law_bare_reference_is_ref_alone(s: ObjectSchema, v: Version)
    requires
        s.reference is Some,
        s.description is None,
        !is_nullable(s),
    ensures
        object_wire(s, v) == ref_object(s.reference->0@),
{
}

/// Under OAS 3.0 a reference that carries a description or the nullable
/// intent is wrapped: no `$ref` key sits on the outer schema, whose
/// `allOf` holds the single reference.
pub proof fn law_v3_0_wraps_reference_companions(s: ObjectSchema)
    requires
        s.reference is Some,
        s.description is Some || is_nullable(s),
    ensures
        !has_key(object_wire(s, Version::V3_0), "$ref"@),
        has_key(object_wire(s, Version::V3_0), "allOf"@),
{
    let r = s.reference->0@;
    let tail: Seq<Entry> = if is_nullable(s) {
        seq![("nullable"@, WireView::Bool(true))]
    } else {
        seq![]
    };
    let entries = opt_str_entry("description"@, s.description) + seq![
        ("allOf"@, WireView::List(seq![ref_object(r)])),
    ] + tail;
    assert(object_wire(s, Version::V3_0) == WireView::Mapping(entries));
    reveal_strlit("$ref");
    reveal_strlit("description");
    reveal_strlit("allOf");
    reveal_strlit("nullable");
    let keys = keys_of(entries);
    assert(keys[keys.len() - 1 - tail.len()] == "allOf"@);
    assert forall|i: int| 0 <= i < keys.len() implies keys[i] != "$ref"@ by {
        assert(keys[i][0] != '$');
    }
}

proof fn lemma_no_key_concat(a: Seq<Entry>, b: Seq<Entry>, k: Seq<char>)
    requires
        !keys_of(a).contains(k),
        !keys_of(b).contains(k),
    ensures
        !keys_of(a + b).contains(k),
{
    lemma_keys_concat(a, b);
    assert forall|i: int| 0 <= i < keys_of(a + b).len() implies keys_of(a + b)[i] != k by {
        if i < a.len() {
            assert(keys_of(a + b)[i] == keys_of(a)[i]);
        } else {
            assert(keys_of(a + b)[i] == keys_of(b)[i - a.len()]);
        }
    }
}

/// A mapping piece of at most one entry, whose key is not `k`.
proof fn lemma_piece_lacks(p: Seq<Entry>, k: Seq<char>)
    requires
        p.len() <= 1,
        p.len() == 1 ==> p[0].0 != k,
    ensures
        !keys_of(p).contains(k),
{
    if p.len() == 1 {
        assert(keys_of(p) =~= seq![p[0].0]);
    } else {
        assert(keys_of(p) =~= Seq::<Seq<char>>::empty());
    }
}

/// Under OAS 3.1 no `nullable` key is emitted on an object schema.
pub proof fn law_v3_1_emits_no_nullable_key(s: ObjectSchema)
    ensures
        !has_key(object_wire(s, Version::V3_1), "nullable"@),
{
    let k = "nullable"@;
    reveal_strlit("nullable");
    reveal_strlit("$ref");
    reveal_strlit("description");
    reveal_strlit("oneOf");
    reveal_strlit("type");
    reveal_strlit("format");
    reveal_strlit("minimum");
    reveal_strlit("items");
    reveal_strlit("required");
    reveal_strlit("properties");
    reveal_strlit("allOf");
    assert(k.len() == 8);
    assert("description"@.len() == 11);
    assert("type"@.len() == 4);
    assert("required"@[0] == 'r' && k[0] == 'n');
    let v = Version::V3_1;
    match s.reference {
        Some(r) => {
            let d = opt_str_entry("description"@, s.description);
            lemma_piece_lacks(d, k);
            if is_nullable(s) {
                let o: Seq<Entry> = seq![
                    ("oneOf"@, WireView::List(seq![ref_object(r@), null_type_object()])),
                ];
                lemma_piece_lacks(o, k);
                lemma_no_key_concat(d, o, k);
            } else {
                let o: Seq<Entry> = seq![("$ref"@, WireView::Str(r@))];
                lemma_piece_lacks(o, k);
                lemma_no_key_concat(o, d, k);
            }
        },
        None => {
            let p1 = type_entry(s, v);
            let p2 = opt_str_entry("description"@, s.description);
            let p3 = opt_str_entry("format"@, s.format);
            let p4 = minimum_entry(s.minimum);
            let p5 = items_entry(s, v);
            let p6 = required_entry(s.required@);
            let p7 = properties_entry(s, v);
            let p8 = all_of_entry(s, v);
            let p9 = one_of_entry(s, v);
            let p10 = nullable_tail(v == Version::V3_0 && is_nullable(s));
            lemma_piece_lacks(p1, k);
            lemma_piece_lacks(p2, k);
            lemma_piece_lacks(p3, k);
            lemma_piece_lacks(p4, k);
            lemma_piece_lacks(p5, k);
            lemma_piece_lacks(p6, k);
            lemma_piece_lacks(p7, k);
            lemma_piece_lacks(p8, k);
            lemma_piece_lacks(p9, k);
            lemma_piece_lacks(p10, k);
            lemma_no_key_concat(p1, p2, k);
            lemma_no_key_concat(p1 + p2, p3, k);
            lemma_no_key_concat(p1 + p2 + p3, p4, k);
            lemma_no_key_concat(p1 + p2 + p3 + p4, p5, k);
            lemma_no_key_concat(p1 + p2 + p3 + p4 + p5, p6, k);
            lemma_no_key_concat(p1 + p2 + p3 + p4 + p5 + p6, p7, k);
            lemma_no_key_concat(p1 + p2 + p3 + p4 + p5 + p6 + p7, p8, k);
            lemma_no_key_concat(p1 + p2 + p3 + p4 + p5 + p6 + p7 + p8, p9, k);
            lemma_no_key_concat(p1 + p2 + p3 + p4 + p5 + p6 + p7 + p8 + p9, p10, k);
        },
    }
}

/// Nullability of a typed, non-reference schema: under OAS 3.0 `type`
/// stays a scalar and `nullable: true` closes the schema; under OAS 3.1
/// `type` becomes `[<base>, "null"]`.
pub proof fn law_nullable_type_encoding(s: ObjectSchema)
    requires
        s.reference is None,
        s.ty is Some,
        is_nullable(s),
    ensures
        object_wire(s, Version::V3_0) matches WireView::Mapping(e) && e[0] == (
            "type"@,
            WireView::Str(schema_type_name(s.ty->0)),
        ) && e.last() == ("nullable"@, WireView::Bool(true)),
        object_wire(s, Version::V3_1) matches WireView::Mapping(e) && e[0] == (
            "type"@,
            WireView::List(seq![WireView::Str(schema_type_name(s.ty->0)), WireView::Str("null"@)]),
        ),
{
    assert(type_entry(s, Version::V3_0).len() == 1);
    assert(object_entries(s, Version::V3_0)[0] == type_entry(s, Version::V3_0)[0]);
    assert(object_entries(s, Version::V3_1)[0] == type_entry(s, Version::V3_1)[0]);
}

/// No schema in the tree, this one included, is a reference or nullable.
pub open spec fn plain_schema(s: ObjectSchema) -> bool
    decreases s, 2nat,
{
    &&& s.reference is None
    &&& !is_nullable(s)
    &&& match s.items {
        Some(b) => plain_schema(*b),
        None => true,
    }
    &&& match s.properties {
        Some(p) => plain_properties(p@),
        None => true,
    }
    &&& match s.all_of {
        Some(l) => plain_schemas(l@),
        None => true,
    }
    &&& match s.one_of {
        Some(l) => plain_schemas(l@),
        None => true,
    }
}

/// Every schema of the list is plain.
pub open spec fn plain_schemas(l: Seq<ObjectSchema>) -> bool
    decreases l, 0nat,
{
    if l.len() == 0 {
        true
    } else {
        plain_schemas(l.subrange(0, l.len() - 1)) && plain_schema(l[l.len() - 1])
    }
}

/// Every property schema of the map is plain.
pub open spec fn plain_properties(p: Seq<(String, ObjectSchema)>) -> bool
    decreases p, 0nat,
{
    if p.len() == 0 {
        true
    } else {
        plain_properties(p.subrange(0, p.len() - 1)) && plain_schema(p[p.len() - 1].1)
    }
}

proof fn lemma_plain_schema_agrees(s: ObjectSchema)
    requires
        plain_schema(s),
    ensures
        object_wire(s, Version::V3_0) == object_wire(s, Version::V3_1),
    decreases s, 2nat,
{
    match s.items {
        Some(b) => lemma_plain_schema_agrees(*b),
        None => {},
    }
    match s.properties {
        Some(p) => lemma_plain_properties_agree(p@),
        None => {},
    }
    match s.all_of {
        Some(l) => lemma_plain_schemas_agree(l@),
        None => {},
    }
    match s.one_of {
        Some(l) => lemma_plain_schemas_agree(l@),
        None => {},
    }
    assert(object_entries(s, Version::V3_0) == object_entries(s, Version::V3_1));
}

proof fn lemma_plain_schemas_agree(l: Seq<ObjectSchema>)
    requires
        plain_schemas(l),
    ensures
        schemas_wire(l, Version::V3_0) == schemas_wire(l, Version::V3_1),
    decreases l, 0nat,
{
    if l.len() > 0 {
        lemma_plain_schemas_agree(l.subrange(0, l.len() - 1));
        lemma_plain_schema_agrees(l[l.len() - 1]);
    }
}

proof fn lemma_plain_properties_agree(p: Seq<(String, ObjectSchema)>)
    requires
        plain_properties(p),
    ensures
        properties_wire(p, Version::V3_0) == properties_wire(p, Version::V3_1),
    decreases p, 0nat,
{
    if p.len() > 0 {
        lemma_plain_properties_agree(p.subrange(0, p.len() - 1));
        lemma_plain_schema_agrees(p[p.len() - 1].1);
    }
}

/// Where no reference and no nullable schema occurs anywhere in the tree,
/// OAS 3.0 and OAS 3.1 emit the same mapping, whose entries follow the
/// canonical order (`type, description, format, minimum, items,
/// required, properties, allOf, oneOf`, each only when set).
pub proof fn law_plain_schema_is_version_neutral(s: ObjectSchema)
    requires
        plain_schema(s),
    ensures
        object_wire(s, Version::V3_0) == object_wire(s, Version::V3_1),
        object_wire(s, Version::V3_0) == WireView::Mapping(
            type_entry(s, Version::V3_0) + opt_str_entry("description"@, s.description)
                + opt_str_entry("format"@, s.format) + minimum_entry(s.minimum) + items_entry(
                s,
                Version::V3_0,
            ) + required_entry(s.required@) + properties_entry(s, Version::V3_0)
                + all_of_entry(s, Version::V3_0) + one_of_entry(s, Version::V3_0),
        ),
{
    lemma_plain_schema_agrees(s);
    assert(nullable_tail(false) =~= Seq::<Entry>::empty());
    assert(object_entries(s, Version::V3_0) =~= type_entry(s, Version::V3_0) + opt_str_entry(
        "description"@,
        s.description,
    ) + opt_str_entry("format"@, s.format) + minimum_entry(s.minimum) + items_entry(
        s,
        Version::V3_0,
    ) + required_entry(s.required@) + properties_entry(s, Version::V3_0) + all_of_entry(
        s,
        Version::V3_0,
    ) + one_of_entry(s, Version::V3_0));
}

} // verus!
