use frieze::emit::{
    object_schema_wire, one_of_schema_wire, registry_wire_exec, schema_object_wire_exec,
    string_enum_schema_wire,
};
use frieze::object_schema::{MinimumBound, ObjectSchema};
use frieze::one_of_schema::{OneOfSchema, OneOfVariant};
use frieze::schema_object::SchemaObject;
use frieze::schema_type::SchemaType;
use frieze::string_enum_schema::StringEnumSchema;
use frieze::version::Version;
use frieze::wire::Wire;

/// The wire tree as a YAML value, keys in emission order.
fn to_yaml(w: &Wire) -> serde_yaml::Value {
    match w {
        Wire::Str(s) => serde_yaml::Value::String(s.clone()),
        Wire::Bool(b) => serde_yaml::Value::Bool(*b),
        Wire::Int(i) => serde_yaml::Value::Number((*i).into()),
        Wire::Float(bits) => serde_yaml::Value::Number(f64::from_bits(*bits).into()),
        Wire::List(items) => serde_yaml::Value::Sequence(items.iter().map(to_yaml).collect()),
        Wire::Mapping(entries) => {
            let mut map = serde_yaml::Mapping::new();
            for (k, v) in entries {
                map.insert(serde_yaml::Value::String(k.clone()), to_yaml(v));
            }
            serde_yaml::Value::Mapping(map)
        }
    }
}

fn yaml(w: &Wire) -> String {
    serde_yaml::to_string(&to_yaml(w)).expect("YAML serialization must succeed")
}

fn render(schema: &ObjectSchema, version: Version) -> String {
    yaml(&object_schema_wire(schema, version))
}

fn reference(r: &str) -> ObjectSchema {
    ObjectSchema {
        reference: Some(r.to_string()),
        ..ObjectSchema::empty()
    }
}

fn typed(t: SchemaType) -> ObjectSchema {
    ObjectSchema {
        ty: Some(t),
        ..ObjectSchema::empty()
    }
}

#[test]
fn object_schema_emits_canonical_key_order_under_both_versions() {
    let properties = vec![
        (
            "id".to_string(),
            ObjectSchema {
                ty: Some(SchemaType::Integer),
                format: Some("int64".to_string()),
                ..ObjectSchema::empty()
            },
        ),
        ("name".to_string(), typed(SchemaType::String)),
    ];
    let schema = ObjectSchema {
        ty: Some(SchemaType::Object),
        required: vec!["id".to_string(), "name".to_string()],
        properties: Some(properties),
        ..ObjectSchema::empty()
    };

    let expected = "\
type: object
required:
- id
- name
properties:
  id:
    type: integer
    format: int64
  name:
    type: string
";
    assert_eq!(render(&schema, Version::V3_0), expected);
    assert_eq!(render(&schema, Version::V3_1), expected);
}

#[test]
fn minimum_zero_emits_integer_not_float() {
    let schema = ObjectSchema {
        ty: Some(SchemaType::Integer),
        format: Some("int32".to_string()),
        minimum: Some(MinimumBound::Whole(0)),
        ..ObjectSchema::empty()
    };
    let expected = "\
type: integer
format: int32
minimum: 0
";
    assert_eq!(render(&schema, Version::V3_0), expected);
    assert_eq!(render(&schema, Version::V3_1), expected);
}

#[test]
fn fractional_minimum_emits_a_float() {
    let schema = ObjectSchema {
        ty: Some(SchemaType::Number),
        minimum: Some(MinimumBound::Fractional(0.5f64.to_bits())),
        ..ObjectSchema::empty()
    };
    assert_eq!(render(&schema, Version::V3_0), "type: number\nminimum: 0.5\n");
}

#[test]
fn array_items_recurse_through_the_versioned_emitter() {
    let schema = ObjectSchema {
        ty: Some(SchemaType::Array),
        items: Some(Box::new(typed(SchemaType::String))),
        ..ObjectSchema::empty()
    };
    let expected = "\
type: array
items:
  type: string
";
    assert_eq!(render(&schema, Version::V3_0), expected);
    assert_eq!(render(&schema, Version::V3_1), expected);
}

#[test]
fn bare_reference_emits_ref_alone_under_both_versions() {
    let schema = reference("#/components/schemas/User");
    let expected = "\
$ref: '#/components/schemas/User'
";
    assert_eq!(render(&schema, Version::V3_0), expected);
    assert_eq!(render(&schema, Version::V3_1), expected);
}

#[test]
fn reference_with_description_wraps_in_all_of_under_3_0() {
    let schema = ObjectSchema {
        reference: Some("#/components/schemas/User".to_string()),
        description: Some("The current user.".to_string()),
        ..ObjectSchema::empty()
    };
    let expected = "\
description: The current user.
allOf:
- $ref: '#/components/schemas/User'
";
    assert_eq!(render(&schema, Version::V3_0), expected);
}

#[test]
fn reference_with_description_emits_sibling_under_3_1() {
    let schema = ObjectSchema {
        reference: Some("#/components/schemas/User".to_string()),
        description: Some("The current user.".to_string()),
        ..ObjectSchema::empty()
    };
    let expected = "\
$ref: '#/components/schemas/User'
description: The current user.
";
    assert_eq!(render(&schema, Version::V3_1), expected);
}

#[test]
fn nullable_reference_wraps_in_all_of_with_nullable_under_3_0() {
    let schema = ObjectSchema {
        reference: Some("#/components/schemas/Inner".to_string()),
        nullable: Some(true),
        ..ObjectSchema::empty()
    };
    let expected = "\
allOf:
- $ref: '#/components/schemas/Inner'
nullable: true
";
    assert_eq!(render(&schema, Version::V3_0), expected);
}

#[test]
fn nullable_reference_becomes_one_of_with_null_under_3_1() {
    let schema = ObjectSchema {
        reference: Some("#/components/schemas/Inner".to_string()),
        nullable: Some(true),
        ..ObjectSchema::empty()
    };
    let expected = "\
oneOf:
- $ref: '#/components/schemas/Inner'
- type: 'null'
";
    assert_eq!(render(&schema, Version::V3_1), expected);
}

#[test]
fn nullable_reference_with_description_keeps_description_on_the_wrapper() {
    let schema = ObjectSchema {
        reference: Some("#/components/schemas/Inner".to_string()),
        description: Some("May be absent.".to_string()),
        nullable: Some(true),
        ..ObjectSchema::empty()
    };
    let expected_3_0 = "\
description: May be absent.
allOf:
- $ref: '#/components/schemas/Inner'
nullable: true
";
    let expected_3_1 = "\
description: May be absent.
oneOf:
- $ref: '#/components/schemas/Inner'
- type: 'null'
";
    assert_eq!(render(&schema, Version::V3_0), expected_3_0);
    assert_eq!(render(&schema, Version::V3_1), expected_3_1);
}

#[test]
fn nullable_scalar_emits_nullable_true_under_3_0() {
    let schema = ObjectSchema {
        ty: Some(SchemaType::String),
        nullable: Some(true),
        ..ObjectSchema::empty()
    };
    let expected = "\
type: string
nullable: true
";
    assert_eq!(render(&schema, Version::V3_0), expected);
}

#[test]
fn nullable_scalar_emits_type_sequence_under_3_1() {
    let schema = ObjectSchema {
        ty: Some(SchemaType::String),
        nullable: Some(true),
        ..ObjectSchema::empty()
    };
    let expected = "\
type:
- string
- 'null'
";
    assert_eq!(render(&schema, Version::V3_1), expected);
}

#[test]
fn explicit_all_of_wrap_round_trips_the_3_0_wire_shape() {
    let schema = ObjectSchema {
        all_of: Some(vec![reference("#/components/schemas/Inner")]),
        nullable: Some(true),
        ..ObjectSchema::empty()
    };
    let expected = "\
allOf:
- $ref: '#/components/schemas/Inner'
nullable: true
";
    assert_eq!(render(&schema, Version::V3_0), expected);
}

#[test]
fn explicit_one_of_wrap_round_trips_the_3_1_wire_shape() {
    let schema = ObjectSchema {
        one_of: Some(vec![
            reference("#/components/schemas/Inner"),
            typed(SchemaType::Null),
        ]),
        ..ObjectSchema::empty()
    };
    let expected = "\
oneOf:
- $ref: '#/components/schemas/Inner'
- type: 'null'
";
    assert_eq!(render(&schema, Version::V3_1), expected);
}

fn variant(wire_name: &str, inner: &str) -> OneOfVariant {
    OneOfVariant {
        wire_name: wire_name.to_string(),
        inner_reference: inner.to_string(),
    }
}

#[test]
fn one_of_schema_emits_synthetic_discriminator_arm_and_omits_mapping() {
    let schema = OneOfSchema::new(
        "kind",
        vec![
            variant("Login", "#/components/schemas/LoginData"),
            variant("Logout", "#/components/schemas/LogoutData"),
        ],
    );
    let expected = "\
oneOf:
- allOf:
  - $ref: '#/components/schemas/LoginData'
  - type: object
    required:
    - kind
    properties:
      kind:
        type: string
        enum:
        - Login
- allOf:
  - $ref: '#/components/schemas/LogoutData'
  - type: object
    required:
    - kind
    properties:
      kind:
        type: string
        enum:
        - Logout
discriminator:
  propertyName: kind
";
    assert_eq!(yaml(&one_of_schema_wire(&schema, Version::V3_0)), expected);
    assert_eq!(yaml(&one_of_schema_wire(&schema, Version::V3_1)), expected);
}

#[test]
fn one_of_schema_with_description_emits_description_first() {
    let schema = OneOfSchema::new("kind", vec![variant("Only", "#/components/schemas/Only")])
        .with_description(Some("An internally-tagged enum.".to_string()));
    let rendered = yaml(&one_of_schema_wire(&schema, Version::V3_0));
    let first_line = rendered.lines().next().unwrap_or("");
    assert_eq!(first_line, "description: An internally-tagged enum.");
    assert!(
        !rendered.contains("mapping"),
        "discriminator must not emit `mapping`, but the rendered output was:\n{rendered}"
    );
}

#[test]
fn string_enum_schema_emits_type_description_enum_in_canonical_order() {
    let schema = StringEnumSchema::new(vec!["Red".to_string(), "Green".to_string()])
        .with_description(Some("A traffic-light hue.".to_string()));
    let expected = "\
type: string
description: A traffic-light hue.
enum:
- Red
- Green
";
    assert_eq!(yaml(&string_enum_schema_wire(&schema, Version::V3_0)), expected);
    assert_eq!(yaml(&string_enum_schema_wire(&schema, Version::V3_1)), expected);
}

#[test]
fn schema_object_dispatch_matches_each_variant_serialized_directly() {
    let inner_object = typed(SchemaType::String);
    let object = SchemaObject::Object(typed(SchemaType::String));
    assert_eq!(
        yaml(&schema_object_wire_exec(&object, Version::V3_0)),
        render(&inner_object, Version::V3_0)
    );

    let inner_string_enum = StringEnumSchema::new(vec!["A".to_string()]);
    let string_enum = SchemaObject::StringEnum(StringEnumSchema::new(vec!["A".to_string()]));
    assert_eq!(
        yaml(&schema_object_wire_exec(&string_enum, Version::V3_0)),
        yaml(&string_enum_schema_wire(&inner_string_enum, Version::V3_0))
    );

    let inner_one_of = OneOfSchema::new("kind", vec![variant("X", "#/components/schemas/X")]);
    let one_of = SchemaObject::OneOf(OneOfSchema::new(
        "kind",
        vec![variant("X", "#/components/schemas/X")],
    ));
    assert_eq!(
        yaml(&schema_object_wire_exec(&one_of, Version::V3_0)),
        yaml(&one_of_schema_wire(&inner_one_of, Version::V3_0))
    );
}

#[test]
fn registry_emits_each_schema_under_its_name_for_each_version() {
    let schemas = vec![(
        "Wrapper".to_string(),
        SchemaObject::Object(ObjectSchema {
            reference: Some("#/components/schemas/Inner".to_string()),
            nullable: Some(true),
            ..ObjectSchema::empty()
        }),
    )];
    let expected_3_0 = "\
Wrapper:
  allOf:
  - $ref: '#/components/schemas/Inner'
  nullable: true
";
    let expected_3_1 = "\
Wrapper:
  oneOf:
  - $ref: '#/components/schemas/Inner'
  - type: 'null'
";
    assert_eq!(yaml(&registry_wire_exec(&schemas, Version::V3_0)), expected_3_0);
    assert_eq!(yaml(&registry_wire_exec(&schemas, Version::V3_1)), expected_3_1);
}

#[test]
fn every_schema_type_has_its_wire_name() {
    let cases = [
        (SchemaType::Object, "object"),
        (SchemaType::Integer, "integer"),
        (SchemaType::Number, "number"),
        (SchemaType::String, "string"),
        (SchemaType::Boolean, "boolean"),
        (SchemaType::Array, "array"),
        (SchemaType::Null, "null"),
    ];
    for (t, name) in cases {
        assert_eq!(t.wire_name(), name);
    }
}

#[test]
fn a_plain_schema_tree_is_version_neutral() {
    let schema = ObjectSchema {
        ty: Some(SchemaType::Object),
        description: Some("A user.".to_string()),
        required: vec!["id".to_string()],
        properties: Some(vec![
            (
                "id".to_string(),
                ObjectSchema {
                    ty: Some(SchemaType::Integer),
                    format: Some("int64".to_string()),
                    minimum: Some(MinimumBound::Whole(0)),
                    ..ObjectSchema::empty()
                },
            ),
            (
                "tags".to_string(),
                ObjectSchema {
                    ty: Some(SchemaType::Array),
                    items: Some(Box::new(typed(SchemaType::String))),
                    ..ObjectSchema::empty()
                },
            ),
        ]),
        all_of: Some(vec![typed(SchemaType::Object)]),
        nullable: Some(false),
        ..ObjectSchema::empty()
    };
    let v3_0 = render(&schema, Version::V3_0);
    assert_eq!(v3_0, render(&schema, Version::V3_1));
    assert_eq!(
        v3_0,
        "type: object\ndescription: A user.\nrequired:\n- id\nproperties:\n  id:\n    type: integer\n    format: int64\n    minimum: 0\n  tags:\n    type: array\n    items:\n      type: string\nallOf:\n- type: object\n"
    );
}
