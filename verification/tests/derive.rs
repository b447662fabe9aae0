use frieze::doc::DocAttr;
use frieze::expand_common::{
    frieze_attribute, union_message, AttrSite, Diagnostic, FriezeArgs, GenericParam, MacroError,
    Site,
};
use frieze::expand_enum::{expand_enum, ArmPlan, EnumInput, EnumPlan, VariantFields, VariantInput};
use frieze::expand_struct::{expand_struct, FieldInput, PropertyPlan, StructFields, StructInput};
use frieze::field::{parse_field, strip_collection_wrappers, Presence, PropertyShape, TypeExpr};
use frieze::serde_scan::{scan_serde_attrs, MetaArg, ScanError, SerdeMeta, SerdePosition, SerdeScan};

fn meta(name: &str, arg: MetaArg) -> SerdeMeta {
    SerdeMeta {
        name: Some(name.to_string()),
        arg,
    }
}

fn lit(s: &str) -> MetaArg {
    MetaArg::Str(s.to_string())
}

fn empty_scan() -> SerdeScan {
    scan_serde_attrs(&vec![], SerdePosition::StructField).unwrap()
}

fn path_type(node: usize, segments: &[&str], argument: Option<TypeExpr>, text: &str) -> TypeExpr {
    TypeExpr::Path {
        segments: segments.iter().map(|s| s.to_string()).collect(),
        argument: argument.map(Box::new),
        node,
        text: text.to_string(),
    }
}

fn leaf(node: usize, name: &str) -> TypeExpr {
    path_type(node, &[name], None, name)
}

fn wrap(node: usize, wrapper: &str, inner: TypeExpr) -> TypeExpr {
    let text = format!("{wrapper}<{}>", text_of(&inner));
    path_type(node, &[wrapper], Some(inner), &text)
}

fn text_of(t: &TypeExpr) -> String {
    match t {
        TypeExpr::Path { text, .. } | TypeExpr::Other { text, .. } => text.clone(),
    }
}

#[test]
fn scan_records_the_supported_attributes() {
    let metas = vec![
        meta("rename", lit("first")),
        meta("rename", lit("second")),
        meta("rename_all", lit("camelCase")),
        meta("default", MetaArg::Bare),
        meta("skip_serializing_if", lit("Option::is_none")),
        SerdeMeta {
            name: None,
            arg: MetaArg::Paren,
        },
        meta("tag", lit("kind")),
    ];
    let scan = scan_serde_attrs(&metas, SerdePosition::StructContainer).unwrap();
    assert_eq!(scan.rename, Some(("first".to_string(), 0)));
    assert_eq!(scan.rename_all, Some(("camelCase".to_string(), 2)));
    assert_eq!(scan.tag, Some(("kind".to_string(), 6)));
    assert!(scan.default_bare);
    assert_eq!(scan.skip_serializing_if.as_deref(), Some("Option::is_none"));
}

#[test]
fn a_custom_default_is_rejected() {
    let err = scan_serde_attrs(&vec![meta("default", lit("fallback"))], SerdePosition::StructField)
        .unwrap_err();
    assert_eq!(
        err,
        ScanError::Unsupported {
            at: 0,
            message: "frieze: `#[serde(default = \"...\")]` is not supported; only the bare `#[serde(default)]` on a `Maybe<T>` field is recognised.".to_string()
        }
    );
}

#[test]
fn an_unknown_entry_is_rejected() {
    let err = scan_serde_attrs(
        &vec![meta("rename_all", lit("camelCase")), meta("crate", lit("serde"))],
        SerdePosition::StructContainer,
    )
    .unwrap_err();
    assert_eq!(
        err,
        ScanError::Unsupported {
            at: 1,
            message: "frieze: `#[serde(crate)]` is not supported.".to_string()
        }
    );
}

#[test]
fn scan_rejects_the_deferred_attributes_at_their_entry() {
    let err = scan_serde_attrs(
        &vec![meta("rename", lit("a")), meta("flatten", MetaArg::Bare)],
        SerdePosition::StructField,
    )
    .unwrap_err();
    assert_eq!(
        err,
        ScanError::Unsupported {
            at: 1,
            message: "frieze: `#[serde(flatten)]` on a field is not supported.".to_string()
        }
    );
    let err = scan_serde_attrs(&vec![meta("with", lit("module"))], SerdePosition::StructField)
        .unwrap_err();
    assert_eq!(
        err,
        ScanError::Unsupported {
            at: 0,
            message: "frieze: `#[serde(with)]` is not supported.".to_string()
        }
    );
    let err = scan_serde_attrs(&vec![meta("rename", MetaArg::Paren)], SerdePosition::StructField)
        .unwrap_err();
    assert!(matches!(err, ScanError::Unsupported { at: 0, ref message } if message.contains("direction") || message.contains("different wire names")));
    let err = scan_serde_attrs(&vec![meta("alias", MetaArg::OtherExpr)], SerdePosition::StructField)
        .unwrap_err();
    assert_eq!(err, ScanError::ExpectedString { at: 0 });
    let err = scan_serde_attrs(&vec![meta("default", MetaArg::Paren)], SerdePosition::StructField)
        .unwrap_err();
    assert_eq!(err, ScanError::UnexpectedArgument { at: 0 });
}

#[test]
fn field_shapes_follow_the_mapping_table() {
    let scan = empty_scan();
    let cases: Vec<(TypeExpr, PropertyShape, Presence)> = vec![
        (leaf(0, "i64"), PropertyShape::Int64, Presence::Required),
        (
            wrap(0, "Option", leaf(1, "String")),
            PropertyShape::Nullable(Box::new(PropertyShape::String)),
            Presence::Required,
        ),
        (
            wrap(0, "Vec", wrap(1, "Option", leaf(2, "bool"))),
            PropertyShape::Array(Box::new(PropertyShape::Nullable(Box::new(PropertyShape::Boolean)))),
            Presence::Required,
        ),
        (
            wrap(0, "Option", wrap(1, "Vec", leaf(2, "u32"))),
            PropertyShape::Nullable(Box::new(PropertyShape::Array(Box::new(PropertyShape::UInt32)))),
            Presence::Required,
        ),
        (leaf(7, "User"), PropertyShape::Reference(7), Presence::Required),
    ];
    for (ty, shape, presence) in cases {
        assert_eq!(parse_field(&ty, &scan, "f").unwrap(), (shape, presence));
    }
}

#[test]
fn option_with_is_none_skip_is_optional_and_not_nullable() {
    let scan = scan_serde_attrs(
        &vec![meta("skip_serializing_if", lit("Option::is_none"))],
        SerdePosition::StructField,
    )
    .unwrap();
    let ty = wrap(0, "Option", leaf(1, "f64"));
    assert_eq!(
        parse_field(&ty, &scan, "f").unwrap(),
        (PropertyShape::Double, Presence::Optional)
    );
}

#[test]
fn maybe_needs_its_attribute_pair() {
    let ty = wrap(0, "Maybe", leaf(1, "i32"));
    assert_eq!(
        parse_field(&ty, &empty_scan(), "nickname").unwrap_err(),
        "frieze: `Maybe<T>` field `nickname` requires both `#[serde(default)]` and `#[serde(skip_serializing_if = \"Maybe::is_missing\")]`. Add: #[serde(default, skip_serializing_if = \"Maybe::is_missing\")]"
    );
    let scan = scan_serde_attrs(
        &vec![
            meta("default", MetaArg::Bare),
            meta("skip_serializing_if", lit("Maybe::is_missing")),
        ],
        SerdePosition::StructField,
    )
    .unwrap();
    assert_eq!(
        parse_field(&ty, &scan, "nickname").unwrap(),
        (
            PropertyShape::Nullable(Box::new(PropertyShape::Int32)),
            Presence::Optional
        )
    );
}

#[test]
fn ambiguous_and_nested_wrappers_are_rejected() {
    let scan = empty_scan();
    let cases = [
        (wrap(0, "Option", wrap(1, "Option", leaf(2, "i32"))), "frieze: nested Option is not supported."),
        (wrap(0, "Vec", wrap(1, "Vec", leaf(2, "i32"))), "frieze: nested Vec is not supported."),
        (wrap(0, "Maybe", wrap(1, "Maybe", leaf(2, "i32"))), "frieze: nested Maybe is not supported."),
        (
            wrap(0, "Maybe", wrap(1, "Option", leaf(2, "i32"))),
            "frieze: Maybe<Option<T>> is ambiguous; nullability is doubly defined. Use Maybe<T> alone.",
        ),
        (
            wrap(0, "Option", wrap(1, "Maybe", leaf(2, "i32"))),
            "frieze: Option<Maybe<T>> is ambiguous; presence is doubly defined. Use Maybe<T> alone.",
        ),
    ];
    for (ty, message) in cases {
        assert_eq!(parse_field(&ty, &scan, "f").unwrap_err(), message);
    }
    let vec_of_maybe = wrap(0, "Vec", wrap(1, "Maybe", leaf(2, "i32")));
    assert!(parse_field(&vec_of_maybe, &scan, "f").unwrap_err().starts_with("frieze: Vec<Maybe<T>> is not allowed"));
}

#[test]
fn qualified_and_other_types_are_rejected() {
    let scan = empty_scan();
    let qualified = path_type(0, &["models", "User"], None, "models::User");
    assert_eq!(
        parse_field(&qualified, &scan, "f").unwrap_err(),
        "frieze: qualified paths in field type are not supported. Use a `use` statement to bring the type into scope."
    );
    let reference = TypeExpr::Other {
        node: 0,
        text: "&str".to_string(),
    };
    assert!(parse_field(&reference, &scan, "f")
        .unwrap_err()
        .starts_with("frieze: unsupported field type `&str`; only the following"));
    let inside = wrap(0, "Vec", TypeExpr::Other { node: 1, text: "(i32,i32)".to_string() });
    assert!(parse_field(&inside, &scan, "f")
        .unwrap_err()
        .starts_with("frieze: unsupported field type `(i32,i32)` inside Vec<...>;"));
}

#[test]
fn register_walk_peels_collection_wrappers() {
    let ty = wrap(0, "Vec", wrap(1, "Option", leaf(2, "Tag")));
    assert!(matches!(strip_collection_wrappers(&ty), TypeExpr::Path { node: 2, .. }));
    let generic = wrap(0, "Page", leaf(1, "User"));
    assert!(matches!(strip_collection_wrappers(&generic), TypeExpr::Path { node: 0, .. }));
}

fn field(ident: &str, serde: Vec<SerdeMeta>, docs: Vec<DocAttr>, ty: TypeExpr) -> FieldInput {
    FieldInput {
        ident: ident.to_string(),
        serde,
        docs,
        ty,
    }
}

fn user_struct(container: Vec<SerdeMeta>, fields: Vec<FieldInput>) -> StructInput {
    StructInput {
        ident: "User".to_string(),
        serde: container,
        docs: vec![DocAttr::Text(" A user.".to_string())],
        generics: vec![],
        fields: StructFields::Named(fields),
    }
}

#[test]
fn a_struct_plans_one_property_per_field() {
    let input = user_struct(
        vec![meta("rename_all", lit("camelCase"))],
        vec![
            field("user_id", vec![], vec![DocAttr::Text(" Id.".to_string())], leaf(0, "i64")),
            field(
                "display_name",
                vec![meta("rename", lit("name"))],
                vec![],
                wrap(1, "Option", leaf(2, "String")),
            ),
        ],
    );
    let plan = expand_struct(&input).unwrap();
    assert_eq!(plan.description.as_deref(), Some("A user."));
    assert_eq!(
        plan.properties,
        vec![
            PropertyPlan {
                wire: "userId".to_string(),
                shape: PropertyShape::Int64,
                presence: Presence::Required,
                description: Some("Id.".to_string()),
            },
            PropertyPlan {
                wire: "name".to_string(),
                shape: PropertyShape::Nullable(Box::new(PropertyShape::String)),
                presence: Presence::Required,
                description: None,
            },
        ]
    );
}

#[test]
fn struct_rejections_point_at_their_site() {
    let tuple = StructInput {
        fields: StructFields::Unnamed,
        ..user_struct(vec![], vec![])
    };
    assert_eq!(
        expand_struct(&tuple).unwrap_err(),
        MacroError {
            site: Site::Item,
            diagnostic: Diagnostic::Message(
                "frieze: #[derive(Schema)] requires a struct with named fields; tuple structs are not supported.".to_string()
            ),
        }
    );
    let empty = user_struct(vec![], vec![]);
    assert_eq!(expand_struct(&empty).unwrap_err().site, Site::Item);

    let lifetime = StructInput {
        generics: vec![GenericParam::Type("T".to_string()), GenericParam::Lifetime],
        ..user_struct(vec![], vec![field("a", vec![], vec![], leaf(0, "i32"))])
    };
    let err = expand_struct(&lifetime).unwrap_err();
    assert_eq!(err.site, Site::Generic(1));
    assert!(matches!(err.diagnostic, Diagnostic::Message(ref m) if m.contains("(struct `User`)")));

    let bad_rule = user_struct(
        vec![meta("rename_all", lit("Title"))],
        vec![field("a", vec![], vec![], leaf(0, "i32"))],
    );
    assert_eq!(expand_struct(&bad_rule).unwrap_err().site, Site::ContainerAttr(0));

    let bad_field = user_struct(
        vec![],
        vec![
            field("a", vec![], vec![], leaf(0, "i32")),
            field("b", vec![], vec![], wrap(1, "Option", wrap(2, "Option", leaf(3, "i32")))),
        ],
    );
    assert_eq!(expand_struct(&bad_field).unwrap_err().site, Site::MemberShape(1));

    let empty_rename = user_struct(
        vec![],
        vec![field("a", vec![meta("skip_serializing_if", lit("x")), meta("rename", lit(""))], vec![], leaf(0, "i32"))],
    );
    assert_eq!(expand_struct(&empty_rename).unwrap_err().site, Site::MemberAttr(0, 1));
}

#[test]
fn colliding_field_wire_names_are_rejected_at_the_second_field() {
    let input = user_struct(
        vec![],
        vec![
            field("user_id", vec![meta("rename", lit("id"))], vec![], leaf(0, "i64")),
            field("id", vec![], vec![], leaf(1, "i64")),
        ],
    );
    let err = expand_struct(&input).unwrap_err();
    assert_eq!(err.site, Site::Member(1));
    assert!(matches!(err.diagnostic, Diagnostic::Message(ref m) if m.contains("conflicts with field `user_id`")));
}

fn variant(ident: &str, docs: Vec<DocAttr>, fields: VariantFields) -> VariantInput {
    VariantInput {
        ident: ident.to_string(),
        serde: vec![],
        docs,
        fields,
    }
}

fn status_enum(container: Vec<SerdeMeta>, variants: Vec<VariantInput>) -> EnumInput {
    EnumInput {
        ident: "Status".to_string(),
        serde: container,
        docs: vec![DocAttr::Text(" lifecycle".to_string())],
        generics: vec![],
        variants,
    }
}

#[test]
fn a_unit_enum_plans_a_string_enum() {
    let input = status_enum(
        vec![meta("rename_all", lit("snake_case"))],
        vec![
            variant("InactiveSince", vec![DocAttr::Text(" stopped".to_string())], VariantFields::Unit),
            variant("Active", vec![], VariantFields::Unit),
        ],
    );
    assert_eq!(
        expand_enum(&input).unwrap(),
        EnumPlan::StringEnum {
            values: vec!["inactive_since".to_string(), "active".to_string()],
            description: Some("lifecycle\n\n- inactive_since: stopped".to_string()),
        }
    );
}

#[test]
fn a_tagged_enum_plans_a_one_of() {
    let input = status_enum(
        vec![meta("tag", lit("kind"))],
        vec![
            variant("Login", vec![], VariantFields::Unnamed(vec![leaf(4, "LoginData")])),
            variant("Logout", vec![], VariantFields::Unnamed(vec![leaf(5, "LogoutData")])),
        ],
    );
    assert_eq!(
        expand_enum(&input).unwrap(),
        EnumPlan::OneOf {
            tag: "kind".to_string(),
            arms: vec![
                ArmPlan { wire: "Login".to_string(), inner: 4, description: None },
                ArmPlan { wire: "Logout".to_string(), inner: 5, description: None },
            ],
            description: Some("lifecycle".to_string()),
        }
    );
}

#[test]
fn enum_shape_rules_reject_mismatches() {
    let tagged_units = status_enum(vec![meta("tag", lit("kind"))], vec![variant("A", vec![], VariantFields::Unit)]);
    let err = expand_enum(&tagged_units).unwrap_err();
    assert_eq!(err.site, Site::Item);
    assert!(matches!(err.diagnostic, Diagnostic::Message(ref m) if m.starts_with("frieze: enum `Status` is unit-only")));

    let untagged_data = status_enum(vec![], vec![variant("A", vec![], VariantFields::Unnamed(vec![leaf(0, "AData")]))]);
    let err = expand_enum(&untagged_data).unwrap_err();
    assert!(matches!(err.diagnostic, Diagnostic::Message(ref m) if m.contains("has data-carrying variants but no")));

    let mixed = status_enum(
        vec![meta("tag", lit("kind"))],
        vec![
            variant("A", vec![], VariantFields::Unnamed(vec![leaf(0, "AData")])),
            variant("B", vec![], VariantFields::Unit),
        ],
    );
    let err = expand_enum(&mixed).unwrap_err();
    assert_eq!(err.site, Site::MemberShape(1));
    assert!(matches!(err.diagnostic, Diagnostic::Message(ref m) if m.contains("contains a unit variant `B`") && m.contains("`{\"kind\": \"B\"}`")));

    let pair = status_enum(vec![], vec![variant("P", vec![], VariantFields::Unnamed(vec![leaf(0, "i32"), leaf(1, "i32")]))]);
    let err = expand_enum(&pair).unwrap_err();
    assert_eq!(
        err.diagnostic,
        Diagnostic::Message("frieze: tuple variants with multiple fields (variant `P` has 2) are not supported. Define a named newtype struct: #[derive(Schema)] struct P { ... }; enum Status { P(P), ... }.".to_string())
    );

    let named = status_enum(vec![], vec![variant("S", vec![], VariantFields::Named)]);
    assert_eq!(expand_enum(&named).unwrap_err().site, Site::MemberShape(0));

    let none = status_enum(vec![], vec![]);
    assert_eq!(
        expand_enum(&none).unwrap_err().diagnostic,
        Diagnostic::Message("frieze: enums with no variants cannot be represented as an OAS schema.".to_string())
    );
}

#[test]
fn tagged_newtypes_must_wrap_a_struct() {
    let cases = [
        (wrap(0, "Vec", leaf(1, "i64")), "wraps `Vec<i64>`, which is not a struct"),
        (leaf(0, "String"), "wraps a non-Schema type (`String`)"),
        (TypeExpr::Other { node: 0, text: "&Data".to_string() }, "wraps an unsupported type form (`&Data`)"),
        (path_type(0, &["a", "Data"], None, "a::Data"), "wraps a qualified path (`a::Data`)"),
    ];
    for (ty, fragment) in cases {
        let input = status_enum(vec![meta("tag", lit("kind"))], vec![variant("Counts", vec![], VariantFields::Unnamed(vec![ty]))]);
        let err = expand_enum(&input).unwrap_err();
        assert_eq!(err.site, Site::VariantInner(0));
        assert!(matches!(err.diagnostic, Diagnostic::Message(ref m) if m.contains(fragment)), "{err:?}");
    }
}

#[test]
fn colliding_variant_wire_names_are_rejected() {
    let mut a = variant("A", vec![], VariantFields::Unit);
    a.serde = vec![meta("rename", lit("B"))];
    let input = status_enum(vec![], vec![a, variant("B", vec![], VariantFields::Unit)]);
    let err = expand_enum(&input).unwrap_err();
    assert_eq!(err.site, Site::Member(1));
}

#[test]
fn the_frieze_attribute_accepts_only_a_bare_namespace_on_a_mod() {
    let namespace = |has_remainder| FriezeArgs::Keyword { name: "namespace".to_string(), has_remainder };
    assert!(frieze_attribute(&namespace(false), true).is_ok());
    assert_eq!(frieze_attribute(&namespace(true), true).unwrap_err().0, AttrSite::Arguments);
    assert_eq!(frieze_attribute(&namespace(false), false).unwrap_err().0, AttrSite::Item);
    assert_eq!(frieze_attribute(&FriezeArgs::Empty, true).unwrap_err().0, AttrSite::Attribute);
    assert_eq!(frieze_attribute(&FriezeArgs::NotIdent, true).unwrap_err().0, AttrSite::Keyword);
    let unknown = FriezeArgs::Keyword { name: "alias".to_string(), has_remainder: false };
    assert_eq!(
        frieze_attribute(&unknown, true).unwrap_err().1,
        "frieze: unknown sub-keyword `alias` for `#[frieze(...)]`. The only currently supported keyword is `namespace`."
    );
    assert_eq!(union_message(), "frieze: #[derive(Schema)] does not support unions.");
}

fn id_field(serde: Vec<SerdeMeta>) -> FieldInput {
    field("id", serde, vec![], leaf(0, "i64"))
}

fn message_of(err: MacroError) -> String {
    match err.diagnostic {
        Diagnostic::Message(m) => m,
        other => panic!("expected a message, got {other:?}"),
    }
}

const DEFAULT_OFF_MAYBE: &str = "frieze: `#[serde(default)]` is only supported on a `Maybe<T>` field, together with `skip_serializing_if = \"Maybe::is_missing\"`.";

#[test]
fn serde_default_non_maybe_unsupported() {
    let input = user_struct(vec![], vec![id_field(vec![meta("default", MetaArg::Bare)])]);
    let err = expand_struct(&input).unwrap_err();
    assert_eq!(err.site, Site::MemberShape(0));
    assert_eq!(message_of(err), DEFAULT_OFF_MAYBE);
}

#[test]
fn serde_custom_default_unsupported() {
    let input = user_struct(vec![], vec![id_field(vec![meta("default", lit("fallback"))])]);
    let err = expand_struct(&input).unwrap_err();
    assert_eq!(err.site, Site::MemberAttr(0, 0));
    assert!(message_of(err).contains("`#[serde(default = \"...\")]` is not supported"));
}

#[test]
fn serde_skip_predicate_unsupported() {
    let input = user_struct(
        vec![],
        vec![field(
            "tags",
            vec![meta("skip_serializing_if", lit("Vec::is_empty"))],
            vec![],
            wrap(0, "Vec", leaf(1, "String")),
        )],
    );
    let err = expand_struct(&input).unwrap_err();
    assert_eq!(err.site, Site::MemberShape(0));
    assert_eq!(
        message_of(err),
        "frieze: `#[serde(skip_serializing_if = \"Vec::is_empty\")]` is not supported here; only `Option::is_none` on an `Option<T>` field and `Maybe::is_missing` on a `Maybe<T>` field are recognised."
    );
}

#[test]
fn serde_option_skip_predicate_unsupported() {
    let input = user_struct(
        vec![],
        vec![field(
            "name",
            vec![meta("skip_serializing_if", lit("skip_name"))],
            vec![],
            wrap(0, "Option", leaf(1, "String")),
        )],
    );
    let err = expand_struct(&input).unwrap_err();
    assert_eq!(err.site, Site::MemberShape(0));
    assert!(message_of(err).contains("`#[serde(skip_serializing_if = \"skip_name\")]` is not supported here"));
}

#[test]
fn serde_container_rename_unsupported() {
    let input = user_struct(vec![meta("rename", lit("WireUser"))], vec![id_field(vec![])]);
    let err = expand_struct(&input).unwrap_err();
    assert_eq!(err.site, Site::ContainerAttr(0));
    assert_eq!(
        message_of(err),
        "frieze: container-level `#[serde(rename = \"...\")]` is not supported; the schema is named after the Rust type."
    );
}

#[test]
fn serde_unknown_unsupported() {
    let input = user_struct(vec![meta("crate", lit("serde"))], vec![id_field(vec![])]);
    let err = expand_struct(&input).unwrap_err();
    assert_eq!(err.site, Site::ContainerAttr(0));
    assert_eq!(message_of(err), "frieze: `#[serde(crate)]` is not supported.");
}

#[test]
fn recognised_predicates_stay_accepted() {
    let input = user_struct(
        vec![],
        vec![
            field(
                "name",
                vec![meta("skip_serializing_if", lit("Option::is_none"))],
                vec![],
                wrap(0, "Option", leaf(1, "String")),
            ),
            field(
                "nick",
                vec![
                    meta("default", MetaArg::Bare),
                    meta("skip_serializing_if", lit("Maybe::is_missing")),
                ],
                vec![],
                wrap(2, "Maybe", leaf(3, "String")),
            ),
        ],
    );
    let plan = expand_struct(&input).unwrap();
    assert_eq!(plan.properties[0].presence, Presence::Optional);
    assert_eq!(plan.properties[1].presence, Presence::Optional);
}
