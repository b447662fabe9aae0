use frieze::rename::{
    check_unique_wire_names, pascal_or_camel_to_snake, rename_all_from_str, rename_all_label,
    snake_to_pascal, wire_name, RenameAll, RenameTarget, WireSource,
};

#[test]
fn wire_name_uses_individual_rename_over_container_rule() {
    let (wire, source) = wire_name(
        "user_id",
        Some("external_id"),
        RenameAll::CamelCase,
        RenameTarget::Field,
    )
    .unwrap();
    assert_eq!(wire, "external_id");
    assert!(matches!(source, WireSource::Individual));
}

#[test]
fn wire_name_falls_back_to_container_rule() {
    let (wire, source) =
        wire_name("user_id", None, RenameAll::CamelCase, RenameTarget::Field).unwrap();
    assert_eq!(wire, "userId");
    assert!(matches!(source, WireSource::RenameAll("camelCase")));
}

#[test]
fn wire_name_uses_identifier_when_no_rule_applies() {
    let (wire, source) =
        wire_name("user_id", None, RenameAll::Unchanged, RenameTarget::Field).unwrap();
    assert_eq!(wire, "user_id");
    assert!(matches!(source, WireSource::Identifier));
}

#[test]
fn wire_name_rejects_empty_individual_rename() {
    let err = wire_name("user_id", Some(""), RenameAll::Unchanged, RenameTarget::Field)
        .unwrap_err();
    assert!(err.contains("non-empty"));
}

#[test]
fn rename_all_camel_case_collapses_snake_field_to_camel() {
    assert_eq!(
        RenameAll::CamelCase.apply("user_id", RenameTarget::Field),
        "userId"
    );
    assert_eq!(
        RenameAll::CamelCase.apply("display_name", RenameTarget::Field),
        "displayName"
    );
}

#[test]
fn rename_all_camel_case_lowercases_variant_first_letter() {
    assert_eq!(
        RenameAll::CamelCase.apply("InactiveSince", RenameTarget::Variant),
        "inactiveSince"
    );
}

#[test]
fn rename_all_snake_case_is_noop_for_already_snake_fields() {
    assert_eq!(
        RenameAll::SnakeCase.apply("user_id", RenameTarget::Field),
        "user_id"
    );
}

#[test]
fn rename_all_snake_case_inserts_underscores_in_pascal_variants() {
    assert_eq!(
        RenameAll::SnakeCase.apply("InactiveSince", RenameTarget::Variant),
        "inactive_since"
    );
}

#[test]
fn rename_all_pascal_case_collapses_snake_field_to_pascal() {
    assert_eq!(
        RenameAll::PascalCase.apply("user_id", RenameTarget::Field),
        "UserId"
    );
}

#[test]
fn rename_all_kebab_case_replaces_underscores_in_fields() {
    assert_eq!(
        RenameAll::KebabCase.apply("user_id", RenameTarget::Field),
        "user-id"
    );
}

#[test]
fn check_unique_wire_names_passes_for_distinct_names() {
    let entries = vec![
        (
            "user_id".to_string(),
            "userId".to_string(),
            WireSource::RenameAll("camelCase"),
        ),
        (
            "display_name".to_string(),
            "displayName".to_string(),
            WireSource::RenameAll("camelCase"),
        ),
    ];
    check_unique_wire_names(&entries, "field").unwrap();
}

#[test]
fn check_unique_wire_names_rejects_collision() {
    let entries = vec![
        ("user_id".to_string(), "id".to_string(), WireSource::Individual),
        ("id".to_string(), "id".to_string(), WireSource::Identifier),
    ];
    let (at, msg) = check_unique_wire_names(&entries, "field").unwrap_err();
    assert_eq!(at, 1);
    assert!(msg.contains("field `id`"));
    assert!(msg.contains("conflicts with field `user_id`"));
    assert!(msg.contains("unique wire name"));
}

#[test]
fn collision_message_names_both_sites_and_sources() {
    let entries = vec![
        ("a".to_string(), "x".to_string(), WireSource::Individual),
        ("b".to_string(), "y".to_string(), WireSource::Identifier),
        ("c".to_string(), "x".to_string(), WireSource::RenameAll("camelCase")),
    ];
    let (at, msg) = check_unique_wire_names(&entries, "variant").unwrap_err();
    assert_eq!(at, 2);
    assert_eq!(
        msg,
        "frieze: variant `c` renames to \"x\" via `#[serde(rename_all = \"camelCase\")]`, which conflicts with variant `a` (also renames to \"x\" via `#[serde(rename = \"...\")]`). Each variant must have a unique wire name."
    );
}

#[test]
fn every_rule_on_both_sites() {
    let cases = [
        (RenameAll::Lowercase, "user_id", "InactiveSince", "user_id", "inactivesince"),
        (RenameAll::Uppercase, "user_id", "InactiveSince", "USER_ID", "INACTIVESINCE"),
        (RenameAll::ScreamingSnakeCase, "user_id", "InactiveSince", "USER_ID", "INACTIVE_SINCE"),
        (RenameAll::KebabCase, "user_id", "InactiveSince", "user-id", "inactive-since"),
        (RenameAll::ScreamingKebabCase, "user_id", "InactiveSince", "USER-ID", "INACTIVE-SINCE"),
        (RenameAll::PascalCase, "user_id", "InactiveSince", "UserId", "InactiveSince"),
        (RenameAll::Unchanged, "user_id", "InactiveSince", "user_id", "InactiveSince"),
    ];
    for (rule, field, variant, field_out, variant_out) in cases {
        assert_eq!(rule.apply(field, RenameTarget::Field), field_out);
        assert_eq!(rule.apply(variant, RenameTarget::Variant), variant_out);
    }
}

#[test]
fn labels_name_their_rule_again() {
    for rule in [
        RenameAll::Lowercase,
        RenameAll::Uppercase,
        RenameAll::PascalCase,
        RenameAll::CamelCase,
        RenameAll::SnakeCase,
        RenameAll::ScreamingSnakeCase,
        RenameAll::KebabCase,
        RenameAll::ScreamingKebabCase,
    ] {
        assert_eq!(rename_all_from_str(rename_all_label(rule)).unwrap(), rule);
    }
    assert_eq!(rename_all_label(RenameAll::Unchanged), "");
}

#[test]
fn unknown_rename_all_literal_lists_the_supported_ones() {
    assert_eq!(
        rename_all_from_str("Title Case").unwrap_err(),
        "frieze: unsupported `rename_all` value `Title Case`; supported values are lowercase, UPPERCASE, PascalCase, camelCase, snake_case, SCREAMING_SNAKE_CASE, kebab-case, SCREAMING-KEBAB-CASE."
    );
}

#[test]
fn wire_sources_describe_themselves() {
    assert_eq!(WireSource::Identifier.describe(), "the Rust identifier");
    assert_eq!(WireSource::Individual.describe(), "`#[serde(rename = \"...\")]`");
    assert_eq!(
        WireSource::RenameAll("kebab-case").describe(),
        "`#[serde(rename_all = \"kebab-case\")]`"
    );
}

fn chars(s: &str) -> Vec<char> {
    s.chars().collect()
}

#[test]
fn snake_case_identifiers_survive_the_pascal_round_trip() {
    for f in ["user_id", "a", "id2", "http_code_v2x", "created_at_v2"] {
        let pascal = snake_to_pascal(&chars(f));
        let back: String = pascal_or_camel_to_snake(&pascal).into_iter().collect();
        assert_eq!(back, f);
    }
    let pascal: String = snake_to_pascal(&chars("user_id")).into_iter().collect();
    assert_eq!(pascal, "UserId");
    let snake: String = pascal_or_camel_to_snake(&chars("InactiveSince")).into_iter().collect();
    assert_eq!(snake, "inactive_since");
}

#[test]
fn case_rules_use_the_unicode_mapping_beyond_ascii() {
    assert_eq!(
        RenameAll::PascalCase.apply("über_größe", RenameTarget::Field),
        "ÜberGröße"
    );
    assert_eq!(
        RenameAll::SnakeCase.apply("Ärger", RenameTarget::Variant),
        "ärger"
    );
    assert_eq!(
        RenameAll::CamelCase.apply("Straße", RenameTarget::Variant),
        "straße"
    );
}
