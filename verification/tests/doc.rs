use frieze::doc::{compose_enum_description, parse_doc_attrs, DocAttr};

fn doc_attr(s: &str) -> DocAttr {
    DocAttr::Text(s.to_string())
}

#[test]
fn no_doc_attrs_returns_none() {
    let attrs: Vec<DocAttr> = vec![];
    assert_eq!(parse_doc_attrs(&attrs), None);
}

#[test]
fn strips_single_leading_space() {
    let attrs = vec![doc_attr(" hello")];
    assert_eq!(parse_doc_attrs(&attrs), Some("hello".to_string()));
}

#[test]
fn preserves_extra_leading_spaces() {
    // Only one leading space is stripped — the second space stays.
    let attrs = vec![doc_attr("  hello")];
    assert_eq!(parse_doc_attrs(&attrs), Some(" hello".to_string()));
}

#[test]
fn no_leading_space_is_allowed() {
    let attrs = vec![doc_attr("hello")];
    assert_eq!(parse_doc_attrs(&attrs), Some("hello".to_string()));
}

#[test]
fn joins_multiple_attrs_with_newlines() {
    let attrs = vec![doc_attr(" first"), doc_attr(" second")];
    assert_eq!(parse_doc_attrs(&attrs), Some("first\nsecond".to_string()));
}

#[test]
fn trims_trailing_whitespace_per_line() {
    let attrs = vec![doc_attr(" trailing   ")];
    assert_eq!(parse_doc_attrs(&attrs), Some("trailing".to_string()));
}

#[test]
fn drops_trailing_empty_lines() {
    let attrs = vec![doc_attr(" line one"), doc_attr(""), doc_attr("")];
    assert_eq!(parse_doc_attrs(&attrs), Some("line one".to_string()));
}

#[test]
fn ignores_doc_hidden_list_form() {
    let attrs: Vec<DocAttr> = vec![DocAttr::Other];
    assert_eq!(parse_doc_attrs(&attrs), None);
}

#[test]
fn ignores_doc_alias_list_form_alongside_real_doc() {
    let attrs = vec![doc_attr(" the real doc"), DocAttr::Other];
    assert_eq!(parse_doc_attrs(&attrs), Some("the real doc".to_string()));
}

#[test]
fn all_whitespace_returns_none() {
    let attrs = vec![doc_attr("   "), doc_attr("\t")];
    assert_eq!(parse_doc_attrs(&attrs), None);
}

#[test]
fn multi_line_string_literal_is_split() {
    // Equivalent to `#[doc = "line one\nline two"]`.
    let attrs = vec![doc_attr(" line one\n line two")];
    assert_eq!(
        parse_doc_attrs(&attrs),
        Some("line one\nline two".to_string())
    );
}

#[test]
fn interior_blank_lines_are_kept() {
    let attrs = vec![doc_attr(" a"), doc_attr(""), doc_attr(" b"), doc_attr(" ")];
    assert_eq!(parse_doc_attrs(&attrs), Some("a\n\nb".to_string()));
}

#[test]
fn unicode_white_space_is_trimmed_too() {
    let attrs = vec![doc_attr(" title\u{a0}\u{3000}")];
    assert_eq!(parse_doc_attrs(&attrs), Some("title".to_string()));
}

#[test]
fn compose_enum_description_top_only() {
    let variants = vec![("Active".to_string(), None), ("Inactive".to_string(), None)];
    assert_eq!(
        compose_enum_description(Some("lifecycle"), &variants),
        Some("lifecycle".to_string())
    );
}

#[test]
fn compose_enum_description_variant_only() {
    let variants = vec![
        ("Active".to_string(), Some("running".to_string())),
        ("Inactive".to_string(), None),
    ];
    assert_eq!(
        compose_enum_description(None, &variants),
        Some("- Active: running".to_string())
    );
}

#[test]
fn compose_enum_description_top_and_variants() {
    let variants = vec![
        ("Active".to_string(), Some("running".to_string())),
        ("Inactive".to_string(), Some("stopped".to_string())),
    ];
    assert_eq!(
        compose_enum_description(Some("lifecycle"), &variants),
        Some("lifecycle\n\n- Active: running\n- Inactive: stopped".to_string())
    );
}

#[test]
fn compose_enum_description_partial_variants_omits_missing_rows() {
    let variants = vec![
        ("Red".to_string(), Some("crimson".to_string())),
        ("Green".to_string(), None),
        ("Blue".to_string(), Some("deep blue".to_string())),
    ];
    assert_eq!(
        compose_enum_description(None, &variants),
        Some("- Red: crimson\n- Blue: deep blue".to_string())
    );
}

#[test]
fn compose_enum_description_indents_multi_line_variant_doc() {
    let variants = vec![("Active".to_string(), Some("running\nright now".to_string()))];
    assert_eq!(
        compose_enum_description(None, &variants),
        Some("- Active: running\n  right now".to_string())
    );
}

#[test]
fn compose_enum_description_none_when_neither_present() {
    let variants = vec![("Active".to_string(), None)];
    assert_eq!(compose_enum_description(None, &variants), None);
}

#[test]
fn compose_enum_description_indents_every_continuation_line() {
    let variants = vec![("A".to_string(), Some("x\ny\n\nz".to_string()))];
    assert_eq!(
        compose_enum_description(Some("top"), &variants),
        Some("top\n\n- A: x\n  y\n  \n  z".to_string())
    );
}
