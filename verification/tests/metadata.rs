use frieze::metadata::{read_metadata, MetadataError, RawMetadata, Toml};

const ROOT: &str = "/work/my-api";

const SECTION_TABLE: &str = "[package.metadata.frieze]";
const OUTPUTS_TABLE: &str = "[[package.metadata.frieze.outputs]]";

/// The manifest text as the section reader sees it.
fn convert(value: &toml::Value) -> Toml {
    match value {
        toml::Value::String(s) => Toml::Str(s.clone()),
        toml::Value::Array(items) => Toml::Array(items.iter().map(convert).collect()),
        toml::Value::Table(t) => {
            Toml::Table(t.iter().map(|(k, v)| (k.clone(), convert(v))).collect())
        }
        _ => Toml::Other,
    }
}

fn read(manifest: &str) -> Result<RawMetadata, MetadataError> {
    let value: toml::Value = toml::from_str(manifest).unwrap();
    read_metadata(ROOT, &convert(&value))
}

fn joined(rel: &str) -> String {
    std::path::Path::new(ROOT)
        .join(rel)
        .to_string_lossy()
        .into_owned()
}

const HAPPY_MANIFEST: &str = r#"
[package]
name = "my-api"
version = "0.1.0"

[[package.metadata.frieze.outputs]]
name    = "default"
partial = "openapi/partial.yaml"
output  = "openapi/openapi.yaml"

[[package.metadata.frieze.outputs]]
name    = "internal"
partial = "openapi/internal-partial.yaml"
output  = "openapi/internal.json"
"#;

#[test]
fn reads_a_two_output_configuration() {
    let metadata = read(HAPPY_MANIFEST).unwrap();
    assert_eq!(metadata.package_name, "my-api");
    assert!(metadata.features.is_empty());
    assert_eq!(metadata.oas_version, None);
    assert_eq!(metadata.outputs.len(), 2);
    let first = &metadata.outputs[0];
    assert_eq!(first.name, "default");
    assert_eq!(first.partial, joined("openapi/partial.yaml"));
    assert_eq!(first.output, joined("openapi/openapi.yaml"));
    assert_eq!(metadata.outputs[1].name, "internal");
    assert_eq!(metadata.outputs[1].output, joined("openapi/internal.json"));
}

#[test]
fn reads_the_optional_parent_table_keys() {
    let manifest = r#"
[package]
name = "my-api"

[package.metadata.frieze]
features    = ["extra", "json-schema"]
oas-version = "3.1"

[[package.metadata.frieze.outputs]]
name    = "default"
partial = "openapi/partial.yaml"
output  = "openapi/openapi.yaml"
"#;
    let metadata = read(manifest).unwrap();
    assert_eq!(metadata.features, ["extra", "json-schema"]);
    assert_eq!(metadata.oas_version.as_deref(), Some("3.1"));
}

fn unexpected(key: &str, table: &str, expected: &str) -> MetadataError {
    MetadataError::UnexpectedType {
        key: key.to_string(),
        table: table.to_string(),
        expected: expected.to_string(),
    }
}

#[test]
fn non_array_features_value_is_rejected() {
    let manifest = "[package]\nname = \"my-api\"\n\
                    [package.metadata.frieze]\nfeatures = \"extra\"\n";
    assert_eq!(
        read(manifest),
        Err(unexpected("features", SECTION_TABLE, "an array of strings"))
    );
}

#[test]
fn non_string_feature_entry_is_rejected() {
    let manifest = "[package]\nname = \"my-api\"\n\
                    [package.metadata.frieze]\nfeatures = [1]\n";
    assert_eq!(
        read(manifest),
        Err(unexpected("features", SECTION_TABLE, "an array of strings"))
    );
}

#[test]
fn non_string_oas_version_value_is_rejected() {
    let manifest = "[package]\nname = \"my-api\"\n\
                    [package.metadata.frieze]\n\"oas-version\" = 3.0\n";
    assert_eq!(
        read(manifest),
        Err(unexpected("oas-version", SECTION_TABLE, "a string"))
    );
}

#[test]
fn missing_frieze_section_is_a_dedicated_error() {
    assert_eq!(
        read("[package]\nname = \"my-api\"\n"),
        Err(MetadataError::MissingFriezeSection)
    );
}

#[test]
fn empty_outputs_are_rejected() {
    let manifest = "[package]\nname = \"my-api\"\n\
                    [package.metadata.frieze]\noutputs = []\n";
    assert_eq!(read(manifest), Err(MetadataError::NoOutputsDefined));
}

#[test]
fn unknown_section_key_is_rejected() {
    let manifest = "[package]\nname = \"my-api\"\n\
                    [package.metadata.frieze]\noutpts = []\n";
    assert_eq!(
        read(manifest),
        Err(MetadataError::UnknownKey {
            key: "outpts".to_string(),
            table: SECTION_TABLE.to_string(),
        })
    );
}

#[test]
fn unknown_output_entry_key_is_rejected() {
    let manifest = r#"
[package]
name = "my-api"

[[package.metadata.frieze.outputs]]
name    = "default"
parital = "openapi/partial.yaml"
output  = "openapi/openapi.yaml"
"#;
    assert_eq!(
        read(manifest),
        Err(MetadataError::UnknownKey {
            key: "parital".to_string(),
            table: OUTPUTS_TABLE.to_string(),
        })
    );
}

#[test]
fn missing_required_output_key_is_rejected() {
    let manifest = r#"
[package]
name = "my-api"

[[package.metadata.frieze.outputs]]
name    = "default"
partial = "openapi/partial.yaml"
"#;
    assert_eq!(
        read(manifest),
        Err(MetadataError::MissingKey {
            key: "output".to_string(),
            table: OUTPUTS_TABLE.to_string(),
        })
    );
}

#[test]
fn non_string_value_is_rejected() {
    let manifest = r#"
[package]
name = "my-api"

[[package.metadata.frieze.outputs]]
name    = 1
partial = "openapi/partial.yaml"
output  = "openapi/openapi.yaml"
"#;
    assert_eq!(
        read(manifest),
        Err(unexpected("name", OUTPUTS_TABLE, "a string"))
    );
}

#[test]
fn a_manifest_without_a_package_table_is_rejected() {
    assert_eq!(
        read("[workspace]\nmembers = []\n"),
        Err(MetadataError::MissingPackageTable)
    );
}

#[test]
fn a_package_without_a_name_is_rejected() {
    assert_eq!(
        read("[package]\nversion = \"0.1.0\"\n"),
        Err(MetadataError::MissingKey {
            key: "name".to_string(),
            table: "[package]".to_string(),
        })
    );
}

#[test]
fn a_non_table_section_is_rejected() {
    let manifest = "[package]\nname = \"my-api\"\n\
                    [package.metadata]\nfrieze = 1\n";
    assert_eq!(
        read(manifest),
        Err(unexpected("frieze", "[package.metadata]", "a table"))
    );
}

#[test]
fn a_non_table_output_entry_is_rejected() {
    let manifest = "[package]\nname = \"my-api\"\n\
                    [package.metadata.frieze]\noutputs = [\"default\"]\n";
    assert_eq!(
        read(manifest),
        Err(unexpected("outputs", SECTION_TABLE, "an array of tables"))
    );
}

#[test]
fn a_non_array_outputs_value_is_rejected() {
    let manifest = "[package]\nname = \"my-api\"\n\
                    [package.metadata.frieze]\noutputs = \"default\"\n";
    assert_eq!(
        read(manifest),
        Err(unexpected("outputs", SECTION_TABLE, "an array of tables"))
    );
}

#[test]
fn invalid_feature_name_is_rejected() {
    let manifest = "[package]\nname = \"my-api\"\n\
                    [package.metadata.frieze]\nfeatures = [\"dep:foo\"]\n";
    assert_eq!(
        read(manifest),
        Err(MetadataError::CargoFeatureNameInvalid {
            got: "dep:foo".to_string()
        })
    );
}

#[test]
fn invalid_oas_version_value_lists_the_valid_literals() {
    let manifest = "[package]\nname = \"my-api\"\n\
                    [package.metadata.frieze]\noas-version = \"3.0.3\"\n";
    match read(manifest) {
        Err(MetadataError::OasVersionCheckInvalid { got, message }) => {
            assert_eq!(got, "3.0.3");
            assert!(
                message.contains("\"3.0\"") && message.contains("\"3.1\""),
                "expected the valid literals to be listed, got: {message}"
            );
        }
        other => panic!("expected the patch-qualified value to be rejected, got {other:?}"),
    }
}

#[test]
fn feature_names_are_checked_entry_by_entry() {
    let manifest = "[package]\nname = \"my-api\"\n\
                    [package.metadata.frieze]\nfeatures = [\"a-b_c.1+x\", \"\", 1]\n";
    assert_eq!(
        read(manifest),
        Err(MetadataError::CargoFeatureNameInvalid { got: String::new() })
    );
    let manifest = "[package]\nname = \"my-api\"\n\
                    [package.metadata.frieze]\nfeatures = [1, \"dep:foo\"]\n";
    assert_eq!(
        read(manifest),
        Err(unexpected("features", SECTION_TABLE, "an array of strings"))
    );
}
