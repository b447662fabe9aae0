use frieze::version::{Version, VersionParseError};

#[test]
fn parses_bare_major_minor() {
    assert_eq!(Version::parse_from_openapi("3.0").unwrap(), Version::V3_0);
    assert_eq!(Version::parse_from_openapi("3.1").unwrap(), Version::V3_1);
}

#[test]
fn parses_any_patch_in_supported_range() {
    assert_eq!(Version::parse_from_openapi("3.0.0").unwrap(), Version::V3_0);
    assert_eq!(Version::parse_from_openapi("3.0.3").unwrap(), Version::V3_0);
    assert_eq!(
        Version::parse_from_openapi("3.0.99").unwrap(),
        Version::V3_0
    );
    assert_eq!(Version::parse_from_openapi("3.1.0").unwrap(), Version::V3_1);
    assert_eq!(
        Version::parse_from_openapi("3.1.10").unwrap(),
        Version::V3_1
    );
}

#[test]
fn version_empty_string_is_empty_error() {
    assert_eq!(
        Version::parse_from_openapi("").unwrap_err(),
        VersionParseError::Empty
    );
}

#[test]
fn rejects_versions_outside_supported_range() {
    for got in ["2.0", "3.2.0", "3.10", "4.0.0"] {
        assert_eq!(
            Version::parse_from_openapi(got).unwrap_err(),
            VersionParseError::Unsupported {
                got: got.to_string()
            },
            "input: {got}"
        );
    }
}

#[test]
fn rejects_garbage_input() {
    for got in ["abc", "3", "v3.0", "3.0-rc1", "3.0."] {
        assert_eq!(
            Version::parse_from_openapi(got).unwrap_err(),
            VersionParseError::Unsupported {
                got: got.to_string()
            },
            "input: {got}"
        );
    }
}

#[test]
fn canonical_openapi_strings() {
    assert_eq!(Version::V3_0.openapi_string(), "3.0.3");
    assert_eq!(Version::V3_1.openapi_string(), "3.1.0");
}

#[test]
fn canonical_strings_parse_back_to_their_version() {
    for v in [Version::V3_0, Version::V3_1] {
        assert_eq!(Version::parse_from_openapi(v.openapi_string()).unwrap(), v);
    }
}

#[test]
fn parse_errors_render_their_messages() {
    assert_eq!(
        VersionParseError::Empty.message(),
        "the `openapi` version string is empty"
    );
    assert_eq!(
        Version::parse_from_openapi("2.0").unwrap_err().message(),
        "unsupported OAS version `2.0`; supported: 3.0.x, 3.1.x"
    );
}
