use frieze::oas_version::{OasVersion, OasVersionParseError};

#[test]
fn parses_bare_major_minor_3_0() {
    assert_eq!(
        OasVersion::parse_from_openapi("3.0").unwrap(),
        OasVersion::V3_0
    );
}

#[test]
fn parses_3_0_0() {
    assert_eq!(
        OasVersion::parse_from_openapi("3.0.0").unwrap(),
        OasVersion::V3_0
    );
}

#[test]
fn parses_3_0_5() {
    assert_eq!(
        OasVersion::parse_from_openapi("3.0.5").unwrap(),
        OasVersion::V3_0
    );
}

#[test]
fn parses_3_1_0() {
    assert_eq!(
        OasVersion::parse_from_openapi("3.1.0").unwrap(),
        OasVersion::V3_1
    );
}

#[test]
fn parses_3_1_10() {
    assert_eq!(
        OasVersion::parse_from_openapi("3.1.10").unwrap(),
        OasVersion::V3_1
    );
}

#[test]
fn oas_version_empty_string_is_empty_error() {
    assert_eq!(
        OasVersion::parse_from_openapi("").unwrap_err(),
        OasVersionParseError::Empty
    );
}

#[test]
fn unsupported_major_minor_2_0() {
    assert_eq!(
        OasVersion::parse_from_openapi("2.0").unwrap_err(),
        OasVersionParseError::Unsupported {
            got: "2.0".to_string()
        }
    );
}

#[test]
fn unsupported_major_minor_3_2_0() {
    assert_eq!(
        OasVersion::parse_from_openapi("3.2.0").unwrap_err(),
        OasVersionParseError::Unsupported {
            got: "3.2.0".to_string()
        }
    );
}

#[test]
fn unparseable_input_is_unsupported() {
    assert_eq!(
        OasVersion::parse_from_openapi("abc").unwrap_err(),
        OasVersionParseError::Unsupported {
            got: "abc".to_string()
        }
    );
}

#[test]
fn canonical_patch_for_3_0() {
    assert_eq!(OasVersion::V3_0.openapi_string(), "3.0.3");
}

#[test]
fn canonical_patch_for_3_1() {
    assert_eq!(OasVersion::V3_1.openapi_string(), "3.1.0");
}

#[test]
fn canonical_patches_parse_back_to_their_version() {
    for v in [OasVersion::V3_0, OasVersion::V3_1] {
        assert_eq!(OasVersion::parse_from_openapi(v.openapi_string()).unwrap(), v);
    }
}

#[test]
fn default_is_3_0() {
    assert_eq!(OasVersion::default(), OasVersion::V3_0);
}
