use frieze::cargo::{
    check_frieze_dependency, checkout_source, render_invocation_failure, requirement_matches,
    resolve_frieze_source, usecase_dir_for, CargoError, CargoPackageResolver,
    CargoSchemasCollector, FriezeCrateSource, FriezeDependency,
};
use frieze::inspect::parse_inspection;
use frieze::json::Json;

fn dependency(requirement: &str, path: Option<&str>, source: Option<&str>) -> FriezeDependency {
    FriezeDependency {
        uses_default_features: true,
        features: Vec::new(),
        requirement: requirement.to_string(),
        path: path.map(str::to_owned),
        source: source.map(str::to_owned),
    }
}

fn registry_dependency(requirement: &str) -> FriezeDependency {
    dependency(
        requirement,
        None,
        Some("registry+https://github.com/rust-lang/crates.io-index"),
    )
}

#[test]
fn requirements_that_can_match_the_cli_version_are_accepted() {
    for (requirement, version) in [
        ("=0.1.0", "0.1.0"),
        ("^0.1", "0.1.3"),
        ("^0.1.2", "0.1.3"),
        ("*", "0.1.0"),
        (">=0.1, <0.3", "0.2.4"),
    ] {
        assert!(
            requirement_matches(requirement, version).unwrap(),
            "`{requirement}` should accept {version}"
        );
    }
}

#[test]
fn requirements_that_cannot_match_the_cli_version_are_rejected() {
    for (requirement, version) in [
        ("^0.2", "0.1.0"),
        ("=0.1.0", "0.1.1"),
        ("^0.1.4", "0.1.3"),
        ("^0.1", "0.2.0"),
        ("^1", "2.0.0"),
    ] {
        assert!(
            !requirement_matches(requirement, version).unwrap(),
            "`{requirement}` should reject {version}"
        );
    }
}

#[test]
fn a_matching_registry_requirement_pins_the_release() {
    let source = resolve_frieze_source(&registry_dependency("^0.1"), "0.1.3", false).unwrap();
    assert_eq!(
        source,
        FriezeCrateSource::PinnedRelease {
            version: "0.1.3".to_string()
        }
    );
}

#[test]
fn a_mismatched_registry_requirement_is_rejected() {
    let result = resolve_frieze_source(&registry_dependency("^0.2"), "0.1.3", false);
    assert!(
        matches!(
            &result,
            Err(CargoError::FriezeVersionMismatch { requirement, cli_version })
                if requirement == "^0.2" && cli_version == "0.1.3"
        ),
        "expected the version mismatch to be rejected, got {result:?}"
    );
}

#[test]
fn a_git_dependency_is_rejected() {
    let dependency = dependency(
        "*",
        None,
        Some("git+https://github.com/x7c1/frieze#abcdef"),
    );
    let result = resolve_frieze_source(&dependency, "0.1.0", false);
    assert!(
        matches!(
            &result,
            Err(CargoError::PackageInspect { message }) if message.contains("git source")
        ),
        "expected the git dependency to be rejected, got {result:?}"
    );
}

#[test]
fn an_unparsable_requirement_names_it() {
    let result = resolve_frieze_source(&registry_dependency("not a version"), "0.1.0", false);
    assert!(
        matches!(
            &result,
            Err(CargoError::PackageInspect { message })
                if message.starts_with("cannot parse the declared frieze version requirement `not a version`: ")
        ),
        "got {result:?}"
    );
}

#[test]
fn parse_failures_carry_the_parser_explanation() {
    let cause = semver::VersionReq::parse("not a version").unwrap_err().to_string();
    assert!(!cause.is_empty());
    match requirement_matches("not a version", "0.1.0") {
        Err(CargoError::PackageInspect { message }) => assert_eq!(
            message,
            format!("cannot parse the declared frieze version requirement `not a version`: {cause}")
        ),
        other => panic!("got {other:?}"),
    }
    let cause = semver::Version::parse("0.1").unwrap_err().to_string();
    match requirement_matches("^0.1", "0.1") {
        Err(CargoError::PackageInspect { message }) => assert_eq!(
            message,
            format!("cannot parse the frieze version `0.1`: {cause}")
        ),
        other => panic!("got {other:?}"),
    }
}

#[test]
fn a_path_dependency_inside_a_checkout_is_mirrored() {
    let frieze_dir = "/work/checkout/crates/libs/frieze";
    let usecase_dir = usecase_dir_for(frieze_dir).unwrap();
    assert_eq!(usecase_dir, "/work/checkout/crates/domain/frieze-usecase");
    // The declared requirement is not checked for a path dependency.
    let dependency = dependency("^9", Some(frieze_dir), None);
    let source = resolve_frieze_source(&dependency, "0.1.0", true).unwrap();
    assert_eq!(
        source,
        FriezeCrateSource::LocalCheckout {
            frieze_dir: frieze_dir.to_string(),
            usecase_dir,
        }
    );
}

#[test]
fn a_path_dependency_outside_a_checkout_is_rejected() {
    let dependency = dependency("*", Some("/tmp/vendor/frieze"), None);
    let result = resolve_frieze_source(&dependency, "0.1.0", false);
    assert!(
        matches!(
            &result,
            Err(CargoError::PackageInspect { message })
                if message.contains("frieze-usecase") && message.contains("vendor/frieze")
        ),
        "expected the non-checkout path to be rejected, got {result:?}"
    );
}

#[test]
fn a_path_too_short_for_a_checkout_is_rejected() {
    assert_eq!(usecase_dir_for("frieze"), None);
    assert!(matches!(
        checkout_source("frieze", true),
        Err(CargoError::PackageInspect { .. })
    ));
}

#[test]
fn invocation_failure_detail_renders_code_and_stderr() {
    assert_eq!(
        render_invocation_failure(&Some(101), "error: boom\n\n"),
        " (exit code 101): error: boom"
    );
    assert_eq!(render_invocation_failure(&Some(-2), ""), " (exit code -2)");
    assert_eq!(render_invocation_failure(&None, "  \n"), "");
    assert_eq!(render_invocation_failure(&None, "spawn failed"), ": spawn failed");
    assert_eq!(
        render_invocation_failure(&Some(i32::MIN), ""),
        " (exit code -2147483648)"
    );
}

#[test]
fn the_collection_gate_requires_a_dependency_with_inventory() {
    let missing = check_frieze_dependency("my-api", &None);
    assert!(matches!(
        &missing,
        Err(CargoError::PackageInspect { message })
            if message == "package `my-api` does not depend on `frieze`; add it to [dependencies] and derive `frieze::Schema` on the types to expose"
    ));
    let mut off = registry_dependency("^0.1");
    off.uses_default_features = false;
    assert!(matches!(
        check_frieze_dependency("my-api", &Some(off)),
        Err(CargoError::InventoryDisabled)
    ));
    assert!(check_frieze_dependency("my-api", &Some(registry_dependency("^0.1"))).is_ok());
}

#[test]
fn gateway_entry_points_construct() {
    let _ = CargoSchemasCollector::new();
    let _ = CargoPackageResolver::new();
}

fn s(v: &str) -> Json {
    Json::Str(v.to_string())
}

fn obj(entries: Vec<(&str, Json)>) -> Json {
    Json::Object(entries.into_iter().map(|(k, v)| (k.to_string(), v)).collect())
}

fn canned_metadata(dependencies: Json) -> Json {
    obj(vec![
        ("target_directory", s("/work/my-api/target")),
        ("workspace_root", s("/work/my-api")),
        (
            "packages",
            Json::Array(vec![obj(vec![
                ("name", s("my-api")),
                (
                    "targets",
                    Json::Array(vec![
                        obj(vec![("name", s("some-bin")), ("kind", Json::Array(vec![s("bin")]))]),
                        obj(vec![("name", s("my-api")), ("kind", Json::Array(vec![s("lib")]))]),
                    ]),
                ),
                ("dependencies", dependencies),
            ])]),
        ),
    ])
}

fn frieze_entry(uses_default_features: bool, features: Vec<&str>) -> Json {
    obj(vec![
        ("name", s("frieze")),
        ("uses_default_features", Json::Bool(uses_default_features)),
        ("features", Json::Array(features.into_iter().map(s).collect())),
    ])
}

#[test]
fn extracts_directories_and_the_lib_crate_name() {
    let json = canned_metadata(Json::Array(vec![]));
    let inspection = parse_inspection(&json, "my-api").unwrap();
    assert_eq!(inspection.target_directory, "/work/my-api/target");
    assert_eq!(inspection.workspace_root, "/work/my-api");
    // Dashes in the lib target name become underscores.
    assert_eq!(inspection.lib_crate_name, "my_api");
    assert!(inspection.frieze_dependency.is_none());
}

#[test]
fn default_frieze_dependency_has_inventory_enabled() {
    let json = canned_metadata(Json::Array(vec![frieze_entry(true, vec![])]));
    let inspection = parse_inspection(&json, "my-api").unwrap();
    assert!(inspection.frieze_dependency.unwrap().inventory_enabled());
}

#[test]
fn opting_out_of_default_features_disables_inventory() {
    let json = canned_metadata(Json::Array(vec![frieze_entry(false, vec![])]));
    let inspection = parse_inspection(&json, "my-api").unwrap();
    assert!(!inspection.frieze_dependency.unwrap().inventory_enabled());
}

#[test]
fn relisting_inventory_reenables_it() {
    for feature in ["inventory", "default"] {
        let json = canned_metadata(Json::Array(vec![frieze_entry(false, vec![feature])]));
        let inspection = parse_inspection(&json, "my-api").unwrap();
        assert!(
            inspection.frieze_dependency.unwrap().inventory_enabled(),
            "feature `{feature}` should re-enable inventory"
        );
    }
}

#[test]
fn the_dependency_requirement_path_and_source_are_extracted() {
    let json = canned_metadata(Json::Array(vec![obj(vec![
        ("name", s("frieze")),
        ("uses_default_features", Json::Bool(true)),
        ("features", Json::Array(vec![])),
        ("req", s("^0.1")),
        ("source", s("registry+https://github.com/rust-lang/crates.io-index")),
    ])]));
    let inspection = parse_inspection(&json, "my-api").unwrap();
    let dependency = inspection.frieze_dependency.unwrap();
    assert_eq!(dependency.requirement, "^0.1");
    assert!(dependency.path.is_none());
    assert_eq!(
        dependency.source.as_deref(),
        Some("registry+https://github.com/rust-lang/crates.io-index")
    );

    let json = canned_metadata(Json::Array(vec![obj(vec![
        ("name", s("frieze")),
        ("uses_default_features", Json::Bool(true)),
        ("features", Json::Array(vec![])),
        ("req", s("*")),
        ("path", s("/work/frieze/crates/libs/frieze")),
        ("source", Json::Null),
    ])]));
    let inspection = parse_inspection(&json, "my-api").unwrap();
    let dependency = inspection.frieze_dependency.unwrap();
    assert_eq!(dependency.requirement, "*");
    assert_eq!(
        dependency.path.as_deref(),
        Some("/work/frieze/crates/libs/frieze")
    );
    assert!(dependency.source.is_none());
}

#[test]
fn a_dev_only_frieze_dependency_does_not_count() {
    let json = canned_metadata(Json::Array(vec![obj(vec![
        ("name", s("frieze")),
        ("uses_default_features", Json::Bool(true)),
        ("features", Json::Array(vec![])),
        ("kind", s("dev")),
    ])]));
    let inspection = parse_inspection(&json, "my-api").unwrap();
    assert!(inspection.frieze_dependency.is_none());
}

#[test]
fn a_package_without_a_lib_target_is_rejected() {
    let json = obj(vec![
        ("target_directory", s("/t")),
        ("workspace_root", s("/w")),
        (
            "packages",
            Json::Array(vec![obj(vec![
                ("name", s("my-api")),
                (
                    "targets",
                    Json::Array(vec![obj(vec![
                        ("name", s("my-api")),
                        ("kind", Json::Array(vec![s("bin")])),
                    ])]),
                ),
                ("dependencies", Json::Array(vec![])),
            ])]),
        ),
    ]);
    let result = parse_inspection(&json, "my-api");
    assert!(
        matches!(
            &result,
            Err(CargoError::PackageInspect { message }) if message.contains("no lib target")
        ),
        "expected the bin-only package to be rejected, got {result:?}"
    );
}

#[test]
fn a_missing_package_is_rejected() {
    let json = obj(vec![
        ("target_directory", s("/t")),
        ("workspace_root", s("/w")),
        ("packages", Json::Array(vec![])),
    ]);
    let result = parse_inspection(&json, "my-api");
    assert!(
        matches!(result, Err(CargoError::PackageInspect { .. })),
        "expected the missing package to be rejected, got {result:?}"
    );
}

#[test]
fn a_missing_directory_field_is_named() {
    let json = obj(vec![("workspace_root", s("/w"))]);
    let result = parse_inspection(&json, "my-api");
    assert!(matches!(
        &result,
        Err(CargoError::PackageInspect { message })
            if message == "cargo metadata output has no `target_directory` field"
    ));
}

#[test]
fn an_rlib_target_counts_as_a_library() {
    let json = obj(vec![
        ("target_directory", s("/t")),
        ("workspace_root", s("/w")),
        (
            "packages",
            Json::Array(vec![obj(vec![
                ("name", s("my-api")),
                (
                    "targets",
                    Json::Array(vec![obj(vec![
                        ("name", s("my-api-core")),
                        ("kind", Json::Array(vec![s("rlib")])),
                    ])]),
                ),
            ])]),
        ),
    ]);
    let inspection = parse_inspection(&json, "my-api").unwrap();
    assert_eq!(inspection.lib_crate_name, "my_api_core");
}
