use frieze::json::Json;
use frieze::resolve::{select_member, Member, SelectError, WorkspaceView};
use frieze::workspace::{parse_workspace, WorkspaceParseError};

fn path(p: &str) -> Vec<String> {
    let mut out = vec!["/".to_string()];
    out.extend(p.split('/').filter(|c| !c.is_empty()).map(str::to_string));
    out
}

fn member(name: &str, root: &str) -> Member {
    Member {
        name: name.to_string(),
        root: path(root),
    }
}

/// A canned two-member workspace with a root package.
fn view_with_default(default: Option<&str>) -> WorkspaceView {
    WorkspaceView {
        workspace_root: path("/work/ws"),
        members: vec![
            member("ws-root", "/work/ws"),
            member("api", "/work/ws/api"),
            member("shared", "/work/ws/shared"),
        ],
        default_package: default.map(str::to_string),
    }
}

/// Drops the root package, turning the canned workspace into a
/// virtual one.
fn virtual_view(mut view: WorkspaceView) -> WorkspaceView {
    view.members.retain(|member| member.name != "ws-root");
    view
}

fn selected<'a>(view: &'a WorkspaceView, requested: Option<&str>, cwd: &str) -> &'a str {
    let i = select_member(view, requested, &path(cwd)).unwrap();
    view.members[i].name.as_str()
}

#[test]
fn an_explicit_request_wins_over_everything() {
    let view = view_with_default(Some("api"));
    // Requested from inside another member's directory: the request
    // still wins.
    assert_eq!(selected(&view, Some("shared"), "/work/ws/api/src"), "shared");
}

#[test]
fn an_unknown_request_lists_the_members() {
    let view = view_with_default(None);
    let result = select_member(&view, Some("nope"), &path("/work/ws"));
    match result {
        Err(SelectError::RequestedPackageNotFound { requested, available }) => {
            assert_eq!(requested, "nope");
            assert_eq!(available, ["api", "shared", "ws-root"]);
        }
        other => panic!("expected the unknown request to be rejected, got {other:?}"),
    }
}

#[test]
fn inside_a_member_directory_that_member_wins() {
    // Even against a workspace declaration naming another member.
    let view = view_with_default(Some("api"));
    assert_eq!(selected(&view, None, "/work/ws/shared/src/nested"), "shared");
    // The member's own root counts as inside it.
    assert_eq!(selected(&view, None, "/work/ws/shared"), "shared");
}

#[test]
fn at_the_workspace_root_the_declaration_wins() {
    let view = view_with_default(Some("api"));
    assert_eq!(selected(&view, None, "/work/ws"), "api");
    // Below the root but outside every member, likewise.
    assert_eq!(selected(&view, None, "/work/ws/scripts"), "api");
}

#[test]
fn a_declaration_naming_a_non_member_is_rejected_even_with_an_explicit_request() {
    let view = view_with_default(Some("ghost"));
    let result = select_member(&view, Some("api"), &path("/work/ws"));
    assert!(
        matches!(
            &result,
            Err(SelectError::DefaultPackageNotFound { requested, .. }) if requested == "ghost"
        ),
        "expected the dangling declaration to be rejected, got {result:?}"
    );
}

#[test]
fn without_a_declaration_the_root_package_is_the_fallback() {
    let view = view_with_default(None);
    assert_eq!(selected(&view, None, "/work/ws"), "ws-root");
}

#[test]
fn a_single_member_workspace_needs_no_configuration() {
    let mut view = virtual_view(view_with_default(None));
    view.members.retain(|member| member.name == "api");
    assert_eq!(selected(&view, None, "/work/ws"), "api");
}

#[test]
fn a_virtual_workspace_with_nothing_declared_is_an_error() {
    let view = virtual_view(view_with_default(None));
    let result = select_member(&view, None, &path("/work/ws"));
    match result {
        Err(SelectError::NoTargetPackage { available }) => {
            assert_eq!(available, ["api", "shared"]);
        }
        other => panic!("expected the ambiguous workspace to be rejected, got {other:?}"),
    }
}

#[test]
fn the_innermost_of_nested_members_wins() {
    let view = WorkspaceView {
        workspace_root: path("/w"),
        members: vec![member("outer", "/w/a"), member("inner", "/w/a/b")],
        default_package: None,
    };
    assert_eq!(selected(&view, None, "/w/a/b/c"), "inner");
    assert_eq!(selected(&view, None, "/w/a/x"), "outer");
}

#[test]
fn a_prefix_of_a_component_is_not_containment() {
    let view = WorkspaceView {
        workspace_root: path("/w"),
        members: vec![member("api", "/w/api"), member("other", "/w/other")],
        default_package: None,
    };
    let result = select_member(&view, None, &path("/w/api-tools"));
    assert!(matches!(result, Err(SelectError::NoTargetPackage { .. })));
}

#[test]
fn member_listing_is_sorted() {
    let view = WorkspaceView {
        workspace_root: path("/w"),
        members: vec![member("zeta", "/w/z"), member("Alpha", "/w/a"), member("beta", "/w/b"), member("alpha", "/w/aa")],
        default_package: None,
    };
    match select_member(&view, None, &path("/w")) {
        Err(SelectError::NoTargetPackage { available }) => {
            assert_eq!(available, ["Alpha", "alpha", "beta", "zeta"]);
        }
        other => panic!("got {other:?}"),
    }
}

fn s(v: &str) -> Json {
    Json::Str(v.to_string())
}

fn obj(entries: Vec<(&str, Json)>) -> Json {
    Json::Object(entries.into_iter().map(|(k, v)| (k.to_string(), v)).collect())
}

/// A canned two-member workspace with a root package, as
/// `cargo metadata --no-deps` reports it.
fn canned_workspace(metadata: Json) -> Json {
    obj(vec![
        ("workspace_root", s("/work/ws")),
        (
            "packages",
            Json::Array(vec![
                obj(vec![("name", s("ws-root")), ("manifest_path", s("/work/ws/Cargo.toml"))]),
                obj(vec![("name", s("api")), ("manifest_path", s("/work/ws/api/Cargo.toml"))]),
                obj(vec![("name", s("shared")), ("manifest_path", s("/work/ws/shared/Cargo.toml"))]),
            ]),
        ),
        ("metadata", metadata),
    ])
}

fn declaring(name: Json) -> Json {
    obj(vec![("frieze", obj(vec![("package", name)]))])
}

#[test]
fn parses_members_and_the_workspace_declaration() {
    let raw = parse_workspace(&canned_workspace(declaring(s("api")))).unwrap();
    assert_eq!(raw.workspace_root, "/work/ws");
    let names: Vec<&str> = raw.members.iter().map(|m| m.name.as_str()).collect();
    assert_eq!(names, ["ws-root", "api", "shared"]);
    assert_eq!(raw.members[1].root, "/work/ws/api");
    assert_eq!(raw.default_package.as_deref(), Some("api"));
}

#[test]
fn a_missing_workspace_table_means_no_default() {
    assert_eq!(parse_workspace(&canned_workspace(Json::Null)).unwrap().default_package, None);
    // `[workspace.metadata]` without a `frieze` table, likewise.
    let json = canned_workspace(obj(vec![("other-tool", obj(vec![]))]));
    assert_eq!(parse_workspace(&json).unwrap().default_package, None);
}

#[test]
fn an_unknown_workspace_key_is_rejected_with_a_suggestion() {
    let json = canned_workspace(obj(vec![("frieze", obj(vec![("pacakge", s("api"))]))]));
    let result = parse_workspace(&json);
    assert!(
        matches!(
            &result,
            Err(WorkspaceParseError::UnknownKey { key, suggestion })
                if key == "pacakge" && suggestion.as_deref() == Some("package")
        ),
        "expected the typo key to be rejected, got {result:?}"
    );
}

#[test]
fn a_non_string_package_declaration_is_rejected() {
    let json = canned_workspace(declaring(Json::Number("1".to_string())));
    let result = parse_workspace(&json);
    assert!(
        matches!(
            &result,
            Err(WorkspaceParseError::UnexpectedType { key, expected })
                if key == "package" && expected == "a string"
        ),
        "expected the integer declaration to be rejected, got {result:?}"
    );
}

#[test]
fn a_far_off_unknown_key_gets_no_suggestion() {
    let json = canned_workspace(obj(vec![("frieze", obj(vec![("outputs", s("x"))]))]));
    assert_eq!(
        parse_workspace(&json).unwrap_err(),
        WorkspaceParseError::UnknownKey {
            key: "outputs".to_string(),
            suggestion: None
        }
    );
}

#[test]
fn a_workspace_report_without_members_is_rejected() {
    let json = obj(vec![("workspace_root", s("/w")), ("packages", Json::Array(vec![]))]);
    assert_eq!(
        parse_workspace(&json).unwrap_err(),
        WorkspaceParseError::MetadataParse {
            message: "cargo metadata reported a workspace without members".to_string()
        }
    );
}
