//! What `cargo metadata` reports about the target package: where the
//! build directory lives, where the workspace root is, which lib crate
//! the scratch binary must import, and how the package declares its
//! `frieze` dependency.

use vstd::prelude::*;

use crate::cargo::{CargoError, FriezeDependency};
use crate::case::replace_char;
use crate::json::{
    first_match, json_bool, json_get, json_items, json_str, lemma_first_match_end,
    lemma_first_match_step, member_items, member_str, member_string, string_items, Json,
};
use crate::text::{chars_of, opt_view, push_str, str_equal, string_from_chars, string_views};

verus! {

/// What `cargo metadata` reports about the target package.
#[derive(Debug)]
pub struct PackageInspection {
    /// The build directory (`target_directory`).
    pub target_directory: String,
    /// The workspace root, whose `Cargo.lock` seeds the scratch crate's.
    pub workspace_root: String,
    /// The crate name of the package's lib target, dashes replaced by
    /// underscores: what the scratch `main.rs` imports.
    pub lib_crate_name: String,
    /// The package's declared normal dependency on `frieze`, if any.
    pub frieze_dependency: Option<FriezeDependency>,
}

/// The package entry named `name`.
pub open spec fn has_name(name: Seq<char>) -> spec_fn(Json) -> bool {
    |p: Json| member_str(p, "name"@) == Some(name)
}

/// A target kind that can be linked as a library.
pub open spec fn is_lib_kind(k: Json) -> bool {
    json_str(k) == Some("lib"@) || json_str(k) == Some("rlib"@)
}

/// A target with a library kind.
pub open spec fn lib_target() -> spec_fn(Json) -> bool {
    |t: Json|
        exists|i: int|
            0 <= i < json_items(json_get(t, "kind"@)).len() && #[trigger] is_lib_kind(
                json_items(json_get(t, "kind"@))[i],
            )
}

/// A normal (not dev-, not build-) dependency on `frieze`: only such a
/// dependency links the derive output into the lib target.
pub open spec fn normal_frieze_dependency() -> spec_fn(Json) -> bool {
    |d: Json| member_str(d, "name"@) == Some("frieze"@) && json_get(d, "kind"@) is Null
}

/// `fd` holds what the dependency entry `d` declares: default features
/// on unless said otherwise, the string features, the requirement (`*`
/// when absent), and the path and source when present.
pub open spec fn describes_dependency(fd: FriezeDependency, d: Json) -> bool {
    &&& fd.uses_default_features == match json_bool(json_get(d, "uses_default_features"@)) {
        Some(b) => b,
        None => true,
    }
    &&& string_views(fd.features@) == string_items(json_items(json_get(d, "features"@)))
    &&& fd.requirement@ == match member_str(d, "req"@) {
        Some(s) => s,
        None => "*"@,
    }
    &&& opt_view(fd.path) == member_str(d, "path"@)
    &&& opt_view(fd.source) == member_str(d, "source"@)
}

/// The message of a missing top-level field.
pub open spec fn missing_field_message(key: Seq<char>) -> Seq<char> {
    "cargo metadata output has no `"@ + key + "` field"@
}

/// The message of a package absent from the report.
pub open spec fn missing_package_message(name: Seq<char>) -> Seq<char> {
    "package `"@ + name + "` does not appear in the cargo metadata output"@
}

/// The message of a package without a lib target.
pub open spec fn no_lib_message(name: Seq<char>) -> Seq<char> {
    "package `"@ + name
        + "` has no lib target; the scratch binary links the package as a library to collect its schemas"@
}

/// The name of the package's first lib target, if that target names
/// itself with a string.
pub open spec fn lib_target_name(package: Json) -> Option<Seq<char>> {
    match first_match(json_items(json_get(package, "targets"@)), lib_target()) {
        Some(t) => member_str(t, "name"@),
        None => None,
    }
}

/// What `parse_inspection` gives for a report: the two directories (the
/// first missing one is an error), the package named `name` (an error
/// when absent), the name of its first lib target (an error when there
/// is none) with `-` turned into `_`, and its normal `frieze`
/// dependency.
pub open spec fn inspection_outcome(
    r: Result<PackageInspection, CargoError>,
    json: Json,
    name: Seq<char>,
) -> bool {
    let target_directory = member_str(json, "target_directory"@);
    let workspace_root = member_str(json, "workspace_root"@);
    let package = first_match(json_items(json_get(json, "packages"@)), has_name(name));
    if target_directory is None {
        r matches Err(CargoError::PackageInspect { message }) && message@ == missing_field_message(
            "target_directory"@,
        )
    } else if workspace_root is None {
        r matches Err(CargoError::PackageInspect { message }) && message@ == missing_field_message(
            "workspace_root"@,
        )
    } else if package is None {
        r matches Err(CargoError::PackageInspect { message }) && message@
            == missing_package_message(name)
    } else if lib_target_name(package.unwrap()) is None {
        r matches Err(CargoError::PackageInspect { message }) && message@ == no_lib_message(name)
    } else {
        r matches Ok(ins) && ins.target_directory@ == target_directory.unwrap()
            && ins.workspace_root@ == workspace_root.unwrap() && ins.lib_crate_name@
            == replace_char(lib_target_name(package.unwrap()).unwrap(), '-', '_') && match first_match(
            json_items(json_get(package.unwrap(), "dependencies"@)),
            normal_frieze_dependency(),
        ) {
            Some(d) => ins.frieze_dependency matches Some(fd) && describes_dependency(fd, d),
            None => ins.frieze_dependency is None,
        }
    }
}

fn required_path(json: &Json, key: &str) -> (r: Result<String, CargoError>)
    ensures
        match member_str(*json, key@) {
            Some(s) => r matches Ok(p) && p@ == s,
            None => r matches Err(CargoError::PackageInspect { message }) && message@
                == missing_field_message(key@),
        },
{
    match member_string(json, key) {
        Some(s) => Ok(s.as_str().to_string()),
        None => {
            let mut out: Vec<char> = Vec::new();
            push_str(&mut out, "cargo metadata output has no `");
            push_str(&mut out, key);
            push_str(&mut out, "` field");
            Err(CargoError::PackageInspect { message: string_from_chars(&out) })
        },
    }
}

/// The first package entry named `name`.
fn find_package<'a>(packages: &'a Vec<Json>, name: &str) -> (r: Option<&'a Json>)
    ensures
        first_match(packages@, has_name(name@)) == match r {
            Some(p) => Some(*p),
            None => None,
        },
{
    let mut i: usize = 0;
    assert(packages@.skip(0) =~= packages@);
    while i < packages.len()
        invariant
            i <= packages@.len(),
            first_match(packages@, has_name(name@)) == first_match(
                packages@.skip(i as int),
                has_name(name@),
            ),
        decreases packages@.len() - i,
    {
        proof {
            lemma_first_match_step(packages@, i as int, has_name(name@));
        }
        let hit = match member_string(&packages[i], "name") {
            Some(s) => str_equal(s.as_str(), name),
            None => false,
        };
        if hit {
            return Some(&packages[i]);
        }
        i = i + 1;
    }
    proof {
        lemma_first_match_end(packages@, has_name(name@));
    }
    None
}

/// The target has a `lib` or `rlib` kind.
fn has_lib_kind(target: &Json) -> (r: bool)
    ensures
        r == lib_target()(*target),
{
    match member_items(target, "kind") {
        Some(kinds) => {
            let mut i: usize = 0;
            while i < kinds.len()
                invariant
                    i <= kinds@.len(),
                    json_items(json_get(*target, "kind"@)) == kinds@,
                    forall|k: int| 0 <= k < i ==> !is_lib_kind(#[trigger] kinds@[k]),
                decreases kinds@.len() - i,
            {
                let lib = match kinds[i].as_str() {
                    Some(s) => str_equal(s.as_str(), "lib") || str_equal(s.as_str(), "rlib"),
                    None => false,
                };
                if lib {
                    assert(is_lib_kind(kinds@[i as int]));
                    return true;
                }
                i = i + 1;
            }
            false
        },
        None => false,
    }
}

/// The first target with a library kind.
fn find_lib_target<'a>(targets: &'a Vec<Json>) -> (r: Option<&'a Json>)
    ensures
        first_match(targets@, lib_target()) == match r {
            Some(t) => Some(*t),
            None => None,
        },
{
    let mut i: usize = 0;
    assert(targets@.skip(0) =~= targets@);
    while i < targets.len()
        invariant
            i <= targets@.len(),
            first_match(targets@, lib_target()) == first_match(
                targets@.skip(i as int),
                lib_target(),
            ),
        decreases targets@.len() - i,
    {
        proof {
            lemma_first_match_step(targets@, i as int, lib_target());
        }
        if has_lib_kind(&targets[i]) {
            return Some(&targets[i]);
        }
        i = i + 1;
    }
    proof {
        lemma_first_match_end(targets@, lib_target());
    }
    None
}

/// The first normal dependency on `frieze`.
fn find_frieze_dependency<'a>(dependencies: &'a Vec<Json>) -> (r: Option<&'a Json>)
    ensures
        first_match(dependencies@, normal_frieze_dependency()) == match r {
            Some(d) => Some(*d),
            None => None,
        },
{
    let mut i: usize = 0;
    assert(dependencies@.skip(0) =~= dependencies@);
    while i < dependencies.len()
        invariant
            i <= dependencies@.len(),
            first_match(dependencies@, normal_frieze_dependency()) == first_match(
                dependencies@.skip(i as int),
                normal_frieze_dependency(),
            ),
        decreases dependencies@.len() - i,
    {
        proof {
            lemma_first_match_step(dependencies@, i as int, normal_frieze_dependency());
        }
        let named = match member_string(&dependencies[i], "name") {
            Some(s) => str_equal(s.as_str(), "frieze"),
            None => false,
        };
        let normal = match dependencies[i].get("kind") {
            Some(kind) => kind.is_null(),
            None => true,
        };
        if named && normal {
            return Some(&dependencies[i]);
        }
        i = i + 1;
    }
    proof {
        lemma_first_match_end(dependencies@, normal_frieze_dependency());
    }
    None
}

/// The string items of an array member, in order.
fn string_members(j: &Json, key: &str) -> (r: Vec<String>)
    ensures
        string_views(r@) == string_items(json_items(json_get(*j, key@))),
{
    let mut out: Vec<String> = Vec::new();
    match member_items(j, key) {
        Some(items) => {
            let mut i: usize = 0;
            while i < items.len()
                invariant
                    i <= items@.len(),
                    string_views(out@) == string_items(items@.take(i as int)),
                decreases items@.len() - i,
            {
                proof {
                    assert(items@.take(i + 1).drop_last() =~= items@.take(i as int));
                    assert(items@.take(i + 1).last() == items@[i as int]);
                }
                let ghost before = string_views(out@);
                match items[i].as_str() {
                    Some(s) => {
                        out.push(s.as_str().to_string());
                        assert(string_views(out@) =~= before + seq![s@]);
                    },
                    None => {
                        assert(string_views(out@) =~= before + Seq::<Seq<char>>::empty());
                    },
                }
                i = i + 1;
            }
            assert(items@.take(items@.len() as int) =~= items@);
        },
        None => {
            assert(string_views(out@) =~= Seq::<Seq<char>>::empty());
        },
    }
    out
}

/// The dependency entry as a [`FriezeDependency`].
fn dependency_of(d: &Json) -> (r: FriezeDependency)
    ensures
        describes_dependency(r, *d),
{
    let uses_default_features = match d.get("uses_default_features") {
        Some(v) => match v.as_bool() {
            Some(b) => b,
            None => true,
        },
        None => true,
    };
    let requirement = match member_string(d, "req") {
        Some(s) => s.as_str().to_string(),
        None => {
            proof {
                reveal_strlit("*");
            }
            "*".to_string()
        },
    };
    let path = match member_string(d, "path") {
        Some(s) => Some(s.as_str().to_string()),
        None => None,
    };
    let source = match member_string(d, "source") {
        Some(s) => Some(s.as_str().to_string()),
        None => None,
    };
    FriezeDependency {
        uses_default_features,
        features: string_members(d, "features"),
        requirement,
        path,
        source,
    }
}

/// Extracts the [`PackageInspection`] from a parsed `cargo metadata`
/// document for the package named `package_name`.
pub fn parse_inspection(json: &Json, package_name: &str) -> (r: Result<
    PackageInspection,
    CargoError,
>)
    ensures
        inspection_outcome(r, *json, package_name@),
{
    let target_directory = match required_path(json, "target_directory") {
        Ok(p) => p,
        Err(e) => {
            return Err(e);
        },
    };
    let workspace_root = match required_path(json, "workspace_root") {
        Ok(p) => p,
        Err(e) => {
            return Err(e);
        },
    };
    let empty: Vec<Json> = Vec::new();
    let packages = match member_items(json, "packages") {
        Some(v) => v,
        None => &empty,
    };
    let package = match find_package(packages, package_name) {
        Some(p) => p,
        None => {
            let mut out: Vec<char> = Vec::new();
            push_str(&mut out, "package `");
            push_str(&mut out, package_name);
            push_str(&mut out, "` does not appear in the cargo metadata output");
            return Err(CargoError::PackageInspect { message: string_from_chars(&out) });
        },
    };
    let no_targets: Vec<Json> = Vec::new();
    let targets = match member_items(package, "targets") {
        Some(v) => v,
        None => &no_targets,
    };
    let lib_name = match find_lib_target(targets) {
        Some(t) => member_string(t, "name"),
        None => None,
    };
    let lib_name = match lib_name {
        Some(n) => n,
        None => {
            let mut out: Vec<char> = Vec::new();
            push_str(&mut out, "package `");
            push_str(&mut out, package_name);
            push_str(
                &mut out,
                "` has no lib target; the scratch binary links the package as a library to collect its schemas",
            );
            return Err(CargoError::PackageInspect { message: string_from_chars(&out) });
        },
    };
    let no_dependencies: Vec<Json> = Vec::new();
    let dependencies = match member_items(package, "dependencies") {
        Some(v) => v,
        None => &no_dependencies,
    };
    let frieze_dependency = match find_frieze_dependency(dependencies) {
        Some(d) => Some(dependency_of(d)),
        None => None,
    };
    let name_chars = chars_of(lib_name.as_str());
    let crate_chars = crate::rename::replace(&name_chars, '-', '_');
    Ok(
        PackageInspection {
            target_directory,
            workspace_root,
            lib_crate_name: string_from_chars(&crate_chars),
            frieze_dependency,
        },
    )
}

} // verus!
