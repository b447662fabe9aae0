//! What `cargo metadata --no-deps` reports about the enclosing
//! workspace: its root, its members, and the `[workspace.metadata.frieze]`
//! declaration, whose schema is enforced (only the `package` key exists,
//! and its value is a string).

use vstd::prelude::*;

use crate::cargo::path_parent_of;
use crate::edit_distance::{lev, suggest, threshold};
use crate::json::{json_get, json_items, json_str, member_items, member_str, member_string, Json};
use crate::text::{chars_of, opt_view, push_str, str_equal, string_from_chars};

verus! {

/// One workspace member as reported: its name and the directory of its
/// manifest.
#[derive(Debug, Clone, PartialEq, Eq)]
pub struct RawMember {
    pub name: String,
    pub root: String,
}

/// The workspace as reported, before its paths are normalised.
#[derive(Debug, Clone, PartialEq, Eq)]
pub struct RawWorkspace {
    pub workspace_root: String,
    pub members: Vec<RawMember>,
    /// The `package = "..."` declaration, when present.
    pub default_package: Option<String>,
}

/// Why the report cannot be used.
#[derive(Debug, Clone, PartialEq, Eq)]
pub enum WorkspaceParseError {
    /// The report itself is malformed.
    MetadataParse { message: String },
    /// `[workspace.metadata.frieze]` holds a key frieze does not know,
    /// with the closest known key when one is plausibly meant.
    UnknownKey { key: String, suggestion: Option<String> },
    /// A known key holds a value of the wrong type.
    UnexpectedType { key: String, expected: String },
}

/// A parse failure as plain values.
pub enum ParseFailure {
    Message(Seq<char>),
    UnknownKey(Seq<char>, Option<Seq<char>>),
    UnexpectedType(Seq<char>, Seq<char>),
}

pub open spec fn failure_of(e: WorkspaceParseError) -> ParseFailure {
    match e {
        WorkspaceParseError::MetadataParse { message } => ParseFailure::Message(message@),
        WorkspaceParseError::UnknownKey { key, suggestion } => ParseFailure::UnknownKey(
            key@,
            opt_view(suggestion),
        ),
        WorkspaceParseError::UnexpectedType { key, expected } => ParseFailure::UnexpectedType(
            key@,
            expected@,
        ),
    }
}

pub open spec fn nameless_message() -> Seq<char> {
    "a package in the cargo metadata output has no `name`"@
}

pub open spec fn manifest_message(name: Seq<char>) -> Seq<char> {
    "package `"@ + name + "` has no usable `manifest_path` in the cargo metadata output"@
}

/// One `packages` entry: its name and the parent of its manifest path.
pub open spec fn member_spec(p: Json) -> Result<(Seq<char>, Seq<char>), ParseFailure> {
    match member_str(p, "name"@) {
        None => Err(ParseFailure::Message(nameless_message())),
        Some(n) => match member_str(p, "manifest_path"@) {
            Some(mp) => match path_parent_of(mp) {
                Some(root) => Ok((n, root)),
                None => Err(ParseFailure::Message(manifest_message(n))),
            },
            None => Err(ParseFailure::Message(manifest_message(n))),
        },
    }
}

pub open spec fn members_upto(items: Seq<Json>, k: int) -> Result<
    Seq<(Seq<char>, Seq<char>)>,
    ParseFailure,
>
    decreases k,
{
    if k <= 0 {
        Ok(Seq::<(Seq<char>, Seq<char>)>::empty())
    } else {
        match members_upto(items, k - 1) {
            Err(f) => Err(f),
            Ok(acc) => match member_spec(items[k - 1]) {
                Err(f) => Err(f),
                Ok(m) => Ok(acc.push(m)),
            },
        }
    }
}

/// The known key a mistyped one plausibly means.
pub open spec fn suggestion_for(key: Seq<char>) -> Option<Seq<char>> {
    if key.len() < usize::MAX && lev(key, "package"@) <= threshold(key.len()) {
        Some("package"@)
    } else {
        None
    }
}

pub open spec fn table_message() -> Seq<char> {
    "`[workspace.metadata] frieze` in the workspace root Cargo.toml must be a table"@
}

/// The `[workspace.metadata.frieze]` declaration: absent, or a table
/// whose only key is `package`, holding a string.
pub open spec fn table_spec(json: Json) -> Result<Option<Seq<char>>, ParseFailure> {
    let f = json_get(json_get(json, "metadata"@), "frieze"@);
    match f {
        Json::Null => Ok(None),
        Json::Object(entries) => {
            let e = entries@;
            let k = crate::text::position_of(
                e.map_values(|x: (String, Json)| x.0@ == "package"@),
                false,
            );
            if k < e.len() {
                Err(ParseFailure::UnknownKey(e[k].0@, suggestion_for(e[k].0@)))
            } else if e.len() == 0 {
                Ok(None)
            } else {
                match json_str(e[0].1) {
                    Some(name) => Ok(Some(name)),
                    None => Err(ParseFailure::UnexpectedType("package"@, "a string"@)),
                }
            }
        },
        _ => Err(ParseFailure::Message(table_message())),
    }
}

/// The workspace report as plain values.
pub struct RawModel {
    pub workspace_root: Seq<char>,
    pub members: Seq<(Seq<char>, Seq<char>)>,
    pub default_package: Option<Seq<char>>,
}

pub open spec fn raw_model(w: RawWorkspace) -> RawModel {
    RawModel {
        workspace_root: w.workspace_root@,
        members: w.members@.map_values(|m: RawMember| (m.name@, m.root@)),
        default_package: opt_view(w.default_package),
    }
}

pub open spec fn root_message() -> Seq<char> {
    "cargo metadata output has no `workspace_root` field"@
}

pub open spec fn no_members_message() -> Seq<char> {
    "cargo metadata reported a workspace without members"@
}

/// What `parse_workspace` gives: the root (required), every member in
/// order (at least one), then the declaration.
pub open spec fn workspace_spec(json: Json) -> Result<RawModel, ParseFailure> {
    match member_str(json, "workspace_root"@) {
        None => Err(ParseFailure::Message(root_message())),
        Some(root) => {
            let items = json_items(json_get(json, "packages"@));
            match members_upto(items, items.len() as int) {
                Err(f) => Err(f),
                Ok(ms) => if ms.len() == 0 {
                    Err(ParseFailure::Message(no_members_message()))
                } else {
                    match table_spec(json) {
                        Err(f) => Err(f),
                        Ok(d) => Ok(RawModel { workspace_root: root, members: ms, default_package: d }),
                    }
                },
            }
        },
    }
}

fn message_error(out: &Vec<char>) -> (r: WorkspaceParseError)
    ensures
        failure_of(r) == ParseFailure::Message(out@),
{
    WorkspaceParseError::MetadataParse { message: string_from_chars(out) }
}

/// Extracts one member from a `packages` entry.
fn parse_member(package: &Json) -> (r: Result<RawMember, WorkspaceParseError>)
    ensures
        match r {
            Ok(m) => member_spec(*package) == Ok::<(Seq<char>, Seq<char>), ParseFailure>(
                (m.name@, m.root@),
            ),
            Err(e) => member_spec(*package) == Err::<(Seq<char>, Seq<char>), ParseFailure>(
                failure_of(e),
            ),
        },
{
    let mut out: Vec<char> = Vec::new();
    let name = match member_string(package, "name") {
        Some(n) => n,
        None => {
            push_str(&mut out, "a package in the cargo metadata output has no `name`");
            return Err(message_error(&out));
        },
    };
    let root = match member_string(package, "manifest_path") {
        Some(mp) => crate::cargo::path_parent(mp.as_str()),
        None => None,
    };
    match root {
        Some(root) => Ok(RawMember { name: name.clone(), root }),
        None => {
            push_str(&mut out, "package `");
            push_str(&mut out, name.as_str());
            push_str(&mut out, "` has no usable `manifest_path` in the cargo metadata output");
            Err(message_error(&out))
        },
    }
}

proof fn lemma_members_failure_persists(items: Seq<Json>, k: int, m: int)
    requires
        0 <= k <= m,
        members_upto(items, k) is Err,
    ensures
        members_upto(items, m) == members_upto(items, k),
    decreases m - k,
{
    if k < m {
        lemma_members_failure_persists(items, k, m - 1);
    }
}

/// Parses the `[workspace.metadata.frieze]` table.
fn parse_workspace_table(json: &Json) -> (r: Result<Option<String>, WorkspaceParseError>)
    ensures
        match r {
            Ok(d) => table_spec(*json) == Ok::<Option<Seq<char>>, ParseFailure>(opt_view(d)),
            Err(e) => table_spec(*json) == Err::<Option<Seq<char>>, ParseFailure>(failure_of(e)),
        },
{
    let frieze = match json.get("metadata") {
        Some(metadata) => metadata.get("frieze"),
        None => None,
    };
    let entries = match frieze {
        None => {
            return Ok(None);
        },
        Some(Json::Null) => {
            return Ok(None);
        },
        Some(Json::Object(entries)) => entries,
        Some(_) => {
            let mut out: Vec<char> = Vec::new();
            push_str(
                &mut out,
                "`[workspace.metadata] frieze` in the workspace root Cargo.toml must be a table",
            );
            return Err(message_error(&out));
        },
    };
    let ghost flags = entries@.map_values(|x: (String, Json)| x.0@ == "package"@);
    let mut i: usize = 0;
    while i < entries.len()
        invariant
            json_get(json_get(*json, "metadata"@), "frieze"@) == Json::Object(*entries),
            i <= entries@.len(),
            flags == entries@.map_values(|x: (String, Json)| x.0@ == "package"@),
            forall|k: int| 0 <= k < i ==> flags[k] != false,
        decreases entries@.len() - i,
    {
        let key = entries[i].0.as_str();
        if !str_equal(key, "package") {
            proof {
                crate::text::lemma_position_is(flags, false, i as int);
            }
            let key_chars = chars_of(key);
            proof {
                reveal_strlit("package");
            }
            let suggestion = if key_chars.len() < usize::MAX {
                let known: [&str; 1] = ["package"];
                assert(known@.len() == 1 && known@[0] == "package");
                match suggest(key, &known) {
                    Some(s) => {
                        let mut out: Vec<char> = Vec::new();
                        push_str(&mut out, s);
                        Some(string_from_chars(&out))
                    },
                    None => None,
                }
            } else {
                None
            };
            assert(opt_view(suggestion) == suggestion_for(key@));
            let mut k: Vec<char> = Vec::new();
            push_str(&mut k, key);
            return Err(
                WorkspaceParseError::UnknownKey { key: string_from_chars(&k), suggestion },
            );
        }
        i = i + 1;
    }
    proof {
        crate::text::lemma_position_is(flags, false, entries@.len() as int);
    }
    if entries.len() == 0 {
        return Ok(None);
    }
    match entries[0].1.as_str() {
        Some(name) => Ok(Some(name.clone())),
        None => {
            let mut k: Vec<char> = Vec::new();
            push_str(&mut k, "package");
            let mut x: Vec<char> = Vec::new();
            push_str(&mut x, "a string");
            Err(
                WorkspaceParseError::UnexpectedType {
                    key: string_from_chars(&k),
                    expected: string_from_chars(&x),
                },
            )
        },
    }
}

/// Extracts the workspace report from a parsed `cargo metadata`
/// document (invoked with `--no-deps`, so `packages` lists exactly the
/// workspace members).
pub fn parse_workspace(json: &Json) -> (r: Result<RawWorkspace, WorkspaceParseError>)
    ensures
        match r {
            Ok(w) => workspace_spec(*json) == Ok::<RawModel, ParseFailure>(raw_model(w)),
            Err(e) => workspace_spec(*json) == Err::<RawModel, ParseFailure>(failure_of(e)),
        },
{
    let workspace_root = match member_string(json, "workspace_root") {
        Some(r) => r.clone(),
        None => {
            let mut out: Vec<char> = Vec::new();
            push_str(&mut out, "cargo metadata output has no `workspace_root` field");
            return Err(message_error(&out));
        },
    };
    let empty: Vec<Json> = Vec::new();
    let items = match member_items(json, "packages") {
        Some(v) => v,
        None => &empty,
    };
    let mut members: Vec<RawMember> = Vec::new();
    let mut i: usize = 0;
    assert(members@.map_values(|m: RawMember| (m.name@, m.root@)) =~= Seq::<
        (Seq<char>, Seq<char>),
    >::empty());
    while i < items.len()
        invariant
            member_str(*json, "workspace_root"@) == Some(workspace_root@),
            items@ == json_items(json_get(*json, "packages"@)),
            i <= items@.len(),
            members_upto(items@, i as int) == Ok::<Seq<(Seq<char>, Seq<char>)>, ParseFailure>(
                members@.map_values(|m: RawMember| (m.name@, m.root@)),
            ),
        decreases items@.len() - i,
    {
        match parse_member(&items[i]) {
            Ok(m) => {
                let ghost before = members@.map_values(|x: RawMember| (x.name@, x.root@));
                members.push(m);
                assert(members@.map_values(|x: RawMember| (x.name@, x.root@)) =~= before.push(
                    (m.name@, m.root@),
                ));
            },
            Err(e) => {
                proof {
                    lemma_members_failure_persists(items@, i + 1, items@.len() as int);
                }
                return Err(e);
            },
        }
        i = i + 1;
    }
    if members.len() == 0 {
        let mut out: Vec<char> = Vec::new();
        push_str(&mut out, "cargo metadata reported a workspace without members");
        return Err(message_error(&out));
    }
    match parse_workspace_table(json) {
        Ok(default_package) => Ok(RawWorkspace { workspace_root, members, default_package }),
        Err(e) => Err(e),
    }
}

} // verus!
