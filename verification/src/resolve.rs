//! Which workspace member a run targets.
//!
//! The target package is selected with this precedence:
//!
//! 1. the explicitly requested package (`-p <name>`), always;
//! 2. the member whose directory contains the current directory, when
//!    that directory is not the workspace root itself (the innermost such
//!    member);
//! 3. the package declared under `[workspace.metadata.frieze]`;
//! 4. the root package, when the workspace root is itself a package; or
//!    the sole member of a single-member workspace;
//! 5. otherwise the selection fails, listing the members.
//!
//! The declaration is validated on every run: one naming a non-member is
//! rejected even when an explicit request would bypass it.
//!
//! Paths are compared component by component, as `Path` does.

use vstd::prelude::*;

use crate::order::{lex_sorted, sorted_strings};
use crate::text::{lemma_position_is, lemma_position_of, position_of, str_equal, string_views};

verus! {

/// One workspace member: its package name and the components of the
/// directory holding its `Cargo.toml`.
#[derive(Debug, Clone)]
pub struct Member {
    pub name: String,
    pub root: Vec<String>,
}

/// What the selection needs to know about the enclosing workspace.
#[derive(Debug)]
pub struct WorkspaceView {
    /// The components of the workspace root directory.
    pub workspace_root: Vec<String>,
    /// Every workspace member (for a single-package crate: just it).
    pub members: Vec<Member>,
    /// The `package = "..."` declaration of `[workspace.metadata.frieze]`.
    pub default_package: Option<String>,
}

/// Why no member was selected; `available` lists the member names in
/// sorted order.
#[derive(Debug, Clone, PartialEq, Eq)]
pub enum SelectError {
    /// The workspace declaration names a package that is no member.
    DefaultPackageNotFound { requested: String, available: Vec<String> },
    /// The explicitly requested package is no member.
    RequestedPackageNotFound { requested: String, available: Vec<String> },
    /// A virtual workspace with several members and no declaration.
    NoTargetPackage { available: Vec<String> },
}

pub open spec fn member_names(ms: Seq<Member>) -> Seq<Seq<char>> {
    ms.map_values(|m: Member| m.name@)
}

pub open spec fn root_of(m: Member) -> Seq<Seq<char>> {
    string_views(m.root@)
}

pub open spec fn member_roots(ms: Seq<Member>) -> Seq<Seq<Seq<char>>> {
    ms.map_values(|m: Member| root_of(m))
}

/// `a` is a component-wise prefix of `b` (`b.starts_with(a)`).
pub open spec fn is_prefix(a: Seq<Seq<char>>, b: Seq<Seq<char>>) -> bool {
    a.len() <= b.len() && b.take(a.len() as int) == a
}

/// The member's directory contains `cwd` and is not the workspace root.
pub open spec fn contains_cwd(m: Member, ws: Seq<Seq<char>>, cwd: Seq<Seq<char>>) -> bool {
    root_of(m) != ws && is_prefix(root_of(m), cwd)
}

/// The member containing `cwd` with the most root components (the last
/// such member on a tie, as `max_by_key` picks it).
pub open spec fn innermost(ms: Seq<Member>, ws: Seq<Seq<char>>, cwd: Seq<Seq<char>>) -> Option<
    int,
>
    decreases ms.len(),
{
    if ms.len() == 0 {
        None
    } else {
        let prev = innermost(ms.drop_last(), ws, cwd);
        let last = ms.len() - 1;
        if contains_cwd(ms[last], ws, cwd) && (prev is None || root_of(ms[prev->0]).len()
            <= root_of(ms[last]).len()) {
            Some(last)
        } else {
            prev
        }
    }
}

/// The outcome of a selection.
pub enum Selection {
    Selected(int),
    DefaultMissing(Seq<char>),
    RequestedMissing(Seq<char>),
    NoTarget,
}

/// The selection precedence documented on the module.
pub open spec fn selection(view: WorkspaceView, requested: Option<Seq<char>>, cwd: Seq<Seq<char>>) -> Selection {
    let ms = view.members@;
    let n = ms.len() as int;
    let ws = string_views(view.workspace_root@);
    let names = member_names(ms);
    if view.default_package is Some && position_of(names, view.default_package->0@) >= n {
        Selection::DefaultMissing(view.default_package->0@)
    } else {
        match requested {
            Some(q) => if position_of(names, q) < n {
                Selection::Selected(position_of(names, q))
            } else {
                Selection::RequestedMissing(q)
            },
            None => match innermost(ms, ws, cwd) {
                Some(i) => Selection::Selected(i),
                None => match view.default_package {
                    Some(d) => Selection::Selected(position_of(names, d@)),
                    None => if position_of(member_roots(ms), ws) < n {
                        Selection::Selected(position_of(member_roots(ms), ws))
                    } else if n == 1 {
                        Selection::Selected(0)
                    } else {
                        Selection::NoTarget
                    },
                },
            },
        }
    }
}

/// `available` lists the member names in sorted order.
pub open spec fn lists_members(available: Vec<String>, ms: Seq<Member>) -> bool {
    lex_sorted(string_views(available@)) && string_views(available@).to_multiset()
        == member_names(ms).to_multiset()
}

fn member_name_list(view: &WorkspaceView) -> (r: Vec<String>)
    ensures
        lists_members(r, view.members@),
{
    let mut names: Vec<String> = Vec::new();
    let mut i: usize = 0;
    while i < view.members.len()
        invariant
            i <= view.members@.len(),
            string_views(names@) == member_names(view.members@.take(i as int)),
        decreases view.members@.len() - i,
    {
        let copy = view.members[i].name.clone();
        assert(copy@ == view.members@[i as int].name@);
        let ghost before = string_views(names@);
        names.push(copy);
        i = i + 1;
        assert(string_views(names@) =~= before.push(copy@));
        assert(member_names(view.members@.take(i as int)) =~= member_names(
            view.members@.take(i - 1),
        ).push(view.members@[i - 1].name@));
    }
    assert(view.members@.take(view.members@.len() as int) =~= view.members@);
    sorted_strings(&names)
}

/// The index of the first member named `name`, or the member count.
fn find_member(view: &WorkspaceView, name: &str) -> (r: usize)
    ensures
        r == position_of(member_names(view.members@), name@),
{
    let ghost names = member_names(view.members@);
    let mut i: usize = 0;
    while i < view.members.len()
        invariant
            i <= view.members@.len(),
            names == member_names(view.members@),
            forall|k: int| 0 <= k < i ==> names[k] != name@,
        decreases view.members@.len() - i,
    {
        if str_equal(view.members[i].name.as_str(), name) {
            proof {
                lemma_position_is(names, name@, i as int);
            }
            return i;
        }
        i = i + 1;
    }
    proof {
        lemma_position_is(names, name@, i as int);
    }
    i
}

fn components_equal(a: &Vec<String>, b: &Vec<String>) -> (r: bool)
    ensures
        r == (string_views(a@) == string_views(b@)),
{
    if a.len() != b.len() {
        assert(string_views(a@).len() != string_views(b@).len());
        return false;
    }
    let mut i: usize = 0;
    while i < a.len()
        invariant
            a@.len() == b@.len(),
            i <= a@.len(),
            forall|k: int| 0 <= k < i ==> a@[k]@ == b@[k]@,
        decreases a@.len() - i,
    {
        if !str_equal(a[i].as_str(), b[i].as_str()) {
            assert(string_views(a@)[i as int] != string_views(b@)[i as int]);
            return false;
        }
        i = i + 1;
    }
    assert(string_views(a@) =~= string_views(b@));
    true
}

fn starts_with(path: &Vec<String>, base: &Vec<String>) -> (r: bool)
    ensures
        r == is_prefix(string_views(base@), string_views(path@)),
{
    if base.len() > path.len() {
        return false;
    }
    let mut i: usize = 0;
    while i < base.len()
        invariant
            base@.len() <= path@.len(),
            i <= base@.len(),
            forall|k: int| 0 <= k < i ==> base@[k]@ == path@[k]@,
        decreases base@.len() - i,
    {
        if !str_equal(base[i].as_str(), path[i].as_str()) {
            assert(string_views(path@).take(base@.len() as int)[i as int] != string_views(
                base@,
            )[i as int]);
            return false;
        }
        i = i + 1;
    }
    assert(string_views(path@).take(base@.len() as int) =~= string_views(base@));
    true
}

/// The workspace member whose directory contains `cwd`, preferring the
/// innermost match. The root package is never matched this way: every
/// path in the workspace is inside its directory.
fn innermost_member_containing(view: &WorkspaceView, cwd: &Vec<String>) -> (r: Option<usize>)
    ensures
        innermost(view.members@, string_views(view.workspace_root@), string_views(cwd@))
            == match r {
            Some(i) => Some(i as int),
            None => None::<int>,
        },
{
    let ghost ws = string_views(view.workspace_root@);
    let ghost c = string_views(cwd@);
    let ghost ms = view.members@;
    let mut best: Option<usize> = None;
    let mut i: usize = 0;
    while i < view.members.len()
        invariant
            i <= ms.len(),
            ms == view.members@,
            ws == string_views(view.workspace_root@),
            c == string_views(cwd@),
            innermost(ms.take(i as int), ws, c) == match best {
                Some(b) => Some(b as int),
                None => None::<int>,
            },
            best matches Some(b) ==> b < i,
        decreases ms.len() - i,
    {
        let m = &view.members[i];
        let inside = !components_equal(&m.root, &view.workspace_root) && starts_with(cwd, &m.root);
        let better = match best {
            None => true,
            Some(b) => view.members[b].root.len() <= m.root.len(),
        };
        proof {
            let t = ms.take(i + 1);
            assert(t.drop_last() =~= ms.take(i as int));
            assert(t[i as int] == ms[i as int]);
            if let Some(b) = best {
                assert(t[b as int] == ms[b as int]);
            }
            assert(root_of(ms[i as int]).len() == m.root@.len());
        }
        if inside && better {
            best = Some(i);
        }
        i = i + 1;
    }
    assert(ms.take(ms.len() as int) =~= ms);
    best
}

/// Applies the selection precedence documented on the module and gives
/// the index of the selected member.
pub fn select_member(view: &WorkspaceView, requested: Option<&str>, cwd: &Vec<String>) -> (r:
    Result<usize, SelectError>)
    ensures
        match selection(
            *view,
            match requested {
                Some(q) => Some(q@),
                None => None,
            },
            string_views(cwd@),
        ) {
            Selection::Selected(i) => r == Ok::<usize, SelectError>(i as usize),
            Selection::DefaultMissing(d) => r matches Err(
                SelectError::DefaultPackageNotFound { requested: q, available },
            ) && q@ == d && lists_members(available, view.members@),
            Selection::RequestedMissing(d) => r matches Err(
                SelectError::RequestedPackageNotFound { requested: q, available },
            ) && q@ == d && lists_members(available, view.members@),
            Selection::NoTarget => r matches Err(SelectError::NoTargetPackage { available })
                && lists_members(available, view.members@),
        },
{
    let n = view.members.len();
    let default = match &view.default_package {
        Some(name) => {
            let k = find_member(view, name.as_str());
            if k >= n {
                return Err(
                    SelectError::DefaultPackageNotFound {
                        requested: name.clone(),
                        available: member_name_list(view),
                    },
                );
            }
            Some(k)
        },
        None => None,
    };
    if let Some(name) = requested {
        let k = find_member(view, name);
        if k < n {
            return Ok(k);
        }
        let mut q: Vec<char> = Vec::new();
        crate::text::push_str(&mut q, name);
        return Err(
            SelectError::RequestedPackageNotFound {
                requested: crate::text::string_from_chars(&q),
                available: member_name_list(view),
            },
        );
    }
    if let Some(i) = innermost_member_containing(view, cwd) {
        return Ok(i);
    }
    if let Some(k) = default {
        return Ok(k);
    }
    let ghost roots = member_roots(view.members@);
    let ghost ws = string_views(view.workspace_root@);
    let mut j: usize = 0;
    while j < n
        invariant
            n == view.members@.len(),
            requested is None,
            view.default_package is None,
            innermost(view.members@, string_views(view.workspace_root@), string_views(cwd@))
                is None,
            j <= n,
            roots == member_roots(view.members@),
            ws == string_views(view.workspace_root@),
            forall|k: int| 0 <= k < j ==> roots[k] != ws,
        decreases n - j,
    {
        if components_equal(&view.members[j].root, &view.workspace_root) {
            proof {
                lemma_position_is(roots, ws, j as int);
            }
            return Ok(j);
        }
        j = j + 1;
    }
    proof {
        lemma_position_is(roots, ws, n as int);
    }
    if n == 1 {
        return Ok(0);
    }
    Err(SelectError::NoTargetPackage { available: member_name_list(view) })
}

} // verus!
