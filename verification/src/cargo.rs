//! The decisions of the cargo gateway: whether the target crate's
//! `frieze` dependency can feed a schema collection, and where the
//! scratch crate takes `frieze` / `frieze-usecase` from.
//!
//! The scratch binary and the target crate must resolve the **same**
//! `frieze` package instance, so the source is chosen by one rule:
//!
//! - **Path dependency**: the scratch crate mirrors the same path, and
//!   takes `frieze-usecase` from the same checkout.
//! - **Registry dependency**: the scratch crate pins the release matching
//!   the CLI's own version (`=X.Y.Z`); the target's declared requirement
//!   must be able to match it, or the run is rejected naming both sides.
//! - **Git dependency**: rejected.

use vstd::prelude::*;

use crate::text::{
    chars_of, i32_decimal, int_decimal, is_white_space, push_all, push_str, str_equal,
    string_from_chars, trim_end_chars, trim_end_of,
};

verus! {

#[verifier::external_type_specification]
#[verifier::external_body]
pub struct ExIoError(std::io::Error);

#[verifier::external_type_specification]
#[verifier::external_body]
pub struct ExJsonError(serde_json::Error);

/// Raw failures the cargo gateway can hit while collecting schemas.
#[derive(Debug)]
pub enum CargoError {
    /// An I/O failure while preparing the scratch crate directory.
    ScratchIo(std::io::Error),
    /// Writing a scratch crate source file from its template failed.
    ScratchTemplateWrite(std::io::Error),
    /// The output of `cargo metadata` (or the package shape it
    /// describes) cannot be interpreted.
    PackageInspect { message: String },
    /// The target crate declares its frieze dependency with the
    /// `inventory` feature disabled.
    InventoryDisabled,
    /// The declared `frieze` requirement can never match the exact
    /// version the scratch crate pins.
    FriezeVersionMismatch { requirement: String, cli_version: String },
    /// The cargo subprocess failed (a spawn failure has no exit code).
    CargoInvocation { exit_code: Option<i32>, stderr: String },
    /// The scratch binary's stdout was not a valid components dump.
    StdoutParse(serde_json::Error),
}

/// The shape of the target package's declared `frieze` dependency.
#[derive(Debug, Clone)]
pub struct FriezeDependency {
    pub uses_default_features: bool,
    pub features: Vec<String>,
    /// The declared version requirement, as cargo normalises it (`"0.1"`
    /// becomes `"^0.1"`; a requirement-less path dependency reports
    /// `"*"`).
    pub requirement: String,
    /// The directory of a path dependency; `None` for registry and git
    /// sources.
    pub path: Option<String>,
    /// The dependency source (`registry+...`, `git+...`); `None` for path
    /// dependencies.
    pub source: Option<String>,
}

/// The declaration leaves the `inventory` feature on: it is a default
/// feature, and a re-listed `"inventory"` or `"default"` turns it back
/// on after `default-features = false`.
pub open spec fn inventory_on(d: FriezeDependency) -> bool {
    d.uses_default_features || exists|i: int|
        0 <= i < d.features@.len() && (d.features@[i]@ == "inventory"@ || d.features@[i]@
            == "default"@)
}

impl FriezeDependency {
    /// Whether the declaration leaves the `inventory` feature on.
    pub fn inventory_enabled(&self) -> (r: bool)
        ensures
            r == inventory_on(*self),
    {
        if self.uses_default_features {
            return true;
        }
        let mut i: usize = 0;
        while i < self.features.len()
            invariant
                i <= self.features@.len(),
                forall|k: int|
                    0 <= k < i ==> !(self.features@[k]@ == "inventory"@ || self.features@[k]@
                        == "default"@),
            decreases self.features@.len() - i,
        {
            if str_equal(self.features[i].as_str(), "inventory") || str_equal(
                self.features[i].as_str(),
                "default",
            ) {
                return true;
            }
            i = i + 1;
        }
        false
    }
}

/// Where the scratch crate takes `frieze` and `frieze-usecase` from.
#[derive(Debug, PartialEq, Eq)]
pub enum FriezeCrateSource {
    /// The crates.io releases pinned to `version` exactly.
    PinnedRelease { version: String },
    /// A local frieze checkout: `frieze` mirrored from the target's path
    /// dependency, `frieze-usecase` from the same checkout.
    LocalCheckout { frieze_dir: String, usecase_dir: String },
}

/// What `Path::parent` gives for a path, as text.
pub uninterp spec fn path_parent_of(p: Seq<char>) -> Option<Seq<char>>;

/// What `Path::join` gives for a base and a relative path, as text.
pub uninterp spec fn path_joined(base: Seq<char>, rel: Seq<char>) -> Seq<char>;

/// `Path::parent` of `p`; the contract names the result
/// `path_parent_of(p@)`, a function of the text alone.
#[verifier::external_body]
pub(crate) fn path_parent(p: &str) -> (r: Option<String>)
    ensures
        crate::text::opt_view(r) == path_parent_of(p@),
{
    std::path::Path::new(p).parent().map(|q| q.to_string_lossy().into_owned())
}

/// `Path::join` of `base` and `rel`; the contract names the result
/// `path_joined(base@, rel@)`, a function of the two texts alone.
#[verifier::external_body]
pub(crate) fn path_join(base: &str, rel: &str) -> (r: String)
    ensures
        r@ == path_joined(base@, rel@),
{
    std::path::Path::new(base).join(rel).to_string_lossy().into_owned()
}

/// The `n`-th ancestor of `p` (the path itself for `n == 0`), as
/// `Path::ancestors().nth(n)` yields it.
pub open spec fn nth_ancestor(p: Seq<char>, n: nat) -> Option<Seq<char>>
    decreases n,
{
    if n == 0 {
        Some(p)
    } else {
        match nth_ancestor(p, (n - 1) as nat) {
            Some(q) => path_parent_of(q),
            None => None,
        }
    }
}

proof fn lemma_no_further_ancestor(p: Seq<char>, n: nat, m: nat)
    requires
        nth_ancestor(p, n) is None,
        n <= m,
    ensures
        nth_ancestor(p, m) is None,
    decreases m - n,
{
    if n < m {
        lemma_no_further_ancestor(p, n, (m - 1) as nat);
    }
}

/// The place of `frieze-usecase` in a checkout whose `crates/libs/frieze`
/// is `frieze_dir`: `crates/domain/frieze-usecase` under the directory
/// three levels up.
pub open spec fn usecase_dir_of(frieze_dir: Seq<char>) -> Option<Seq<char>> {
    match nth_ancestor(frieze_dir, 3) {
        Some(root) => Some(path_joined(root, "crates/domain/frieze-usecase"@)),
        None => None,
    }
}

/// Where `frieze-usecase` must sit next to a path-declared `frieze`,
/// when the path has three ancestors.
pub fn usecase_dir_for(frieze_dir: &str) -> (r: Option<String>)
    ensures
        crate::text::opt_view(r) == usecase_dir_of(frieze_dir@),
{
    let mut cur: String = frieze_dir.to_string();
    assert(cur@ == frieze_dir@);
    let mut n: usize = 0;
    while n < 3
        invariant
            n <= 3,
            nth_ancestor(frieze_dir@, n as nat) == Some(cur@),
        decreases 3 - n,
    {
        match path_parent(cur.as_str()) {
            Some(parent) => {
                cur = parent;
            },
            None => {
                proof {
                    lemma_no_further_ancestor(frieze_dir@, (n + 1) as nat, 3);
                }
                return None;
            },
        }
        n = n + 1;
    }
    Some(path_join(cur.as_str(), "crates/domain/frieze-usecase"))
}

/// The message of a path dependency outside a frieze checkout.
pub open spec fn checkout_message(frieze_dir: Seq<char>) -> Seq<char> {
    "the target crate's `frieze` path dependency (`"@ + frieze_dir
        + "`) does not sit inside a checkout of the frieze repository, so the companion `frieze-usecase` crate the schema collection needs cannot be located: point the path at `crates/libs/frieze` of a full checkout, or depend on the crates.io release"@
}

/// The outcome for a path dependency: mirrored when `frieze-usecase`
/// sits where the checkout layout puts it, rejected otherwise.
pub open spec fn checkout_outcome(
    r: Result<FriezeCrateSource, CargoError>,
    frieze_dir: Seq<char>,
    usecase_manifest_present: bool,
) -> bool {
    if usecase_dir_of(frieze_dir) is Some && usecase_manifest_present {
        r matches Ok(FriezeCrateSource::LocalCheckout { frieze_dir: f, usecase_dir: u }) && f@
            == frieze_dir && Some(u@) == usecase_dir_of(frieze_dir)
    } else {
        r matches Err(CargoError::PackageInspect { message }) && message@ == checkout_message(
            frieze_dir,
        )
    }
}

/// Locates `frieze-usecase` next to a path-declared `frieze`: the path
/// must point at `crates/libs/frieze` inside a checkout of the frieze
/// repository, whose layout fixes `frieze-usecase` at
/// `crates/domain/frieze-usecase`. `usecase_manifest_present` is whether
/// `Cargo.toml` is a file in the directory [`usecase_dir_for`] gives
/// (the caller looks; `false` when there is no such directory).
pub fn checkout_source(frieze_dir: &str, usecase_manifest_present: bool) -> (r: Result<
    FriezeCrateSource,
    CargoError,
>)
    ensures
        checkout_outcome(r, frieze_dir@, usecase_manifest_present),
{
    match usecase_dir_for(frieze_dir) {
        Some(usecase_dir) => {
            if usecase_manifest_present {
                return Ok(
                    FriezeCrateSource::LocalCheckout {
                        frieze_dir: frieze_dir.to_string(),
                        usecase_dir,
                    },
                );
            }
        },
        None => {},
    }
    let mut out: Vec<char> = Vec::new();
    push_str(&mut out, "the target crate's `frieze` path dependency (`");
    push_str(&mut out, frieze_dir);
    push_str(
        &mut out,
        "`) does not sit inside a checkout of the frieze repository, so the companion `frieze-usecase` crate the schema collection needs cannot be located: point the path at `crates/libs/frieze` of a full checkout, or depend on the crates.io release",
    );
    Err(CargoError::PackageInspect { message: string_from_chars(&out) })
}

/// What `semver::VersionReq::parse` reports for the text: `None` when it
/// parses, the `Display` text of its error otherwise.
pub uninterp spec fn requirement_parse_failure(text: Seq<char>) -> Option<Seq<char>>;

/// What `semver::Version::parse` reports for the text: `None` when it
/// parses, the `Display` text of its error otherwise.
pub uninterp spec fn version_parse_failure(text: Seq<char>) -> Option<Seq<char>>;

/// Whether `semver::VersionReq::matches` accepts, under the requirement
/// that `requirement` spells, the version that `version` spells.
pub uninterp spec fn requirement_admits(requirement: Seq<char>, version: Seq<char>) -> bool;

/// `semver::VersionReq::parse`, keeping the error's text; the contract
/// claims that the outcome is a function of the text alone (named
/// `requirement_parse_failure`).
#[verifier::external_body]
fn check_requirement(text: &str) -> (r: Option<String>)
    ensures
        crate::text::opt_view(r) == requirement_parse_failure(text@),
{
    semver::VersionReq::parse(text).err().map(|e| e.to_string())
}

/// `semver::Version::parse`, keeping the error's text; the contract
/// claims that the outcome is a function of the text alone (named
/// `version_parse_failure`).
#[verifier::external_body]
fn check_version(text: &str) -> (r: Option<String>)
    ensures
        crate::text::opt_view(r) == version_parse_failure(text@),
{
    semver::Version::parse(text).err().map(|e| e.to_string())
}

/// `semver::VersionReq::matches` (cargo's matching rules) on the
/// requirement and the version that the two texts spell, both of which
/// parse; the contract claims that the answer is a function of the two
/// texts alone (named `requirement_admits`).
#[verifier::external_body]
fn requirement_accepts(requirement: &str, version: &str) -> (r: bool)
    requires
        requirement_parse_failure(requirement@) is None,
        version_parse_failure(version@) is None,
    ensures
        r == requirement_admits(requirement@, version@),
{
    let requirement = semver::VersionReq::parse(requirement).unwrap();
    requirement.matches(&semver::Version::parse(version).unwrap())
}

/// The message of an unparsable declared requirement, with the parser's
/// explanation `cause`.
pub open spec fn requirement_parse_message(requirement: Seq<char>, cause: Seq<char>) -> Seq<
    char,
> {
    "cannot parse the declared frieze version requirement `"@ + requirement + "`: "@ + cause
}

/// The message of an unparsable CLI version, with the parser's
/// explanation `cause`.
pub open spec fn version_parse_message(version: Seq<char>, cause: Seq<char>) -> Seq<char> {
    "cannot parse the frieze version `"@ + version + "`: "@ + cause
}

/// What `requirement_matches` returns: the parse error of the first text
/// that does not parse, else whether the requirement admits the version.
pub open spec fn matching_outcome(
    r: Result<bool, CargoError>,
    requirement: Seq<char>,
    version: Seq<char>,
) -> bool {
    match requirement_parse_failure(requirement) {
        Some(cause) => r matches Err(CargoError::PackageInspect { message }) && message@
            == requirement_parse_message(requirement, cause),
        None => match version_parse_failure(version) {
            Some(cause) => r matches Err(CargoError::PackageInspect { message }) && message@
                == version_parse_message(version, cause),
            None => r == Ok::<bool, CargoError>(requirement_admits(requirement, version)),
        },
    }
}

/// Whether the declared semver requirement can match `version`, the
/// exact version the scratch crate would pin, by cargo's own matching
/// rules (`^0.1` accepts `0.1.3`, `^0.1.4` does not accept `0.1.3`,
/// `=0.1.0` accepts only `0.1.0`).
pub fn requirement_matches(requirement: &str, version: &str) -> (r: Result<bool, CargoError>)
    ensures
        matching_outcome(r, requirement@, version@),
{
    if let Some(cause) = check_requirement(requirement) {
        let mut out: Vec<char> = Vec::new();
        push_str(&mut out, "cannot parse the declared frieze version requirement `");
        push_str(&mut out, requirement);
        push_str(&mut out, "`: ");
        push_str(&mut out, cause.as_str());
        let message = string_from_chars(&out);
        assert(message@ == requirement_parse_message(requirement@, cause@));
        return Err(CargoError::PackageInspect { message });
    }
    if let Some(cause) = check_version(version) {
        let mut out: Vec<char> = Vec::new();
        push_str(&mut out, "cannot parse the frieze version `");
        push_str(&mut out, version);
        push_str(&mut out, "`: ");
        push_str(&mut out, cause.as_str());
        let message = string_from_chars(&out);
        assert(message@ == version_parse_message(version@, cause@));
        return Err(CargoError::PackageInspect { message });
    }
    Ok(requirement_accepts(requirement, version))
}

/// The registry outcome once matching has been decided: the pinned
/// release when the requirement accepts the CLI's version, the mismatch
/// error naming both sides otherwise.
pub fn pin_release(requirement: &str, cli_version: &str, accepted: bool) -> (r: Result<
    FriezeCrateSource,
    CargoError,
>)
    ensures
        accepted ==> (r matches Ok(FriezeCrateSource::PinnedRelease { version }) && version@
            == cli_version@),
        !accepted ==> (r matches Err(CargoError::FriezeVersionMismatch { requirement: q, cli_version: c })
            && q@ == requirement@ && c@ == cli_version@),
{
    if accepted {
        Ok(FriezeCrateSource::PinnedRelease { version: cli_version.to_string() })
    } else {
        Err(
            CargoError::FriezeVersionMismatch {
                requirement: requirement.to_string(),
                cli_version: cli_version.to_string(),
            },
        )
    }
}

/// The source text marks a git dependency.
pub open spec fn is_git_source(source: Option<String>) -> bool {
    match source {
        Some(s) => s@.len() >= 4 && s@.take(4) == seq!['g', 'i', 't', '+'],
        None => false,
    }
}

/// The message of a git dependency.
pub open spec fn git_source_message() -> Seq<char> {
    "the target crate declares its `frieze` dependency from a git source, which the schema collection cannot mirror: declare a version requirement matching the installed cargo-frieze, or a path to a local frieze checkout"@
}

fn starts_with_git(source: &String) -> (r: bool)
    ensures
        r == is_git_source(Some(*source)),
{
    let cs = chars_of(source.as_str());
    if cs.len() < 4 {
        return false;
    }
    let r = cs[0] == 'g' && cs[1] == 'i' && cs[2] == 't' && cs[3] == '+';
    assert(r == (cs@.take(4) =~= seq!['g', 'i', 't', '+']));
    r
}

/// Decides where the scratch crate takes `frieze` from, enforcing the
/// single-instance rule: a path dependency is mirrored (see
/// [`checkout_source`]; `usecase_manifest_present` is only read there), a
/// git source is rejected, and a registry requirement must be able to
/// match `cli_version`, which is then pinned.
pub fn resolve_frieze_source(
    dependency: &FriezeDependency,
    cli_version: &str,
    usecase_manifest_present: bool,
) -> (r: Result<FriezeCrateSource, CargoError>)
    ensures
        match dependency.path {
            Some(dir) => checkout_outcome(r, dir@, usecase_manifest_present),
            None => if is_git_source(dependency.source) {
                r matches Err(CargoError::PackageInspect { message }) && message@
                    == git_source_message()
            } else {
                match requirement_parse_failure(dependency.requirement@) {
                    Some(cause) => r matches Err(CargoError::PackageInspect { message })
                        && message@ == requirement_parse_message(dependency.requirement@, cause),
                    None => match version_parse_failure(cli_version@) {
                        Some(cause) => r matches Err(CargoError::PackageInspect { message })
                            && message@ == version_parse_message(cli_version@, cause),
                        None => if requirement_admits(dependency.requirement@, cli_version@) {
                            r matches Ok(FriezeCrateSource::PinnedRelease { version })
                                && version@ == cli_version@
                        } else {
                            r matches Err(
                                CargoError::FriezeVersionMismatch { requirement: q, cli_version: c },
                            ) && q@ == dependency.requirement@ && c@ == cli_version@
                        },
                    },
                }
            },
        },
{
    if let Some(frieze_dir) = &dependency.path {
        return checkout_source(frieze_dir.as_str(), usecase_manifest_present);
    }
    if let Some(source) = &dependency.source {
        if starts_with_git(source) {
            let mut out: Vec<char> = Vec::new();
            push_str(
                &mut out,
                "the target crate declares its `frieze` dependency from a git source, which the schema collection cannot mirror: declare a version requirement matching the installed cargo-frieze, or a path to a local frieze checkout",
            );
            return Err(CargoError::PackageInspect { message: string_from_chars(&out) });
        }
    }
    match requirement_matches(dependency.requirement.as_str(), cli_version) {
        Ok(accepted) => pin_release(dependency.requirement.as_str(), cli_version, accepted),
        Err(e) => Err(e),
    }
}

/// Every character of `s` is white space.
pub open spec fn is_blank(s: Seq<char>) -> bool {
    forall|i: int| 0 <= i < s.len() ==> is_white_space(#[trigger] s[i])
}

proof fn lemma_trim_end_empty(s: Seq<char>)
    ensures
        trim_end_of(s).len() == 0 <==> is_blank(s),
    decreases s.len(),
{
    if s.len() > 0 {
        lemma_trim_end_empty(s.drop_last());
        if is_white_space(s.last()) {
            assert(is_blank(s) <==> is_blank(s.drop_last())) by {
                if is_blank(s.drop_last()) {
                    assert forall|i: int| 0 <= i < s.len() implies is_white_space(s[i]) by {
                        if i < s.len() - 1 {
                            assert(s[i] == s.drop_last()[i]);
                        }
                    }
                }
                if is_blank(s) {
                    assert forall|i: int| 0 <= i < s.drop_last().len() implies is_white_space(
                        s.drop_last()[i],
                    ) by {
                        assert(s[i] == s.drop_last()[i]);
                    }
                }
            }
        } else {
            assert(!is_white_space(s[s.len() - 1]));
        }
    }
}

/// The detail suffix of a failed cargo invocation: the exit code when
/// one exists, then any captured stderr that is not blank, trimmed at
/// the end.
pub open spec fn invocation_detail(exit_code: Option<i32>, stderr: Seq<char>) -> Seq<char> {
    (match exit_code {
        Some(code) => " (exit code "@ + int_decimal(code as int) + ")"@,
        None => Seq::<char>::empty(),
    }) + if is_blank(stderr) {
        Seq::<char>::empty()
    } else {
        ": "@ + trim_end_of(stderr)
    }
}

/// Renders the detail suffix of a failed cargo invocation: the exit code
/// when one exists and any captured stderr.
pub fn render_invocation_failure(exit_code: &Option<i32>, stderr: &str) -> (r: String)
    ensures
        r@ == invocation_detail(*exit_code, stderr@),
{
    let mut out: Vec<char> = Vec::new();
    match exit_code {
        Some(code) => {
            push_str(&mut out, " (exit code ");
            let digits = i32_decimal(*code);
            push_all(&mut out, &digits);
            push_str(&mut out, ")");
        },
        None => {},
    }
    let ghost head = out@;
    let text = chars_of(stderr);
    let trimmed = trim_end_chars(&text);
    proof {
        lemma_trim_end_empty(stderr@);
    }
    if trimmed.len() > 0 {
        push_str(&mut out, ": ");
        push_all(&mut out, &trimmed);
    } else {
        assert(out@ =~= head + Seq::<char>::empty());
    }
    string_from_chars(&out)
}

/// The message of a target package without a `frieze` dependency.
pub open spec fn missing_dependency_message(package: Seq<char>) -> Seq<char> {
    "package `"@ + package
        + "` does not depend on `frieze`; add it to [dependencies] and derive `frieze::Schema` on the types to expose"@
}

/// Whether a schema collection may run: the target package must depend
/// on `frieze` (as a normal dependency) with the `inventory` feature
/// left on, or the collection could only ever yield an empty document.
pub fn check_frieze_dependency(package_name: &str, dependency: &Option<FriezeDependency>) -> (r:
    Result<(), CargoError>)
    ensures
        match dependency {
            None => r matches Err(CargoError::PackageInspect { message }) && message@
                == missing_dependency_message(package_name@),
            Some(d) => if inventory_on(*d) {
                r is Ok
            } else {
                r matches Err(CargoError::InventoryDisabled)
            },
        },
{
    match dependency {
        None => {
            let mut out: Vec<char> = Vec::new();
            push_str(&mut out, "package `");
            push_str(&mut out, package_name);
            push_str(
                &mut out,
                "` does not depend on `frieze`; add it to [dependencies] and derive `frieze::Schema` on the types to expose",
            );
            Err(CargoError::PackageInspect { message: string_from_chars(&out) })
        },
        Some(d) => {
            if d.inventory_enabled() {
                Ok(())
            } else {
                Err(CargoError::InventoryDisabled)
            }
        },
    }
}

/// Collects the schemas the target crate registers by generating a
/// scratch crate that links it and running it through cargo.
#[derive(Debug, Default)]
pub struct CargoSchemasCollector;

impl CargoSchemasCollector {
    pub fn new() -> (r: Self)
        ensures
            r == (CargoSchemasCollector {}),
    {
        CargoSchemasCollector
    }
}

/// Resolves the target package through `cargo metadata`.
#[derive(Debug, Default)]
pub struct CargoPackageResolver;

impl CargoPackageResolver {
    pub fn new() -> (r: Self)
        ensures
            r == (CargoPackageResolver {}),
    {
        CargoPackageResolver
    }
}

} // verus!
