//! Single-pass scanner for `#[serde(...)]` attributes.
//!
//! [`scan_serde_attrs`] walks every meta entry of an item exactly once and
//! either records a supported value into [`SerdeScan`] or rejects an
//! unsupported form. Routing every diagnostic through one entry point
//! keeps an unsupported attribute on one item from slipping past one
//! branch and being silently honoured by another.

use vstd::prelude::*;

use crate::text::{opt_view, push_str, str_equal, string_from_chars};

verus! {

/// Position of the scanned item. Every position rejects the same set of
/// attributes today; the position is kept so the rules can later vary
/// per site without rerouting calls.
#[derive(Debug, Clone, Copy, PartialEq, Eq, Structural)]
pub enum SerdePosition {
    StructContainer,
    StructField,
    EnumContainer,
    EnumVariant,
}

/// What follows the name of one nested meta entry.
#[derive(Debug, Clone)]
pub enum MetaArg {
    /// Nothing: `name`.
    Bare,
    /// `name = "literal"`: the literal's value.
    Str(String),
    /// `name = <expression>` where the expression is no string literal.
    OtherExpr,
    /// `name(...)`.
    Paren,
}

/// One nested meta entry of a `#[serde(...)]` attribute, in source
/// order across all of the item's `serde` attributes.
#[derive(Debug, Clone)]
pub struct SerdeMeta {
    /// The entry's name; `None` when the path is not a single
    /// identifier.
    pub name: Option<String>,
    pub arg: MetaArg,
}

/// The values one scan records. Each value remembers the index of the
/// entry it came from, for diagnostics.
#[derive(Debug, Clone)]
pub struct SerdeScan {
    /// `rename = "literal"`; the first one wins.
    pub rename: Option<(String, usize)>,
    /// `rename_all = "literal"`; the first one wins.
    pub rename_all: Option<(String, usize)>,
    /// `tag = "literal"` (internally tagged enums); the first one wins.
    pub tag: Option<(String, usize)>,
    /// The bare `default` is present (`default = "path"` is rejected).
    pub default_bare: bool,
    /// `skip_serializing_if = "literal"`; the last one wins.
    pub skip_serializing_if: Option<String>,
}

/// Why a scan stopped.
#[derive(Debug, Clone, PartialEq, Eq)]
pub enum ScanError {
    /// The entry at `at` is a form no single OAS schema can represent.
    Unsupported { at: usize, message: String },
    /// The entry at `at` needs `= "literal"` and has something else.
    ExpectedString { at: usize },
    /// The entry at `at` carries a parenthesised argument it cannot take.
    UnexpectedArgument { at: usize },
}

/// The scan values as plain sequences.
pub struct ScanModel {
    pub rename: Option<(Seq<char>, int)>,
    pub rename_all: Option<(Seq<char>, int)>,
    pub tag: Option<(Seq<char>, int)>,
    pub default_bare: bool,
    pub skip_serializing_if: Option<Seq<char>>,
}

/// A scan failure as plain values.
pub enum ScanFailure {
    Unsupported(int, Seq<char>),
    ExpectedString(int),
    UnexpectedArgument(int),
}

pub open spec fn opt_entry(o: Option<(String, usize)>) -> Option<(Seq<char>, int)> {
    match o {
        Some((s, i)) => Some((s@, i as int)),
        None => None,
    }
}

pub open spec fn scan_model(s: SerdeScan) -> ScanModel {
    ScanModel {
        rename: opt_entry(s.rename),
        rename_all: opt_entry(s.rename_all),
        tag: opt_entry(s.tag),
        default_bare: s.default_bare,
        skip_serializing_if: opt_view(s.skip_serializing_if),
    }
}

pub open spec fn failure_model(e: ScanError) -> ScanFailure {
    match e {
        ScanError::Unsupported { at, message } => ScanFailure::Unsupported(at as int, message@),
        ScanError::ExpectedString { at } => ScanFailure::ExpectedString(at as int),
        ScanError::UnexpectedArgument { at } => ScanFailure::UnexpectedArgument(at as int),
    }
}

/// The attributes rejected once their string literal has been read.
pub open spec fn rejected_after_literal(n: Seq<char>) -> bool {
    ||| n == "alias"@
    ||| n == "content"@
    ||| n == "rename_all_fields"@
    ||| n == "with"@
    ||| n == "serialize_with"@
    ||| n == "deserialize_with"@
    ||| n == "from"@
    ||| n == "try_from"@
    ||| n == "into"@
}

/// The diagnostic of a rejected attribute.
pub open spec fn rejection_message(n: Seq<char>) -> Seq<char> {
    if n == "alias"@ {
        "frieze: `#[serde(alias)]` produces a deserialize-only acceptance list that a single OAS schema cannot encode."@
    } else if n == "flatten"@ {
        "frieze: `#[serde(flatten)]` on a field is not supported."@
    } else if n == "untagged"@ {
        "frieze: `#[serde(untagged)]` enums are not supported."@
    } else if n == "transparent"@ {
        "frieze: `#[serde(transparent)]` on a container is not supported."@
    } else if n == "other"@ {
        "frieze: `#[serde(other)]` on a variant is not supported."@
    } else {
        "frieze: `#[serde("@ + n + ")]` is not supported."@
    }
}

/// The diagnostic of a `default = "path"` entry.
pub open spec fn custom_default_message() -> Seq<char> {
    "frieze: `#[serde(default = \"...\")]` is not supported; only the bare `#[serde(default)]` on a `Maybe<T>` field is recognised."@
}

/// The diagnostic of the direction-split `rename(...)` form.
pub open spec fn direction_split_rename_message() -> Seq<char> {
    "frieze: `#[serde(rename(serialize = ..., deserialize = ...))]` produces different wire names for serialize and deserialize. A single OAS schema cannot represent both. Use a symmetric `#[serde(rename = \"...\")]` instead, or split the type into request- and response-shaped variants."@
}

/// The diagnostic of the direction-split `rename_all(...)` form.
pub open spec fn direction_split_rename_all_message() -> Seq<char> {
    "frieze: `#[serde(rename_all(serialize = ..., deserialize = ...))]` produces different wire names for serialize and deserialize. A single OAS schema cannot represent both. Use a symmetric `#[serde(rename_all = \"...\")]` instead, or split the type into request- and response-shaped variants."@
}

/// Records `value` in a first-wins slot.
pub open spec fn first_wins(slot: Option<(Seq<char>, int)>, value: Seq<char>, at: int) -> Option<
    (Seq<char>, int),
> {
    match slot {
        Some(x) => Some(x),
        None => Some((value, at)),
    }
}

/// One step of the scan: the entry at `at` applied to the values so far.
pub open spec fn scan_step(acc: ScanModel, at: int, m: SerdeMeta) -> Result<ScanModel, ScanFailure> {
    match m.name {
        None => Ok(acc),
        Some(name) => {
            let n = name@;
            if n == "rename"@ || n == "rename_all"@ {
                match m.arg {
                    MetaArg::Paren => Err(
                        ScanFailure::Unsupported(
                            at,
                            if n == "rename"@ {
                                direction_split_rename_message()
                            } else {
                                direction_split_rename_all_message()
                            },
                        ),
                    ),
                    MetaArg::Str(v) => if n == "rename"@ {
                        Ok(ScanModel { rename: first_wins(acc.rename, v@, at), ..acc })
                    } else {
                        Ok(ScanModel { rename_all: first_wins(acc.rename_all, v@, at), ..acc })
                    },
                    _ => Err(ScanFailure::ExpectedString(at)),
                }
            } else if n == "tag"@ {
                match m.arg {
                    MetaArg::Str(v) => Ok(ScanModel { tag: first_wins(acc.tag, v@, at), ..acc }),
                    _ => Err(ScanFailure::ExpectedString(at)),
                }
            } else if n == "default"@ {
                match m.arg {
                    MetaArg::Bare => Ok(ScanModel { default_bare: true, ..acc }),
                    MetaArg::Str(_) => Err(ScanFailure::Unsupported(at, custom_default_message())),
                    MetaArg::OtherExpr => Err(ScanFailure::ExpectedString(at)),
                    MetaArg::Paren => Err(ScanFailure::UnexpectedArgument(at)),
                }
            } else if n == "skip_serializing_if"@ {
                match m.arg {
                    MetaArg::Str(v) => Ok(ScanModel { skip_serializing_if: Some(v@), ..acc }),
                    _ => Err(ScanFailure::ExpectedString(at)),
                }
            } else if rejected_after_literal(n) {
                match m.arg {
                    MetaArg::Str(_) => Err(ScanFailure::Unsupported(at, rejection_message(n))),
                    _ => Err(ScanFailure::ExpectedString(at)),
                }
            } else {
                Err(ScanFailure::Unsupported(at, rejection_message(n)))
            }
        },
    }
}

/// The scan of the first `k` entries: the steps applied in order, up to
/// the first failure.
pub open spec fn scan_upto(metas: Seq<SerdeMeta>, k: int) -> Result<ScanModel, ScanFailure>
    decreases k,
{
    if k <= 0 {
        Ok(
            ScanModel {
                rename: None,
                rename_all: None,
                tag: None,
                default_bare: false,
                skip_serializing_if: None,
            },
        )
    } else {
        match scan_upto(metas, k - 1) {
            Ok(acc) => scan_step(acc, k - 1, metas[k - 1]),
            Err(e) => Err(e),
        }
    }
}

/// The scan of all entries.
pub open spec fn scan_result(metas: Seq<SerdeMeta>) -> Result<ScanModel, ScanFailure> {
    scan_upto(metas, metas.len() as int)
}

fn is_rejected_after_literal(n: &str) -> (r: bool)
    ensures
        r == rejected_after_literal(n@),
{
    str_equal(n, "alias") || str_equal(n, "content") || str_equal(n, "rename_all_fields")
        || str_equal(n, "with") || str_equal(n, "serialize_with") || str_equal(
        n,
        "deserialize_with",
    ) || str_equal(n, "from") || str_equal(n, "try_from") || str_equal(n, "into")
}

fn rejection_message_exec(n: &str) -> (r: String)
    ensures
        r@ == rejection_message(n@),
{
    let mut out: Vec<char> = Vec::new();
    if str_equal(n, "alias") {
        push_str(
            &mut out,
            "frieze: `#[serde(alias)]` produces a deserialize-only acceptance list that a single OAS schema cannot encode.",
        );
    } else if str_equal(n, "flatten") {
        push_str(&mut out, "frieze: `#[serde(flatten)]` on a field is not supported.");
    } else if str_equal(n, "untagged") {
        push_str(&mut out, "frieze: `#[serde(untagged)]` enums are not supported.");
    } else if str_equal(n, "transparent") {
        push_str(&mut out, "frieze: `#[serde(transparent)]` on a container is not supported.");
    } else if str_equal(n, "other") {
        push_str(&mut out, "frieze: `#[serde(other)]` on a variant is not supported.");
    } else {
        push_str(&mut out, "frieze: `#[serde(");
        push_str(&mut out, n);
        push_str(&mut out, ")]` is not supported.");
    }
    string_from_chars(&out)
}

fn str_text(s: &str) -> (r: String)
    ensures
        r@ == s@,
{
    let mut out: Vec<char> = Vec::new();
    push_str(&mut out, s);
    string_from_chars(&out)
}

/// One scan step: the entry `m` at `i` applied to `scan`.
fn scan_entry(scan: &mut SerdeScan, i: usize, m: &SerdeMeta) -> (r: Result<(), ScanError>)
    ensures
        match r {
            Ok(()) => scan_step(scan_model(*old(scan)), i as int, *m) == Ok::<
                ScanModel,
                ScanFailure,
            >(scan_model(*final(scan))),
            Err(e) => scan_step(scan_model(*old(scan)), i as int, *m) == Err::<
                ScanModel,
                ScanFailure,
            >(failure_model(e)),
        },
{
    match &m.name {
        None => {},
        Some(name) => {
            let n = name.as_str();
            if str_equal(n, "rename") || str_equal(n, "rename_all") {
                let is_rename = str_equal(n, "rename");
                match &m.arg {
                    MetaArg::Paren => {
                        let mut out: Vec<char> = Vec::new();
                        if is_rename {
                            push_str(
                                &mut out,
                                "frieze: `#[serde(rename(serialize = ..., deserialize = ...))]` produces different wire names for serialize and deserialize. A single OAS schema cannot represent both. Use a symmetric `#[serde(rename = \"...\")]` instead, or split the type into request- and response-shaped variants.",
                            );
                        } else {
                            push_str(
                                &mut out,
                                "frieze: `#[serde(rename_all(serialize = ..., deserialize = ...))]` produces different wire names for serialize and deserialize. A single OAS schema cannot represent both. Use a symmetric `#[serde(rename_all = \"...\")]` instead, or split the type into request- and response-shaped variants.",
                            );
                        }
                        return Err(
                            ScanError::Unsupported { at: i, message: string_from_chars(&out) },
                        );
                    },
                    MetaArg::Str(v) => {
                        if is_rename {
                            if scan.rename.is_none() {
                                scan.rename = Some((str_text(v.as_str()), i));
                            }
                        } else {
                            if scan.rename_all.is_none() {
                                scan.rename_all = Some((str_text(v.as_str()), i));
                            }
                        }
                    },
                    _ => {
                        return Err(ScanError::ExpectedString { at: i });
                    },
                }
            } else if str_equal(n, "tag") {
                match &m.arg {
                    MetaArg::Str(v) => {
                        if scan.tag.is_none() {
                            scan.tag = Some((str_text(v.as_str()), i));
                        }
                    },
                    _ => {
                        return Err(ScanError::ExpectedString { at: i });
                    },
                }
            } else if str_equal(n, "default") {
                match &m.arg {
                    MetaArg::Bare => {
                        scan.default_bare = true;
                    },
                    MetaArg::Str(_) => {
                        let mut out: Vec<char> = Vec::new();
                        push_str(
                            &mut out,
                            "frieze: `#[serde(default = \"...\")]` is not supported; only the bare `#[serde(default)]` on a `Maybe<T>` field is recognised.",
                        );
                        return Err(
                            ScanError::Unsupported { at: i, message: string_from_chars(&out) },
                        );
                    },
                    MetaArg::OtherExpr => {
                        return Err(ScanError::ExpectedString { at: i });
                    },
                    MetaArg::Paren => {
                        return Err(ScanError::UnexpectedArgument { at: i });
                    },
                }
            } else if str_equal(n, "skip_serializing_if") {
                match &m.arg {
                    MetaArg::Str(v) => {
                        scan.skip_serializing_if = Some(str_text(v.as_str()));
                    },
                    _ => {
                        return Err(ScanError::ExpectedString { at: i });
                    },
                }
            } else if is_rejected_after_literal(n) {
                match &m.arg {
                    MetaArg::Str(_) => {
                        return Err(
                            ScanError::Unsupported { at: i, message: rejection_message_exec(n) },
                        );
                    },
                    _ => {
                        return Err(ScanError::ExpectedString { at: i });
                    },
                }
            } else {
                return Err(ScanError::Unsupported { at: i, message: rejection_message_exec(n) });
            }
        },
    }
    Ok(())
}

proof fn lemma_failure_persists(metas: Seq<SerdeMeta>, k: int, m: int)
    requires
        0 <= k <= m,
        scan_upto(metas, k) is Err,
    ensures
        scan_upto(metas, m) == scan_upto(metas, k),
    decreases m - k,
{
    if k < m {
        lemma_failure_persists(metas, k, m - 1);
    }
}

/// Walks every `serde` meta entry of one item, in order, and classifies
/// each into the [`SerdeScan`] record or rejects it:
///
/// - `rename`, `rename_all`, `tag` and `skip_serializing_if` take a string
///   literal and are recorded; the direction-split `rename(...)` /
///   `rename_all(...)` forms are rejected;
/// - the bare `default` is recorded, `default = "path"` is rejected;
/// - `alias`, `content`, `rename_all_fields`, `with`, `serialize_with`,
///   `deserialize_with`, `from`, `try_from` and `into` are rejected once
///   their literal is read;
/// - any other entry (`flatten`, `untagged`, `skip`, `crate`, ...) is
///   rejected: frieze cannot tell what it does to the wire.
/// An entry whose path is not a single identifier is skipped.
pub fn scan_serde_attrs(metas: &Vec<SerdeMeta>, position: SerdePosition) -> (r: Result<
    SerdeScan,
    ScanError,
>)
    ensures
        match r {
            Ok(s) => scan_result(metas@) == Ok::<ScanModel, ScanFailure>(scan_model(s)),
            Err(e) => scan_result(metas@) == Err::<ScanModel, ScanFailure>(failure_model(e)),
        },
{
    let mut scan = SerdeScan {
        rename: None,
        rename_all: None,
        tag: None,
        default_bare: false,
        skip_serializing_if: None,
    };
    let mut i: usize = 0;
    while i < metas.len()
        invariant
            i <= metas@.len(),
            scan_upto(metas@, i as int) == Ok::<ScanModel, ScanFailure>(scan_model(scan)),
        decreases metas@.len() - i,
    {
        let ghost acc = scan_model(scan);
        match scan_entry(&mut scan, i, &metas[i]) {
            Ok(()) => {},
            Err(e) => {
                proof {
                    assert(scan_upto(metas@, i + 1) == scan_step(acc, i as int, metas@[i as int]));
                    lemma_failure_persists(metas@, i + 1, metas@.len() as int);
                }
                return Err(e);
            },
        }
        proof {
            assert(scan_upto(metas@, i + 1) == scan_step(acc, i as int, metas@[i as int]));
        }
        i = i + 1;
    }
    Ok(scan)
}

/// The scan carries `skip_serializing_if = "Option::is_none"`.
pub open spec fn option_skip(s: ScanModel) -> bool {
    s.skip_serializing_if == Some("Option::is_none"@)
}

/// The scan carries the `Maybe<T>` pair: the bare `default` and
/// `skip_serializing_if = "Maybe::is_missing"`.
pub open spec fn maybe_pair(s: ScanModel) -> bool {
    s.default_bare && s.skip_serializing_if == Some("Maybe::is_missing"@)
}

/// Whether the scan carries `skip_serializing_if = "Option::is_none"`.
pub fn is_option_skip_predicate(scan: &SerdeScan) -> (r: bool)
    ensures
        r == option_skip(scan_model(*scan)),
{
    match &scan.skip_serializing_if {
        Some(p) => str_equal(p.as_str(), "Option::is_none"),
        None => false,
    }
}

/// Whether the scan carries the `Maybe<T>` attribute pair
/// (`#[serde(default, skip_serializing_if = "Maybe::is_missing")]`).
pub fn has_maybe_attribute_pair(scan: &SerdeScan) -> (r: bool)
    ensures
        r == maybe_pair(scan_model(*scan)),
{
    scan.default_bare && match &scan.skip_serializing_if {
        Some(p) => str_equal(p.as_str(), "Maybe::is_missing"),
        None => false,
    }
}

} // verus!
