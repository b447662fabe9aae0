//! What the struct and enum derives share: where a diagnostic belongs,
//! the generic-parameter gate, and the per-item attribute steps (scan,
//! `rename_all` mode, wire name, uniqueness).

use vstd::prelude::*;

use crate::doc::DocAttr;
use crate::rename::{
    apply_rule, check_unique_wire_names, conflict_message, rename_all_from_str, rule_label,
    rule_named, unsupported_rule_message, wire_name, wires_of, RenameAll, RenameTarget,
    WireEntry, WireSource, EMPTY_RENAME_MSG,
};
use crate::serde_scan::{
    failure_model, scan_model, scan_result, scan_serde_attrs, ScanError, ScanFailure, ScanModel,
    SerdeMeta, SerdePosition, SerdeScan,
};
use crate::text::{push_str, string_from_chars};

verus! {

/// Where a diagnostic belongs in the derive input.
#[derive(Debug, Clone, Copy, PartialEq, Eq, Structural)]
pub enum Site {
    /// The item's identifier.
    Item,
    /// The container's serde meta entry with this index.
    ContainerAttr(usize),
    /// The generic parameter with this index.
    Generic(usize),
    /// The identifier of field / variant `i`.
    Member(usize),
    /// Serde meta entry `k` of field / variant `i`.
    MemberAttr(usize, usize),
    /// The type of field `i`, or the whole of variant `i`.
    MemberShape(usize),
    /// The inner type of newtype variant `i`.
    VariantInner(usize),
}

/// What a diagnostic says.
#[derive(Debug, Clone, PartialEq, Eq)]
pub enum Diagnostic {
    Message(String),
    /// A serde entry needs `= "literal"` and has something else.
    ExpectedString,
    /// A serde entry carries a parenthesised argument it cannot take.
    UnexpectedArgument,
}

/// A rejected derive input.
#[derive(Debug, Clone, PartialEq, Eq)]
pub struct MacroError {
    pub site: Site,
    pub diagnostic: Diagnostic,
}

/// A diagnostic as plain values.
pub enum DiagModel {
    Message(Seq<char>),
    ExpectedString,
    UnexpectedArgument,
}

/// A rejection as plain values.
pub struct Failure {
    pub site: Site,
    pub diag: DiagModel,
}

pub open spec fn error_model(e: MacroError) -> Failure {
    Failure {
        site: e.site,
        diag: match e.diagnostic {
            Diagnostic::Message(m) => DiagModel::Message(m@),
            Diagnostic::ExpectedString => DiagModel::ExpectedString,
            Diagnostic::UnexpectedArgument => DiagModel::UnexpectedArgument,
        },
    }
}

pub open spec fn fail(site: Site, message: Seq<char>) -> Failure {
    Failure { site, diag: DiagModel::Message(message) }
}

/// A generic parameter of the derive input.
#[derive(Debug, Clone, PartialEq, Eq)]
pub enum GenericParam {
    /// A type parameter, by its identifier.
    Type(String),
    Lifetime,
    Const,
}

/// A scan failure of the entries of `site_of`'s item.
pub open spec fn scan_failure(f: ScanFailure, container: bool, member: int) -> Failure {
    let site = |at: int|
        if container {
            Site::ContainerAttr(at as usize)
        } else {
            Site::MemberAttr(member as usize, at as usize)
        };
    match f {
        ScanFailure::Unsupported(at, m) => Failure { site: site(at), diag: DiagModel::Message(m) },
        ScanFailure::ExpectedString(at) => Failure { site: site(at), diag: DiagModel::ExpectedString },
        ScanFailure::UnexpectedArgument(at) => Failure {
            site: site(at),
            diag: DiagModel::UnexpectedArgument,
        },
    }
}

/// Scans the serde entries of the container (`member` is `None`) or of
/// member `i`, placing a failure at the offending entry.
pub fn scan_at(metas: &Vec<SerdeMeta>, position: SerdePosition, member: Option<usize>) -> (r:
    Result<SerdeScan, MacroError>)
    ensures
        match r {
            Ok(s) => scan_result(metas@) == Ok::<ScanModel, ScanFailure>(scan_model(s)),
            Err(e) => exists|f: ScanFailure|
                scan_result(metas@) == Err::<ScanModel, ScanFailure>(f) && error_model(e)
                    == scan_failure(
                    f,
                    member is None,
                    match member {
                        Some(i) => i as int,
                        None => 0,
                    },
                ),
        },
{
    match scan_serde_attrs(metas, position) {
        Ok(s) => Ok(s),
        Err(e) => {
            let ghost f = failure_model(e);
            let (at, diagnostic) = match e {
                ScanError::Unsupported { at, message } => (at, Diagnostic::Message(message)),
                ScanError::ExpectedString { at } => (at, Diagnostic::ExpectedString),
                ScanError::UnexpectedArgument { at } => (at, Diagnostic::UnexpectedArgument),
            };
            let site = match member {
                Some(i) => Site::MemberAttr(i, at),
                None => Site::ContainerAttr(at),
            };
            let err = MacroError { site, diagnostic };
            assert(error_model(err) == scan_failure(
                f,
                member is None,
                match member {
                    Some(i) => i as int,
                    None => 0,
                },
            ));
            Err(err)
        },
    }
}

/// The diagnostic of a container-level `rename`.
pub open spec fn container_rename_message() -> Seq<char> {
    "frieze: container-level `#[serde(rename = \"...\")]` is not supported; the schema is named after the Rust type."@
}

/// The container's `rename_all` mode: none without the attribute, the
/// named mode for a recognised literal, an error at the entry otherwise.
/// A container-level `rename` is rejected first.
pub open spec fn container_rule_spec(scan: ScanModel) -> Result<RenameAll, Failure> {
    match scan.rename {
        Some((_, at)) => Err(fail(Site::ContainerAttr(at as usize), container_rename_message())),
        None => match scan.rename_all {
            None => Ok(RenameAll::Unchanged),
            Some((v, at)) => match rule_named(v) {
                Some(m) => Ok(m),
                None => Err(fail(Site::ContainerAttr(at as usize), unsupported_rule_message(v))),
            },
        },
    }
}

/// The container's `rename_all` mode.
pub fn rename_all_from_scan(scan: &SerdeScan) -> (r: Result<RenameAll, MacroError>)
    ensures
        match r {
            Ok(m) => container_rule_spec(scan_model(*scan)) == Ok::<RenameAll, Failure>(m),
            Err(e) => container_rule_spec(scan_model(*scan)) == Err::<RenameAll, Failure>(
                error_model(e),
            ),
        },
{
    if let Some((_, at)) = &scan.rename {
        let mut out: Vec<char> = Vec::new();
        push_str(
            &mut out,
            "frieze: container-level `#[serde(rename = \"...\")]` is not supported; the schema is named after the Rust type.",
        );
        return Err(
            MacroError {
                site: Site::ContainerAttr(*at),
                diagnostic: Diagnostic::Message(string_from_chars(&out)),
            },
        );
    }
    match &scan.rename_all {
        None => Ok(RenameAll::Unchanged),
        Some((value, at)) => match rename_all_from_str(value.as_str()) {
            Ok(m) => Ok(m),
            Err(message) => Err(
                MacroError { site: Site::ContainerAttr(*at), diagnostic: Diagnostic::Message(message) },
            ),
        },
    }
}

/// The message of a lifetime parameter.
pub open spec fn lifetime_message(kind: Seq<char>, ident: Seq<char>) -> Seq<char> {
    "frieze: lifetime parameters are not supported in #[derive(Schema)] ("@ + kind + " `"@ + ident
        + "`). frieze schemas describe owned data layouts; remove the lifetime parameter or wrap the borrowed data in an owned type."@
}

/// The message of a const generic parameter.
pub open spec fn const_generic_message(kind: Seq<char>, ident: Seq<char>) -> Seq<char> {
    "frieze: const generics are not supported in #[derive(Schema)] ("@ + kind + " `"@ + ident
        + "`)."@
}

/// The first lifetime or const parameter, if any, rejected.
pub open spec fn generics_spec(params: Seq<GenericParam>, kind: Seq<char>, ident: Seq<char>) -> Option<
    Failure,
>
    decreases params.len(),
{
    if params.len() == 0 {
        None
    } else {
        match generics_spec(params.drop_last(), kind, ident) {
            Some(f) => Some(f),
            None => match params.last() {
                GenericParam::Type(_) => None,
                GenericParam::Lifetime => Some(
                    fail(Site::Generic((params.len() - 1) as usize), lifetime_message(kind, ident)),
                ),
                GenericParam::Const => Some(
                    fail(
                        Site::Generic((params.len() - 1) as usize),
                        const_generic_message(kind, ident),
                    ),
                ),
            },
        }
    }
}

/// Rejects lifetime parameters and const generics (frieze schemas
/// describe owned data layouts); type parameters pass. `kind` is the
/// item's noun in the message (`"struct"` / `"enum"`).
pub fn reject_unsupported_generic_params(params: &Vec<GenericParam>, kind: &str, ident: &str) -> (r:
    Result<(), MacroError>)
    ensures
        match r {
            Ok(()) => generics_spec(params@, kind@, ident@) is None,
            Err(e) => generics_spec(params@, kind@, ident@) == Some(error_model(e)),
        },
{
    let mut k: usize = 0;
    while k < params.len()
        invariant
            k <= params@.len(),
            generics_spec(params@.take(k as int), kind@, ident@) is None,
        decreases params@.len() - k,
    {
        proof {
            assert(params@.take(k + 1).drop_last() =~= params@.take(k as int));
            assert(params@.take(k + 1).last() == params@[k as int]);
        }
        match &params[k] {
            GenericParam::Type(_) => {},
            GenericParam::Lifetime => {
                let mut out: Vec<char> = Vec::new();
                push_str(
                    &mut out,
                    "frieze: lifetime parameters are not supported in #[derive(Schema)] (",
                );
                push_str(&mut out, kind);
                push_str(&mut out, " `");
                push_str(&mut out, ident);
                push_str(
                    &mut out,
                    "`). frieze schemas describe owned data layouts; remove the lifetime parameter or wrap the borrowed data in an owned type.",
                );
                proof {
                    lemma_generics_prefix(params@, (k + 1) as int, kind@, ident@);
                }
                return Err(
                    MacroError {
                        site: Site::Generic(k),
                        diagnostic: Diagnostic::Message(string_from_chars(&out)),
                    },
                );
            },
            GenericParam::Const => {
                let mut out: Vec<char> = Vec::new();
                push_str(&mut out, "frieze: const generics are not supported in #[derive(Schema)] (");
                push_str(&mut out, kind);
                push_str(&mut out, " `");
                push_str(&mut out, ident);
                push_str(&mut out, "`).");
                proof {
                    lemma_generics_prefix(params@, (k + 1) as int, kind@, ident@);
                }
                return Err(
                    MacroError {
                        site: Site::Generic(k),
                        diagnostic: Diagnostic::Message(string_from_chars(&out)),
                    },
                );
            },
        }
        k = k + 1;
    }
    assert(params@.take(params@.len() as int) =~= params@);
    Ok(())
}

/// A rejection found in a prefix is the rejection of the whole list.
pub proof fn lemma_generics_prefix(
    params: Seq<GenericParam>,
    k: int,
    kind: Seq<char>,
    ident: Seq<char>,
)
    requires
        0 <= k <= params.len(),
        generics_spec(params.take(k), kind, ident) is Some,
    ensures
        generics_spec(params, kind, ident) == generics_spec(params.take(k), kind, ident),
    decreases params.len() - k,
{
    if k < params.len() {
        assert(params.take(k + 1).drop_last() =~= params.take(k));
        lemma_generics_prefix(params, k + 1, kind, ident);
    } else {
        assert(params.take(k) =~= params);
    }
}

/// The description of how a rule named a member, for diagnostics.
pub open spec fn rule_source_text(rule: RenameAll) -> Seq<char> {
    match rule {
        RenameAll::Unchanged => "the Rust identifier"@,
        _ => "`#[serde(rename_all = \""@ + rule_label(rule) + "\")]`"@,
    }
}

/// A member's wire name and how it was produced, as plain values.
pub struct WireModel {
    pub ident: Seq<char>,
    pub wire: Seq<char>,
    pub source: Seq<char>,
}

/// The wire name of member `i` with identifier `ident`, from its own
/// `rename` (first wins) or else the container rule.
pub open spec fn wire_spec(
    ident: Seq<char>,
    rename: Option<(Seq<char>, int)>,
    rule: RenameAll,
    target: RenameTarget,
    i: int,
) -> Result<WireModel, Failure> {
    match rename {
        Some((v, at)) => if v.len() == 0 {
            Err(fail(Site::MemberAttr(i as usize, at as usize), EMPTY_RENAME_MSG@))
        } else {
            Ok(WireModel { ident, wire: v, source: crate::rename::source_text(WireSource::Individual) })
        },
        None => {
            let c = apply_rule(rule, ident, target);
            if c.len() == 0 {
                Err(fail(Site::Member(i as usize), EMPTY_RENAME_MSG@))
            } else {
                Ok(WireModel { ident, wire: c, source: rule_source_text(rule) })
            }
        },
    }
}

pub open spec fn entry_model(e: WireEntry) -> WireModel {
    WireModel { ident: e.0@, wire: e.1@, source: crate::rename::source_text(e.2) }
}

/// Member `i`'s wire entry.
pub fn wire_entry_at(
    ident: &String,
    scan: &SerdeScan,
    rule: RenameAll,
    target: RenameTarget,
    i: usize,
) -> (r: Result<WireEntry, MacroError>)
    ensures
        match r {
            Ok(e) => wire_spec(ident@, scan_model(*scan).rename, rule, target, i as int) == Ok::<
                WireModel,
                Failure,
            >(entry_model(e)),
            Err(e) => wire_spec(ident@, scan_model(*scan).rename, rule, target, i as int) == Err::<
                WireModel,
                Failure,
            >(error_model(e)),
        },
{
    let individual = match &scan.rename {
        Some((s, _)) => Some(s.as_str()),
        None => None,
    };
    match wire_name(ident.as_str(), individual, rule, target) {
        Ok((wire, source)) => {
            let e: WireEntry = (ident.clone(), wire, source);
            proof {
                assert(e.0@ == ident@);
                match source {
                    WireSource::RenameAll(mode) => {
                        assert(mode@ == rule_label(rule));
                    },
                    _ => {},
                }
            }
            Ok(e)
        },
        Err(message) => {
            let site = match &scan.rename {
                Some((_, at)) => Site::MemberAttr(i, *at),
                None => Site::Member(i),
            };
            Err(MacroError { site, diagnostic: Diagnostic::Message(message) })
        },
    }
}

/// The wire names of the models.
pub open spec fn model_wires(m: Seq<WireModel>) -> Seq<Seq<char>> {
    m.map_values(|w: WireModel| w.wire)
}

/// The collision diagnostic of model `second` against the earlier
/// `first`.
pub open spec fn collision_message(kind: Seq<char>, second: WireModel, first: WireModel) -> Seq<
    char,
> {
    "frieze: "@ + kind + " `"@ + second.ident + "` renames to "@ + crate::text::debug_text(
        second.wire,
    ) + " via "@ + second.source + ", which conflicts with "@ + kind + " `"@ + first.ident
        + "` (also renames to "@ + crate::text::debug_text(second.wire) + " via "@ + first.source
        + "). Each "@ + kind + " must have a unique wire name."@
}

/// The first index whose wire name occurred earlier, from `j` on
/// (`w.len()` when there is none).
pub open spec fn first_repeat_from(w: Seq<Seq<char>>, j: int) -> int
    decreases w.len() - j,
{
    if j >= w.len() || j < 0 {
        w.len() as int
    } else if crate::text::position_of(w, w[j]) < j {
        j
    } else {
        first_repeat_from(w, j + 1)
    }
}

/// The uniqueness rule: the first member whose wire name an earlier
/// member already took is rejected, naming the earliest holder.
pub open spec fn uniqueness_spec(m: Seq<WireModel>, kind: Seq<char>) -> Option<Failure> {
    let w = model_wires(m);
    let j = first_repeat_from(w, 0);
    if j >= m.len() {
        None
    } else {
        let i = crate::text::position_of(w, w[j]);
        Some(fail(Site::Member(j as usize), collision_message(kind, m[j], m[i])))
    }
}

proof fn lemma_first_repeat(w: Seq<Seq<char>>, k: int, j: int)
    requires
        0 <= k <= j <= w.len(),
        crate::rename::distinct_upto(w, j),
        j == w.len() || crate::text::position_of(w, w[j]) < j,
    ensures
        first_repeat_from(w, k) == j,
    decreases j - k,
{
    if k < j {
        assert forall|k2: int| 0 <= k2 < k implies w[k2] != w[k] by {}
        crate::text::lemma_position_is(w, w[k], k);
        lemma_first_repeat(w, k + 1, j);
    }
}

/// Rejects colliding wire names among the entries (`kind` is `"field"`
/// or `"variant"`), at the identifier of the first member whose name
/// was already taken.
pub fn check_unique_at(entries: &Vec<WireEntry>, kind: &str) -> (r: Result<(), MacroError>)
    ensures
        match r {
            Ok(()) => uniqueness_spec(entries@.map_values(|e: WireEntry| entry_model(e)), kind@)
                is None,
            Err(e) => uniqueness_spec(entries@.map_values(|e: WireEntry| entry_model(e)), kind@)
                == Some(error_model(e)),
        },
{
    let ghost m = entries@.map_values(|e: WireEntry| entry_model(e));
    proof {
        assert(model_wires(m) =~= wires_of(entries@));
    }
    match check_unique_wire_names(entries, kind) {
        Ok(()) => {
            proof {
                lemma_first_repeat(model_wires(m), 0, m.len() as int);
            }
            Ok(())
        },
        Err((j, message)) => {
            proof {
                let w = model_wires(m);
                lemma_first_repeat(w, 0, j as int);
                let i = crate::text::position_of(w, w[j as int]);
                crate::text::lemma_position_of(w, w[j as int]);
                assert(m[j as int] == entry_model(entries@[j as int]));
                assert(m[i] == entry_model(entries@[i]));
            }
            Err(MacroError { site: Site::Member(j), diagnostic: Diagnostic::Message(message) })
        },
    }
}

/// The arguments of a `#[frieze(...)]` attribute.
#[derive(Debug, Clone, PartialEq, Eq)]
pub enum FriezeArgs {
    /// `#[frieze]` / `#[frieze()]`.
    Empty,
    /// The leading path is not a single identifier.
    NotIdent,
    /// A keyword, and whether anything follows it (`= ..` or `(..)`).
    Keyword { name: String, has_remainder: bool },
}

/// Where a `#[frieze(...)]` diagnostic belongs.
#[derive(Debug, Clone, Copy, PartialEq, Eq, Structural)]
pub enum AttrSite {
    /// The whole attribute (call site).
    Attribute,
    /// The keyword or its path.
    Keyword,
    /// What follows the keyword.
    Arguments,
    /// The item the attribute is applied to.
    Item,
}

pub open spec fn frieze_attr_spec(args: FriezeArgs, item_is_mod: bool) -> Option<(AttrSite, Seq<char>)> {
    match args {
        FriezeArgs::Empty => Some(
            (
                AttrSite::Attribute,
                "frieze: `#[frieze(...)]` requires a sub-keyword (e.g. `#[frieze(namespace)]`)."@,
            ),
        ),
        FriezeArgs::NotIdent => Some(
            (AttrSite::Keyword, "frieze: `#[frieze(...)]` sub-keyword must be a single identifier."@),
        ),
        FriezeArgs::Keyword { name, has_remainder } => if name@ != "namespace"@ {
            Some(
                (
                    AttrSite::Keyword,
                    "frieze: unknown sub-keyword `"@ + name@
                        + "` for `#[frieze(...)]`. The only currently supported keyword is `namespace`."@,
                ),
            )
        } else if has_remainder {
            Some(
                (
                    AttrSite::Arguments,
                    "frieze: `#[frieze(namespace)]` takes no arguments; the module's own ident is used as the namespace name. Remove the argument and rename the `mod` if a different name is desired."@,
                ),
            )
        } else if !item_is_mod {
            Some(
                (
                    AttrSite::Item,
                    "frieze: `#[frieze(namespace)]` can only be applied to `mod` declarations (`pub mod foo;` or `pub mod foo { ... }`)."@,
                ),
            )
        } else {
            None
        },
    }
}

/// Checks a `#[frieze(...)]` attribute: it needs a single-identifier
/// sub-keyword, the only one being `namespace`, which takes no
/// arguments and applies to `mod` declarations only. `Ok` means the
/// module is registered as a namespace under its own identifier.
pub fn frieze_attribute(args: &FriezeArgs, item_is_mod: bool) -> (r: Result<(), (AttrSite, String)>)
    ensures
        match r {
            Ok(()) => frieze_attr_spec(*args, item_is_mod) is None,
            Err((site, m)) => frieze_attr_spec(*args, item_is_mod) == Some((site, m@)),
        },
{
    let mut out: Vec<char> = Vec::new();
    match args {
        FriezeArgs::Empty => {
            push_str(
                &mut out,
                "frieze: `#[frieze(...)]` requires a sub-keyword (e.g. `#[frieze(namespace)]`).",
            );
            Err((AttrSite::Attribute, string_from_chars(&out)))
        },
        FriezeArgs::NotIdent => {
            push_str(&mut out, "frieze: `#[frieze(...)]` sub-keyword must be a single identifier.");
            Err((AttrSite::Keyword, string_from_chars(&out)))
        },
        FriezeArgs::Keyword { name, has_remainder } => {
            if !crate::text::str_equal(name.as_str(), "namespace") {
                push_str(&mut out, "frieze: unknown sub-keyword `");
                push_str(&mut out, name.as_str());
                push_str(
                    &mut out,
                    "` for `#[frieze(...)]`. The only currently supported keyword is `namespace`.",
                );
                Err((AttrSite::Keyword, string_from_chars(&out)))
            } else if *has_remainder {
                push_str(
                    &mut out,
                    "frieze: `#[frieze(namespace)]` takes no arguments; the module's own ident is used as the namespace name. Remove the argument and rename the `mod` if a different name is desired.",
                );
                Err((AttrSite::Arguments, string_from_chars(&out)))
            } else if !item_is_mod {
                push_str(
                    &mut out,
                    "frieze: `#[frieze(namespace)]` can only be applied to `mod` declarations (`pub mod foo;` or `pub mod foo { ... }`).",
                );
                Err((AttrSite::Item, string_from_chars(&out)))
            } else {
                Ok(())
            }
        },
    }
}

/// The diagnostic of `#[derive(Schema)]` on a union.
pub fn union_message() -> (r: String)
    ensures
        r@ == "frieze: #[derive(Schema)] does not support unions."@,
{
    let mut out: Vec<char> = Vec::new();
    push_str(&mut out, "frieze: #[derive(Schema)] does not support unions.");
    string_from_chars(&out)
}

} // verus!
