//! The `[package.metadata.frieze]` section of a package's `Cargo.toml`:
//! its structure is enforced here (known keys only, required keys
//! present, values of the right TOML type, valid cargo feature names, an
//! `oas-version` of `"3.0"` or `"3.1"`, at least one output), and the
//! output paths are resolved against the package root.

use vstd::prelude::*;

use crate::text::{opt_view, push_str, str_equal, string_from_chars, string_views};

verus! {

/// A TOML value as the section reader sees it.
#[derive(Debug)]
pub enum Toml {
    Str(String),
    Array(Vec<Toml>),
    /// A table, its keys in document order.
    Table(Vec<(String, Toml)>),
    /// An integer, float, boolean or date-time.
    Other,
}

/// One declared output, its paths resolved against the package root.
#[derive(Debug, Clone, PartialEq, Eq)]
pub struct RawOutput {
    pub name: String,
    pub partial: String,
    pub output: String,
}

/// The section as declared.
#[derive(Debug, Clone, PartialEq, Eq)]
pub struct RawMetadata {
    pub package_name: String,
    /// The cargo features to enable while collecting (none when absent).
    pub features: Vec<String>,
    /// The `oas-version` line every partial must match, when declared.
    pub oas_version: Option<String>,
    pub outputs: Vec<RawOutput>,
}

/// Why the section cannot be read.
#[derive(Debug, Clone, PartialEq, Eq)]
pub enum MetadataError {
    /// The manifest has no `[package]` table.
    MissingPackageTable,
    MissingKey { key: String, table: String },
    UnexpectedType { key: String, table: String, expected: String },
    UnknownKey { key: String, table: String },
    /// The manifest has no `[package.metadata.frieze]` section.
    MissingFriezeSection,
    /// The section declares no output.
    NoOutputsDefined,
    /// A `features` entry is no valid cargo feature name.
    CargoFeatureNameInvalid { got: String },
    /// The `oas-version` value is no supported major.minor line.
    OasVersionCheckInvalid { got: String, message: String },
}

/// A read failure as plain values.
pub enum MetaFailure {
    MissingPackageTable,
    MissingKey(Seq<char>, Seq<char>),
    UnexpectedType(Seq<char>, Seq<char>, Seq<char>),
    UnknownKey(Seq<char>, Seq<char>),
    MissingFriezeSection,
    NoOutputsDefined,
    CargoFeatureNameInvalid(Seq<char>),
    OasVersionCheckInvalid(Seq<char>, Seq<char>),
}

pub open spec fn meta_failure(e: MetadataError) -> MetaFailure {
    match e {
        MetadataError::MissingPackageTable => MetaFailure::MissingPackageTable,
        MetadataError::MissingKey { key, table } => MetaFailure::MissingKey(key@, table@),
        MetadataError::UnexpectedType { key, table, expected } => MetaFailure::UnexpectedType(
            key@,
            table@,
            expected@,
        ),
        MetadataError::UnknownKey { key, table } => MetaFailure::UnknownKey(key@, table@),
        MetadataError::MissingFriezeSection => MetaFailure::MissingFriezeSection,
        MetadataError::NoOutputsDefined => MetaFailure::NoOutputsDefined,
        MetadataError::CargoFeatureNameInvalid { got } => MetaFailure::CargoFeatureNameInvalid(
            got@,
        ),
        MetadataError::OasVersionCheckInvalid { got, message } =>
            MetaFailure::OasVersionCheckInvalid(got@, message@),
    }
}

/// The value of the first entry named `key`.
pub open spec fn entry_value(entries: Seq<(String, Toml)>, key: Seq<char>) -> Option<Toml>
    decreases entries.len(),
{
    if entries.len() == 0 {
        None
    } else if entries[0].0@ == key {
        Some(entries[0].1)
    } else {
        entry_value(entries.skip(1), key)
    }
}

pub open spec fn toml_str(t: Toml) -> Option<Seq<char>> {
    match t {
        Toml::Str(s) => Some(s@),
        _ => None,
    }
}

pub open spec fn section_table() -> Seq<char> {
    "[package.metadata.frieze]"@
}

pub open spec fn outputs_table() -> Seq<char> {
    "[[package.metadata.frieze.outputs]]"@
}

pub open spec fn section_keys() -> Seq<Seq<char>> {
    seq!["features"@, "oas-version"@, "outputs"@]
}

pub open spec fn output_keys() -> Seq<Seq<char>> {
    seq!["name"@, "partial"@, "output"@]
}

/// The first key of the table outside `known`.
pub open spec fn first_unknown(entries: Seq<(String, Toml)>, known: Seq<Seq<char>>) -> Option<
    Seq<char>,
>
    decreases entries.len(),
{
    if entries.len() == 0 {
        None
    } else if !known.contains(entries[0].0@) {
        Some(entries[0].0@)
    } else {
        first_unknown(entries.skip(1), known)
    }
}

/// A required string value: missing and non-string values are rejected.
pub open spec fn required_spec(entries: Seq<(String, Toml)>, key: Seq<char>, table: Seq<char>) -> Result<
    Seq<char>,
    MetaFailure,
> {
    match entry_value(entries, key) {
        None => Err(MetaFailure::MissingKey(key, table)),
        Some(v) => match toml_str(v) {
            Some(s) => Ok(s),
            None => Err(MetaFailure::UnexpectedType(key, table, "a string"@)),
        },
    }
}

/// A character that may open a cargo feature name: an ASCII letter or
/// digit, or `_`.
pub open spec fn feature_start_char(c: char) -> bool {
    ('a' <= c <= 'z') || ('A' <= c <= 'Z') || ('0' <= c <= '9') || c == '_'
}

/// A character that may follow in a cargo feature name: one that may open
/// it, or `-`, `+`, `.`.
pub open spec fn feature_char(c: char) -> bool {
    feature_start_char(c) || c == '-' || c == '+' || c == '.'
}

/// A cargo feature name as `--features` takes it: non-empty, opening with
/// a letter, digit or `_`, then letters, digits, `_`, `-`, `+` or `.`
/// (so no `dep:` or `crate/feature` form).
pub open spec fn valid_feature_name(n: Seq<char>) -> bool {
    &&& n.len() > 0
    &&& feature_start_char(n[0])
    &&& forall|i: int| 1 <= i < n.len() ==> feature_char(#[trigger] n[i])
}

/// The feature names of the `features` array, entry by entry: an entry
/// that is no string, or no valid name, stops it.
pub open spec fn feature_names(items: Seq<Toml>) -> Result<Seq<Seq<char>>, MetaFailure>
    decreases items.len(),
{
    if items.len() == 0 {
        Ok(Seq::<Seq<char>>::empty())
    } else {
        match feature_names(items.drop_last()) {
            Err(f) => Err(f),
            Ok(acc) => match items.last() {
                Toml::Str(s) => if valid_feature_name(s@) {
                    Ok(acc.push(s@))
                } else {
                    Err(MetaFailure::CargoFeatureNameInvalid(s@))
                },
                _ => Err(
                    MetaFailure::UnexpectedType(
                        "features"@,
                        section_table(),
                        "an array of strings"@,
                    ),
                ),
            },
        }
    }
}

/// The optional `features` array of feature names.
pub open spec fn features_spec(section: Seq<(String, Toml)>) -> Result<Seq<Seq<char>>, MetaFailure> {
    match entry_value(section, "features"@) {
        None => Ok(Seq::<Seq<char>>::empty()),
        Some(Toml::Array(items)) => feature_names(items@),
        Some(_) => Err(
            MetaFailure::UnexpectedType("features"@, section_table(), "an array of strings"@),
        ),
    }
}

/// The message of an unsupported `oas-version` value, listing the valid
/// literals.
pub open spec fn oas_version_check_message(got: Seq<char>) -> Seq<char> {
    "invalid `oas-version` value `"@ + got + "`: expected \"3.0\" or \"3.1\""@
}

/// The optional `oas-version` string: `"3.0"` or `"3.1"`.
pub open spec fn oas_version_spec(section: Seq<(String, Toml)>) -> Result<
    Option<Seq<char>>,
    MetaFailure,
> {
    match entry_value(section, "oas-version"@) {
        None => Ok(None),
        Some(v) => match toml_str(v) {
            Some(s) => if s == "3.0"@ || s == "3.1"@ {
                Ok(Some(s))
            } else {
                Err(MetaFailure::OasVersionCheckInvalid(s, oas_version_check_message(s)))
            },
            None => Err(MetaFailure::UnexpectedType("oas-version"@, section_table(), "a string"@)),
        },
    }
}

/// One `outputs` entry: a table of known keys, with its `name`,
/// `partial` and `output` strings, the paths joined onto the root.
pub open spec fn output_spec(root: Seq<char>, entry: Toml) -> Result<
    (Seq<char>, Seq<char>, Seq<char>),
    MetaFailure,
> {
    match entry {
        Toml::Table(t) => match first_unknown(t@, output_keys()) {
            Some(k) => Err(MetaFailure::UnknownKey(k, outputs_table())),
            None => match required_spec(t@, "name"@, outputs_table()) {
                Err(f) => Err(f),
                Ok(name) => match required_spec(t@, "partial"@, outputs_table()) {
                    Err(f) => Err(f),
                    Ok(partial) => match required_spec(t@, "output"@, outputs_table()) {
                        Err(f) => Err(f),
                        Ok(output) => Ok(
                            (
                                name,
                                crate::cargo::path_joined(root, partial),
                                crate::cargo::path_joined(root, output),
                            ),
                        ),
                    },
                },
            },
        },
        _ => Err(MetaFailure::UnexpectedType("outputs"@, section_table(), "an array of tables"@)),
    }
}

pub open spec fn outputs_upto(root: Seq<char>, items: Seq<Toml>, k: int) -> Result<
    Seq<(Seq<char>, Seq<char>, Seq<char>)>,
    MetaFailure,
>
    decreases k,
{
    if k <= 0 {
        Ok(Seq::<(Seq<char>, Seq<char>, Seq<char>)>::empty())
    } else {
        match outputs_upto(root, items, k - 1) {
            Err(f) => Err(f),
            Ok(acc) => match output_spec(root, items[k - 1]) {
                Err(f) => Err(f),
                Ok(o) => Ok(acc.push(o)),
            },
        }
    }
}

/// The section as plain values.
pub struct MetadataModel {
    pub package_name: Seq<char>,
    pub features: Seq<Seq<char>>,
    pub oas_version: Option<Seq<char>>,
    pub outputs: Seq<(Seq<char>, Seq<char>, Seq<char>)>,
}

pub open spec fn metadata_model(m: RawMetadata) -> MetadataModel {
    MetadataModel {
        package_name: m.package_name@,
        features: string_views(m.features@),
        oas_version: opt_view(m.oas_version),
        outputs: m.outputs@.map_values(|o: RawOutput| (o.name@, o.partial@, o.output@)),
    }
}

/// What reading the manifest gives, in its order of checks: the
/// `[package]` table and its `name`, the section (a table), its keys,
/// `features`, `oas-version`, then every output in order (at least one).
pub open spec fn metadata_spec(root: Seq<char>, manifest: Toml) -> Result<MetadataModel, MetaFailure> {
    let package = match manifest {
        Toml::Table(t) => match entry_value(t@, "package"@) {
            Some(Toml::Table(p)) => Some(p@),
            _ => None,
        },
        _ => None,
    };
    match package {
        None => Err(MetaFailure::MissingPackageTable),
        Some(p) => match required_spec(p, "name"@, "[package]"@) {
            Err(f) => Err(f),
            Ok(name) => {
                let section = match entry_value(p, "metadata"@) {
                    Some(Toml::Table(m)) => entry_value(m@, "frieze"@),
                    _ => None,
                };
                match section {
                    None => Err(MetaFailure::MissingFriezeSection),
                    Some(Toml::Table(s)) => match first_unknown(s@, section_keys()) {
                        Some(k) => Err(MetaFailure::UnknownKey(k, section_table())),
                        None => match features_spec(s@) {
                            Err(f) => Err(f),
                            Ok(features) => match oas_version_spec(s@) {
                                Err(f) => Err(f),
                                Ok(oas_version) => {
                                    let items = match entry_value(s@, "outputs"@) {
                                        None => Some(Seq::<Toml>::empty()),
                                        Some(Toml::Array(v)) => Some(v@),
                                        Some(_) => None,
                                    };
                                    match items {
                                        None => Err(
                                            MetaFailure::UnexpectedType(
                                                "outputs"@,
                                                section_table(),
                                                "an array of tables"@,
                                            ),
                                        ),
                                        Some(v) => if v.len() == 0 {
                                            Err(MetaFailure::NoOutputsDefined)
                                        } else {
                                            match outputs_upto(root, v, v.len() as int) {
                                                Err(f) => Err(f),
                                                Ok(outputs) => Ok(
                                                    MetadataModel {
                                                        package_name: name,
                                                        features,
                                                        oas_version,
                                                        outputs,
                                                    },
                                                ),
                                            }
                                        },
                                    }
                                },
                            },
                        },
                    },
                    Some(_) => Err(
                        MetaFailure::UnexpectedType("frieze"@, "[package.metadata]"@, "a table"@),
                    ),
                }
            },
        },
    }
}

fn text(s: &str) -> (r: String)
    ensures
        r@ == s@,
{
    let mut out: Vec<char> = Vec::new();
    push_str(&mut out, s);
    string_from_chars(&out)
}

fn unexpected(key: &str, table: &str, expected: &str) -> (r: MetadataError)
    ensures
        meta_failure(r) == MetaFailure::UnexpectedType(key@, table@, expected@),
{
    MetadataError::UnexpectedType { key: text(key), table: text(table), expected: text(expected) }
}

/// The value of the first entry named `key`.
fn entry<'a>(entries: &'a Vec<(String, Toml)>, key: &str) -> (r: Option<&'a Toml>)
    ensures
        entry_value(entries@, key@) == match r {
            Some(v) => Some(*v),
            None => None::<Toml>,
        },
{
    let mut i: usize = 0;
    assert(entries@.skip(0) =~= entries@);
    while i < entries.len()
        invariant
            i <= entries@.len(),
            entry_value(entries@, key@) == entry_value(entries@.skip(i as int), key@),
        decreases entries@.len() - i,
    {
        proof {
            assert(entries@.skip(i as int).skip(1) =~= entries@.skip(i + 1));
            assert(entries@.skip(i as int)[0] == entries@[i as int]);
        }
        if str_equal(entries[i].0.as_str(), key) {
            return Some(&entries[i].1);
        }
        i = i + 1;
    }
    assert(entries@.skip(i as int) =~= Seq::<(String, Toml)>::empty());
    None
}

/// The first key outside `known`.
fn find_unknown(entries: &Vec<(String, Toml)>, known: &Vec<&str>) -> (r: Option<String>)
    ensures
        opt_view(r) == first_unknown(entries@, known@.map_values(|k: &str| k@)),
{
    let ghost kn = known@.map_values(|k: &str| k@);
    let mut i: usize = 0;
    assert(entries@.skip(0) =~= entries@);
    while i < entries.len()
        invariant
            i <= entries@.len(),
            kn == known@.map_values(|k: &str| k@),
            first_unknown(entries@, kn) == first_unknown(entries@.skip(i as int), kn),
        decreases entries@.len() - i,
    {
        proof {
            assert(entries@.skip(i as int).skip(1) =~= entries@.skip(i + 1));
            assert(entries@.skip(i as int)[0] == entries@[i as int]);
        }
        let key = entries[i].0.as_str();
        let mut found = false;
        let mut j: usize = 0;
        while j < known.len()
            invariant
                j <= known@.len(),
                kn == known@.map_values(|k: &str| k@),
                found == exists|m: int| 0 <= m < j && kn[m] == key@,
            decreases known@.len() - j,
        {
            let hit = str_equal(known[j], key);
            proof {
                assert(kn[j as int] == known@[j as int]@);
                if !found && !hit {
                    assert forall|m: int| 0 <= m < j + 1 implies kn[m] != key@ by {
                        if m < j {
                            assert(!(0 <= m < j && kn[m] == key@));
                        }
                    }
                }
            }
            if hit {
                found = true;
            }
            j = j + 1;
        }
        proof {
            if found {
                let m = choose|m: int| 0 <= m < j && kn[m] == key@;
                assert(kn.contains(key@));
            } else {
                assert(!kn.contains(key@));
            }
        }
        if !found {
            return Some(text(key));
        }
        i = i + 1;
    }
    assert(entries@.skip(i as int) =~= Seq::<(String, Toml)>::empty());
    None
}

/// A required string value of `entries`.
fn required_str(entries: &Vec<(String, Toml)>, key: &str, table: &str) -> (r: Result<
    String,
    MetadataError,
>)
    ensures
        match r {
            Ok(s) => required_spec(entries@, key@, table@) == Ok::<Seq<char>, MetaFailure>(s@),
            Err(e) => required_spec(entries@, key@, table@) == Err::<Seq<char>, MetaFailure>(
                meta_failure(e),
            ),
        },
{
    match entry(entries, key) {
        None => Err(MetadataError::MissingKey { key: text(key), table: text(table) }),
        Some(Toml::Str(s)) => Ok(text(s.as_str())),
        Some(_) => Err(unexpected(key, table, "a string")),
    }
}

fn output_keys_exec() -> (r: Vec<&'static str>)
    ensures
        r@.map_values(|k: &str| k@) == output_keys(),
{
    let r = vec!["name", "partial", "output"];
    assert(r@.map_values(|k: &str| k@) =~= output_keys());
    r
}

fn section_keys_exec() -> (r: Vec<&'static str>)
    ensures
        r@.map_values(|k: &str| k@) == section_keys(),
{
    let r = vec!["features", "oas-version", "outputs"];
    assert(r@.map_values(|k: &str| k@) =~= section_keys());
    r
}

/// One `outputs` entry.
fn output_config(root: &str, entry_value: &Toml) -> (r: Result<RawOutput, MetadataError>)
    ensures
        match r {
            Ok(o) => output_spec(root@, *entry_value) == Ok::<
                (Seq<char>, Seq<char>, Seq<char>),
                MetaFailure,
            >((o.name@, o.partial@, o.output@)),
            Err(e) => output_spec(root@, *entry_value) == Err::<
                (Seq<char>, Seq<char>, Seq<char>),
                MetaFailure,
            >(meta_failure(e)),
        },
{
    let table = match entry_value {
        Toml::Table(t) => t,
        _ => {
            return Err(
                unexpected("outputs", "[package.metadata.frieze]", "an array of tables"),
            );
        },
    };
    let known = output_keys_exec();
    if let Some(key) = find_unknown(table, &known) {
        return Err(
            MetadataError::UnknownKey {
                key,
                table: text("[[package.metadata.frieze.outputs]]"),
            },
        );
    }
    let name = match required_str(table, "name", "[[package.metadata.frieze.outputs]]") {
        Ok(s) => s,
        Err(e) => {
            return Err(e);
        },
    };
    let partial = match required_str(table, "partial", "[[package.metadata.frieze.outputs]]") {
        Ok(s) => s,
        Err(e) => {
            return Err(e);
        },
    };
    let output = match required_str(table, "output", "[[package.metadata.frieze.outputs]]") {
        Ok(s) => s,
        Err(e) => {
            return Err(e);
        },
    };
    Ok(
        RawOutput {
            name,
            partial: crate::cargo::path_join(root, partial.as_str()),
            output: crate::cargo::path_join(root, output.as_str()),
        },
    )
}

proof fn lemma_outputs_failure_persists(root: Seq<char>, items: Seq<Toml>, k: int, m: int)
    requires
        0 <= k <= m,
        outputs_upto(root, items, k) is Err,
    ensures
        outputs_upto(root, items, m) == outputs_upto(root, items, k),
    decreases m - k,
{
    if k < m {
        lemma_outputs_failure_persists(root, items, k, m - 1);
    }
}

/// Whether `name` is a valid cargo feature name.
fn is_feature_name(name: &str) -> (r: bool)
    ensures
        r == valid_feature_name(name@),
{
    let cs = crate::text::chars_of(name);
    if cs.len() == 0 {
        return false;
    }
    let c = cs[0];
    if !(('a' <= c && c <= 'z') || ('A' <= c && c <= 'Z') || ('0' <= c && c <= '9') || c == '_') {
        return false;
    }
    let mut i: usize = 1;
    while i < cs.len()
        invariant
            cs@ == name@,
            1 <= i <= cs@.len(),
            forall|k: int| 1 <= k < i ==> feature_char(#[trigger] cs@[k]),
        decreases cs@.len() - i,
    {
        let c = cs[i];
        if !(('a' <= c && c <= 'z') || ('A' <= c && c <= 'Z') || ('0' <= c && c <= '9') || c
            == '_' || c == '-' || c == '+' || c == '.') {
            assert(!feature_char(cs@[i as int]));
            return false;
        }
        i = i + 1;
    }
    true
}

proof fn lemma_feature_failure_persists(items: Seq<Toml>, k: int, m: int)
    requires
        0 <= k <= m <= items.len(),
        feature_names(items.take(k)) is Err,
    ensures
        feature_names(items.take(m)) == feature_names(items.take(k)),
    decreases m - k,
{
    if k < m {
        lemma_feature_failure_persists(items, k, m - 1);
        assert(items.take(m).drop_last() =~= items.take(m - 1));
    }
}

/// The optional `features` array.
fn features(section: &Vec<(String, Toml)>) -> (r: Result<Vec<String>, MetadataError>)
    ensures
        match r {
            Ok(v) => features_spec(section@) == Ok::<Seq<Seq<char>>, MetaFailure>(
                string_views(v@),
            ),
            Err(e) => features_spec(section@) == Err::<Seq<Seq<char>>, MetaFailure>(
                meta_failure(e),
            ),
        },
{
    let items = match entry(section, "features") {
        None => {
            let v: Vec<String> = Vec::new();
            assert(string_views(v@) =~= Seq::<Seq<char>>::empty());
            return Ok(v);
        },
        Some(Toml::Array(items)) => items,
        Some(_) => {
            return Err(unexpected("features", "[package.metadata.frieze]", "an array of strings"));
        },
    };
    let mut names: Vec<String> = Vec::new();
    let mut i: usize = 0;
    assert(string_views(names@) =~= Seq::<Seq<char>>::empty());
    assert(items@.take(0) =~= Seq::<Toml>::empty());
    while i < items.len()
        invariant
            i <= items@.len(),
            entry_value(section@, "features"@) == Some(Toml::Array(*items)),
            feature_names(items@.take(i as int)) == Ok::<Seq<Seq<char>>, MetaFailure>(
                string_views(names@),
            ),
        decreases items@.len() - i,
    {
        proof {
            assert(items@.take(i + 1).drop_last() =~= items@.take(i as int));
            assert(items@.take(i + 1).last() == items@[i as int]);
        }
        let failure = match &items[i] {
            Toml::Str(s) => {
                if is_feature_name(s.as_str()) {
                    let ghost before = string_views(names@);
                    names.push(text(s.as_str()));
                    assert(string_views(names@) =~= before.push(s@));
                    None
                } else {
                    Some(MetadataError::CargoFeatureNameInvalid { got: text(s.as_str()) })
                }
            },
            _ => Some(unexpected("features", "[package.metadata.frieze]", "an array of strings")),
        };
        if let Some(e) = failure {
            proof {
                lemma_feature_failure_persists(items@, i + 1, items@.len() as int);
                assert(items@.take(items@.len() as int) =~= items@);
            }
            return Err(e);
        }
        i = i + 1;
    }
    assert(items@.take(items@.len() as int) =~= items@);
    Ok(names)
}

/// The optional `oas-version` value.
fn oas_version(section: &Vec<(String, Toml)>) -> (r: Result<Option<String>, MetadataError>)
    ensures
        match r {
            Ok(v) => oas_version_spec(section@) == Ok::<Option<Seq<char>>, MetaFailure>(
                opt_view(v),
            ),
            Err(e) => oas_version_spec(section@) == Err::<Option<Seq<char>>, MetaFailure>(
                meta_failure(e),
            ),
        },
{
    match entry(section, "oas-version") {
        None => Ok(None),
        Some(Toml::Str(s)) => {
            if str_equal(s.as_str(), "3.0") || str_equal(s.as_str(), "3.1") {
                Ok(Some(text(s.as_str())))
            } else {
                let mut out: Vec<char> = Vec::new();
                push_str(&mut out, "invalid `oas-version` value `");
                push_str(&mut out, s.as_str());
                push_str(&mut out, "`: expected \"3.0\" or \"3.1\"");
                Err(
                    MetadataError::OasVersionCheckInvalid {
                        got: text(s.as_str()),
                        message: string_from_chars(&out),
                    },
                )
            }
        },
        Some(_) => Err(unexpected("oas-version", "[package.metadata.frieze]", "a string")),
    }
}

/// Every `outputs` entry in order; the first that fails decides.
fn outputs_of(root: &str, items: &Vec<Toml>) -> (r: Result<Vec<RawOutput>, MetadataError>)
    ensures
        match r {
            Ok(v) => outputs_upto(root@, items@, items@.len() as int) == Ok::<
                Seq<(Seq<char>, Seq<char>, Seq<char>)>,
                MetaFailure,
            >(v@.map_values(|o: RawOutput| (o.name@, o.partial@, o.output@))),
            Err(e) => outputs_upto(root@, items@, items@.len() as int) == Err::<
                Seq<(Seq<char>, Seq<char>, Seq<char>)>,
                MetaFailure,
            >(meta_failure(e)),
        },
{
    let mut outputs: Vec<RawOutput> = Vec::new();
    let mut i: usize = 0;
    assert(outputs@.map_values(|o: RawOutput| (o.name@, o.partial@, o.output@)) =~= Seq::<
        (Seq<char>, Seq<char>, Seq<char>),
    >::empty());
    while i < items.len()
        invariant
            i <= items@.len(),
            outputs_upto(root@, items@, i as int) == Ok::<
                Seq<(Seq<char>, Seq<char>, Seq<char>)>,
                MetaFailure,
            >(outputs@.map_values(|o: RawOutput| (o.name@, o.partial@, o.output@))),
        decreases items@.len() - i,
    {
        match output_config(root, &items[i]) {
            Ok(o) => {
                let ghost before = outputs@.map_values(|x: RawOutput| (x.name@, x.partial@, x.output@));
                outputs.push(o);
                assert(outputs@.map_values(|x: RawOutput| (x.name@, x.partial@, x.output@))
                    =~= before.push((o.name@, o.partial@, o.output@)));
            },
            Err(e) => {
                proof {
                    lemma_outputs_failure_persists(root@, items@, i + 1, items@.len() as int);
                }
                return Err(e);
            },
        }
        i = i + 1;
    }
    Ok(outputs)
}

/// Reads the section of the manifest `manifest` of the package whose
/// root directory is `root`.
pub fn read_metadata(root: &str, manifest: &Toml) -> (r: Result<RawMetadata, MetadataError>)
    ensures
        match r {
            Ok(m) => metadata_spec(root@, *manifest) == Ok::<MetadataModel, MetaFailure>(
                metadata_model(m),
            ),
            Err(e) => metadata_spec(root@, *manifest) == Err::<MetadataModel, MetaFailure>(
                meta_failure(e),
            ),
        },
{
    let package = match manifest {
        Toml::Table(t) => match entry(t, "package") {
            Some(Toml::Table(p)) => p,
            _ => {
                return Err(MetadataError::MissingPackageTable);
            },
        },
        _ => {
            return Err(MetadataError::MissingPackageTable);
        },
    };
    let package_name = match required_str(package, "name", "[package]") {
        Ok(s) => s,
        Err(e) => {
            return Err(e);
        },
    };
    let section = match entry(package, "metadata") {
        Some(Toml::Table(m)) => entry(m, "frieze"),
        _ => None,
    };
    let section = match section {
        None => {
            return Err(MetadataError::MissingFriezeSection);
        },
        Some(Toml::Table(s)) => s,
        Some(_) => {
            return Err(unexpected("frieze", "[package.metadata]", "a table"));
        },
    };
    let known = section_keys_exec();
    if let Some(key) = find_unknown(section, &known) {
        return Err(MetadataError::UnknownKey { key, table: text("[package.metadata.frieze]") });
    }
    let features = match features(section) {
        Ok(v) => v,
        Err(e) => {
            return Err(e);
        },
    };
    let oas_version = match oas_version(section) {
        Ok(v) => v,
        Err(e) => {
            return Err(e);
        },
    };
    let empty: Vec<Toml> = Vec::new();
    let items = match entry(section, "outputs") {
        None => &empty,
        Some(Toml::Array(v)) => v,
        Some(_) => {
            return Err(unexpected("outputs", "[package.metadata.frieze]", "an array of tables"));
        },
    };
    if items.len() == 0 {
        return Err(MetadataError::NoOutputsDefined);
    }
    let outputs = match outputs_of(root, items) {
        Ok(v) => v,
        Err(e) => {
            return Err(e);
        },
    };
    Ok(RawMetadata { package_name, features, oas_version, outputs })
}

} // verus!
