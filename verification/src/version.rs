//! The OpenAPI Specification version as runtime data.
//!
//! [`Version`] is the major.minor discriminant of the OAS version that a
//! document targets. OAS patch releases (3.0.0 / 3.0.3 / 3.1.0 / 3.1.1,
//! ...) contain editorial clarifications only, so anything that switches
//! on OAS shape only has to distinguish `3.0.x` from `3.1.x`.

use vstd::prelude::*;

use crate::text::{chars_of, push_all, push_str, string_from_chars};

verus! {

/// Major.minor OpenAPI Specification version.
///
/// There is deliberately no `Default`: the version always comes from
/// explicit input.
#[derive(Copy, Clone, Debug, PartialEq, Eq, Structural, Hash)]
pub enum Version {
    /// OpenAPI Specification 3.0.x.
    V3_0,
    /// OpenAPI Specification 3.1.x.
    V3_1,
}

/// Errors from [`Version::parse_from_openapi`].
#[derive(Debug, Clone, PartialEq, Eq)]
pub enum VersionParseError {
    /// The `openapi` version string is empty.
    Empty,
    /// The `openapi` version string is outside the supported major.minor
    /// range (`3.0.x` / `3.1.x`).
    Unsupported {
        /// The rejected version string, verbatim.
        got: String,
    },
}

/// `s` is `3.<minor>` alone, or `3.<minor>.` followed by a non-empty
/// patch part.
pub open spec fn is_release_of(s: Seq<char>, minor: char) -> bool {
    &&& s.len() >= 3
    &&& s[0] == '3'
    &&& s[1] == '.'
    &&& s[2] == minor
    &&& (s.len() == 3 || (s[3] == '.' && s.len() > 4))
}

/// The version an `openapi:` string denotes, if it is in the supported
/// range.
pub open spec fn version_denoted(s: Seq<char>) -> Option<Version> {
    if is_release_of(s, '0') {
        Some(Version::V3_0)
    } else if is_release_of(s, '1') {
        Some(Version::V3_1)
    } else {
        None
    }
}

/// The canonical `openapi:` string of each version.
pub open spec fn canonical_openapi(v: Version) -> Seq<char> {
    match v {
        Version::V3_0 => seq!['3', '.', '0', '.', '3'],
        Version::V3_1 => seq!['3', '.', '1', '.', '0'],
    }
}

/// The message of an empty `openapi` string.
pub open spec fn empty_version_message() -> Seq<char> {
    "the `openapi` version string is empty"@
}

/// The message of an unsupported `openapi` string.
pub open spec fn unsupported_version_message(got: Seq<char>) -> Seq<char> {
    "unsupported OAS version `"@ + got + "`; supported: 3.0.x, 3.1.x"@
}

/// `true` when `s` denotes a release of the line `3.<minor>`.
fn release_of(s: &Vec<char>, minor: char) -> (r: bool)
    ensures
        r == is_release_of(s@, minor),
{
    if s.len() < 3 || s[0] != '3' || s[1] != '.' || s[2] != minor {
        return false;
    }
    s.len() == 3 || (s[3] == '.' && s.len() > 4)
}

impl Version {
    /// The canonical `openapi:` field string for this version, used when
    /// a document is constructed programmatically.
    pub fn openapi_string(self) -> (r: &'static str)
        ensures
            r@ == canonical_openapi(self),
    {
        match self {
            Version::V3_0 => {
                proof {
                    reveal_strlit("3.0.3");
                }
                "3.0.3"
            },
            Version::V3_1 => {
                proof {
                    reveal_strlit("3.1.0");
                }
                "3.1.0"
            },
        }
    }

    /// Parses an OpenAPI document's `openapi:` field into a major.minor
    /// version.
    ///
    /// Accepts the bare major.minor forms (`"3.0"`, `"3.1"`) and any patch
    /// release in the supported range (`"3.0.3"`, `"3.1.10"`, ...); the
    /// patch part is not interpreted. An empty string yields
    /// [`VersionParseError::Empty`]; anything else yields
    /// [`VersionParseError::Unsupported`].
    pub fn parse_from_openapi(s: &str) -> (r: Result<Version, VersionParseError>)
        ensures
            s@.len() == 0 ==> r == Err::<Version, VersionParseError>(VersionParseError::Empty),
            s@.len() > 0 ==> match r {
                Ok(v) => version_denoted(s@) == Some(v),
                Err(VersionParseError::Unsupported { got }) => version_denoted(s@) is None
                    && got@ == s@,
                Err(VersionParseError::Empty) => false,
            },
    {
        let chars = chars_of(s);
        if chars.len() == 0 {
            return Err(VersionParseError::Empty);
        }
        if release_of(&chars, '0') {
            return Ok(Version::V3_0);
        }
        if release_of(&chars, '1') {
            return Ok(Version::V3_1);
        }
        Err(VersionParseError::Unsupported { got: string_from_chars(&chars) })
    }
}

impl VersionParseError {
    /// The human-readable description of the error.
    pub fn message(&self) -> (r: String)
        ensures
            r@ == match self {
                VersionParseError::Empty => empty_version_message(),
                VersionParseError::Unsupported { got } => unsupported_version_message(got@),
            },
    {
        let mut out: Vec<char> = Vec::new();
        match self {
            VersionParseError::Empty => {
                push_str(&mut out, "the `openapi` version string is empty");
            },
            VersionParseError::Unsupported { got } => {
                push_str(&mut out, "unsupported OAS version `");
                let g = chars_of(got.as_str());
                push_all(&mut out, &g);
                push_str(&mut out, "`; supported: 3.0.x, 3.1.x");
            },
        }
        string_from_chars(&out)
    }
}

} // verus!
