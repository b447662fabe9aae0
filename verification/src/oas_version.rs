//! The major.minor OAS discriminant lifted from an `openapi:` string.
//!
//! The full patch string a user wrote is kept verbatim elsewhere;
//! [`OasVersion`] only records whether a document is `3.0.x` or `3.1.x`.

use vstd::prelude::*;

use crate::text::{chars_of, push_all, push_str, string_from_chars};

verus! {

/// Major.minor OpenAPI Specification version.
#[derive(Copy, Clone, Debug, PartialEq, Eq, Structural, Hash)]
pub enum OasVersion {
    /// OpenAPI Specification 3.0.x.
    V3_0,
    /// OpenAPI Specification 3.1.x.
    V3_1,
}

/// Errors from [`OasVersion::parse_from_openapi`].
#[derive(Debug, Clone, PartialEq, Eq)]
pub enum OasVersionParseError {
    /// The input string is empty.
    Empty,
    /// The input string does not name a supported major.minor range.
    Unsupported { got: String },
}

/// The index of the first occurrence of `c` in `s`, if any.
pub open spec fn first_index(s: Seq<char>, c: char) -> Option<int>
    decreases s.len(),
{
    if s.len() == 0 {
        None
    } else if s[0] == c {
        Some(0)
    } else {
        match first_index(s.drop_first(), c) {
            Some(i) => Some(i + 1),
            None => None,
        }
    }
}

/// The `major.minor` part of an `openapi:` string: everything before its
/// second `.` (the whole string when it has only one). `None` when the
/// string has no `.` at all.
pub open spec fn major_minor(s: Seq<char>) -> Option<Seq<char>> {
    match first_index(s, '.') {
        None => None,
        Some(i) => match first_index(s.skip(i + 1), '.') {
            None => Some(s),
            Some(j) => Some(s.take(i + 1 + j)),
        },
    }
}

/// The version an `openapi:` string denotes, if any.
pub open spec fn oas_version_denoted(s: Seq<char>) -> Option<OasVersion> {
    match major_minor(s) {
        Some(mm) => if mm == seq!['3', '.', '0'] {
            Some(OasVersion::V3_0)
        } else if mm == seq!['3', '.', '1'] {
            Some(OasVersion::V3_1)
        } else {
            None
        },
        None => None,
    }
}

/// The canonical patch string of each major.minor.
pub open spec fn canonical_patch(v: OasVersion) -> Seq<char> {
    match v {
        OasVersion::V3_0 => seq!['3', '.', '0', '.', '3'],
        OasVersion::V3_1 => seq!['3', '.', '1', '.', '0'],
    }
}

proof fn lemma_first_index_bounds(s: Seq<char>, c: char)
    ensures
        first_index(s, c) matches Some(i) ==> 0 <= i < s.len() && s[i] == c,
        first_index(s, c) matches Some(i) ==> forall|k: int| 0 <= k < i ==> s[k] != c,
        first_index(s, c) is None ==> forall|k: int| 0 <= k < s.len() ==> s[k] != c,
    decreases s.len(),
{
    if s.len() > 0 {
        lemma_first_index_bounds(s.drop_first(), c);
        assert forall|k: int| 1 <= k < s.len() implies s[k] == s.drop_first()[k - 1] by {}
    }
}

proof fn lemma_first_index_is(s: Seq<char>, c: char, i: int)
    requires
        0 <= i <= s.len(),
        forall|k: int| 0 <= k < i ==> s[k] != c,
        i == s.len() || s[i] == c,
    ensures
        first_index(s, c) == (if i == s.len() { None } else { Some(i) }),
    decreases s.len(),
{
    if s.len() > 0 && i > 0 {
        lemma_first_index_is(s.drop_first(), c, i - 1);
    }
}

/// The position of the first `c` at or after `from`, or `s.len()`.
fn scan_for(s: &Vec<char>, c: char, from: usize) -> (r: usize)
    requires
        from <= s@.len(),
    ensures
        from <= r <= s@.len(),
        forall|k: int| from <= k < r ==> s@[k] != c,
        r < s@.len() ==> s@[r as int] == c,
{
    let mut i = from;
    while i < s.len()
        invariant
            from <= i <= s@.len(),
            forall|k: int| from <= k < i ==> s@[k] != c,
        decreases s@.len() - i,
    {
        if s[i] == c {
            return i;
        }
        i = i + 1;
    }
    i
}

impl OasVersion {
    /// Canonical patch string for this major.minor, used when a document
    /// is constructed programmatically.
    pub fn openapi_string(self) -> (r: &'static str)
        ensures
            r@ == canonical_patch(self),
    {
        match self {
            OasVersion::V3_0 => {
                proof {
                    reveal_strlit("3.0.3");
                }
                "3.0.3"
            },
            OasVersion::V3_1 => {
                proof {
                    reveal_strlit("3.1.0");
                }
                "3.1.0"
            },
        }
    }

    /// Parses an OpenAPI document's `openapi:` field into a major.minor
    /// [`OasVersion`].
    ///
    /// The major.minor part is the text before the second `.` (or the
    /// whole string when there is only one); it must be `3.0` or `3.1`.
    /// Empty strings yield [`OasVersionParseError::Empty`]; anything else
    /// outside the supported range yields
    /// [`OasVersionParseError::Unsupported`].
    pub fn parse_from_openapi(s: &str) -> (r: Result<OasVersion, OasVersionParseError>)
        ensures
            s@.len() == 0 ==> r == Err::<OasVersion, OasVersionParseError>(
                OasVersionParseError::Empty,
            ),
            s@.len() > 0 ==> match r {
                Ok(v) => oas_version_denoted(s@) == Some(v),
                Err(OasVersionParseError::Unsupported { got }) => oas_version_denoted(s@) is None
                    && got@ == s@,
                Err(OasVersionParseError::Empty) => false,
            },
    {
        let chars = chars_of(s);
        let ghost sv = chars@;
        if chars.len() == 0 {
            return Err(OasVersionParseError::Empty);
        }
        let first = scan_for(&chars, '.', 0);
        proof {
            lemma_first_index_is(sv, '.', first as int);
        }
        if first == chars.len() {
            return Err(OasVersionParseError::Unsupported { got: string_from_chars(&chars) });
        }
        let second = scan_for(&chars, '.', first + 1);
        proof {
            let rest = sv.skip(first + 1);
            let j = second - (first + 1);
            assert forall|k: int| 0 <= k < j implies rest[k] != '.' by {
                assert(rest[k] == sv[first + 1 + k]);
            }
            if second < chars.len() {
                assert(rest[j] == sv[second as int]);
            }
            lemma_first_index_is(rest, '.', j);
        }
        // `end` is the length of the major.minor part.
        let end = second;
        let ghost mm = sv.take(end as int);
        proof {
            if second == chars.len() {
                assert(mm == sv);
            }
            assert(major_minor(sv) == Some(mm));
        }
        if end == 3 && chars[0] == '3' && chars[1] == '.' {
            if chars[2] == '0' {
                assert(mm =~= seq!['3', '.', '0']);
                return Ok(OasVersion::V3_0);
            }
            if chars[2] == '1' {
                assert(mm =~= seq!['3', '.', '1']);
                return Ok(OasVersion::V3_1);
            }
        }
        proof {
            if mm == seq!['3', '.', '0'] || mm == seq!['3', '.', '1'] {
                assert(mm.len() == 3);
                assert(mm[0] == sv[0] && mm[1] == sv[1] && mm[2] == sv[2]);
            }
        }
        Err(OasVersionParseError::Unsupported { got: string_from_chars(&chars) })
    }
}

impl Default for OasVersion {
    /// Defaults to [`OasVersion::V3_0`], for containers that require a
    /// default; explicit construction is still preferred.
    fn default() -> (r: Self)
        ensures
            r == OasVersion::V3_0,
    {
        OasVersion::V3_0
    }
}

impl OasVersionParseError {
    /// The human-readable description of the error.
    pub fn message(&self) -> (r: String)
        ensures
            r@ == match self {
                OasVersionParseError::Empty => "`openapi` field is empty"@,
                OasVersionParseError::Unsupported { got } => "unsupported OAS version `"@ + got@
                    + "`; supported: 3.0.x, 3.1.x"@,
            },
    {
        let mut out: Vec<char> = Vec::new();
        match self {
            OasVersionParseError::Empty => {
                push_str(&mut out, "`openapi` field is empty");
            },
            OasVersionParseError::Unsupported { got } => {
                push_str(&mut out, "unsupported OAS version `");
                let g = chars_of(got.as_str());
                push_all(&mut out, &g);
                push_str(&mut out, "`; supported: 3.0.x, 3.1.x");
            },
        }
        string_from_chars(&out)
    }
}

} // verus!
