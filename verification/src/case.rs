//! Character case mappings: the ASCII ones written out, the Unicode ones
//! of other characters taken from the standard library.

use vstd::prelude::*;

verus! {

/// `c` is an ASCII uppercase letter.
pub open spec fn is_ascii_upper(c: char) -> bool {
    'A' <= c && c <= 'Z'
}

/// `c` is an ASCII lowercase letter.
pub open spec fn is_ascii_lower(c: char) -> bool {
    'a' <= c && c <= 'z'
}

/// The ASCII lowercase of `c`; any other character is unchanged.
pub open spec fn ascii_lower_char(c: char) -> char {
    if is_ascii_upper(c) {
        ((c as u32) + 32) as char
    } else {
        c
    }
}

/// The ASCII uppercase of `c`; any other character is unchanged.
pub open spec fn ascii_upper_char(c: char) -> char {
    if is_ascii_lower(c) {
        ((c as u32) - 32) as char
    } else {
        c
    }
}

/// The ASCII lowercase of every character of `s`.
pub open spec fn ascii_lower(s: Seq<char>) -> Seq<char> {
    s.map_values(|c: char| ascii_lower_char(c))
}

/// The ASCII uppercase of every character of `s`.
pub open spec fn ascii_upper(s: Seq<char>) -> Seq<char> {
    s.map_values(|c: char| ascii_upper_char(c))
}

/// `s` with every `from` replaced by `to`.
pub open spec fn replace_char(s: Seq<char>, from: char, to: char) -> Seq<char> {
    s.map_values(|c: char| if c == from {
        to
    } else {
        c
    })
}

/// `c` is an ASCII character.
pub open spec fn is_ascii_char(c: char) -> bool {
    c <= '\x7f'
}

/// The Unicode lowercase mapping of `c` (one or more characters), as
/// `char::to_lowercase` yields it.
pub uninterp spec fn lowercase_mapping(c: char) -> Seq<char>;

/// The Unicode uppercase mapping of `c` (one or more characters), as
/// `char::to_uppercase` yields it.
pub uninterp spec fn uppercase_mapping(c: char) -> Seq<char>;

/// The characters `char::to_lowercase` yields for `c`; the contract names
/// them `lowercase_mapping(c)`, a function of `c` alone.
#[verifier::external_body]
pub(crate) fn lowercase_of(c: char) -> (r: Vec<char>)
    ensures
        r@ == lowercase_mapping(c),
{
    c.to_lowercase().collect()
}

/// The characters `char::to_uppercase` yields for `c`; the contract names
/// them `uppercase_mapping(c)`, a function of `c` alone.
#[verifier::external_body]
pub(crate) fn uppercase_of(c: char) -> (r: Vec<char>)
    ensures
        r@ == uppercase_mapping(c),
{
    c.to_uppercase().collect()
}

/// The lowercase of `c` as `char::to_lowercase` yields it: the ASCII
/// lowercase for an ASCII character, the Unicode mapping otherwise.
pub open spec fn lower_of_char(c: char) -> Seq<char> {
    if is_ascii_char(c) {
        seq![ascii_lower_char(c)]
    } else {
        lowercase_mapping(c)
    }
}

/// The uppercase of `c` as `char::to_uppercase` yields it: the ASCII
/// uppercase for an ASCII character, the Unicode mapping otherwise.
pub open spec fn upper_of_char(c: char) -> Seq<char> {
    if is_ascii_char(c) {
        seq![ascii_upper_char(c)]
    } else {
        uppercase_mapping(c)
    }
}

/// The lowercase of one character (the Unicode mapping of a non-ASCII
/// character comes from `char::to_lowercase`).
pub fn lower_chars(c: char) -> (r: Vec<char>)
    ensures
        r@ == lower_of_char(c),
{
    if c <= '\x7f' {
        let mut r: Vec<char> = Vec::new();
        r.push(to_ascii_lower_char(c));
        assert(r@ =~= seq![ascii_lower_char(c)]);
        r
    } else {
        lowercase_of(c)
    }
}

/// The uppercase of one character (the Unicode mapping of a non-ASCII
/// character comes from `char::to_uppercase`).
pub fn upper_chars(c: char) -> (r: Vec<char>)
    ensures
        r@ == upper_of_char(c),
{
    if c <= '\x7f' {
        let mut r: Vec<char> = Vec::new();
        r.push(to_ascii_upper_char(c));
        assert(r@ =~= seq![ascii_upper_char(c)]);
        r
    } else {
        uppercase_of(c)
    }
}

/// The ASCII lowercase of one character.
pub fn to_ascii_lower_char(c: char) -> (r: char)
    ensures
        r == ascii_lower_char(c),
{
    if 'A' <= c && c <= 'Z' {
        let code = (c as u8) + 32;
        code as char
    } else {
        c
    }
}

/// The ASCII uppercase of one character.
pub fn to_ascii_upper_char(c: char) -> (r: char)
    ensures
        r == ascii_upper_char(c),
{
    if 'a' <= c && c <= 'z' {
        let code = (c as u8) - 32;
        code as char
    } else {
        c
    }
}

} // verus!
