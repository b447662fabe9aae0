//! Wire-name calculation: serde's `rename` / `rename_all` rules,
//! identifier-to-wire renaming, and uniqueness checking.
//!
//! The precedence (individual `rename` > container `rename_all` > Rust
//! identifier) is implemented here so struct fields and enum variants
//! share one source of truth.

use vstd::prelude::*;

use crate::case::{
    ascii_lower, ascii_lower_char, ascii_upper, ascii_upper_char, is_ascii_lower, is_ascii_upper,
    lower_chars, lower_of_char, replace_char, to_ascii_lower_char, to_ascii_upper_char,
    upper_chars, upper_of_char,
};
use crate::text::{chars_of, debug_string, debug_text, push_all, push_str, string_from_chars};

verus! {

/// Serde's container-level `rename_all` modes.
#[derive(Debug, Clone, Copy, PartialEq, Eq, Structural)]
pub enum RenameAll {
    Unchanged,
    Lowercase,
    Uppercase,
    PascalCase,
    CamelCase,
    SnakeCase,
    ScreamingSnakeCase,
    KebabCase,
    ScreamingKebabCase,
}

/// Site at which a `rename_all` rule is applied: serde uses different
/// rules for struct fields (input shape `snake_case`) and enum variants
/// (input shape `PascalCase`).
#[derive(Debug, Clone, Copy, PartialEq, Eq, Structural)]
pub enum RenameTarget {
    Field,
    Variant,
}

/// `s` with the lowercase mapping applied to its first character.
pub open spec fn lower_first(s: Seq<char>) -> Seq<char> {
    if s.len() == 0 {
        s
    } else {
        lower_of_char(s[0]) + s.skip(1)
    }
}

/// PascalCase / camelCase to snake_case, serde's variant rule: `_` before
/// every ASCII uppercase letter except the first character, then the
/// lowercase of every character.
pub open spec fn snake_of(s: Seq<char>) -> Seq<char>
    decreases s.len(),
{
    if s.len() == 0 {
        s
    } else {
        snake_of(s.drop_last()) + (if s.len() > 1 && is_ascii_upper(s.last()) {
            seq!['_']
        } else {
            Seq::<char>::empty()
        }) + lower_of_char(s.last())
    }
}

/// snake_case to PascalCase, serde's field rule, from a state where the
/// next letter is capitalised when `capitalise` holds: every `_` is
/// dropped and capitalises the letter after it.
pub open spec fn pascal_from(s: Seq<char>, capitalise: bool) -> Seq<char>
    decreases s.len(),
{
    if s.len() == 0 {
        s
    } else if s[0] == '_' {
        pascal_from(s.skip(1), true)
    } else if capitalise {
        upper_of_char(s[0]) + pascal_from(s.skip(1), false)
    } else {
        seq![s[0]] + pascal_from(s.skip(1), false)
    }
}

/// snake_case to PascalCase.
pub open spec fn pascal_of(s: Seq<char>) -> Seq<char> {
    pascal_from(s, true)
}

/// The variant rule (canonical input `PascalCase`).
pub open spec fn variant_rule(rule: RenameAll, s: Seq<char>) -> Seq<char> {
    match rule {
        RenameAll::Unchanged | RenameAll::PascalCase => s,
        RenameAll::Lowercase => ascii_lower(s),
        RenameAll::Uppercase => ascii_upper(s),
        RenameAll::CamelCase => lower_first(s),
        RenameAll::SnakeCase => snake_of(s),
        RenameAll::ScreamingSnakeCase => ascii_upper(snake_of(s)),
        RenameAll::KebabCase => replace_char(snake_of(s), '_', '-'),
        RenameAll::ScreamingKebabCase => replace_char(ascii_upper(snake_of(s)), '_', '-'),
    }
}

/// The field rule (canonical input `snake_case`).
pub open spec fn field_rule(rule: RenameAll, s: Seq<char>) -> Seq<char> {
    match rule {
        RenameAll::Unchanged | RenameAll::Lowercase | RenameAll::SnakeCase => s,
        RenameAll::Uppercase | RenameAll::ScreamingSnakeCase => ascii_upper(s),
        RenameAll::PascalCase => pascal_of(s),
        RenameAll::CamelCase => lower_first(pascal_of(s)),
        RenameAll::KebabCase => replace_char(s, '_', '-'),
        RenameAll::ScreamingKebabCase => replace_char(ascii_upper(s), '_', '-'),
    }
}

/// The rule applied at a site.
pub open spec fn apply_rule(rule: RenameAll, s: Seq<char>, target: RenameTarget) -> Seq<char> {
    match target {
        RenameTarget::Field => field_rule(rule, s),
        RenameTarget::Variant => variant_rule(rule, s),
    }
}

/// The ASCII lowercase of `s`.
fn ascii_lowercase(s: &Vec<char>) -> (r: Vec<char>)
    ensures
        r@ == ascii_lower(s@),
{
    let mut out: Vec<char> = Vec::new();
    let mut i: usize = 0;
    while i < s.len()
        invariant
            i <= s@.len(),
            out@ =~= ascii_lower(s@.take(i as int)),
        decreases s@.len() - i,
    {
        out.push(to_ascii_lower_char(s[i]));
        i = i + 1;
        assert(out@ =~= ascii_lower(s@.take(i as int)));
    }
    assert(s@.take(s@.len() as int) == s@);
    out
}

/// The ASCII uppercase of `s`.
fn ascii_uppercase(s: &Vec<char>) -> (r: Vec<char>)
    ensures
        r@ == ascii_upper(s@),
{
    let mut out: Vec<char> = Vec::new();
    let mut i: usize = 0;
    while i < s.len()
        invariant
            i <= s@.len(),
            out@ =~= ascii_upper(s@.take(i as int)),
        decreases s@.len() - i,
    {
        out.push(to_ascii_upper_char(s[i]));
        i = i + 1;
        assert(out@ =~= ascii_upper(s@.take(i as int)));
    }
    assert(s@.take(s@.len() as int) == s@);
    out
}

/// `s` with every `from` replaced by `to`.
pub(crate) fn replace(s: &Vec<char>, from: char, to: char) -> (r: Vec<char>)
    ensures
        r@ == replace_char(s@, from, to),
{
    let mut out: Vec<char> = Vec::new();
    let mut i: usize = 0;
    while i < s.len()
        invariant
            i <= s@.len(),
            out@ =~= replace_char(s@.take(i as int), from, to),
        decreases s@.len() - i,
    {
        let c = s[i];
        if c == from {
            out.push(to);
        } else {
            out.push(c);
        }
        i = i + 1;
        assert(out@ =~= replace_char(s@.take(i as int), from, to));
    }
    assert(s@.take(s@.len() as int) == s@);
    out
}

/// The Unicode lowercase of the first character, the rest unchanged.
fn lowercase_first(s: &Vec<char>) -> (r: Vec<char>)
    ensures
        r@ == lower_first(s@),
{
    if s.len() == 0 {
        return Vec::new();
    }
    let mut out = lower_chars(s[0]);
    let mut i: usize = 1;
    while i < s.len()
        invariant
            1 <= i <= s@.len(),
            out@ =~= lower_of_char(s@[0]) + s@.subrange(1, i as int),
        decreases s@.len() - i,
    {
        out.push(s[i]);
        i = i + 1;
    }
    assert(s@.subrange(1, s@.len() as int) =~= s@.skip(1));
    out
}

/// PascalCase / camelCase to snake_case (serde's variant rule).
pub fn pascal_or_camel_to_snake(variant: &Vec<char>) -> (r: Vec<char>)
    ensures
        r@ == snake_of(variant@),
{
    let mut out: Vec<char> = Vec::new();
    let mut i: usize = 0;
    while i < variant.len()
        invariant
            i <= variant@.len(),
            out@ == snake_of(variant@.take(i as int)),
        decreases variant@.len() - i,
    {
        let ch = variant[i];
        proof {
            let t = variant@.take(i + 1);
            assert(t.drop_last() =~= variant@.take(i as int));
            assert(t.last() == ch);
        }
        if i > 0 && 'A' <= ch && ch <= 'Z' {
            out.push('_');
        }
        let lower = lower_chars(ch);
        push_all(&mut out, &lower);
        i = i + 1;
        proof {
            let t = variant@.take(i as int);
            let u: Seq<char> = if t.len() > 1 && is_ascii_upper(t.last()) {
                seq!['_']
            } else {
                Seq::<char>::empty()
            };
            assert(out@ =~= snake_of(t.drop_last()) + u + lower_of_char(t.last()));
        }
    }
    assert(variant@.take(variant@.len() as int) == variant@);
    out
}

proof fn lemma_pascal_step(s: Seq<char>, i: int, capitalise: bool)
    requires
        0 <= i < s.len(),
    ensures
        pascal_from(s.skip(i), capitalise) == if s[i] == '_' {
            pascal_from(s.skip(i + 1), true)
        } else if capitalise {
            upper_of_char(s[i]) + pascal_from(s.skip(i + 1), false)
        } else {
            seq![s[i]] + pascal_from(s.skip(i + 1), false)
        },
{
    assert(s.skip(i).skip(1) =~= s.skip(i + 1));
}

/// snake_case to PascalCase (serde's field rule).
pub fn snake_to_pascal(field: &Vec<char>) -> (r: Vec<char>)
    ensures
        r@ == pascal_of(field@),
{
    let mut out: Vec<char> = Vec::new();
    let mut capitalise_next = true;
    let mut i: usize = 0;
    assert(field@.skip(0) =~= field@);
    assert(out@ + pascal_from(field@.skip(0), true) =~= pascal_from(field@, true));
    while i < field.len()
        invariant
            i <= field@.len(),
            out@ + pascal_from(field@.skip(i as int), capitalise_next) == pascal_of(field@),
        decreases field@.len() - i,
    {
        let ch = field[i];
        proof {
            lemma_pascal_step(field@, i as int, capitalise_next);
        }
        let ghost before = out@;
        if ch == '_' {
            capitalise_next = true;
        } else if capitalise_next {
            let upper = upper_chars(ch);
            push_all(&mut out, &upper);
            capitalise_next = false;
            assert(before + (upper_of_char(ch) + pascal_from(field@.skip(i + 1), false))
                =~= out@ + pascal_from(field@.skip(i + 1), false));
        } else {
            out.push(ch);
            assert(before + (seq![ch] + pascal_from(field@.skip(i + 1), false)) =~= out@
                + pascal_from(field@.skip(i + 1), false));
        }
        i = i + 1;
    }
    assert(field@.skip(field@.len() as int) =~= Seq::<char>::empty());
    assert(out@ + Seq::<char>::empty() =~= out@);
    out
}

impl RenameAll {
    /// Applies the rule to an identifier, picking the field or the
    /// variant branch from `target`, as serde does on the wire.
    pub fn apply(self, name: &str, target: RenameTarget) -> (r: String)
        ensures
            r@ == apply_rule(self, name@, target),
    {
        let chars = chars_of(name);
        let out = match target {
            RenameTarget::Field => self.apply_to_field(&chars),
            RenameTarget::Variant => self.apply_to_variant(&chars),
        };
        string_from_chars(&out)
    }

    /// Variant rule: canonical input is `PascalCase`.
    pub fn apply_to_variant(self, variant: &Vec<char>) -> (r: Vec<char>)
        ensures
            r@ == variant_rule(self, variant@),
    {
        match self {
            RenameAll::Unchanged | RenameAll::PascalCase => variant.clone(),
            RenameAll::Lowercase => ascii_lowercase(variant),
            RenameAll::Uppercase => ascii_uppercase(variant),
            RenameAll::CamelCase => lowercase_first(variant),
            RenameAll::SnakeCase => pascal_or_camel_to_snake(variant),
            RenameAll::ScreamingSnakeCase => ascii_uppercase(&pascal_or_camel_to_snake(variant)),
            RenameAll::KebabCase => replace(&pascal_or_camel_to_snake(variant), '_', '-'),
            RenameAll::ScreamingKebabCase => replace(
                &ascii_uppercase(&pascal_or_camel_to_snake(variant)),
                '_',
                '-',
            ),
        }
    }

    /// Field rule: canonical input is `snake_case`.
    pub fn apply_to_field(self, field: &Vec<char>) -> (r: Vec<char>)
        ensures
            r@ == field_rule(self, field@),
    {
        match self {
            RenameAll::Unchanged | RenameAll::Lowercase | RenameAll::SnakeCase => field.clone(),
            RenameAll::Uppercase | RenameAll::ScreamingSnakeCase => ascii_uppercase(field),
            RenameAll::PascalCase => snake_to_pascal(field),
            RenameAll::CamelCase => lowercase_first(&snake_to_pascal(field)),
            RenameAll::KebabCase => replace(field, '_', '-'),
            RenameAll::ScreamingKebabCase => replace(&ascii_uppercase(field), '_', '-'),
        }
    }
}

/// The diagnostic for an empty wire name.
pub const EMPTY_RENAME_MSG: &'static str = "frieze: `#[serde(rename = \"\")]` is not supported. The wire name must be a non-empty string.";

/// The attribute literal of each mode (empty for [`RenameAll::Unchanged`]).
pub open spec fn rule_label(rule: RenameAll) -> Seq<char> {
    match rule {
        RenameAll::Unchanged => Seq::<char>::empty(),
        RenameAll::Lowercase => "lowercase"@,
        RenameAll::Uppercase => "UPPERCASE"@,
        RenameAll::PascalCase => "PascalCase"@,
        RenameAll::CamelCase => "camelCase"@,
        RenameAll::SnakeCase => "snake_case"@,
        RenameAll::ScreamingSnakeCase => "SCREAMING_SNAKE_CASE"@,
        RenameAll::KebabCase => "kebab-case"@,
        RenameAll::ScreamingKebabCase => "SCREAMING-KEBAB-CASE"@,
    }
}

/// The mode a `rename_all` literal names, if any.
pub open spec fn rule_named(s: Seq<char>) -> Option<RenameAll> {
    if s == "lowercase"@ {
        Some(RenameAll::Lowercase)
    } else if s == "UPPERCASE"@ {
        Some(RenameAll::Uppercase)
    } else if s == "PascalCase"@ {
        Some(RenameAll::PascalCase)
    } else if s == "camelCase"@ {
        Some(RenameAll::CamelCase)
    } else if s == "snake_case"@ {
        Some(RenameAll::SnakeCase)
    } else if s == "SCREAMING_SNAKE_CASE"@ {
        Some(RenameAll::ScreamingSnakeCase)
    } else if s == "kebab-case"@ {
        Some(RenameAll::KebabCase)
    } else if s == "SCREAMING-KEBAB-CASE"@ {
        Some(RenameAll::ScreamingKebabCase)
    } else {
        None
    }
}

/// The diagnostic for an unsupported `rename_all` literal.
pub open spec fn unsupported_rule_message(value: Seq<char>) -> Seq<char> {
    "frieze: unsupported `rename_all` value `"@ + value
        + "`; supported values are lowercase, UPPERCASE, PascalCase, camelCase, snake_case, SCREAMING_SNAKE_CASE, kebab-case, SCREAMING-KEBAB-CASE."@
}

/// Human-readable label for a mode, as the user writes it in the
/// attribute.
pub fn rename_all_label(rule: RenameAll) -> (r: &'static str)
    ensures
        r@ == rule_label(rule),
{
    match rule {
        RenameAll::Unchanged => {
            proof {
                reveal_strlit("");
            }
            ""
        },
        RenameAll::Lowercase => "lowercase",
        RenameAll::Uppercase => "UPPERCASE",
        RenameAll::PascalCase => "PascalCase",
        RenameAll::CamelCase => "camelCase",
        RenameAll::SnakeCase => "snake_case",
        RenameAll::ScreamingSnakeCase => "SCREAMING_SNAKE_CASE",
        RenameAll::KebabCase => "kebab-case",
        RenameAll::ScreamingKebabCase => "SCREAMING-KEBAB-CASE",
    }
}

/// Translates a `rename_all` literal into its mode; any literal other
/// than the eight recognised ones is an error whose message lists them.
pub fn rename_all_from_str(value: &str) -> (r: Result<RenameAll, String>)
    ensures
        match r {
            Ok(m) => rule_named(value@) == Some(m),
            Err(msg) => rule_named(value@) is None && msg@ == unsupported_rule_message(value@),
        },
{
    if crate::text::str_equal(value, "lowercase") {
        return Ok(RenameAll::Lowercase);
    }
    if crate::text::str_equal(value, "UPPERCASE") {
        return Ok(RenameAll::Uppercase);
    }
    if crate::text::str_equal(value, "PascalCase") {
        return Ok(RenameAll::PascalCase);
    }
    if crate::text::str_equal(value, "camelCase") {
        return Ok(RenameAll::CamelCase);
    }
    if crate::text::str_equal(value, "snake_case") {
        return Ok(RenameAll::SnakeCase);
    }
    if crate::text::str_equal(value, "SCREAMING_SNAKE_CASE") {
        return Ok(RenameAll::ScreamingSnakeCase);
    }
    if crate::text::str_equal(value, "kebab-case") {
        return Ok(RenameAll::KebabCase);
    }
    if crate::text::str_equal(value, "SCREAMING-KEBAB-CASE") {
        return Ok(RenameAll::ScreamingKebabCase);
    }
    let mut out: Vec<char> = Vec::new();
    push_str(&mut out, "frieze: unsupported `rename_all` value `");
    push_str(&mut out, value);
    push_str(
        &mut out,
        "`; supported values are lowercase, UPPERCASE, PascalCase, camelCase, snake_case, SCREAMING_SNAKE_CASE, kebab-case, SCREAMING-KEBAB-CASE.",
    );
    Err(string_from_chars(&out))
}

/// A character of a snake_case identifier: a lowercase ASCII letter, an
/// ASCII digit or `_`.
pub open spec fn snake_ident_char(c: char) -> bool {
    is_ascii_lower(c) || ('0' <= c && c <= '9') || c == '_'
}

/// Every `_` of `s` is followed, within `s`, by a lowercase ASCII letter.
pub open spec fn underscores_open_words(s: Seq<char>) -> bool {
    forall|i: int|
        0 <= i < s.len() && #[trigger] s[i] == '_' ==> i + 1 < s.len() && is_ascii_lower(s[i + 1])
}

/// A snake_case identifier, `[a-z][a-z0-9]*(_[a-z][a-z0-9]*)*`.
pub open spec fn is_snake_ident(f: Seq<char>) -> bool {
    &&& f.len() > 0
    &&& is_ascii_lower(f[0])
    &&& forall|i: int| 0 <= i < f.len() ==> snake_ident_char(#[trigger] f[i])
    &&& underscores_open_words(f)
}

/// What `snake_of` makes of the characters after the first: `_` before
/// every ASCII uppercase letter, then the lowercase of every character.
pub open spec fn snake_rest(s: Seq<char>) -> Seq<char>
    decreases s.len(),
{
    if s.len() == 0 {
        s
    } else {
        snake_rest(s.drop_last()) + (if is_ascii_upper(s.last()) {
            seq!['_']
        } else {
            Seq::<char>::empty()
        }) + lower_of_char(s.last())
    }
}

proof fn lemma_snake_rest_concat(a: Seq<char>, b: Seq<char>)
    ensures
        snake_rest(a + b) == snake_rest(a) + snake_rest(b),
    decreases b.len(),
{
    if b.len() == 0 {
        assert(a + b =~= a);
        assert(snake_rest(a) + snake_rest(b) =~= snake_rest(a));
    } else {
        lemma_snake_rest_concat(a, b.drop_last());
        assert((a + b).drop_last() =~= a + b.drop_last());
        assert((a + b).last() == b.last());
        let u: Seq<char> = if is_ascii_upper(b.last()) {
            seq!['_']
        } else {
            Seq::<char>::empty()
        };
        assert(snake_rest(a + b) == snake_rest(a + b.drop_last()) + u + lower_of_char(b.last()));
        assert(snake_rest(b) == snake_rest(b.drop_last()) + u + lower_of_char(b.last()));
        assert(snake_rest(a) + snake_rest(b.drop_last()) + u + lower_of_char(b.last())
            =~= snake_rest(a) + (snake_rest(b.drop_last()) + u + lower_of_char(b.last())));
    }
}

proof fn lemma_snake_split(s: Seq<char>)
    requires
        s.len() > 0,
    ensures
        snake_of(s) == lower_of_char(s[0]) + snake_rest(s.skip(1)),
    decreases s.len(),
{
    if s.len() == 1 {
        assert(s.drop_last() =~= Seq::<char>::empty());
        assert(s.skip(1) =~= Seq::<char>::empty());
        assert(snake_of(Seq::<char>::empty()) == Seq::<char>::empty());
        assert(snake_rest(Seq::<char>::empty()) == Seq::<char>::empty());
        assert(snake_of(s) == snake_of(s.drop_last()) + Seq::<char>::empty() + lower_of_char(s.last()));
        assert(Seq::<char>::empty() + Seq::<char>::empty() + lower_of_char(s[0]) =~= lower_of_char(s[0]));
        assert(lower_of_char(s[0]) + Seq::<char>::empty() =~= lower_of_char(s[0]));
    } else {
        lemma_snake_split(s.drop_last());
        assert(s.drop_last()[0] == s[0]);
        assert(s.skip(1).drop_last() =~= s.drop_last().skip(1));
        assert(s.skip(1).last() == s.last());
        let u: Seq<char> = if is_ascii_upper(s.last()) {
            seq!['_']
        } else {
            Seq::<char>::empty()
        };
        assert(snake_of(s) == snake_of(s.drop_last()) + u + lower_of_char(s.last()));
        assert(snake_rest(s.skip(1)) == snake_rest(s.skip(1).drop_last()) + u + lower_of_char(
            s.skip(1).last(),
        ));
        assert(lower_of_char(s[0]) + snake_rest(s.drop_last().skip(1)) + u + lower_of_char(s.last())
            =~= lower_of_char(s[0]) + (snake_rest(s.drop_last().skip(1)) + u + lower_of_char(
            s.last(),
        )));
    }
}

proof fn lemma_single_snake_rest(c: char)
    ensures
        snake_rest(seq![c]) == (if is_ascii_upper(c) {
            seq!['_']
        } else {
            Seq::<char>::empty()
        }) + lower_of_char(c),
{
    let u: Seq<char> = if is_ascii_upper(c) {
        seq!['_']
    } else {
        Seq::<char>::empty()
    };
    assert(seq![c].drop_last() =~= Seq::<char>::empty());
    assert(seq![c].last() == c);
    assert(snake_rest(Seq::<char>::empty()) == Seq::<char>::empty());
    assert(snake_rest(seq![c]) == snake_rest(Seq::<char>::empty()) + u + lower_of_char(c));
    assert(Seq::<char>::empty() + u + lower_of_char(c) =~= u + lower_of_char(c));
}

proof fn lemma_pascal_snake_rest(s: Seq<char>, capitalise: bool)
    requires
        forall|i: int| 0 <= i < s.len() ==> snake_ident_char(#[trigger] s[i]),
        underscores_open_words(s),
        capitalise ==> s.len() > 0 && is_ascii_lower(s[0]),
    ensures
        snake_rest(pascal_from(s, capitalise)) == if capitalise {
            seq!['_'] + s
        } else {
            s
        },
    decreases s.len(),
{
    if s.len() == 0 {
    } else {
        let t = s.skip(1);
        assert forall|i: int| 0 <= i < t.len() implies snake_ident_char(#[trigger] t[i]) by {
            assert(t[i] == s[i + 1]);
        }
        assert forall|i: int| 0 <= i < t.len() && #[trigger] t[i] == '_' implies i + 1 < t.len()
            && is_ascii_lower(t[i + 1]) by {
            assert(t[i] == s[i + 1]);
            assert(s[i + 1] == '_');
        }
        if s[0] == '_' {
            assert(s[1] == t[0]);
            lemma_pascal_snake_rest(t, true);
            assert(seq!['_'] + t =~= s);
        } else if capitalise {
            let c = s[0];
            let up = ((c as u32) - 32) as char;
            assert(upper_of_char(c) == seq![up]);
            assert(is_ascii_upper(up));
            assert(ascii_lower_char(up) == c);
            lemma_pascal_snake_rest(t, false);
            lemma_snake_rest_concat(seq![up], pascal_from(t, false));
            lemma_single_snake_rest(up);
            assert(seq!['_'] + seq![c] + t =~= seq!['_'] + s);
        } else {
            let c = s[0];
            assert(!is_ascii_upper(c));
            assert(lower_of_char(c) == seq![c]);
            lemma_pascal_snake_rest(t, false);
            lemma_snake_rest_concat(seq![c], pascal_from(t, false));
            lemma_single_snake_rest(c);
            assert(Seq::<char>::empty() + seq![c] =~= seq![c]);
            assert(seq![c] + t =~= s);
        }
    }
}

/// Renaming a snake_case field identifier to PascalCase and the result
/// back to snake_case gives the identifier again.
pub proof fn law_snake_pascal_round_trip(f: Seq<char>)
    requires
        is_snake_ident(f),
    ensures
        snake_of(pascal_of(f)) == f,
{
    let c = f[0];
    let up = ((c as u32) - 32) as char;
    let t = f.skip(1);
    assert forall|i: int| 0 <= i < t.len() implies snake_ident_char(#[trigger] t[i]) by {
        assert(t[i] == f[i + 1]);
    }
    assert forall|i: int| 0 <= i < t.len() && #[trigger] t[i] == '_' implies i + 1 < t.len()
        && is_ascii_lower(t[i + 1]) by {
        assert(t[i] == f[i + 1]);
        assert(f[i + 1] == '_');
    }
    assert(upper_of_char(c) == seq![up]);
    assert(pascal_from(f, true) == seq![up] + pascal_from(t, false));
    let p = seq![up] + pascal_from(t, false);
    lemma_snake_split(p);
    assert(p.skip(1) =~= pascal_from(t, false));
    lemma_pascal_snake_rest(t, false);
    assert(ascii_lower_char(up) == c);
    assert(seq![c] + t =~= f);
}

/// Every mode's label names that mode again.
pub proof fn law_rule_labels_round_trip(rule: RenameAll)
    requires
        rule != RenameAll::Unchanged,
    ensures
        rule_named(rule_label(rule)) == Some(rule),
{
    reveal_strlit("lowercase");
    reveal_strlit("UPPERCASE");
    reveal_strlit("PascalCase");
    reveal_strlit("camelCase");
    reveal_strlit("snake_case");
    reveal_strlit("SCREAMING_SNAKE_CASE");
    reveal_strlit("kebab-case");
    reveal_strlit("SCREAMING-KEBAB-CASE");
    assert("lowercase"@[0] == 'l');
    assert("UPPERCASE"@[0] == 'U');
    assert("PascalCase"@[0] == 'P');
    assert("camelCase"@[0] == 'c');
    assert("snake_case"@[0] == 's');
    assert("SCREAMING_SNAKE_CASE"@[0] == 'S');
    assert("SCREAMING_SNAKE_CASE"@[9] == '_');
    assert("kebab-case"@[0] == 'k');
    assert("SCREAMING-KEBAB-CASE"@[0] == 'S');
    assert("SCREAMING-KEBAB-CASE"@[9] == '-');
}

/// How a wire name was derived, kept for the uniqueness diagnostic.
#[derive(Debug, Clone, Copy)]
pub enum WireSource {
    /// The Rust identifier was used verbatim.
    Identifier,
    /// An individual `#[serde(rename = "literal")]` produced the name.
    Individual,
    /// The container-level `rename_all` produced the name; the literal of
    /// the mode is kept for the diagnostic.
    RenameAll(&'static str),
}

/// The description of a wire-name source in diagnostics.
pub open spec fn source_text(source: WireSource) -> Seq<char> {
    match source {
        WireSource::Identifier => "the Rust identifier"@,
        WireSource::Individual => "`#[serde(rename = \"...\")]`"@,
        WireSource::RenameAll(mode) => "`#[serde(rename_all = \""@ + mode@ + "\")]`"@,
    }
}

impl WireSource {
    /// Describes the source for a diagnostic.
    pub fn describe(&self) -> (r: String)
        ensures
            r@ == source_text(*self),
    {
        let mut out: Vec<char> = Vec::new();
        match self {
            WireSource::Identifier => push_str(&mut out, "the Rust identifier"),
            WireSource::Individual => push_str(&mut out, "`#[serde(rename = \"...\")]`"),
            WireSource::RenameAll(mode) => {
                push_str(&mut out, "`#[serde(rename_all = \"");
                push_str(&mut out, mode);
                push_str(&mut out, "\")]`");
            },
        }
        string_from_chars(&out)
    }
}

/// The source a rule leaves on a name it computed.
pub open spec fn rule_source_ok(source: WireSource, rule: RenameAll) -> bool {
    match rule {
        RenameAll::Unchanged => source is Identifier,
        _ => source matches WireSource::RenameAll(mode) && mode@ == rule_label(rule),
    }
}

/// Computes the wire name for one field or variant, applying the
/// precedence rule (individual `rename` > container `rename_all` > Rust
/// identifier), with the tag of how the name was produced. An empty
/// result is an error carrying [`EMPTY_RENAME_MSG`].
pub fn wire_name(
    rust_ident: &str,
    individual: Option<&str>,
    container_rule: RenameAll,
    target: RenameTarget,
) -> (r: Result<(String, WireSource), String>)
    ensures
        match individual {
            Some(value) => if value@.len() == 0 {
                r matches Err(msg) && msg@ == EMPTY_RENAME_MSG@
            } else {
                r matches Ok((w, source)) && w@ == value@ && source is Individual
            },
            None => {
                let converted = apply_rule(container_rule, rust_ident@, target);
                if converted.len() == 0 {
                    r matches Err(msg) && msg@ == EMPTY_RENAME_MSG@
                } else {
                    r matches Ok((w, source)) && w@ == converted && rule_source_ok(
                        source,
                        container_rule,
                    )
                }
            },
        },
{
    if let Some(value) = individual {
        let chars = chars_of(value);
        if chars.len() == 0 {
            return Err(EMPTY_RENAME_MSG.to_string());
        }
        return Ok((value.to_string(), WireSource::Individual));
    }
    let converted = container_rule.apply(rust_ident, target);
    let converted_chars = chars_of(converted.as_str());
    if converted_chars.len() == 0 {
        return Err(EMPTY_RENAME_MSG.to_string());
    }
    let source = match container_rule {
        RenameAll::Unchanged => WireSource::Identifier,
        other => WireSource::RenameAll(rename_all_label(other)),
    };
    Ok((converted, source))
}

/// One entry of the uniqueness check: the Rust identifier, its wire name
/// and how the name was produced.
pub type WireEntry = (String, String, WireSource);

/// The wire names of the entries, in order.
pub open spec fn wires_of(entries: Seq<WireEntry>) -> Seq<Seq<char>> {
    entries.map_values(|e: WireEntry| e.1@)
}

/// The first `n` wire names are pairwise distinct.
pub open spec fn distinct_upto(w: Seq<Seq<char>>, n: int) -> bool {
    forall|a: int, b: int| 0 <= a < b < n ==> w[a] != w[b]
}

/// The diagnostic for entry `second` colliding with the earlier `first`.
pub open spec fn conflict_message(kind: Seq<char>, second: WireEntry, first: WireEntry) -> Seq<
    char,
> {
    "frieze: "@ + kind + " `"@ + second.0@ + "` renames to "@ + debug_text(second.1@)
        + " via "@ + source_text(second.2) + ", which conflicts with "@ + kind + " `"@
        + first.0@ + "` (also renames to "@ + debug_text(second.1@) + " via "@ + source_text(
        first.2,
    ) + "). Each "@ + kind + " must have a unique wire name."@
}

fn conflict_message_exec(kind: &str, second: &WireEntry, first: &WireEntry) -> (r: String)
    ensures
        r@ == conflict_message(kind@, *second, *first),
{
    let quoted = chars_of(debug_string(second.1.as_str()).as_str());
    let second_source = chars_of(second.2.describe().as_str());
    let first_source = chars_of(first.2.describe().as_str());
    let mut out: Vec<char> = Vec::new();
    push_str(&mut out, "frieze: ");
    push_str(&mut out, kind);
    push_str(&mut out, " `");
    push_str(&mut out, second.0.as_str());
    push_str(&mut out, "` renames to ");
    push_all(&mut out, &quoted);
    push_str(&mut out, " via ");
    push_all(&mut out, &second_source);
    push_str(&mut out, ", which conflicts with ");
    push_str(&mut out, kind);
    push_str(&mut out, " `");
    push_str(&mut out, first.0.as_str());
    push_str(&mut out, "` (also renames to ");
    push_all(&mut out, &quoted);
    push_str(&mut out, " via ");
    push_all(&mut out, &first_source);
    push_str(&mut out, "). Each ");
    push_str(&mut out, kind);
    push_str(&mut out, " must have a unique wire name.");
    string_from_chars(&out)
}

/// Detects wire-name collisions across a struct's fields or an enum's
/// variants. On a collision the error carries the index of the first
/// entry whose name was already taken (the diagnostic's site) and a
/// message naming both it and the earliest entry with the same name.
/// `kind` is the noun used in the message (`"field"` / `"variant"`).
pub fn check_unique_wire_names(entries: &Vec<WireEntry>, kind: &str) -> (r: Result<
    (),
    (usize, String),
>)
    ensures
        r is Ok <==> distinct_upto(wires_of(entries@), entries@.len() as int),
        r matches Err((j, msg)) ==> {
            let w = wires_of(entries@);
            let i = crate::text::position_of(w, w[j as int]);
            &&& j < entries@.len()
            &&& distinct_upto(w, j as int)
            &&& i < j
            &&& msg@ == conflict_message(kind@, entries@[j as int], entries@[i])
        },
{
    let ghost w = wires_of(entries@);
    let mut j: usize = 0;
    while j < entries.len()
        invariant
            j <= entries@.len(),
            w == wires_of(entries@),
            distinct_upto(w, j as int),
        decreases entries@.len() - j,
    {
        let mut i: usize = 0;
        while i < j
            invariant
                i <= j < entries@.len(),
                w == wires_of(entries@),
                distinct_upto(w, j as int),
                forall|k: int| 0 <= k < i ==> w[k] != w[j as int],
            decreases j - i,
        {
            if crate::text::str_equal(entries[i].1.as_str(), entries[j].1.as_str()) {
                proof {
                    assert(w[i as int] == entries@[i as int].1@);
                    assert(w[j as int] == entries@[j as int].1@);
                    crate::text::lemma_position_is(w, w[j as int], i as int);
                    assert(!distinct_upto(w, entries@.len() as int));
                }
                let msg = conflict_message_exec(kind, &entries[j], &entries[i]);
                return Err((j, msg));
            }
            i = i + 1;
        }
        j = j + 1;
    }
    Ok(())
}

} // verus!
