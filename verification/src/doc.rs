//! Doc-comment extraction and rendering.
//!
//! Collects the values of `#[doc = "..."]` attributes into a single
//! description string, and composes the per-enum description from the
//! enum-level doc plus per-variant docs.

use vstd::prelude::*;

use crate::text::{
    chars_of, is_white_space, join_chars, join_with, lemma_split_on_nonempty, push_all,
    push_str, split_on, string_from_chars, trim_end_chars, trim_end_of, views,
};

verus! {

/// One `doc` attribute as the description collector sees it.
#[derive(Debug, Clone)]
pub enum DocAttr {
    /// `#[doc = "..."]` with a string literal: the literal's value.
    Text(String),
    /// Any other `doc` form (`#[doc(hidden)]`, `#[doc(alias = ..)]`,
    /// `#[doc = SOME_CONST]`): not a description source.
    Other,
}

/// `l` without one leading space, if it starts with one.
pub open spec fn strip_one_space(l: Seq<char>) -> Seq<char> {
    if l.len() > 0 && l[0] == ' ' {
        l.skip(1)
    } else {
        l
    }
}

/// The rustdoc normalisation of one line: one leading space stripped,
/// trailing white space trimmed.
pub open spec fn doc_line(l: Seq<char>) -> Seq<char> {
    trim_end_of(strip_one_space(l))
}

/// The normalised lines one attribute contributes.
pub open spec fn attr_lines(a: DocAttr) -> Seq<Seq<char>> {
    match a {
        DocAttr::Text(s) => split_on(s@, '\n').map_values(|l: Seq<char>| doc_line(l)),
        DocAttr::Other => Seq::<Seq<char>>::empty(),
    }
}

/// The normalised lines of all attributes, in order.
pub open spec fn doc_lines(attrs: Seq<DocAttr>) -> Seq<Seq<char>>
    decreases attrs.len(),
{
    if attrs.len() == 0 {
        Seq::<Seq<char>>::empty()
    } else {
        doc_lines(attrs.drop_last()) + attr_lines(attrs.last())
    }
}

/// `ls` without its trailing empty lines.
pub open spec fn drop_trailing_empty(ls: Seq<Seq<char>>) -> Seq<Seq<char>>
    decreases ls.len(),
{
    if ls.len() > 0 && ls.last().len() == 0 {
        drop_trailing_empty(ls.drop_last())
    } else {
        ls
    }
}

/// The description the attributes carry: the normalised lines without
/// trailing empty ones, joined with `\n` and trimmed at the end; `None`
/// when that leaves nothing.
pub open spec fn doc_description(attrs: Seq<DocAttr>) -> Option<Seq<char>> {
    let ls = drop_trailing_empty(doc_lines(attrs));
    if ls.len() == 0 {
        None
    } else {
        let t = trim_end_of(join_with(ls, seq!['\n']));
        if t.len() == 0 {
            None
        } else {
            Some(t)
        }
    }
}

/// One line normalised as rustdoc does.
fn normalize_line(l: &Vec<char>) -> (r: Vec<char>)
    ensures
        r@ == doc_line(l@),
{
    if l.len() > 0 && l[0] == ' ' {
        let mut rest: Vec<char> = Vec::new();
        let mut i: usize = 1;
        while i < l.len()
            invariant
                1 <= i <= l@.len(),
                rest@ =~= l@.subrange(1, i as int),
            decreases l@.len() - i,
        {
            rest.push(l[i]);
            i = i + 1;
        }
        assert(rest@ =~= l@.skip(1));
        trim_end_chars(&rest)
    } else {
        trim_end_chars(l)
    }
}

/// Appends the normalised lines of one literal to `lines`.
fn push_literal_lines(lines: &mut Vec<Vec<char>>, raw: &String)
    ensures
        views(final(lines)@) == views(old(lines)@) + split_on(raw@, '\n').map_values(
            |l: Seq<char>| doc_line(l),
        ),
{
    let cs = chars_of(raw.as_str());
    let ghost base = views(lines@);
    let mut cur: Vec<char> = Vec::new();
    let mut j: usize = 0;
    proof {
        assert(cs@.take(0) =~= Seq::<char>::empty());
        assert(split_on(cs@.take(0), '\n').drop_last().map_values(|l: Seq<char>| doc_line(l))
            =~= Seq::<Seq<char>>::empty());
        assert(views(lines@) =~= base + Seq::<Seq<char>>::empty());
    }
    while j < cs.len()
        invariant
            j <= cs@.len(),
            views(lines@) == base + split_on(cs@.take(j as int), '\n').drop_last().map_values(
                |l: Seq<char>| doc_line(l),
            ),
            cur@ == split_on(cs@.take(j as int), '\n').last(),
        decreases cs@.len() - j,
    {
        let c = cs[j];
        let ghost prev = split_on(cs@.take(j as int), '\n');
        proof {
            lemma_split_on_nonempty(cs@.take(j as int), '\n');
            assert(cs@.take(j + 1).drop_last() =~= cs@.take(j as int));
            assert(cs@.take(j + 1).last() == c);
        }
        if c == '\n' {
            let done = normalize_line(&cur);
            let ghost old_lines = views(lines@);
            lines.push(done);
            cur = Vec::new();
            proof {
                let next = split_on(cs@.take(j + 1), '\n');
                assert(next == prev.push(Seq::<char>::empty()));
                assert(next.drop_last() =~= prev);
                assert(views(lines@) =~= old_lines.push(doc_line(prev.last())));
                assert(prev.map_values(|l: Seq<char>| doc_line(l)) =~= prev.drop_last().map_values(
                    |l: Seq<char>| doc_line(l),
                ).push(doc_line(prev.last())));
            }
        } else {
            cur.push(c);
            proof {
                let next = split_on(cs@.take(j + 1), '\n');
                assert(next == prev.update(prev.len() - 1, prev.last().push(c)));
                assert(next.drop_last() =~= prev.drop_last());
            }
        }
        j = j + 1;
    }
    let last = normalize_line(&cur);
    let ghost old_lines = views(lines@);
    lines.push(last);
    proof {
        assert(cs@.take(cs@.len() as int) =~= cs@);
        let whole = split_on(cs@, '\n');
        lemma_split_on_nonempty(cs@, '\n');
        assert(views(lines@) =~= old_lines.push(doc_line(whole.last())));
        assert(whole.map_values(|l: Seq<char>| doc_line(l)) =~= whole.drop_last().map_values(
            |l: Seq<char>| doc_line(l),
        ).push(doc_line(whole.last())));
    }
}

/// Collects the `#[doc = "..."]` values into one description, each line
/// following the rustdoc convention: one leading space is stripped if
/// present, trailing white space is trimmed. A literal holding `\n` is
/// several lines. Lines are joined with `\n`; trailing empty lines are
/// dropped and the result is trimmed at the end. `None` when nothing is
/// left, so an all-blank doc reads as no doc.
pub fn parse_doc_attrs(attrs: &Vec<DocAttr>) -> (r: Option<String>)
    ensures
        crate::text::opt_view(r) == doc_description(attrs@),
{
    let mut lines: Vec<Vec<char>> = Vec::new();
    let mut i: usize = 0;
    while i < attrs.len()
        invariant
            i <= attrs@.len(),
            views(lines@) == doc_lines(attrs@.take(i as int)),
        decreases attrs@.len() - i,
    {
        proof {
            assert(attrs@.take(i + 1).drop_last() =~= attrs@.take(i as int));
            assert(attrs@.take(i + 1).last() == attrs@[i as int]);
        }
        match &attrs[i] {
            DocAttr::Text(raw) => {
                push_literal_lines(&mut lines, raw);
            },
            DocAttr::Other => {
                assert(views(lines@) =~= views(lines@) + Seq::<Seq<char>>::empty());
            },
        }
        i = i + 1;
    }
    assert(attrs@.take(attrs@.len() as int) =~= attrs@);
    while lines.len() > 0 && lines[lines.len() - 1].len() == 0
        invariant
            drop_trailing_empty(views(lines@)) == drop_trailing_empty(doc_lines(attrs@)),
        decreases lines@.len(),
    {
        let ghost before = views(lines@);
        lines.pop();
        proof {
            assert(views(lines@) =~= before.drop_last());
        }
    }
    proof {
        let v = views(lines@);
        if v.len() > 0 {
            assert(v.last() == lines@[lines@.len() - 1]@);
        }
        assert(drop_trailing_empty(v) == v);
    }
    let ghost ls = drop_trailing_empty(doc_lines(attrs@));
    assert(ls == views(lines@));
    if lines.len() == 0 {
        return None;
    }
    let sep: Vec<char> = vec!['\n'];
    assert(sep@ =~= seq!['\n']);
    let joined = join_chars(&lines, &sep);
    let trimmed = trim_end_chars(&joined);
    if trimmed.len() == 0 {
        None
    } else {
        Some(string_from_chars(&trimmed))
    }
}

/// A variant doc with every line after the first indented by two
/// spaces, so a bullet stays visually attached to its continuation.
pub open spec fn indent_continuations(doc: Seq<char>) -> Seq<char>
    decreases doc.len(),
{
    if doc.len() == 0 {
        doc
    } else {
        indent_continuations(doc.drop_last()) + if doc.last() == '\n' {
            seq!['\n', ' ', ' ']
        } else {
            seq![doc.last()]
        }
    }
}

/// The bullet row of one documented variant: `- <name>: <doc>`.
pub open spec fn bullet(name: Seq<char>, doc: Seq<char>) -> Seq<char> {
    seq!['-', ' '] + name + seq![':', ' '] + indent_continuations(doc)
}

/// The bullet rows of the documented variants, in order.
pub open spec fn bullets(variants: Seq<(Seq<char>, Option<Seq<char>>)>) -> Seq<Seq<char>>
    decreases variants.len(),
{
    if variants.len() == 0 {
        Seq::<Seq<char>>::empty()
    } else {
        bullets(variants.drop_last()) + match variants.last().1 {
            Some(d) => seq![bullet(variants.last().0, d)],
            None => Seq::<Seq<char>>::empty(),
        }
    }
}

/// The (name, doc) pairs as plain sequences.
pub open spec fn variant_docs(variants: Seq<(String, Option<String>)>) -> Seq<
    (Seq<char>, Option<Seq<char>>),
> {
    variants.map_values(
        |v: (String, Option<String>)| (v.0@, crate::text::opt_view(v.1)),
    )
}

/// The enum-level description: the enum doc, then (after a blank line)
/// the bullet list of documented variants; `None` when neither exists.
pub open spec fn enum_description(
    enum_doc: Option<Seq<char>>,
    variants: Seq<(Seq<char>, Option<Seq<char>>)>,
) -> Option<Seq<char>> {
    let b = bullets(variants);
    match enum_doc {
        Some(d) => if b.len() > 0 {
            Some(d + seq!['\n', '\n'] + join_with(b, seq!['\n']))
        } else {
            Some(d)
        },
        None => if b.len() > 0 {
            Some(join_with(b, seq!['\n']))
        } else {
            None
        },
    }
}

/// The characters of an optional borrowed string.
pub open spec fn opt_str_view(o: Option<&str>) -> Option<Seq<char>> {
    match o {
        Some(s) => Some(s@),
        None => None,
    }
}

/// The bullet row of one documented variant.
fn bullet_exec(name: &String, doc: &String) -> (r: Vec<char>)
    ensures
        r@ == bullet(name@, doc@),
{
    let d = chars_of(doc.as_str());
    let mut out: Vec<char> = vec!['-', ' '];
    push_str(&mut out, name.as_str());
    out.push(':');
    out.push(' ');
    let ghost head = out@;
    let mut i: usize = 0;
    while i < d.len()
        invariant
            i <= d@.len(),
            out@ == head + indent_continuations(d@.take(i as int)),
        decreases d@.len() - i,
    {
        let c = d[i];
        let ghost before = out@;
        if c == '\n' {
            out.push('\n');
            out.push(' ');
            out.push(' ');
        } else {
            out.push(c);
        }
        i = i + 1;
        proof {
            assert(d@.take(i as int).drop_last() =~= d@.take(i - 1));
            assert(d@.take(i as int).last() == c);
            if c == '\n' {
                assert(out@ =~= before + seq!['\n', ' ', ' ']);
            } else {
                assert(out@ =~= before + seq![c]);
            }
        }
    }
    assert(d@.take(d@.len() as int) =~= d@);
    assert(out@ =~= seq!['-', ' '] + name@ + seq![':', ' '] + indent_continuations(d@));
    out
}

/// Composes the enum-level description by appending a bullet list of
/// per-variant docs (each under the variant's wire name) to the
/// enum-level doc:
///
/// |              | enum-level doc present | enum-level doc absent |
/// |--------------|-----------------------|-----------------------|
/// | any variant has doc | `<enum doc>\n\n- v: ...` | `- v: ...` |
/// | no variant has doc  | `<enum doc>` (no bullets) | `None` |
///
/// Variants with no doc are left out of the list; multi-line variant
/// docs are continued with a two-space indent.
pub fn compose_enum_description(
    enum_doc: Option<&str>,
    variants: &Vec<(String, Option<String>)>,
) -> (r: Option<String>)
    ensures
        crate::text::opt_view(r) == enum_description(
            opt_str_view(enum_doc),
            variant_docs(variants@),
        ),
{
    let mut rows: Vec<Vec<char>> = Vec::new();
    let mut i: usize = 0;
    while i < variants.len()
        invariant
            i <= variants@.len(),
            views(rows@) == bullets(variant_docs(variants@.take(i as int))),
        decreases variants@.len() - i,
    {
        proof {
            assert(variant_docs(variants@.take(i + 1)).drop_last() =~= variant_docs(
                variants@.take(i as int),
            ));
            assert(variant_docs(variants@.take(i + 1)).last() == (
                variants@[i as int].0@,
                crate::text::opt_view(variants@[i as int].1),
            ));
        }
        let ghost before = views(rows@);
        match &variants[i].1 {
            Some(d) => {
                let row = bullet_exec(&variants[i].0, d);
                rows.push(row);
                assert(views(rows@) =~= before + seq![bullet(variants@[i as int].0@, d@)]);
            },
            None => {
                assert(views(rows@) =~= before + Seq::<Seq<char>>::empty());
            },
        }
        i = i + 1;
    }
    assert(variants@.take(variants@.len() as int) =~= variants@);
    let sep: Vec<char> = vec!['\n'];
    assert(sep@ =~= seq!['\n']);
    match enum_doc {
        Some(doc) => {
            if rows.len() > 0 {
                let mut out = chars_of(doc);
                out.push('\n');
                out.push('\n');
                let list = join_chars(&rows, &sep);
                push_all(&mut out, &list);
                assert(out@ =~= doc@ + seq!['\n', '\n'] + join_with(views(rows@), seq!['\n']));
                Some(string_from_chars(&out))
            } else {
                let out = chars_of(doc);
                Some(string_from_chars(&out))
            }
        },
        None => {
            if rows.len() > 0 {
                let list = join_chars(&rows, &sep);
                Some(string_from_chars(&list))
            } else {
                None
            }
        },
    }
}

} // verus!
