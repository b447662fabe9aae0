//! Properties of the library as a whole, stated over the models its
//! functions' contracts use.

use vstd::prelude::*;

use crate::doc::doc_description;
use crate::expand_common::{first_repeat_from, model_wires, uniqueness_spec, WireModel};
use crate::expand_enum::{all_unit, enum_spec, EnumInput, EnumModel};
use crate::expand_struct::{struct_spec, PropertyModel, StructInput, StructModel};
use crate::oas_version::{canonical_patch, first_index, oas_version_denoted, OasVersion};
use crate::rename::distinct_upto;
use crate::resolve::{innermost, member_names, selection, Selection, WorkspaceView};
use crate::text::{lemma_position_of, position_of, string_views, trim_end_of};
use crate::version::{canonical_openapi, version_denoted, Version};

verus! {

/// The canonical `openapi:` string of a version parses back to that
/// version.
pub proof fn law_version_round_trip(v: Version)
    ensures
        version_denoted(canonical_openapi(v)) == Some(v),
{
}

/// The canonical patch string of a major.minor parses back to it.
pub proof fn law_oas_version_round_trip(v: OasVersion)
    ensures
        oas_version_denoted(canonical_patch(v)) == Some(v),
{
    let s = canonical_patch(v);
    assert(s.drop_first() =~= s.skip(1));
    assert(s.skip(1)[0] == '.');
    assert(first_index(s.skip(1), '.') == Some(0int));
    assert(first_index(s, '.') == Some(1int));
    let t = s.skip(2);
    assert(t.drop_first() =~= s.skip(3));
    assert(s.skip(3)[0] == '.');
    assert(first_index(s.skip(3), '.') == Some(0int));
    assert(first_index(t, '.') == Some(1int));
    assert(s.take(3) =~= seq!['3', '.', s[2]]);
}

proof fn lemma_no_repeat_is_distinct(w: Seq<Seq<char>>)
    requires
        first_repeat_from(w, 0) >= w.len(),
    ensures
        distinct_upto(w, w.len() as int),
{
    assert forall|k: int| 0 <= k < w.len() implies position_of(w, w[k]) >= k by {
        lemma_first_repeat_bound(w, 0, k);
    }
    assert forall|a: int, b: int| 0 <= a < b < w.len() implies w[a] != w[b] by {
        lemma_position_of(w, w[b]);
        if w[a] == w[b] {
            assert(position_of(w, w[b]) <= a);
        }
    }
}

proof fn lemma_first_repeat_bound(w: Seq<Seq<char>>, j: int, k: int)
    requires
        0 <= j <= k < w.len(),
        first_repeat_from(w, j) >= w.len(),
    ensures
        position_of(w, w[k]) >= k,
    decreases k - j,
{
    if j < k {
        lemma_first_repeat_bound(w, j + 1, k);
    }
}

/// A struct the derive accepts has pairwise distinct wire names, one
/// property per field.
pub proof fn law_struct_wire_names_distinct(input: StructInput)
    requires
        struct_spec(input) is Ok,
    ensures
        distinct_upto(
            struct_spec(input)->Ok_0.properties.map_values(|p: PropertyModel| p.wire),
            struct_spec(input)->Ok_0.properties.len() as int,
        ),
{
    let sc = crate::serde_scan::scan_result(input.serde@)->Ok_0;
    let rule = crate::expand_common::container_rule_spec(sc)->Ok_0;
    let fields = input.fields->Named_0@;
    let xs = crate::expand_struct::fields_upto(fields, rule, fields.len() as int)->Ok_0;
    lemma_fields_wires(fields, rule, fields.len() as int);
    let m = xs.map_values(|x: (PropertyModel, WireModel)| x.1);
    let w = model_wires(m);
    lemma_no_repeat_is_distinct(w);
    let props = struct_spec(input)->Ok_0.properties;
    assert(props.map_values(|p: PropertyModel| p.wire) =~= w);
}

/// An enum the derive accepts is a string enum exactly when it carries
/// no tag and then has unit variants only, and a `oneOf` with one arm
/// per variant otherwise; its wire names are pairwise distinct.
pub proof fn law_enum_shape(input: EnumInput)
    requires
        enum_spec(input) is Ok,
    ensures
        enum_spec(input)->Ok_0 is StringEnum ==> all_unit(input.variants@)
            && crate::serde_scan::scan_result(input.serde@)->Ok_0.tag is None,
        enum_spec(input)->Ok_0 is OneOf ==> !all_unit(input.variants@)
            && crate::serde_scan::scan_result(input.serde@)->Ok_0.tag is Some,
        enum_spec(input)->Ok_0 matches EnumModel::StringEnum { values, .. } ==> values.len()
            == input.variants@.len() && distinct_upto(values, values.len() as int),
        enum_spec(input)->Ok_0 matches EnumModel::OneOf { arms, .. } ==> arms.len()
            == input.variants@.len() && distinct_upto(
            arms.map_values(|a: crate::expand_enum::ArmModel| a.wire),
            arms.len() as int,
        ),
{
    let sc = crate::serde_scan::scan_result(input.serde@)->Ok_0;
    let rule = crate::expand_common::container_rule_spec(sc)->Ok_0;
    let vs = input.variants@;
    match sc.tag {
        Some((tag, _)) => {
            let xs = crate::expand_enum::arms_upto(vs, rule, input.ident@, tag, vs.len() as int)->Ok_0;
            lemma_arms_len(vs, rule, input.ident@, tag, vs.len() as int);
            let m = xs.map_values(|x: (crate::expand_enum::ArmModel, WireModel)| x.1);
            lemma_no_repeat_is_distinct(model_wires(m));
            let arms = xs.map_values(|x: (crate::expand_enum::ArmModel, WireModel)| x.0);
            assert(arms.map_values(|a: crate::expand_enum::ArmModel| a.wire) =~= model_wires(m));
        },
        None => {
            let xs = crate::expand_enum::string_upto(vs, rule, vs.len() as int)->Ok_0;
            lemma_string_len(vs, rule, vs.len() as int);
            let m = xs.map_values(|x: (Seq<char>, Option<Seq<char>>, WireModel)| x.2);
            lemma_no_repeat_is_distinct(model_wires(m));
            let values = xs.map_values(|x: (Seq<char>, Option<Seq<char>>, WireModel)| x.0);
            assert(values =~= model_wires(m));
        },
    }
}

proof fn lemma_fields_wires(
    fields: Seq<crate::expand_struct::FieldInput>,
    rule: crate::rename::RenameAll,
    k: int,
)
    requires
        0 <= k,
        crate::expand_struct::fields_upto(fields, rule, k) is Ok,
    ensures
        crate::expand_struct::fields_upto(fields, rule, k)->Ok_0.len() == k,
        forall|i: int| 0 <= i < k ==> (#[trigger] crate::expand_struct::fields_upto(fields, rule, k)->Ok_0[i]).0.wire
            == crate::expand_struct::fields_upto(fields, rule, k)->Ok_0[i].1.wire,
    decreases k,
{
    if k > 0 {
        lemma_fields_wires(fields, rule, k - 1);
    }
}

proof fn lemma_string_len(vs: Seq<crate::expand_enum::VariantInput>, rule: crate::rename::RenameAll, k: int)
    requires
        0 <= k,
        crate::expand_enum::string_upto(vs, rule, k) is Ok,
    ensures
        crate::expand_enum::string_upto(vs, rule, k)->Ok_0.len() == k,
        forall|i: int| 0 <= i < k ==> (#[trigger] crate::expand_enum::string_upto(vs, rule, k)->Ok_0[i]).0
            == crate::expand_enum::string_upto(vs, rule, k)->Ok_0[i].2.wire,
    decreases k,
{
    if k > 0 {
        lemma_string_len(vs, rule, k - 1);
    }
}

proof fn lemma_arms_len(
    vs: Seq<crate::expand_enum::VariantInput>,
    rule: crate::rename::RenameAll,
    e: Seq<char>,
    tag: Seq<char>,
    k: int,
)
    requires
        0 <= k,
        crate::expand_enum::arms_upto(vs, rule, e, tag, k) is Ok,
    ensures
        crate::expand_enum::arms_upto(vs, rule, e, tag, k)->Ok_0.len() == k,
        forall|i: int| 0 <= i < k ==> (#[trigger] crate::expand_enum::arms_upto(vs, rule, e, tag, k)->Ok_0[i]).0.wire
            == crate::expand_enum::arms_upto(vs, rule, e, tag, k)->Ok_0[i].1.wire,
    decreases k,
{
    if k > 0 {
        lemma_arms_len(vs, rule, e, tag, k - 1);
    }
}

/// An explicitly requested member is selected whatever the current
/// directory, as long as the workspace declaration is valid.
pub proof fn law_explicit_request_wins(view: WorkspaceView, q: Seq<char>, cwd: Seq<Seq<char>>)
    requires
        position_of(member_names(view.members@), q) < view.members@.len(),
        view.default_package matches Some(d) ==> position_of(
            member_names(view.members@),
            d@,
        ) < view.members@.len(),
    ensures
        selection(view, Some(q), cwd) == Selection::Selected(
            position_of(member_names(view.members@), q),
        ),
        member_names(view.members@)[position_of(member_names(view.members@), q)] == q,
{
    lemma_position_of(member_names(view.members@), q);
}

/// A workspace declaration naming a non-member is rejected whatever the
/// request and the current directory, so a broken declaration cannot
/// linger unnoticed.
pub proof fn law_dangling_declaration_always_rejected(
    view: WorkspaceView,
    requested: Option<Seq<char>>,
    cwd: Seq<Seq<char>>,
)
    requires
        view.default_package matches Some(d) && position_of(member_names(view.members@), d@)
            >= view.members@.len(),
    ensures
        selection(view, requested, cwd) == Selection::DefaultMissing(view.default_package->0@),
{
}

/// Without a request, the innermost member containing the current
/// directory wins over the workspace declaration.
pub proof fn law_location_beats_declaration(view: WorkspaceView, cwd: Seq<Seq<char>>)
    requires
        innermost(view.members@, string_views(view.workspace_root@), cwd) is Some,
        view.default_package matches Some(d) ==> position_of(
            member_names(view.members@),
            d@,
        ) < view.members@.len(),
    ensures
        selection(view, None, cwd) == Selection::Selected(
            innermost(view.members@, string_views(view.workspace_root@), cwd)->0,
        ),
{
}

/// A description collected from doc attributes is never blank at its
/// end: it is non-empty and does not end in white space.
pub proof fn law_description_is_trimmed(attrs: Seq<crate::doc::DocAttr>)
    requires
        doc_description(attrs) is Some,
    ensures
        doc_description(attrs)->0.len() > 0,
        !crate::text::is_white_space(doc_description(attrs)->0.last()),
{
    let ls = crate::doc::drop_trailing_empty(crate::doc::doc_lines(attrs));
    lemma_trim_end_ends(crate::text::join_with(ls, seq!['\n']));
}

proof fn lemma_trim_end_ends(s: Seq<char>)
    ensures
        trim_end_of(s).len() > 0 ==> !crate::text::is_white_space(trim_end_of(s).last()),
    decreases s.len(),
{
    if s.len() > 0 && crate::text::is_white_space(s.last()) {
        lemma_trim_end_ends(s.drop_last());
    }
}

} // verus!
