//! What `#[derive(Schema)]` decides for a named struct: each field's
//! wire name (individual `rename` > container `rename_all` > identifier),
//! property type, presence and description, the uniqueness of the wire
//! names, and the struct's description. Lifetime parameters and const
//! generics are rejected.

use vstd::prelude::*;

use crate::doc::{doc_description, parse_doc_attrs, DocAttr};
use crate::expand_common::{
    check_unique_at, container_rule_spec, entry_model, error_model, fail, generics_spec,
    reject_unsupported_generic_params, rename_all_from_scan, scan_at, scan_failure,
    uniqueness_spec, wire_entry_at, wire_spec, Diagnostic, Failure, GenericParam, MacroError,
    Site, WireModel,
};
use crate::field::{field_spec, parse_field, Presence, PropertyShape, TypeExpr};
use crate::rename::{RenameAll, RenameTarget, WireEntry};
use crate::serde_scan::{scan_model, scan_result, SerdeMeta, SerdePosition};
use crate::text::{opt_view, push_str, string_from_chars};

verus! {

/// One named field of the derive input.
#[derive(Debug)]
pub struct FieldInput {
    pub ident: String,
    /// The field's serde meta entries, in order.
    pub serde: Vec<SerdeMeta>,
    /// The field's `doc` attributes, in order.
    pub docs: Vec<DocAttr>,
    pub ty: TypeExpr,
}

/// The field list of a struct.
#[derive(Debug)]
pub enum StructFields {
    Named(Vec<FieldInput>),
    /// A tuple struct.
    Unnamed,
    /// A unit struct.
    Unit,
}

/// A struct as the derive reads it.
#[derive(Debug)]
pub struct StructInput {
    pub ident: String,
    pub serde: Vec<SerdeMeta>,
    pub docs: Vec<DocAttr>,
    pub generics: Vec<GenericParam>,
    pub fields: StructFields,
}

/// One property of the emitted object schema.
#[derive(Debug, PartialEq, Eq)]
pub struct PropertyPlan {
    pub wire: String,
    pub shape: PropertyShape,
    pub presence: Presence,
    pub description: Option<String>,
}

/// What the emitted object schema holds.
#[derive(Debug, PartialEq, Eq)]
pub struct StructPlan {
    /// One property per field, in field order.
    pub properties: Vec<PropertyPlan>,
    pub description: Option<String>,
}

/// A property as plain values.
pub struct PropertyModel {
    pub wire: Seq<char>,
    pub shape: PropertyShape,
    pub presence: Presence,
    pub description: Option<Seq<char>>,
}

/// The struct plan as plain values.
pub struct StructModel {
    pub properties: Seq<PropertyModel>,
    pub description: Option<Seq<char>>,
}

pub open spec fn property_model(p: PropertyPlan) -> PropertyModel {
    PropertyModel {
        wire: p.wire@,
        shape: p.shape,
        presence: p.presence,
        description: opt_view(p.description),
    }
}

pub open spec fn plan_model(p: StructPlan) -> StructModel {
    StructModel {
        properties: p.properties@.map_values(|q: PropertyPlan| property_model(q)),
        description: opt_view(p.description),
    }
}

/// Field `i`: its serde scan, its wire name, its property type.
pub open spec fn field_step(f: FieldInput, rule: RenameAll, i: int) -> Result<
    (PropertyModel, WireModel),
    Failure,
> {
    match scan_result(f.serde@) {
        Err(e) => Err(scan_failure(e, false, i)),
        Ok(sc) => match wire_spec(f.ident@, sc.rename, rule, RenameTarget::Field, i) {
            Err(x) => Err(x),
            Ok(wm) => match field_spec(f.ty, sc, f.ident@) {
                Err(m) => Err(fail(Site::MemberShape(i as usize), m)),
                Ok((shape, presence)) => Ok(
                    (
                        PropertyModel {
                            wire: wm.wire,
                            shape,
                            presence,
                            description: doc_description(f.docs@),
                        },
                        wm,
                    ),
                ),
            },
        },
    }
}

/// The first `k` fields, in order, up to the first rejection.
pub open spec fn fields_upto(fields: Seq<FieldInput>, rule: RenameAll, k: int) -> Result<
    Seq<(PropertyModel, WireModel)>,
    Failure,
>
    decreases k,
{
    if k <= 0 {
        Ok(Seq::<(PropertyModel, WireModel)>::empty())
    } else {
        match fields_upto(fields, rule, k - 1) {
            Err(e) => Err(e),
            Ok(acc) => match field_step(fields[k - 1], rule, k - 1) {
                Err(e) => Err(e),
                Ok(x) => Ok(acc.push(x)),
            },
        }
    }
}

pub open spec fn tuple_struct_message() -> Seq<char> {
    "frieze: #[derive(Schema)] requires a struct with named fields; tuple structs are not supported."@
}

pub open spec fn unit_struct_message() -> Seq<char> {
    "frieze: #[derive(Schema)] requires a struct with named fields; unit structs are not supported."@
}

pub open spec fn empty_struct_message() -> Seq<char> {
    "frieze: struct must have at least one named field."@
}

/// The derive's decision for a struct, in its order of checks: the
/// container's serde entries, its `rename_all` mode, its generic
/// parameters, named fields, at least one field, each field in order,
/// and the uniqueness of the wire names.
pub open spec fn struct_spec(input: StructInput) -> Result<StructModel, Failure> {
    match scan_result(input.serde@) {
        Err(e) => Err(scan_failure(e, true, 0)),
        Ok(sc) => match container_rule_spec(sc) {
            Err(f) => Err(f),
            Ok(rule) => match generics_spec(input.generics@, "struct"@, input.ident@) {
                Some(f) => Err(f),
                None => match input.fields {
                    StructFields::Unnamed => Err(fail(Site::Item, tuple_struct_message())),
                    StructFields::Unit => Err(fail(Site::Item, unit_struct_message())),
                    StructFields::Named(fields) => if fields@.len() == 0 {
                        Err(fail(Site::Item, empty_struct_message()))
                    } else {
                        match fields_upto(fields@, rule, fields@.len() as int) {
                            Err(f) => Err(f),
                            Ok(xs) => match uniqueness_spec(
                                xs.map_values(|x: (PropertyModel, WireModel)| x.1),
                                "field"@,
                            ) {
                                Some(f) => Err(f),
                                None => Ok(
                                    StructModel {
                                        properties: xs.map_values(
                                            |x: (PropertyModel, WireModel)| x.0,
                                        ),
                                        description: doc_description(input.docs@),
                                    },
                                ),
                            },
                        }
                    },
                },
            },
        },
    }
}

proof fn lemma_fields_failure_persists(fields: Seq<FieldInput>, rule: RenameAll, k: int, m: int)
    requires
        0 <= k <= m,
        fields_upto(fields, rule, k) is Err,
    ensures
        fields_upto(fields, rule, m) == fields_upto(fields, rule, k),
    decreases m - k,
{
    if k < m {
        lemma_fields_failure_persists(fields, rule, k, m - 1);
    }
}

/// The pairs of property and wire-entry models.
pub open spec fn pair_models(props: Seq<PropertyPlan>, entries: Seq<WireEntry>) -> Seq<
    (PropertyModel, WireModel),
> {
    Seq::new(props.len(), |k: int| (property_model(props[k]), entry_model(entries[k])))
}

fn item_error(message: &str) -> (r: MacroError)
    ensures
        error_model(r) == fail(Site::Item, message@),
{
    let mut out: Vec<char> = Vec::new();
    push_str(&mut out, message);
    MacroError { site: Site::Item, diagnostic: Diagnostic::Message(string_from_chars(&out)) }
}

/// Decides what `#[derive(Schema)]` emits for a struct, or where and why
/// it is rejected.
pub fn expand_struct(input: &StructInput) -> (r: Result<StructPlan, MacroError>)
    ensures
        match r {
            Ok(p) => struct_spec(*input) == Ok::<StructModel, Failure>(plan_model(p)),
            Err(e) => struct_spec(*input) == Err::<StructModel, Failure>(error_model(e)),
        },
{
    let container_scan = match scan_at(&input.serde, SerdePosition::StructContainer, None) {
        Ok(s) => s,
        Err(e) => {
            return Err(e);
        },
    };
    let rule = match rename_all_from_scan(&container_scan) {
        Ok(m) => m,
        Err(e) => {
            return Err(e);
        },
    };
    match reject_unsupported_generic_params(&input.generics, "struct", input.ident.as_str()) {
        Ok(()) => {},
        Err(e) => {
            return Err(e);
        },
    }
    let fields = match &input.fields {
        StructFields::Named(fields) => fields,
        StructFields::Unnamed => {
            return Err(
                item_error(
                    "frieze: #[derive(Schema)] requires a struct with named fields; tuple structs are not supported.",
                ),
            );
        },
        StructFields::Unit => {
            return Err(
                item_error(
                    "frieze: #[derive(Schema)] requires a struct with named fields; unit structs are not supported.",
                ),
            );
        },
    };
    if fields.len() == 0 {
        return Err(item_error("frieze: struct must have at least one named field."));
    }
    let mut properties: Vec<PropertyPlan> = Vec::new();
    let mut entries: Vec<WireEntry> = Vec::new();
    let mut i: usize = 0;
    assert(pair_models(properties@, entries@) =~= Seq::<(PropertyModel, WireModel)>::empty());
    while i < fields.len()
        invariant
            scan_result(input.serde@) == Ok::<crate::serde_scan::ScanModel, crate::serde_scan::ScanFailure>(
                scan_model(container_scan),
            ),
            container_rule_spec(scan_model(container_scan)) == Ok::<RenameAll, Failure>(rule),
            generics_spec(input.generics@, "struct"@, input.ident@) is None,
            input.fields == StructFields::Named(*fields),
            fields@.len() > 0,
            i <= fields@.len(),
            properties@.len() == i,
            entries@.len() == i,
            fields_upto(fields@, rule, i as int) == Ok::<
                Seq<(PropertyModel, WireModel)>,
                Failure,
            >(pair_models(properties@, entries@)),
        decreases fields@.len() - i,
    {
        let field = &fields[i];
        let ghost acc = pair_models(properties@, entries@);
        let step: Result<(PropertyPlan, WireEntry), MacroError> = match scan_at(
            &field.serde,
            SerdePosition::StructField,
            Some(i),
        ) {
            Err(e) => Err(e),
            Ok(scan) => match wire_entry_at(&field.ident, &scan, rule, RenameTarget::Field, i) {
                Err(e) => Err(e),
                Ok(entry) => match parse_field(&field.ty, &scan, field.ident.as_str()) {
                    Err(message) => Err(
                        MacroError {
                            site: Site::MemberShape(i),
                            diagnostic: Diagnostic::Message(message),
                        },
                    ),
                    Ok((shape, presence)) => {
                        let description = parse_doc_attrs(&field.docs);
                        let wire = entry.1.clone();
                        assert(wire@ == entry.1@);
                        Ok((PropertyPlan { wire, shape, presence, description }, entry))
                    },
                },
            },
        };
        match step {
            Err(e) => {
                proof {
                    assert(fields_upto(fields@, rule, i + 1) == Err::<
                        Seq<(PropertyModel, WireModel)>,
                        Failure,
                    >(error_model(e)));
                    lemma_fields_failure_persists(fields@, rule, i + 1, fields@.len() as int);
                }
                return Err(e);
            },
            Ok((p, entry)) => {
                properties.push(p);
                entries.push(entry);
                proof {
                    assert(pair_models(properties@, entries@) =~= acc.push(
                        (property_model(p), entry_model(entry)),
                    ));
                }
            },
        }
        i = i + 1;
    }
    let ghost xs = pair_models(properties@, entries@);
    proof {
        assert(xs.map_values(|x: (PropertyModel, WireModel)| x.1) =~= entries@.map_values(
            |e: WireEntry| entry_model(e),
        ));
        assert(xs.map_values(|x: (PropertyModel, WireModel)| x.0) =~= properties@.map_values(
            |q: PropertyPlan| property_model(q),
        ));
    }
    match check_unique_at(&entries, "field") {
        Ok(()) => {},
        Err(e) => {
            assert(fields_upto(fields@, rule, fields@.len() as int) == Ok::<
                Seq<(PropertyModel, WireModel)>,
                Failure,
            >(xs));
            assert(uniqueness_spec(xs.map_values(|x: (PropertyModel, WireModel)| x.1), "field"@)
                == Some(error_model(e)));
            return Err(e);
        },
    }
    let description = parse_doc_attrs(&input.docs);
    Ok(StructPlan { properties, description })
}

} // verus!
