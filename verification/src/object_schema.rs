//! The "object schema" arm of [`crate::schema_object::SchemaObject`],
//! also used for every per-property, per-`items` and per-`allOf` /
//! `oneOf` sub-schema.

use vstd::prelude::*;

use crate::schema_type::SchemaType;

verus! {

/// An inclusive numeric lower bound.
///
/// A whole-number bound is held as an integer (it is emitted as `0`, not
/// `0.0`); any other bound is held as the bit pattern of its IEEE-754
/// double.
#[derive(Debug, Clone, Copy, PartialEq, Eq, Structural)]
pub enum MinimumBound {
    Whole(i64),
    Fractional(u64),
}

/// An object schema. The field order mirrors the canonical output order
/// (`$ref`, `type`, `description`, `format`, `minimum`, `items`,
/// `required`, `properties`, `allOf`, `oneOf`, `nullable`).
///
/// `properties` is an ordered map: its entries keep declaration order.
#[derive(Debug, PartialEq)]
pub struct ObjectSchema {
    /// JSON pointer to another schema. When set the schema is a reference
    /// schema: only `description` and `nullable` are meaningful siblings.
    pub reference: Option<String>,
    pub ty: Option<SchemaType>,
    pub description: Option<String>,
    pub format: Option<String>,
    pub minimum: Option<MinimumBound>,
    /// Element schema for array types.
    pub items: Option<Box<ObjectSchema>>,
    /// Names of properties that must appear on the wire.
    pub required: Vec<String>,
    pub properties: Option<Vec<(String, ObjectSchema)>>,
    pub all_of: Option<Vec<ObjectSchema>>,
    pub one_of: Option<Vec<ObjectSchema>>,
    /// The intent that the schema accepts `null` too.
    pub nullable: Option<bool>,
}

/// `true` when the schema sets no field at all.
pub open spec fn is_empty_schema(s: ObjectSchema) -> bool {
    &&& s.reference is None
    &&& s.ty is None
    &&& s.description is None
    &&& s.format is None
    &&& s.minimum is None
    &&& s.items is None
    &&& s.required@.len() == 0
    &&& s.properties is None
    &&& s.all_of is None
    &&& s.one_of is None
    &&& s.nullable is None
}

impl ObjectSchema {
    /// An empty object schema with no fields set.
    pub fn empty() -> (r: Self)
        ensures
            is_empty_schema(r),
    {
        ObjectSchema {
            reference: None,
            ty: None,
            description: None,
            format: None,
            minimum: None,
            items: None,
            required: Vec::new(),
            properties: None,
            all_of: None,
            one_of: None,
            nullable: None,
        }
    }
}

impl Default for ObjectSchema {
    /// The empty schema.
    fn default() -> (r: Self)
        ensures
            is_empty_schema(r),
    {
        ObjectSchema::empty()
    }
}

} // verus!
