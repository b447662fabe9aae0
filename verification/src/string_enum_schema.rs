//! The "string enum schema" arm of [`crate::schema_object::SchemaObject`].
//!
//! On the OAS wire this renders as `{type: string, description?, enum:
//! [...]}`.

use vstd::prelude::*;

verus! {

/// The string-enum variant carried by a schema object. Values are kept
/// in source order.
#[derive(Debug, Clone, PartialEq, Eq)]
pub struct StringEnumSchema {
    pub values: Vec<String>,
    /// Free-form description text, carried verbatim.
    pub description: Option<String>,
}

impl StringEnumSchema {
    /// Builds a string-enum schema from a pre-validated values list, with
    /// no description.
    pub fn new(values: Vec<String>) -> (r: Self)
        ensures
            r.values == values,
            r.description is None,
    {
        StringEnumSchema { values, description: None }
    }

    /// Attaches a description to the schema, replacing any earlier one;
    /// the values are unchanged.
    pub fn with_description(self, description: Option<String>) -> (r: Self)
        ensures
            r.values == self.values,
            r.description == description,
    {
        StringEnumSchema { values: self.values, description }
    }
}

} // verus!
