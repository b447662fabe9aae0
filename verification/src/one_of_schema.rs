//! The "internally-tagged `oneOf` schema" arm of
//! [`crate::schema_object::SchemaObject`].

use vstd::prelude::*;

verus! {

/// One arm of an internally-tagged [`OneOfSchema`]: the tag value and
/// the `$ref` target of the arm's inner schema.
#[derive(Debug, Clone, PartialEq, Eq)]
pub struct OneOfVariant {
    pub wire_name: String,
    pub inner_reference: String,
}

/// The "oneOf schema" variant carried by a schema object: the
/// discriminator property name, the arms in declaration order, and an
/// optional description.
#[derive(Debug, Clone, PartialEq, Eq)]
pub struct OneOfSchema {
    pub tag: String,
    pub variants: Vec<OneOfVariant>,
    pub description: Option<String>,
}

impl OneOfSchema {
    /// Builds a `oneOf` schema from a pre-validated variants list and tag,
    /// with no description.
    pub fn new(tag: &str, variants: Vec<OneOfVariant>) -> (r: Self)
        ensures
            r.tag@ == tag@,
            r.variants == variants,
            r.description is None,
    {
        OneOfSchema { tag: tag.to_string(), variants, description: None }
    }

    /// Attaches a description to the schema, replacing any earlier one;
    /// tag and variants are unchanged.
    pub fn with_description(self, description: Option<String>) -> (r: Self)
        ensures
            r.tag == self.tag,
            r.variants == self.variants,
            r.description == description,
    {
        OneOfSchema { tag: self.tag, variants: self.variants, description }
    }
}

} // verus!
