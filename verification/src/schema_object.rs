//! The top-level OpenAPI Schema Object sum: the kinds of schema that can
//! be registered under `#/components/schemas`.

use vstd::prelude::*;

use crate::object_schema::ObjectSchema;
use crate::one_of_schema::OneOfSchema;
use crate::string_enum_schema::StringEnumSchema;

verus! {

/// The kinds of OAS Schema Object registered under
/// `#/components/schemas`.
#[derive(Debug, PartialEq)]
pub enum SchemaObject {
    /// A `oneOf` schema with a top-level `discriminator` block.
    OneOf(OneOfSchema),
    /// A `type: string` schema whose `enum` lists the allowed values.
    StringEnum(StringEnumSchema),
    /// A standard object schema, or any per-property shape.
    Object(ObjectSchema),
}

} // verus!
