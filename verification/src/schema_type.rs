//! The `type` field of an OpenAPI Schema Object.

use vstd::prelude::*;

verus! {

/// The `type` field of an OpenAPI Schema Object.
///
/// `Null` is only meaningful under OAS 3.1, where `"null"` is a primitive
/// type name.
#[derive(Debug, Clone, Copy, PartialEq, Eq, Structural)]
pub enum SchemaType {
    Object,
    Integer,
    Number,
    String,
    Boolean,
    Array,
    Null,
}

/// The lowercase wire name of each type.
pub open spec fn schema_type_name(t: SchemaType) -> Seq<char> {
    match t {
        SchemaType::Object => "object"@,
        SchemaType::Integer => "integer"@,
        SchemaType::Number => "number"@,
        SchemaType::String => "string"@,
        SchemaType::Boolean => "boolean"@,
        SchemaType::Array => "array"@,
        SchemaType::Null => "null"@,
    }
}

impl SchemaType {
    /// The lowercase name under which the type appears on the wire.
    pub fn wire_name(self) -> (r: String)
        ensures
            r@ == schema_type_name(self),
    {
        let s = match self {
            SchemaType::Object => "object",
            SchemaType::Integer => "integer",
            SchemaType::Number => "number",
            SchemaType::String => "string",
            SchemaType::Boolean => "boolean",
            SchemaType::Array => "array",
            SchemaType::Null => "null",
        };
        s.to_string()
    }
}

} // verus!
