//! Verified core of frieze, a generator of OpenAPI documents from Rust
//! types.

pub mod text;
pub mod version;
pub mod oas_version;
pub mod edit_distance;
pub mod wire;
pub mod schema_type;
pub mod string_enum_schema;
pub mod one_of_schema;
pub mod object_schema;
pub mod schema_object;
pub mod emit;
pub mod emit_laws;
pub mod case;
pub mod rename;
pub mod doc;
pub mod cargo;
pub mod json;
pub mod inspect;
pub mod serde_scan;
pub mod field;
pub mod expand_common;
pub mod expand_struct;
pub mod expand_enum;
pub mod order;
pub mod resolve;
pub mod fs;
pub mod workspace;
pub mod metadata;
pub mod laws;
pub mod derive_laws;
