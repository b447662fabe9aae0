# frieze

frieze generates OpenAPI documents from Rust types: `#[derive(Schema)]`
describes each type as an OAS schema, a cargo gateway collects the
schemas of a target crate, and the collected components are merged into
a partial document and written as YAML or JSON, for OAS 3.0 or 3.1.

## Layout

- `src/` is the verified library (Verus). It holds the decisions:
  - the schema model and the versioned emitter (`schema_type`,
    `string_enum_schema`, `one_of_schema`, `object_schema`,
    `schema_object`, `wire`, `emit`, with the emitter's laws in
    `emit_laws`), and the OAS version discriminants (`version`,
    `oas_version`);
  - what the derive decides for a struct or an enum (`serde_scan`,
    `rename`, `case`, `doc`, `field`, `expand_common`, `expand_struct`,
    `expand_enum`), over plain descriptions of the syntax;
  - the cargo gateway's rules (`cargo`, `inspect`, `json`, `resolve`,
    `workspace`, `order`) and the filesystem gateway's section reader
    (`metadata`, `fs`, `edit_distance`);
  - `laws`, properties that span several functions.
- `app/` is the plain Rust edge: the serde forms of the model, YAML and
  JSON rendering, cargo and file I/O, and the adapters between `syn`
  syntax trees and the derive's decisions.
- `tests/` runs the library on concrete values.
