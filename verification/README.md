# surrealdb_schema_derive

Code generation and runtime support for deriving SurrealDB schemas from Rust
structs, written in Verus.

- `src/codegen/` generates the source text of the derived items (field
  definitions, table definition, conversions to and from `SurrealValue`, the
  row struct, fetch and save), from a plain description of the struct
  (`syntax.rs`). Each generator's result is stated exactly; `types.rs` decides
  which SurrealDB kind a field type is stored as.
- `src/runtime/` holds record references, the queries the generated code
  builds, and the reading of a query's single row, over the plain value model
  of `src/value.rs`.
- `app/` connects these to `syn`, `proc_macro2` and SurrealDB: it reads derive
  input into the plain description, emits tokens, converts values at the
  datastore boundary and runs the asynchronous queries.
