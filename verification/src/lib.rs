//! Code generation and runtime support for deriving SurrealDB schemas from
//! Rust structs.
pub mod codegen;
pub mod errors;
pub mod runtime;
pub mod text;
pub mod value;

pub use errors::{DatabaseError, InvalidValueTypeError, SurrealDbSchemaDeriveQueryError};
pub use runtime::reference::SurrealReference;
pub use value::{RecordId, SurrealValue, Thing, ValueData};
