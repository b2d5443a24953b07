//! Generating the code of the derived impls, as Rust source text.
pub mod crud_statements;
pub mod define_statements;
pub mod object_conversion;
pub mod row_struct;
pub mod syntax;
pub mod tokens;
pub mod types;
