//! Runtime support that the generated code calls: record references, query
//! building, and reading a query's single row.
pub mod reference;
pub mod surreal_execution;
pub mod surreal_query_generation;
