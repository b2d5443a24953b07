//! The errors of converting and querying values.
use vstd::prelude::*;

verus! {

/// A value had another kind than the conversion expected.
pub struct InvalidValueTypeError {
    pub expected_type: String,
    pub received_type: String,
}

/// An error that the datastore reported. The variants that this library tells
/// apart are spelled out; any other error is held by its message.
pub enum DatabaseError {
    /// A document was ignored while processing a query.
    Ignore,
    /// No query was given.
    QueryEmpty,
    /// Any other error, by its message.
    Other(String),
}

/// An error of converting or querying a value.
pub enum SurrealDbSchemaDeriveQueryError {
    RowObjectMissingIdColumn,
    SurrealDbError(DatabaseError),
    InvalidValueTypeError(InvalidValueTypeError),
}

/// The message of a value-kind mismatch.
pub open spec fn invalid_value_type_message(e: InvalidValueTypeError) -> Seq<char> {
    "Expected "@ + e.expected_type@ + " but received "@ + e.received_type@
}

/// The message of a datastore error.
pub open spec fn database_error_message(e: DatabaseError) -> Seq<char> {
    match e {
        DatabaseError::Ignore => "Conditional clause is not truthy"@,
        DatabaseError::QueryEmpty => "Specify some SQL code to execute"@,
        DatabaseError::Other(m) => m@,
    }
}

/// The message of a conversion or query error.
pub open spec fn query_error_message(e: SurrealDbSchemaDeriveQueryError) -> Seq<char> {
    match e {
        SurrealDbSchemaDeriveQueryError::RowObjectMissingIdColumn => "Row object had no 'id' column"@,
        SurrealDbSchemaDeriveQueryError::SurrealDbError(d) => "SurrealDb Error: "@
            + database_error_message(d),
        SurrealDbSchemaDeriveQueryError::InvalidValueTypeError(_) => "Value conversion failed"@,
    }
}

impl InvalidValueTypeError {
    /// Returns the error's message: "Expected <expected> but received <received>".
    pub fn message(&self) -> (r: String)
        ensures
            r@ == invalid_value_type_message(*self),
    {
        let mut m = String::from_str("Expected ");
        m.append(self.expected_type.as_str());
        m.append(" but received ");
        m.append(self.received_type.as_str());
        m
    }
}

impl DatabaseError {
    /// Returns the error's message.
    pub fn message(&self) -> (r: String)
        ensures
            r@ == database_error_message(*self),
    {
        match self {
            DatabaseError::Ignore => String::from_str("Conditional clause is not truthy"),
            DatabaseError::QueryEmpty => String::from_str("Specify some SQL code to execute"),
            DatabaseError::Other(m) => m.clone(),
        }
    }
}

impl SurrealDbSchemaDeriveQueryError {
    /// Returns the error's message.
    pub fn message(&self) -> (r: String)
        ensures
            r@ == query_error_message(*self),
    {
        match self {
            SurrealDbSchemaDeriveQueryError::RowObjectMissingIdColumn => String::from_str(
                "Row object had no 'id' column",
            ),
            SurrealDbSchemaDeriveQueryError::SurrealDbError(d) => {
                let mut m = String::from_str("SurrealDb Error: ");
                m.append(d.message().as_str());
                m
            },
            SurrealDbSchemaDeriveQueryError::InvalidValueTypeError(_) => String::from_str(
                "Value conversion failed",
            ),
        }
    }
}

impl From<DatabaseError> for SurrealDbSchemaDeriveQueryError {
    fn from(error: DatabaseError) -> (r: Self) {
        SurrealDbSchemaDeriveQueryError::SurrealDbError(error)
    }
}

impl vstd::std_specs::convert::FromSpecImpl<DatabaseError> for SurrealDbSchemaDeriveQueryError {
    open spec fn obeys_from_spec() -> bool {
        true
    }

    open spec fn from_spec(error: DatabaseError) -> Self {
        SurrealDbSchemaDeriveQueryError::SurrealDbError(error)
    }
}

impl From<InvalidValueTypeError> for SurrealDbSchemaDeriveQueryError {
    fn from(error: InvalidValueTypeError) -> (r: Self) {
        SurrealDbSchemaDeriveQueryError::InvalidValueTypeError(error)
    }
}

impl vstd::std_specs::convert::FromSpecImpl<InvalidValueTypeError> for SurrealDbSchemaDeriveQueryError {
    open spec fn obeys_from_spec() -> bool {
        true
    }

    open spec fn from_spec(error: InvalidValueTypeError) -> Self {
        SurrealDbSchemaDeriveQueryError::InvalidValueTypeError(error)
    }
}

} // verus!
