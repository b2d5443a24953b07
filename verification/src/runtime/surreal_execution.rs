//! Reading the single row that a query returns.
use vstd::prelude::*;
use crate::errors::DatabaseError;
use crate::value::{SurrealValue, ValueData};

verus! {

/// The reply of the datastore to one statement of a query.
pub struct QueryResponse {
    pub result: Result<SurrealValue, DatabaseError>,
}

/// Why a query's reply does not give a single row.
pub enum RowQueryError {
    /// The reply did not hold exactly one statement's result.
    WrongResultCount,
    /// The statement's result was not an array of rows.
    NonArrayResult,
    /// The datastore reported an error.
    Database(DatabaseError),
}

/// Why reading a single row failed: the query, or converting the row.
pub enum SingleRowError<E> {
    Query(RowQueryError),
    Conversion(E),
}

/// The message of a query error.
pub open spec fn row_query_error_message(e: RowQueryError) -> Seq<char> {
    match e {
        RowQueryError::WrongResultCount => "Surrealdb returned the wrong number of query results"@,
        RowQueryError::NonArrayResult => "SurrealDb returned a non-array value for a list query"@,
        RowQueryError::Database(d) => crate::errors::database_error_message(d),
    }
}

/// The row that a reply gives: the reply must hold one result; an array
/// result gives its first element, or no row when it is empty; a `QueryEmpty`
/// error gives no row; any other error is passed on.
pub open spec fn single_row_outcome(responses: Seq<QueryResponse>) -> Result<
    Option<SurrealValue>,
    RowQueryError,
> {
    if responses.len() != 1 {
        Err(RowQueryError::WrongResultCount)
    } else {
        match responses[0].result {
            Ok(SurrealValue::Data { value: ValueData::Array(items), .. }) => if items@.len() == 0 {
                Ok(None)
            } else {
                Ok(Some(items@[0]))
            },
            Ok(_) => Err(RowQueryError::NonArrayResult),
            Err(DatabaseError::QueryEmpty) => Ok(None),
            Err(e) => Err(RowQueryError::Database(e)),
        }
    }
}

impl RowQueryError {
    /// Returns the error's message.
    pub fn message(&self) -> (r: String)
        ensures
            r@ == row_query_error_message(*self),
    {
        match self {
            RowQueryError::WrongResultCount => String::from_str(
                "Surrealdb returned the wrong number of query results",
            ),
            RowQueryError::NonArrayResult => String::from_str(
                "SurrealDb returned a non-array value for a list query",
            ),
            RowQueryError::Database(d) => d.message(),
        }
    }
}

/// Returns the row that the datastore's reply to a query gives, as
/// `single_row_outcome` states.
pub fn single_row_value(responses: Vec<QueryResponse>) -> (r: Result<
    Option<SurrealValue>,
    RowQueryError,
>)
    ensures
        r == single_row_outcome(responses@),
{
    let mut responses = responses;
    if responses.len() != 1 {
        return Err(RowQueryError::WrongResultCount);
    }
    let response = responses.remove(0);
    match response.result {
        Ok(result_value) => {
            if let SurrealValue::Data { value: ValueData::Array(result_array), .. } = result_value {
                let mut result_array = result_array;
                if result_array.len() == 0 {
                    return Ok(None);
                }
                let first_value = result_array.remove(0);
                Ok(Some(first_value))
            } else {
                Err(RowQueryError::NonArrayResult)
            }
        },
        Err(DatabaseError::QueryEmpty) => Ok(None),
        Err(err) => Err(RowQueryError::Database(err)),
    }
}

/// Reads the single row of a query's reply and converts it with `T::try_from`:
/// no row gives `None`; a row gives what the conversion gives.
pub fn single_row_from_responses<T: TryFrom<SurrealValue>>(responses: Vec<QueryResponse>) -> (r:
    Result<Option<T>, SingleRowError<T::Error>>)
    ensures
        match single_row_outcome(responses@) {
            Ok(None) => r matches Ok(None),
            Ok(Some(v)) => match r {
                Ok(Some(t)) => call_ensures(T::try_from, (v,), Ok(t)),
                Err(SingleRowError::Conversion(e)) => call_ensures(T::try_from, (v,), Err(e)),
                _ => false,
            },
            Err(e) => r == Err::<Option<T>, SingleRowError<T::Error>>(SingleRowError::Query(e)),
        },
{
    match single_row_value(responses) {
        Ok(Some(value)) => match T::try_from(value) {
            Ok(row) => Ok(Some(row)),
            Err(e) => Err(SingleRowError::Conversion(e)),
        },
        Ok(None) => Ok(None),
        Err(e) => Err(SingleRowError::Query(e)),
    }
}

/// What a reply gives, case by case: a reply that does not hold exactly one
/// result is refused; an array result gives its first element, whatever kind
/// of value that is (an object row included), or no row when it is empty; any
/// other result value is refused as not an array; a `QueryEmpty` error gives
/// no row; any other error is passed on unchanged.
pub proof fn lemma_single_row_cases(responses: Seq<QueryResponse>)
    ensures
        responses.len() != 1 ==> single_row_outcome(responses) == Err::<Option<SurrealValue>, RowQueryError>(
            RowQueryError::WrongResultCount,
        ),
        responses.len() == 1 ==> match responses[0].result {
            Ok(SurrealValue::Data { value: ValueData::Array(items), .. }) => {
                &&& items@.len() > 0 ==> single_row_outcome(responses) == Ok::<
                    Option<SurrealValue>,
                    RowQueryError,
                >(Some(items@[0]))
                &&& items@.len() == 0 ==> single_row_outcome(responses) == Ok::<
                    Option<SurrealValue>,
                    RowQueryError,
                >(None)
            },
            Ok(_) => single_row_outcome(responses) == Err::<Option<SurrealValue>, RowQueryError>(
                RowQueryError::NonArrayResult,
            ),
            Err(DatabaseError::QueryEmpty) => single_row_outcome(responses) == Ok::<
                Option<SurrealValue>,
                RowQueryError,
            >(None),
            Err(e) => single_row_outcome(responses) == Err::<Option<SurrealValue>, RowQueryError>(
                RowQueryError::Database(e),
            ),
        },
{
}

/// The value handed to the row conversion is the first element of the one
/// array result, whatever kind of value it is.
pub proof fn lemma_single_row_is_first_element(responses: Seq<QueryResponse>, items: Vec<SurrealValue>, debug_text: String)
    requires
        responses.len() == 1,
        responses[0].result == Ok::<SurrealValue, DatabaseError>(
            SurrealValue::Data { value: ValueData::Array(items), debug_text },
        ),
        items@.len() > 0,
    ensures
        single_row_outcome(responses) == Ok::<Option<SurrealValue>, RowQueryError>(Some(items@[0])),
{
}

} // verus!
