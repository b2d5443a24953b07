//! A typed reference to one record of a table.
use vstd::prelude::*;
use core::marker::PhantomData;
use crate::errors::{InvalidValueTypeError, SurrealDbSchemaDeriveQueryError};
use crate::runtime::surreal_query_generation::{make_lookup_query, LookupQuery};
use crate::value::{RecordId, SurrealValue, Thing};

verus! {

/// A reference to the record `id` of the table `table_name`, whose rows are `T`.
pub struct SurrealReference<T> {
    table_name: String,
    id: RecordId,
    phantom_data: PhantomData<T>,
}

/// The table name and record id that a value links to, if it is a link.
pub open spec fn linked_record(v: SurrealValue) -> Option<(Seq<char>, RecordId)> {
    match v {
        SurrealValue::Thing(t) => Some((t.tb@, t.id)),
        _ => None,
    }
}

/// The error that refuses a value which is not a link: it expected a `thing`
/// and received the value's debug text.
pub open spec fn is_not_a_link_error(e: SurrealDbSchemaDeriveQueryError, v: SurrealValue) -> bool {
    &&& e matches SurrealDbSchemaDeriveQueryError::InvalidValueTypeError(inner)
    &&& inner.expected_type@ == "thing"@
    &&& v matches SurrealValue::Data { debug_text, .. }
    &&& inner.received_type == debug_text
}

impl<T> SurrealReference<T> {
    /// The name of the referenced table.
    pub closed spec fn table(&self) -> Seq<char> {
        self.table_name@
    }

    /// The id of the referenced record.
    pub closed spec fn record_id(&self) -> RecordId {
        self.id
    }

    /// Makes a reference to the record `id` of the table `table_name`.
    pub fn new(table_name: String, id: RecordId) -> (r: SurrealReference<T>)
        ensures
            r.table() == table_name@,
            r.record_id() == id,
    {
        SurrealReference { table_name: table_name, id: id, phantom_data: PhantomData }
    }

    /// Returns the id of the referenced record.
    pub fn get_id(&self) -> (r: RecordId)
        ensures
            r == self.record_id(),
    {
        self.id.duplicate()
    }

    /// Returns the query that resolves the reference: a lookup of the record
    /// by its table and id.
    pub fn lookup_query(&self) -> (q: LookupQuery)
        ensures
            q.what.tb@ == self.table(),
            q.what.id == self.record_id(),
    {
        make_lookup_query(self.table_name.clone(), self.id.duplicate())
    }

    /// The value that stands for the reference: a link to the record.
    pub closed spec fn to_value(self) -> SurrealValue {
        SurrealValue::Thing(Thing { tb: self.table_name, id: self.id })
    }
}

impl<T> Clone for SurrealReference<T> {
    fn clone(&self) -> (r: Self)
        ensures
            r == *self,
    {
        SurrealReference {
            table_name: self.table_name.clone(),
            id: self.id.duplicate(),
            phantom_data: PhantomData,
        }
    }
}

impl<T> From<SurrealReference<T>> for SurrealValue {
    fn from(reference: SurrealReference<T>) -> (v: SurrealValue) {
        SurrealValue::Thing(Thing { tb: reference.table_name, id: reference.id })
    }
}

impl<T> vstd::std_specs::convert::FromSpecImpl<SurrealReference<T>> for SurrealValue {
    open spec fn obeys_from_spec() -> bool {
        true
    }

    open spec fn from_spec(reference: SurrealReference<T>) -> SurrealValue {
        reference.to_value()
    }
}

/// Reads a reference from a value: a link to a record gives the reference to
/// it; any other value is refused with an `InvalidValueTypeError` that
/// expected a `thing` and received the value's debug text.
impl<T> TryFrom<SurrealValue> for SurrealReference<T> {
    type Error = SurrealDbSchemaDeriveQueryError;

    fn try_from(value: SurrealValue) -> (r: Result<Self, Self::Error>)
        ensures
            match linked_record(value) {
                Some((tb, id)) => r matches Ok(reference) && reference.table() == tb
                    && reference.record_id() == id,
                None => r matches Err(e) && is_not_a_link_error(e, value),
            },
    {
        match value {
            SurrealValue::Thing(thing) => Ok(
                SurrealReference { table_name: thing.tb, id: thing.id, phantom_data: PhantomData },
            ),
            SurrealValue::Data { debug_text, .. } => Err(
                SurrealDbSchemaDeriveQueryError::InvalidValueTypeError(
                    InvalidValueTypeError {
                        expected_type: String::from_str("thing"),
                        received_type: debug_text,
                    },
                ),
            ),
        }
    }
}

/// The refusing error's expected type is text built at run time, which a spec
/// value cannot hold; so `try_from_spec` describes the error (as `try_from`'s
/// own `ensures` states it) rather than giving it, and `try_from` does not
/// claim to equal it.
impl<T> vstd::std_specs::convert::TryFromSpecImpl<SurrealValue> for SurrealReference<T> {
    open spec fn obeys_try_from_spec() -> bool {
        false
    }

    closed spec fn try_from_spec(value: SurrealValue) -> Result<Self, SurrealDbSchemaDeriveQueryError> {
        match value {
            SurrealValue::Thing(t) => Ok(
                SurrealReference { table_name: t.tb, id: t.id, phantom_data: PhantomData },
            ),
            _ => Err(choose|e: SurrealDbSchemaDeriveQueryError| is_not_a_link_error(e, value)),
        }
    }
}

/// Reading a reference back from the value that stands for it gives the same
/// table and record id.
pub proof fn lemma_reference_value_roundtrip<T>(reference: SurrealReference<T>)
    ensures
        linked_record(reference.to_value()) == Some((reference.table(), reference.record_id())),
{
}

/// A link read as a reference and turned back into a value links to the same
/// table and record id.
pub proof fn lemma_value_reference_roundtrip<T>(v: SurrealValue, reference: SurrealReference<T>)
    requires
        linked_record(v) == Some((reference.table(), reference.record_id())),
    ensures
        linked_record(reference.to_value()) == linked_record(v),
{
}

} // verus!
