//! Building the queries that the generated code runs.
use vstd::prelude::*;
use crate::errors::DatabaseError;
use crate::value::{keys_strictly_increasing, RecordId, SurrealValue, Thing, ValueData};

verus! {

/// A query that selects every field of one record, named by its link
/// (`SELECT * FROM <what>`).
pub struct LookupQuery {
    pub what: Thing,
}

/// A field path made of field names, outermost first.
pub struct FieldIdiom {
    pub parts: Vec<String>,
}

/// The data of a `VALUES` insertion: rows of (field path, value) pairs.
pub struct ValuesExpression {
    pub rows: Vec<Vec<(FieldIdiom, SurrealValue)>>,
}

/// Whether `row` holds one column per entry of the object, in order: the
/// entry's key as a one-part field path, and the entry's value.
pub open spec fn row_of_entries(
    row: Seq<(FieldIdiom, SurrealValue)>,
    entries: Seq<(String, SurrealValue)>,
) -> bool {
    &&& row.len() == entries.len()
    &&& forall|i: int|
        0 <= i < row.len() ==> (#[trigger] row[i]).0.parts@ == seq![entries[i].0] && row[i].1
            == entries[i].1
}

/// Builds the query that looks up the record `id` of the table `table_name`.
pub fn make_lookup_query(table_name: String, id: RecordId) -> (q: LookupQuery)
    ensures
        q.what.tb == table_name,
        q.what.id == id,
{
    LookupQuery { what: Thing { tb: table_name, id } }
}

/// Whether a value is well formed as far as this function reads it: an
/// object's keys are strictly increasing, as in SurrealDB's object map.
pub open spec fn top_object_well_formed(v: SurrealValue) -> bool {
    v matches SurrealValue::Data { value: ValueData::Object(entries), .. } ==> keys_strictly_increasing(
        entries@,
    )
}

/// Turns an object into the data of a one-row `VALUES` insertion, one column
/// per entry in key order (so the columns' field names are strictly
/// increasing); any other value is refused with `Ignore`.
pub fn to_single_row_values_expression(surreal_object: SurrealValue) -> (r: Result<
    ValuesExpression,
    DatabaseError,
>)
    requires
        top_object_well_formed(surreal_object),
    ensures
        match surreal_object {
            SurrealValue::Data {
                value: ValueData::Object(entries),
                ..
            } => r matches Ok(e) && e.rows@.len() == 1 && row_of_entries(
                e.rows@[0]@,
                entries@,
            ),
            _ => r matches Err(DatabaseError::Ignore),
        },
{
    if let SurrealValue::Data { value: ValueData::Object(object_value), .. } = surreal_object {
        let ghost entries = object_value@;
        let mut rest = object_value;
        let mut inner: Vec<(FieldIdiom, SurrealValue)> = Vec::new();
        while rest.len() > 0
            invariant
                inner@.len() + rest@.len() == entries.len(),
                rest@ == entries.skip(inner@.len() as int),
                row_of_entries(inner@, entries.take(inner@.len() as int)),
            decreases rest.len(),
        {
            let (key, value) = rest.remove(0);
            let ghost n: int = inner@.len() as int;
            inner.push((FieldIdiom { parts: vec![key] }, value));
            proof {
                assert(rest@ =~= entries.skip(n + 1));
                assert(inner@.len() == n + 1);
                assert forall|i: int| 0 <= i < inner@.len() implies (#[trigger] inner@[i]).0.parts@
                    == seq![entries.take(n + 1)[i].0] && inner@[i].1 == entries.take(n + 1)[i].1 by {
                    if i == n {
                        assert(inner@[i].0.parts@ =~= seq![key]);
                    }
                }
            }
        }
        assert(entries.take(entries.len() as int) =~= entries);
        let mut outer: Vec<Vec<(FieldIdiom, SurrealValue)>> = Vec::new();
        outer.push(inner);
        Ok(ValuesExpression { rows: outer })
    } else {
        Err(DatabaseError::Ignore)
    }
}

} // verus!
