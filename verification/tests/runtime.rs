use surrealdb_schema_derive::runtime::surreal_execution::{
    single_row_from_responses, single_row_value, QueryResponse, RowQueryError, SingleRowError,
};
use surrealdb_schema_derive::runtime::surreal_query_generation::{
    make_lookup_query, to_single_row_values_expression,
};
use surrealdb_schema_derive::value::object_keys_ordered;
use surrealdb_schema_derive::{
    DatabaseError, InvalidValueTypeError, RecordId, SurrealDbSchemaDeriveQueryError,
    SurrealReference, SurrealValue, Thing, ValueData,
};

fn data(value: ValueData, debug_text: &str) -> SurrealValue {
    SurrealValue::Data { value, debug_text: debug_text.to_string() }
}

fn int_value(n: i64) -> SurrealValue {
    data(ValueData::Int(n), &format!("Number(Int({}))", n))
}

struct Person;

fn link(tb: &str, id: &str) -> SurrealValue {
    SurrealValue::Thing(Thing { tb: tb.to_string(), id: RecordId::String(id.to_string()) })
}

fn id_text(id: &RecordId) -> String {
    match id {
        RecordId::Number(n) => n.to_string(),
        RecordId::String(s) => s.clone(),
        RecordId::Other(id) => id.to_string(),
    }
}

#[test]
fn reference_keeps_its_id() {
    let r: SurrealReference<Person> = SurrealReference::new("person".to_string(), RecordId::Number(42));
    assert!(matches!(r.get_id(), RecordId::Number(42)));
    assert_eq!(r.lookup_query().what.tb, "person");
    let c = r.clone();
    assert!(matches!(c.get_id(), RecordId::Number(42)));
}

#[test]
fn reference_value_roundtrip() {
    let r: SurrealReference<Person> =
        SurrealReference::new("person".to_string(), RecordId::String("tobie".to_string()));
    let v: SurrealValue = r.into();
    match &v {
        SurrealValue::Thing(t) => {
            assert_eq!(t.tb, "person");
            assert_eq!(id_text(&t.id), "tobie");
        }
        _ => panic!("expected a link"),
    }
    let back: SurrealReference<Person> = SurrealReference::try_from(v).ok().unwrap();
    assert_eq!(back.lookup_query().what.tb, "person");
    assert_eq!(id_text(&back.get_id()), "tobie");
}

#[test]
fn reference_refuses_other_values() {
    let e = SurrealReference::<Person>::try_from(data(ValueData::Null, "Null")).err().unwrap();
    match e {
        SurrealDbSchemaDeriveQueryError::InvalidValueTypeError(inner) => {
            assert_eq!(inner.expected_type, "thing");
            assert_eq!(inner.received_type, "Null");
            assert_eq!(inner.message(), "Expected thing but received Null");
        }
        _ => panic!("expected an invalid value type error"),
    }
    let e = SurrealReference::<Person>::try_from(int_value(3)).err().unwrap();
    match &e {
        SurrealDbSchemaDeriveQueryError::InvalidValueTypeError(inner) => {
            assert_eq!(inner.received_type, "Number(Int(3))")
        }
        _ => panic!("expected an invalid value type error"),
    }
    let e = SurrealReference::<Person>::try_from(data(ValueData::Array(vec![]), "Array(Array([]))"))
        .err()
        .unwrap();
    assert_eq!(e.message(), "Value conversion failed");
}

#[test]
fn lookup_query_targets_the_record() {
    let q = make_lookup_query("person".to_string(), RecordId::Number(7));
    assert_eq!(q.what.tb, "person");
    assert!(matches!(q.what.id, RecordId::Number(7)));
    let r: SurrealReference<Person> = SurrealReference::new("book".to_string(), RecordId::Other(surrealdb::sql::Id::Array(surrealdb::sql::Array(vec![
        surrealdb::sql::Value::from(1i64),
        surrealdb::sql::Value::from(2i64),
    ]))));
    let q = r.lookup_query();
    assert_eq!(q.what.tb, "book");
    assert_eq!(id_text(&q.what.id), "[1, 2]");
}

#[test]
fn values_expression_has_one_column_per_entry() {
    let object = data(
        ValueData::Object(vec![
            ("age".to_string(), int_value(30)),
            ("name".to_string(), data(ValueData::Strand("Ann".to_string()), "Strand(Strand(\"Ann\"))")),
        ]),
        "Object(..)",
    );
    let e = to_single_row_values_expression(object).ok().unwrap();
    assert_eq!(e.rows.len(), 1);
    let row = &e.rows[0];
    assert_eq!(row.len(), 2);
    assert_eq!(row[0].0.parts, vec!["age".to_string()]);
    assert!(matches!(row[0].1, SurrealValue::Data { value: ValueData::Int(30), .. }));
    assert_eq!(row[1].0.parts, vec!["name".to_string()]);
    assert!(matches!(&row[1].1, SurrealValue::Data { value: ValueData::Strand(s), .. } if s == "Ann"));
    let empty = to_single_row_values_expression(data(ValueData::Object(vec![]), "Object(Object({}))"))
        .ok()
        .unwrap();
    assert_eq!(empty.rows.len(), 1);
    assert_eq!(empty.rows[0].len(), 0);
}

#[test]
fn values_expression_refuses_non_objects() {
    assert!(matches!(to_single_row_values_expression(data(ValueData::Null, "Null")), Err(DatabaseError::Ignore)));
    assert!(matches!(to_single_row_values_expression(link("a", "b")), Err(DatabaseError::Ignore)));
}

fn array(items: Vec<SurrealValue>) -> SurrealValue {
    data(ValueData::Array(items), "Array(..)")
}

fn ok(v: SurrealValue) -> QueryResponse {
    QueryResponse { result: Ok(v) }
}

#[test]
fn single_row_takes_the_first_row() {
    let r = single_row_value(vec![ok(array(vec![int_value(1), int_value(2)]))]);
    assert!(matches!(r, Ok(Some(SurrealValue::Data { value: ValueData::Int(1), .. }))));
    let r = single_row_value(vec![ok(array(vec![]))]);
    assert!(matches!(r, Ok(None)));
    let r = single_row_value(vec![QueryResponse { result: Err(DatabaseError::QueryEmpty) }]);
    assert!(matches!(r, Ok(None)));
}

#[test]
fn single_row_errors() {
    let r = single_row_value(vec![]);
    assert!(matches!(r, Err(RowQueryError::WrongResultCount)));
    let r = single_row_value(vec![ok(array(vec![])), ok(array(vec![]))]);
    let e = r.err().unwrap();
    assert_eq!(e.message(), "Surrealdb returned the wrong number of query results");
    let r = single_row_value(vec![ok(data(ValueData::Bool(true), "True"))]);
    let e = r.err().unwrap();
    assert!(matches!(e, RowQueryError::NonArrayResult));
    assert_eq!(e.message(), "SurrealDb returned a non-array value for a list query");
    let r = single_row_value(vec![QueryResponse { result: Err(DatabaseError::Other("boom".to_string())) }]);
    assert!(matches!(r, Err(RowQueryError::Database(DatabaseError::Other(ref m))) if m == "boom"));
    let r = single_row_value(vec![QueryResponse { result: Err(DatabaseError::Ignore) }]);
    assert_eq!(r.err().unwrap().message(), "Conditional clause is not truthy");
}

#[test]
fn single_row_converts_the_row() {
    let r = single_row_from_responses::<SurrealReference<Person>>(vec![ok(array(vec![link("person", "ann")]))]);
    let reference = r.ok().unwrap().unwrap();
    assert_eq!(reference.lookup_query().what.tb, "person");
    let r = single_row_from_responses::<SurrealReference<Person>>(vec![ok(array(vec![data(ValueData::Null, "Null")]))]);
    match r {
        Err(SingleRowError::Conversion(e)) => assert_eq!(e.message(), "Value conversion failed"),
        _ => panic!("expected a conversion error"),
    }
    let r = single_row_from_responses::<SurrealReference<Person>>(vec![]);
    assert!(matches!(r, Err(SingleRowError::Query(RowQueryError::WrongResultCount))));
    let r = single_row_from_responses::<SurrealReference<Person>>(vec![ok(array(vec![]))]);
    assert!(matches!(r, Ok(None)));
}

#[test]
fn error_messages() {
    let e: SurrealDbSchemaDeriveQueryError = DatabaseError::QueryEmpty.into();
    assert_eq!(e.message(), "SurrealDb Error: Specify some SQL code to execute");
    let e: SurrealDbSchemaDeriveQueryError =
        InvalidValueTypeError { expected_type: "Person".to_string(), received_type: "array".to_string() }.into();
    assert!(matches!(e, SurrealDbSchemaDeriveQueryError::InvalidValueTypeError(_)));
    assert_eq!(SurrealDbSchemaDeriveQueryError::RowObjectMissingIdColumn.message(), "Row object had no 'id' column");
}

#[test]
fn object_keys_must_increase() {
    let entry = |k: &str| (k.to_string(), data(ValueData::Null, "Null"));
    assert!(object_keys_ordered(&vec![]));
    assert!(object_keys_ordered(&vec![entry("a")]));
    assert!(object_keys_ordered(&vec![entry("a"), entry("ab"), entry("b")]));
    assert!(!object_keys_ordered(&vec![entry("b"), entry("a"), entry("a")]));
    assert!(!object_keys_ordered(&vec![entry("a"), entry("a")]));
    assert!(object_keys_ordered(&vec![entry("Z"), entry("a"), entry("z"), entry("\u{e9}")]));
    assert!(!object_keys_ordered(&vec![entry("\u{e9}"), entry("z")]));
}

#[test]
fn other_values_are_carried_unchanged() {
    let float_value = surrealdb::sql::Value::from(1.5f64);
    let v = data(ValueData::Other(float_value.clone()), "Number(Float(1.5))");
    let row = single_row_value(vec![ok(array(vec![v]))]).ok().unwrap().unwrap();
    match row {
        SurrealValue::Data { value: ValueData::Other(carried), debug_text } => {
            assert_eq!(carried, float_value);
            assert_eq!(debug_text, "Number(Float(1.5))");
        }
        _ => panic!("expected the carried value"),
    }
}
