//! Generating the functions that read a row from and write a row to the datastore.
use vstd::prelude::*;

verus! {

/// The text of `fetch_from_datastore` before the table's name.
pub const FETCH_HEAD: &'static str = "async fn fetch_from_datastore(id: String, datastore: &surrealdb_schema_derive::surrealdb::Datastore, session: &surrealdb_schema_derive::surrealdb::Session) -> surrealdb_schema_derive::anyhow::Result<Option<Self::Row>> { let query = surrealdb_schema_derive::runtime::make_lookup_query(stringify!(";

/// The text of `fetch_from_datastore` after the table's name.
pub const FETCH_TAIL: &'static str = ").into(), surrealdb_schema_derive::surrealdb::sql::Id::String(id.to_string()), ); Ok(surrealdb_schema_derive::runtime::run_single_row_query(datastore, session, query).await?) }";

/// The text of `save_to_datastore` before the table's name.
pub const SAVE_HEAD: &'static str = "async fn save_to_datastore(self, datastore: &surrealdb_schema_derive::surrealdb::Datastore, session: &surrealdb_schema_derive::surrealdb::Session) -> surrealdb_schema_derive::anyhow::Result<Self::Row> { let query = surrealdb_schema_derive::surrealdb::sql::Query(surrealdb_schema_derive::surrealdb::sql::Statements(vec![surrealdb_schema_derive::surrealdb::sql::Statement::Insert(surrealdb_schema_derive::surrealdb::sql::statements::InsertStatement { into: surrealdb_schema_derive::surrealdb::sql::Table(stringify!(";

/// The text of `save_to_datastore` after the table's name.
pub const SAVE_TAIL: &'static str = ").into()), data: surrealdb_schema_derive::runtime::to_single_row_values_expression(self.into())?, ignore: false, update: None, output: Some(surrealdb_schema_derive::surrealdb::sql::Output::After), timeout: None, parallel: false, }), ])); Ok(surrealdb_schema_derive::runtime::run_single_row_query(datastore, session, query).await?.unwrap()) }";

/// The code of `fetch_from_datastore`, which looks a row of the table up by its id.
pub open spec fn fetch_code(table_name: Seq<char>) -> Seq<char> {
    FETCH_HEAD@ + table_name + FETCH_TAIL@
}

/// The code of `save_to_datastore`, which inserts the value as a row of the table.
pub open spec fn save_code(table_name: Seq<char>) -> Seq<char> {
    SAVE_HEAD@ + table_name + SAVE_TAIL@
}

/// Generates `fetch_from_datastore` for the named table.
pub fn gen_fn_fetch_from_datastore(table_name: &String) -> (r: String)
    ensures
        r@ == fetch_code(table_name@),
{
    let mut code = String::from_str(FETCH_HEAD);
    code.append(table_name.as_str());
    code.append(FETCH_TAIL);
    code
}

/// Generates `save_to_datastore` for the named table.
pub fn gen_fn_save_to_datastore(table_name: &String) -> (r: String)
    ensures
        r@ == save_code(table_name@),
{
    let mut code = String::from_str(SAVE_HEAD);
    code.append(table_name.as_str());
    code.append(SAVE_TAIL);
    code
}

} // verus!
