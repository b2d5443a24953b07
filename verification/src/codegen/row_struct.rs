//! Generating the row struct: a struct's value together with its reference in the datastore.
use vstd::prelude::*;

verus! {

/// The pieces of the row struct's code, in order; between neighbours stands
/// the row struct's name or the struct's name, as `row_struct_code` lays out.
pub const ROW_0: &'static str = "#[derive(Debug)] struct ";
pub const ROW_1: &'static str = " { surreal_ref: surrealdb_schema_derive::SurrealReference<";
pub const ROW_2: &'static str = ">, value: ";
pub const ROW_3: &'static str = " } impl std::ops::Deref for ";
pub const ROW_4: &'static str = " { type Target = ";
pub const ROW_5: &'static str = "; fn deref(&self) -> &Self::Target { &self.value } } impl Into<";
pub const ROW_6: &'static str = "> for ";
pub const ROW_7: &'static str = " { fn into(self) -> ";
pub const ROW_8: &'static str = " { self.value } } impl Into<surrealdb_schema_derive::SurrealValue> for ";
pub const ROW_9: &'static str = " { fn into(self) -> surrealdb_schema_derive::SurrealValue { surrealdb_schema_derive::runtime::row_to_surreal_value(self) } } impl TryFrom<surrealdb_schema_derive::SurrealValue> for ";
pub const ROW_10: &'static str = " { type Error = surrealdb_schema_derive::SurrealDbSchemaDeriveQueryError; fn try_from(value: surrealdb_schema_derive::SurrealValue) -> Result<Self, Self::Error> { surrealdb_schema_derive::runtime::surreal_value_to_row(value) } } impl surrealdb_schema_derive::SurrealDbRow for ";
pub const ROW_11: &'static str = " { type Table = ";
pub const ROW_12: &'static str = "; fn new(id: surrealdb_schema_derive::surrealdb::sql::Id, value: Self::Table) -> Self { ";
pub const ROW_13: &'static str = " { surreal_ref: surrealdb_schema_derive::SurrealReference::new(stringify!(";
pub const ROW_14: &'static str = ").into(), id), value: value } } fn get_table_name() -> String { stringify!(";
pub const ROW_15: &'static str = ").into() } fn get_reference(&self) -> &surrealdb_schema_derive::SurrealReference<Self::Table> { &self.surreal_ref } }";

/// The code of the row struct `row` of the struct `st`: the struct itself
/// (a reference into the table named after `st`, and the value), `Deref` and
/// `Into` to the value, the conversions to and from a `SurrealValue`, and
/// `SurrealDbRow`.
pub open spec fn row_struct_code(st: Seq<char>, row: Seq<char>) -> Seq<char> {
    ROW_0@ + row + ROW_1@ + st + ROW_2@ + st + ROW_3@ + row + ROW_4@ + st + ROW_5@ + st + ROW_6@
        + row + ROW_7@ + st + ROW_8@ + row + ROW_9@ + row + ROW_10@ + row + ROW_11@ + st + ROW_12@
        + row + ROW_13@ + st + ROW_14@ + st + ROW_15@
}

/// Generates the row struct named `row_struct_name` for the struct `struct_ident`.
pub fn gen_row_struct(struct_ident: &String, row_struct_name: &String) -> (r: String)
    ensures
        r@ == row_struct_code(struct_ident@, row_struct_name@),
{
    let st = struct_ident.as_str();
    let row = row_struct_name.as_str();
    let mut code = String::from_str(ROW_0);
    code.append(row);
    code.append(ROW_1);
    code.append(st);
    code.append(ROW_2);
    code.append(st);
    code.append(ROW_3);
    code.append(row);
    code.append(ROW_4);
    code.append(st);
    code.append(ROW_5);
    code.append(st);
    code.append(ROW_6);
    code.append(row);
    code.append(ROW_7);
    code.append(st);
    code.append(ROW_8);
    code.append(row);
    code.append(ROW_9);
    code.append(row);
    code.append(ROW_10);
    code.append(row);
    code.append(ROW_11);
    code.append(st);
    code.append(ROW_12);
    code.append(row);
    code.append(ROW_13);
    code.append(st);
    code.append(ROW_14);
    code.append(st);
    code.append(ROW_15);
    code
}

} // verus!
