use surrealdb_schema_derive::codegen::crud_statements::{
    gen_fn_fetch_from_datastore, gen_fn_save_to_datastore,
};
use surrealdb_schema_derive::codegen::define_statements::{
    gen_define_field_with_table_and_path_prefix, gen_fn_define_table, gen_fn_get_field_definitions,
};
use surrealdb_schema_derive::codegen::row_struct::gen_row_struct;
use surrealdb_schema_derive::codegen::syntax::{
    Field, GenericArgument, PathArguments, PathSegment, RustType, TypePath,
};
use surrealdb_schema_derive::codegen::tokens::code_to_tokens;

fn plain(name: &str) -> RustType {
    RustType::Path(TypePath {
        segments: vec![PathSegment { ident: name.to_string(), arguments: PathArguments::NoArguments }],
        text: name.to_string(),
    })
}

fn option_of(name: &str) -> RustType {
    RustType::Path(TypePath {
        segments: vec![PathSegment {
            ident: "Option".to_string(),
            arguments: PathArguments::AngleBracketed(vec![GenericArgument::Type(plain(name))]),
        }],
        text: format!("Option < {} >", name),
    })
}

fn field(name: &str, ty: RustType) -> Field {
    Field { ident: Some(name.to_string()), ty }
}

const PATH_OF_AGE: &str = "{ let mut path = path_prefix.clone(); path.push(surrealdb_schema_derive::surrealdb::sql::Part::Field(stringify!(age).into())); path }";

#[test]
fn scalar_field_definition() {
    let code = gen_define_field_with_table_and_path_prefix(&field("age", plain("u8")));
    let expected = format!(
        "surrealdb_schema_derive::surrealdb::sql::Statements(vec![surrealdb_schema_derive::surrealdb::sql::Statement::Define(surrealdb_schema_derive::surrealdb::sql::statements::DefineStatement::Field(surrealdb_schema_derive::surrealdb::sql::statements::DefineFieldStatement{{ name: surrealdb_schema_derive::surrealdb::sql::Idiom({}), what: surrealdb_schema_derive::surrealdb::sql::Ident(on_table.to_string()), kind: Some(surrealdb_schema_derive::surrealdb::sql::Kind::Int), value: None, assert: None, permissions: surrealdb_schema_derive::surrealdb::sql::Permissions::full() }}))])",
        PATH_OF_AGE
    );
    assert_eq!(code, expected);
    let _: syn::Expr = syn::parse_str(&code).unwrap();
}

#[test]
fn optional_field_definition_asserts_not_none() {
    let code = gen_define_field_with_table_and_path_prefix(&field("age", option_of("f64")));
    let assertion = format!(
        "assert: Some(surrealdb::sql::Value::Expression(Box::new(surrealdb::sql::Expression {{ l: surrealdb::sql::Value::Idiom(surrealdb_schema_derive::surrealdb::sql::Idiom({})), o: surrealdb::sql::Operator::NotEqual, r: surrealdb::sql::Value::None }}))), permissions",
        PATH_OF_AGE
    );
    assert!(code.contains(&assertion));
    assert!(code.contains("kind: Some(surrealdb_schema_derive::surrealdb::sql::Kind::Float)"));
    let _: syn::Expr = syn::parse_str(&code).unwrap();
}

#[test]
fn nested_field_definition_defers_to_the_child_type() {
    let code = gen_define_field_with_table_and_path_prefix(&field("address", plain("Address")));
    assert_eq!(
        code,
        "Address::get_field_definitions(on_table, &{ let mut path = path_prefix.clone(); path.push(surrealdb_schema_derive::surrealdb::sql::Part::Field(stringify!(address).into())); path })"
    );
    let _: syn::Expr = syn::parse_str(&code).unwrap();
}

#[test]
fn field_definitions_of_all_fields() {
    let fields = vec![field("name", plain("String")), field("home", plain("Address"))];
    let code = gen_fn_get_field_definitions(&fields);
    let first = gen_define_field_with_table_and_path_prefix(&fields[0]);
    let second = gen_define_field_with_table_and_path_prefix(&fields[1]);
    let expected = format!(
        "fn get_field_definitions(on_table: &String, path_prefix: &Vec<surrealdb_schema_derive::surrealdb::sql::Part>) -> surrealdb_schema_derive::surrealdb::sql::Statements {{ surrealdb_schema_derive::surrealdb::sql::Statements(vec![{}.0, {}.0].into_iter().flatten().collect()) }}",
        first, second
    );
    assert_eq!(code, expected);
    let _: syn::ImplItemMethod = syn::parse_str(&code).unwrap();
    let none = gen_fn_get_field_definitions(&vec![]);
    assert!(none.contains("Statements(vec![].into_iter()"));
}

#[test]
fn define_table_names_the_table_after_the_struct() {
    let code = gen_fn_define_table(&"Person".to_string());
    assert!(code.starts_with("async fn define_table<'a>(args: &'a surrealdb_schema_derive::DefineTableArgs<'a>)"));
    assert!(code.contains("let table_name: String = stringify!(Person).into();"));
    assert_eq!(code.matches("Person").count(), 1);
    let _: syn::ImplItemMethod = syn::parse_str(&code).unwrap();
}

#[test]
fn fetch_and_save_use_the_table_name() {
    let fetch = gen_fn_fetch_from_datastore(&"Person".to_string());
    assert!(fetch.contains("make_lookup_query(stringify!(Person).into(), surrealdb_schema_derive::surrealdb::sql::Id::String(id.to_string()), )"));
    let _: syn::ImplItemMethod = syn::parse_str(&fetch).unwrap();
    let save = gen_fn_save_to_datastore(&"Person".to_string());
    assert!(save.contains("into: surrealdb_schema_derive::surrealdb::sql::Table(stringify!(Person).into())"));
    assert!(save.ends_with("query).await?.unwrap()) }"));
    let _: syn::ImplItemMethod = syn::parse_str(&save).unwrap();
}

#[test]
fn row_struct_names() {
    let code = gen_row_struct(&"Person".to_string(), &"PersonRow".to_string());
    assert!(code.starts_with("#[derive(Debug)] struct PersonRow { surreal_ref: surrealdb_schema_derive::SurrealReference<Person>, value: Person }"));
    assert!(code.contains("impl std::ops::Deref for PersonRow { type Target = Person;"));
    assert!(code.contains("PersonRow { surreal_ref: surrealdb_schema_derive::SurrealReference::new(stringify!(Person).into(), id), value: value }"));
    assert!(code.contains("fn get_table_name() -> String { stringify!(Person).into() }"));
    assert_eq!(code.matches("PersonRow").count(), 7);
    let file: syn::File = syn::parse_str(&code).unwrap();
    assert_eq!(file.items.len(), 6);
    assert!(code_to_tokens(&code).is_ok());
}

#[test]
fn fetch_code_exactly() {
    assert_eq!(
        gen_fn_fetch_from_datastore(&"Car".to_string()),
        "async fn fetch_from_datastore(id: String, datastore: &surrealdb_schema_derive::surrealdb::Datastore, session: &surrealdb_schema_derive::surrealdb::Session) -> surrealdb_schema_derive::anyhow::Result<Option<Self::Row>> { let query = surrealdb_schema_derive::runtime::make_lookup_query(stringify!(Car).into(), surrealdb_schema_derive::surrealdb::sql::Id::String(id.to_string()), ); Ok(surrealdb_schema_derive::runtime::run_single_row_query(datastore, session, query).await?) }"
    );
}

#[test]
fn save_code_exactly() {
    assert_eq!(
        gen_fn_save_to_datastore(&"Car".to_string()),
        "async fn save_to_datastore(self, datastore: &surrealdb_schema_derive::surrealdb::Datastore, session: &surrealdb_schema_derive::surrealdb::Session) -> surrealdb_schema_derive::anyhow::Result<Self::Row> { let query = surrealdb_schema_derive::surrealdb::sql::Query(surrealdb_schema_derive::surrealdb::sql::Statements(vec![surrealdb_schema_derive::surrealdb::sql::Statement::Insert(surrealdb_schema_derive::surrealdb::sql::statements::InsertStatement { into: surrealdb_schema_derive::surrealdb::sql::Table(stringify!(Car).into()), data: surrealdb_schema_derive::runtime::to_single_row_values_expression(self.into())?, ignore: false, update: None, output: Some(surrealdb_schema_derive::surrealdb::sql::Output::After), timeout: None, parallel: false, }), ])); Ok(surrealdb_schema_derive::runtime::run_single_row_query(datastore, session, query).await?.unwrap()) }"
    );
}

#[test]
fn define_table_code_exactly() {
    assert_eq!(
        gen_fn_define_table(&"Car".to_string()),
        "async fn define_table<'a>(args: &'a surrealdb_schema_derive::DefineTableArgs<'a>) -> surrealdb_schema_derive::anyhow::Result<()> { let mut statements = vec![]; if let Some(context) = &args.context { statements.push(surrealdb_schema_derive::surrealdb::sql::Statement::Use(surrealdb_schema_derive::surrealdb::sql::statements::UseStatement { ns: Some(context.namespace.to_string()), db: Some(context.database.to_string()) })); } let table_name: String = stringify!(Car).into(); statements.push(surrealdb_schema_derive::surrealdb::sql::Statement::Define(surrealdb_schema_derive::surrealdb::sql::statements::DefineStatement::Table(surrealdb_schema_derive::surrealdb::sql::statements::DefineTableStatement { name: surrealdb::sql::Ident(table_name.clone()), drop: false, full: true, view: None, permissions: surrealdb_schema_derive::surrealdb::sql::Permissions::full() }))); statements.extend(Self::get_field_definitions(&table_name, &vec![]).0); let responses = args.datastore.process(surrealdb_schema_derive::surrealdb::sql::Query(surrealdb_schema_derive::surrealdb::sql::Statements(statements)), args.session, None, true).await?; for response in responses { response.result?; } Ok(()) }"
    );
}

#[test]
fn row_struct_code_exactly() {
    assert_eq!(
        gen_row_struct(&"Car".to_string(), &"CarRow".to_string()),
        "#[derive(Debug)] struct CarRow { surreal_ref: surrealdb_schema_derive::SurrealReference<Car>, value: Car } impl std::ops::Deref for CarRow { type Target = Car; fn deref(&self) -> &Self::Target { &self.value } } impl Into<Car> for CarRow { fn into(self) -> Car { self.value } } impl Into<surrealdb_schema_derive::SurrealValue> for CarRow { fn into(self) -> surrealdb_schema_derive::SurrealValue { surrealdb_schema_derive::runtime::row_to_surreal_value(self) } } impl TryFrom<surrealdb_schema_derive::SurrealValue> for CarRow { type Error = surrealdb_schema_derive::SurrealDbSchemaDeriveQueryError; fn try_from(value: surrealdb_schema_derive::SurrealValue) -> Result<Self, Self::Error> { surrealdb_schema_derive::runtime::surreal_value_to_row(value) } } impl surrealdb_schema_derive::SurrealDbRow for CarRow { type Table = Car; fn new(id: surrealdb_schema_derive::surrealdb::sql::Id, value: Self::Table) -> Self { CarRow { surreal_ref: surrealdb_schema_derive::SurrealReference::new(stringify!(Car).into(), id), value: value } } fn get_table_name() -> String { stringify!(Car).into() } fn get_reference(&self) -> &surrealdb_schema_derive::SurrealReference<Self::Table> { &self.surreal_ref } }"
    );
}
