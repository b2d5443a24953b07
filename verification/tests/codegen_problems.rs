use surrealdb_schema_derive::codegen::define_statements::{
    find_definition_problem, gen_define_field_with_table_and_path_prefix,
};
use surrealdb_schema_derive::codegen::object_conversion::{
    find_conversion_problem, gen_into_surreal_value, gen_try_from_surreal_value,
};
use surrealdb_schema_derive::codegen::syntax::{
    Field, GenericArgument, PathArguments, PathSegment, RustType, TypePath,
};
use surrealdb_schema_derive::codegen::types::{find_type_mapping_problem, FieldProblem};

fn segment(name: &str, arguments: PathArguments) -> RustType {
    RustType::Path(TypePath {
        segments: vec![PathSegment { ident: name.to_string(), arguments }],
        text: name.to_string(),
    })
}

fn plain(name: &str) -> RustType {
    segment(name, PathArguments::NoArguments)
}

fn option_of(t: RustType) -> RustType {
    let text = match &t {
        RustType::Path(p) => format!("Option < {} >", p.text),
        RustType::Other(s) => format!("Option < {} >", s),
    };
    RustType::Path(TypePath {
        segments: vec![PathSegment {
            ident: "Option".to_string(),
            arguments: PathArguments::AngleBracketed(vec![GenericArgument::Type(t)]),
        }],
        text,
    })
}

fn field(name: &str, ty: RustType) -> Field {
    Field { ident: Some(name.to_string()), ty }
}

#[test]
fn definition_problems() {
    assert_eq!(find_definition_problem(&field("a", plain("u8"))), None);
    assert_eq!(find_definition_problem(&field("a", plain("Address"))), None);
    assert_eq!(
        find_definition_problem(&Field { ident: None, ty: plain("u8") }),
        Some(FieldProblem::NoName)
    );
    let empty = RustType::Path(TypePath { segments: vec![], text: String::new() });
    assert_eq!(find_definition_problem(&field("a", empty)), Some(FieldProblem::EmptyTypePath));
    assert_eq!(
        find_definition_problem(&field("a", segment("Option", PathArguments::NoArguments))),
        Some(FieldProblem::OptionWithoutArguments)
    );
    assert_eq!(
        find_definition_problem(&field("a", option_of(segment("Option", PathArguments::Parenthesized)))),
        Some(FieldProblem::OptionWithoutArguments)
    );
    assert_eq!(
        find_definition_problem(&field("a", RustType::Other("& str".to_string()))),
        Some(FieldProblem::UnsupportedType)
    );
    assert_eq!(find_type_mapping_problem(&option_of(plain("u8"))), None);
}

#[test]
fn conversion_problems() {
    assert_eq!(find_conversion_problem(&field("a", option_of(plain("u8")))), None);
    assert_eq!(
        find_conversion_problem(&Field { ident: None, ty: plain("u8") }),
        Some(FieldProblem::NoName)
    );
    assert_eq!(
        find_conversion_problem(&field("a", segment("Option", PathArguments::NoArguments))),
        Some(FieldProblem::InvalidOption)
    );
    assert_eq!(
        find_conversion_problem(&field(
            "a",
            segment("Option", PathArguments::AngleBracketed(vec![GenericArgument::Other]))
        )),
        Some(FieldProblem::InvalidOption)
    );
    assert_eq!(
        find_conversion_problem(&field("a", segment("Option", PathArguments::AngleBracketed(vec![])))),
        Some(FieldProblem::InvalidOption)
    );
}

#[test]
fn problem_messages() {
    assert_eq!(FieldProblem::NoName.message(), "Field has no name");
    assert_eq!(FieldProblem::EmptyTypePath.message(), "Empty type path specified");
    assert_eq!(
        FieldProblem::OptionWithoutArguments.message(),
        "Found an Option without any type arguments"
    );
    assert_eq!(FieldProblem::InvalidOption.message(), "Invalid option");
    assert_eq!(FieldProblem::UnsupportedType.message(), "Type is not supported");
}

#[test]
fn optional_field_named_name_reads_its_own_key() {
    let fields = vec![field("name", option_of(plain("String")))];
    let into = gen_into_surreal_value(&"Tag".to_string(), &fields);
    let try_from = gen_try_from_surreal_value(&"Tag".to_string(), &fields);
    assert!(into.contains("(stringify!(name).into(),"));
    assert!(try_from.contains("object_value.0.get(stringify!(name))"));
}

#[test]
fn schema_and_conversion_agree_on_optional_fields() {
    let optional = vec![field("age", option_of(plain("u8")))];
    let definition = gen_define_field_with_table_and_path_prefix(&optional[0]);
    assert!(definition.contains("o: surrealdb::sql::Operator::NotEqual"));
    assert!(gen_into_surreal_value(&"P".to_string(), &optional).contains("SurrealOption(self.age)"));
    let plain_field = vec![field("age", plain("u8"))];
    let definition = gen_define_field_with_table_and_path_prefix(&plain_field[0]);
    assert!(definition.contains("assert: None,"));
    assert!(!gen_into_surreal_value(&"P".to_string(), &plain_field).contains("SurrealOption"));
}
