//! Generating the statements that define a table and its fields.
use vstd::prelude::*;
use crate::codegen::syntax::{Field, RustType};
use crate::codegen::types::{
    field_type_mappable, find_type_mapping_problem, surreal_field_type, type_mapping_problem,
    type_to_surreal_field_type, FieldKind, FieldProblem,
};
use crate::text::{comma_join, join_with_commas};

verus! {

/// The text before the field's name in the path of a field definition.
pub const PATH_HEAD: &'static str = "{ let mut path = path_prefix.clone(); path.push(surrealdb_schema_derive::surrealdb::sql::Part::Field(stringify!(";

/// The text after the field's name in the path of a field definition.
pub const PATH_TAIL: &'static str = ").into())); path }";

/// The text before the path in the assertion that an optional field is set.
pub const ASSERT_HEAD: &'static str = "Some(surrealdb::sql::Value::Expression(Box::new(surrealdb::sql::Expression { l: surrealdb::sql::Value::Idiom(surrealdb_schema_derive::surrealdb::sql::Idiom(";

/// The text after the path in the assertion that an optional field is set.
pub const ASSERT_TAIL: &'static str = ")), o: surrealdb::sql::Operator::NotEqual, r: surrealdb::sql::Value::None })))";

/// The text before the path in a scalar field definition.
pub const FIELD_HEAD: &'static str = "surrealdb_schema_derive::surrealdb::sql::Statements(vec![surrealdb_schema_derive::surrealdb::sql::Statement::Define(surrealdb_schema_derive::surrealdb::sql::statements::DefineStatement::Field(surrealdb_schema_derive::surrealdb::sql::statements::DefineFieldStatement{ name: surrealdb_schema_derive::surrealdb::sql::Idiom(";

/// The text between the path and the kind in a scalar field definition.
pub const FIELD_KIND: &'static str = "), what: surrealdb_schema_derive::surrealdb::sql::Ident(on_table.to_string()), kind: Some(";

/// The text between the kind and the assertion in a scalar field definition.
pub const FIELD_ASSERT: &'static str = "), value: None, assert: ";

/// The text after the assertion in a scalar field definition.
pub const FIELD_TAIL: &'static str = ", permissions: surrealdb_schema_derive::surrealdb::sql::Permissions::full() }))])";

/// The text before the field definitions in `get_field_definitions`.
pub const DEFINITIONS_HEAD: &'static str = "fn get_field_definitions(on_table: &String, path_prefix: &Vec<surrealdb_schema_derive::surrealdb::sql::Part>) -> surrealdb_schema_derive::surrealdb::sql::Statements { surrealdb_schema_derive::surrealdb::sql::Statements(vec![";

/// The text after the field definitions in `get_field_definitions`.
pub const DEFINITIONS_TAIL: &'static str = "].into_iter().flatten().collect()) }";

/// The text of `define_table` before the table's name.
pub const TABLE_HEAD: &'static str = "async fn define_table<'a>(args: &'a surrealdb_schema_derive::DefineTableArgs<'a>) -> surrealdb_schema_derive::anyhow::Result<()> { let mut statements = vec![]; if let Some(context) = &args.context { statements.push(surrealdb_schema_derive::surrealdb::sql::Statement::Use(surrealdb_schema_derive::surrealdb::sql::statements::UseStatement { ns: Some(context.namespace.to_string()), db: Some(context.database.to_string()) })); } let table_name: String = stringify!(";

/// The text of `define_table` after the table's name.
pub const TABLE_TAIL: &'static str = ").into(); statements.push(surrealdb_schema_derive::surrealdb::sql::Statement::Define(surrealdb_schema_derive::surrealdb::sql::statements::DefineStatement::Table(surrealdb_schema_derive::surrealdb::sql::statements::DefineTableStatement { name: surrealdb::sql::Ident(table_name.clone()), drop: false, full: true, view: None, permissions: surrealdb_schema_derive::surrealdb::sql::Permissions::full() }))); statements.extend(Self::get_field_definitions(&table_name, &vec![]).0); let responses = args.datastore.process(surrealdb_schema_derive::surrealdb::sql::Query(surrealdb_schema_derive::surrealdb::sql::Statements(statements)), args.session, None, true).await?; for response in responses { response.result?; } Ok(()) }";

/// The code that names a field kind.
pub open spec fn kind_code(k: FieldKind) -> Seq<char> {
    match k {
        FieldKind::Bool => "surrealdb_schema_derive::surrealdb::sql::Kind::Bool"@,
        FieldKind::String => "surrealdb_schema_derive::surrealdb::sql::Kind::String"@,
        FieldKind::Int => "surrealdb_schema_derive::surrealdb::sql::Kind::Int"@,
        FieldKind::Float => "surrealdb_schema_derive::surrealdb::sql::Kind::Float"@,
    }
}

/// Returns the code that names a field kind.
pub fn gen_kind(k: FieldKind) -> (r: &'static str)
    ensures
        r@ == kind_code(k),
{
    match k {
        FieldKind::Bool => "surrealdb_schema_derive::surrealdb::sql::Kind::Bool",
        FieldKind::String => "surrealdb_schema_derive::surrealdb::sql::Kind::String",
        FieldKind::Int => "surrealdb_schema_derive::surrealdb::sql::Kind::Int",
        FieldKind::Float => "surrealdb_schema_derive::surrealdb::sql::Kind::Float",
    }
}

/// The code of the path of a field: the path prefix with the field's name pushed.
pub open spec fn path_code(name: Seq<char>) -> Seq<char> {
    PATH_HEAD@ + name + PATH_TAIL@
}

/// Whether a field can be given a definition: it has a name, its type maps
/// without a panic, and it is either a scalar field or a path type whose own
/// definitions are nested under it.
pub open spec fn field_definable(f: Field) -> bool {
    &&& f.ident is Some
    &&& field_type_mappable(f.ty)
    &&& (surreal_field_type(f.ty) is Some || f.ty is Path)
}

/// The code of the statements that define one field: a `DEFINE FIELD` for a
/// scalar type, asserting that an optional field is not `NONE`; otherwise the
/// field's own type's definitions, with this field's path as their prefix.
pub open spec fn define_field_code(f: Field) -> Seq<char> {
    let path = path_code(f.ident.unwrap()@);
    match surreal_field_type(f.ty) {
        Some((kind, is_optional)) => {
            let assert_property = if is_optional {
                ASSERT_HEAD@ + path + ASSERT_TAIL@
            } else {
                "None"@
            };
            FIELD_HEAD@ + path + FIELD_KIND@ + kind_code(kind) + FIELD_ASSERT@ + assert_property
                + FIELD_TAIL@
        },
        None => f.ty.text() + "::get_field_definitions(on_table, &"@ + path + ")"@,
    }
}

/// The code of `get_field_definitions`: the definitions of all fields, flattened.
pub open spec fn field_definitions_code(fields: Seq<Field>) -> Seq<char> {
    DEFINITIONS_HEAD@ + comma_join(fields.map_values(|f: Field| define_field_code(f) + ".0"@))
        + DEFINITIONS_TAIL@
}

/// The code of `define_table` for the table named after the struct.
pub open spec fn define_table_code(ident: Seq<char>) -> Seq<char> {
    TABLE_HEAD@ + ident + TABLE_TAIL@
}

/// Generates the statements that define one field of the table.
pub fn gen_define_field_with_table_and_path_prefix(field: &Field) -> (r: String)
    requires
        field_definable(*field),
    ensures
        r@ == define_field_code(*field),
{
    let ident = field.ident.as_ref().unwrap();
    let mut new_path_prefix = String::from_str(PATH_HEAD);
    new_path_prefix.append(ident.as_str());
    new_path_prefix.append(PATH_TAIL);
    match type_to_surreal_field_type(&field.ty) {
        Some((surreal_type, is_optional)) => {
            let mut code = String::from_str(FIELD_HEAD);
            code.append(new_path_prefix.as_str());
            code.append(FIELD_KIND);
            code.append(gen_kind(surreal_type));
            code.append(FIELD_ASSERT);
            if is_optional {
                code.append(ASSERT_HEAD);
                code.append(new_path_prefix.as_str());
                code.append(ASSERT_TAIL);
            } else {
                code.append("None");
            }
            code.append(FIELD_TAIL);
            code
        },
        None => {
            let mut code = field.ty.text_string();
            code.append("::get_field_definitions(on_table, &");
            code.append(new_path_prefix.as_str());
            code.append(")");
            code
        },
    }
}

/// Generates `get_field_definitions`, which returns the definitions of all
/// fields of the struct under a given table and path prefix.
pub fn gen_fn_get_field_definitions(fields: &Vec<Field>) -> (r: String)
    requires
        forall|i: int| 0 <= i < fields@.len() ==> field_definable(#[trigger] fields@[i]),
    ensures
        r@ == field_definitions_code(fields@),
{
    let mut stmt_define_fields: Vec<String> = Vec::new();
    let mut i: usize = 0;
    while i < fields.len()
        invariant
            i <= fields.len(),
            forall|j: int| 0 <= j < fields@.len() ==> field_definable(#[trigger] fields@[j]),
            stmt_define_fields@.map_values(|s: String| s@) =~= fields@.take(i as int).map_values(
                |f: Field| define_field_code(f) + ".0"@,
            ),
        decreases fields.len() - i,
    {
        let mut code = gen_define_field_with_table_and_path_prefix(&fields[i]);
        code.append(".0");
        let ghost before = stmt_define_fields@;
        stmt_define_fields.push(code);
        proof {
            assert(stmt_define_fields@ =~= before.push(code));
            assert(fields@.take(i + 1) =~= fields@.take(i as int).push(fields@[i as int]));
            assert(stmt_define_fields@.map_values(|s: String| s@) =~= before.map_values(
                |s: String| s@,
            ).push(code@));
            assert(fields@.take(i + 1).map_values(|f: Field| define_field_code(f) + ".0"@)
                =~= fields@.take(i as int).map_values(|f: Field| define_field_code(f) + ".0"@).push(
                define_field_code(fields@[i as int]) + ".0"@,
            ));
        }
        i = i + 1;
    }
    assert(fields@.take(fields.len() as int) =~= fields@);
    let mut code = String::from_str(DEFINITIONS_HEAD);
    code.append(join_with_commas(&stmt_define_fields).as_str());
    code.append(DEFINITIONS_TAIL);
    code
}

/// Generates `define_table`, which defines the table named after the struct
/// (in the requested namespace and database, if any) with all its fields.
pub fn gen_fn_define_table(ident: &String) -> (r: String)
    ensures
        r@ == define_table_code(ident@),
{
    let mut code = String::from_str(TABLE_HEAD);
    code.append(ident.as_str());
    code.append(TABLE_TAIL);
    code
}

/// The first problem that generating a field's definition runs into: no
/// name, a problem mapping its type, or a type that is neither a scalar nor a
/// path.
pub open spec fn definition_problem(f: Field) -> Option<FieldProblem> {
    if f.ident is None {
        Some(FieldProblem::NoName)
    } else if type_mapping_problem(f.ty) is Some {
        type_mapping_problem(f.ty)
    } else if surreal_field_type(f.ty) is None && !(f.ty is Path) {
        Some(FieldProblem::UnsupportedType)
    } else {
        None
    }
}

/// Returns the first problem that generating a field's definition runs into, if any.
pub fn find_definition_problem(field: &Field) -> (r: Option<FieldProblem>)
    ensures
        r == definition_problem(*field),
        r is None <==> field_definable(*field),
{
    if field.ident.is_none() {
        return Some(FieldProblem::NoName);
    }
    let problem = find_type_mapping_problem(&field.ty);
    if problem.is_some() {
        return problem;
    }
    if type_to_surreal_field_type(&field.ty).is_none() {
        if let RustType::Other(_) = &field.ty {
            return Some(FieldProblem::UnsupportedType);
        }
    }
    None
}

/// Each field kind is named by the path `surrealdb_schema_derive::surrealdb::sql::Kind::`
/// followed by that kind's own name.
pub proof fn lemma_kind_code_names_the_kind()
    ensures
        kind_code(FieldKind::Bool) == "surrealdb_schema_derive::surrealdb::sql::Kind::"@ + "Bool"@,
        kind_code(FieldKind::String) == "surrealdb_schema_derive::surrealdb::sql::Kind::"@ + "String"@,
        kind_code(FieldKind::Int) == "surrealdb_schema_derive::surrealdb::sql::Kind::"@ + "Int"@,
        kind_code(FieldKind::Float) == "surrealdb_schema_derive::surrealdb::sql::Kind::"@ + "Float"@,
{
    reveal_strlit("surrealdb_schema_derive::surrealdb::sql::Kind::");
    reveal_strlit("Bool");
    reveal_strlit("String");
    reveal_strlit("Int");
    reveal_strlit("Float");
    reveal_strlit("surrealdb_schema_derive::surrealdb::sql::Kind::Bool");
    reveal_strlit("surrealdb_schema_derive::surrealdb::sql::Kind::String");
    reveal_strlit("surrealdb_schema_derive::surrealdb::sql::Kind::Int");
    reveal_strlit("surrealdb_schema_derive::surrealdb::sql::Kind::Float");
    assert(kind_code(FieldKind::Bool) =~= "surrealdb_schema_derive::surrealdb::sql::Kind::"@ + "Bool"@);
    assert(kind_code(FieldKind::String) =~= "surrealdb_schema_derive::surrealdb::sql::Kind::"@
        + "String"@);
    assert(kind_code(FieldKind::Int) =~= "surrealdb_schema_derive::surrealdb::sql::Kind::"@ + "Int"@);
    assert(kind_code(FieldKind::Float) =~= "surrealdb_schema_derive::surrealdb::sql::Kind::"@
        + "Float"@);
}

/// A scalar field's definition declares the field's own kind: the definition
/// is the `DEFINE FIELD` statement for the field's path whose kind is the code
/// naming the kind that the field's type maps to, asserting not `NONE` exactly
/// when the type is optional. So a `bool` or `Option<bool>` field is defined
/// with `Kind::Bool`.
pub proof fn lemma_scalar_definition_declares_its_kind(f: Field, k: FieldKind, is_optional: bool)
    requires
        f.ident is Some,
        surreal_field_type(f.ty) == Some((k, is_optional)),
    ensures
        define_field_code(f) == FIELD_HEAD@ + path_code(f.ident.unwrap()@) + FIELD_KIND@
            + "surrealdb_schema_derive::surrealdb::sql::Kind::"@ + (match k {
            FieldKind::Bool => "Bool"@,
            FieldKind::String => "String"@,
            FieldKind::Int => "Int"@,
            FieldKind::Float => "Float"@,
        }) + FIELD_ASSERT@ + (if is_optional {
            ASSERT_HEAD@ + path_code(f.ident.unwrap()@) + ASSERT_TAIL@
        } else {
            "None"@
        }) + FIELD_TAIL@,
{
    lemma_kind_code_names_the_kind();
}

/// `get_field_definitions` holds one `<definition>.0` item per field, in the
/// fields' order: as many items as fields, the k-th being the k-th field's
/// definition.
pub proof fn lemma_definitions_cover_every_field(fields: Seq<Field>)
    ensures
        ({
            let items = Seq::new(fields.len(), |k: int| define_field_code(fields[k]) + ".0"@);
            &&& items.len() == fields.len()
            &&& field_definitions_code(fields) == DEFINITIONS_HEAD@ + comma_join(items)
                + DEFINITIONS_TAIL@
        }),
{
    let items = Seq::new(fields.len(), |k: int| define_field_code(fields[k]) + ".0"@);
    assert(fields.map_values(|f: Field| define_field_code(f) + ".0"@) =~= items);
}

} // verus!
