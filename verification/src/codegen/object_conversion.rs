//! Generating the conversions between a struct and a SurrealDB object value.
use vstd::prelude::*;
use crate::codegen::syntax::{Field, GenericArgument, PathArguments, RustType};
use crate::codegen::types::{lemma_option_is_not_a_kind_name, surreal_field_type, FieldProblem};
use crate::text::{comma_join, join_with_commas, text_is};

verus! {

/// The type inside `Option<..>` when the field's type is a path whose first
/// segment is `Option`; `None` for any other type.
pub open spec fn optional_inner(t: RustType) -> Option<RustType> {
    match t.first_segment() {
        Some(seg) => if seg.ident@ == "Option"@ {
            match seg.arguments.first_argument() {
                Some(GenericArgument::Type(inner)) => Some(inner),
                _ => None,
            }
        } else {
            None
        },
        None => None,
    }
}

/// Whether looking for an optional type gets through without a panic: a first
/// segment named `Option` has a type as its first argument in angle brackets.
pub open spec fn optional_extractable(t: RustType) -> bool {
    match t.first_segment() {
        Some(seg) => seg.ident@ == "Option"@ ==> (seg.arguments.first_argument() matches Some(
            GenericArgument::Type(_),
        )),
        None => true,
    }
}

/// Whether every field has a name and a type whose optional part can be found.
pub open spec fn fields_convertible(fields: Seq<Field>) -> bool {
    forall|i: int|
        0 <= i < fields.len() ==> (#[trigger] fields[i]).ident is Some && optional_extractable(
            fields[i].ty,
        )
}

/// The name of a field that has one.
pub open spec fn field_name(f: Field) -> Seq<char> {
    f.ident.unwrap()@
}

/// The key under which the generated `into` stores the field.
pub open spec fn written_key(f: Field) -> Seq<char> {
    field_name(f)
}

/// The key that the generated `try_from` reads the field from: the field's own
/// name for a plain field, and the fixed key `name` for an optional one.
pub open spec fn read_key(f: Field) -> Seq<char> {
    if optional_inner(f.ty) is Some {
        "name"@
    } else {
        field_name(f)
    }
}

/// Returns the type inside `Option<..>` when the field's type is a path whose
/// first segment is `Option`, and `None` for any other type.
pub fn maybe_extract_optional(field: &Field) -> (r: Option<&RustType>)
    requires
        optional_extractable(field.ty),
    ensures
        r == (match optional_inner(field.ty) {
            Some(t) => Some(&t),
            None => None,
        }),
{
    if let RustType::Path(path_type) = &field.ty {
        if path_type.segments.len() > 0 {
            let first = &path_type.segments[0];
            if text_is(&first.ident, "Option") {
                match &first.arguments {
                    PathArguments::AngleBracketed(angle_bracketed) => {
                        match &angle_bracketed[0] {
                            GenericArgument::Type(inner_type) => Some(inner_type),
                            GenericArgument::Other => None,
                        }
                    },
                    _ => None,
                }
            } else {
                None
            }
        } else {
            None
        }
    } else {
        None
    }
}

/// The text of one field initialiser in the generated `try_from`.
pub open spec fn try_from_field_code(f: Field) -> Seq<char> {
    match optional_inner(f.ty) {
        Some(inner) => field_name(f) + ": TryInto::<surrealdb_schema_derive::SurrealOption<"@
            + inner.text()
            + ">>::try_into(surrealdb_schema_derive::SurrealValue(object_value.0.get(stringify!("@
            + read_key(f) + ")).unwrap().clone(),))?.into()"@,
        None => field_name(f)
            + ": surrealdb_schema_derive::SurrealValue(object_value.0.get(stringify!("@
            + read_key(f) + ")).unwrap().clone()).try_into()?"@,
    }
}

/// The text of one `(key, value)` entry in the generated `into`.
pub open spec fn into_field_code(f: Field) -> Seq<char> {
    let field_ref = if optional_inner(f.ty) is Some {
        "surrealdb_schema_derive::SurrealOption(self."@ + field_name(f) + ")"@
    } else {
        "self."@ + field_name(f)
    };
    "(stringify!("@ + written_key(f)
        + ").into(), { let surreal_value: surrealdb_schema_derive::SurrealValue = "@ + field_ref
        + ".into(); surreal_value.into() })"@
}

/// The text of the generated `TryFrom<SurrealValue>` impl for the struct.
pub open spec fn try_from_code(struct_ident: Seq<char>, fields: Seq<Field>) -> Seq<char> {
    "impl TryFrom<surrealdb_schema_derive::SurrealValue> for "@ + struct_ident
        + " { type Error = surrealdb_schema_derive::SurrealDbSchemaDeriveQueryError; fn try_from(value: surrealdb_schema_derive::SurrealValue) -> Result<Self, Self::Error> { if let surrealdb_schema_derive::surrealdb::sql::Value::Object(object_value) = value.0 { Ok(Self { "@
        + comma_join(fields.map_values(|f: Field| try_from_field_code(f)))
        + " }) } else { Err(surrealdb_schema_derive::SurrealDbSchemaDeriveQueryError::InvalidValueTypeError(surrealdb_schema_derive::InvalidValueTypeError { expected_type: stringify!("@
        + struct_ident + ").into(), received_type: value.0.to_string(), })) } } }"@
}

/// The text of the generated `Into<SurrealValue>` impl for the struct.
pub open spec fn into_code(struct_ident: Seq<char>, fields: Seq<Field>) -> Seq<char> {
    "impl Into<surrealdb_schema_derive::SurrealValue> for "@ + struct_ident
        + " { fn into(self) -> surrealdb_schema_derive::SurrealValue { surrealdb_schema_derive::SurrealValue(surrealdb_schema_derive::surrealdb::sql::Value::Object(surrealdb_schema_derive::surrealdb::sql::Object(std::collections::BTreeMap::from([ "@
        + comma_join(fields.map_values(|f: Field| into_field_code(f))) + " ])))) } }"@
}

/// Returns the text of one field initialiser in the generated `try_from`.
fn gen_try_from_field(field: &Field) -> (r: String)
    requires
        field.ident is Some,
        optional_extractable(field.ty),
    ensures
        r@ == try_from_field_code(*field),
{
    let field_ident = field.ident.as_ref().unwrap();
    let mut code = field_ident.clone();
    match maybe_extract_optional(field) {
        Some(inner_type) => {
            code.append(": TryInto::<surrealdb_schema_derive::SurrealOption<");
            code.append(inner_type.text_string().as_str());
            code.append(
                ">>::try_into(surrealdb_schema_derive::SurrealValue(object_value.0.get(stringify!(",
            );
            code.append("name");
            code.append(")).unwrap().clone(),))?.into()");
        },
        None => {
            code.append(": surrealdb_schema_derive::SurrealValue(object_value.0.get(stringify!(");
            code.append(field_ident.as_str());
            code.append(")).unwrap().clone()).try_into()?");
        },
    }
    code
}

/// Returns the text of one `(key, value)` entry in the generated `into`.
fn gen_into_field(field: &Field) -> (r: String)
    requires
        field.ident is Some,
        optional_extractable(field.ty),
    ensures
        r@ == into_field_code(*field),
{
    let field_ident = field.ident.as_ref().unwrap();
    let mut code = String::from_str("(stringify!(");
    code.append(field_ident.as_str());
    code.append(").into(), { let surreal_value: surrealdb_schema_derive::SurrealValue = ");
    if maybe_extract_optional(field).is_some() {
        code.append("surrealdb_schema_derive::SurrealOption(self.");
        code.append(field_ident.as_str());
        code.append(")");
    } else {
        code.append("self.");
        code.append(field_ident.as_str());
    }
    code.append(".into(); surreal_value.into() })");
    code
}

/// Generates the `TryFrom<SurrealValue>` impl for the struct: an object value
/// becomes the struct, each field read from the object and converted; any
/// other value is refused with an `InvalidValueTypeError` that names the
/// struct.
pub fn gen_try_from_surreal_value(struct_ident: &String, fields: &Vec<Field>) -> (r: String)
    requires
        fields_convertible(fields@),
    ensures
        r@ == try_from_code(struct_ident@, fields@),
{
    let mut field_definitions: Vec<String> = Vec::new();
    let mut i: usize = 0;
    while i < fields.len()
        invariant
            i <= fields.len(),
            fields_convertible(fields@),
            field_definitions@.map_values(|s: String| s@) =~= fields@.take(i as int).map_values(
                |f: Field| try_from_field_code(f),
            ),
        decreases fields.len() - i,
    {
        let code = gen_try_from_field(&fields[i]);
        let ghost before = field_definitions@;
        field_definitions.push(code);
        proof {
            assert(field_definitions@ =~= before.push(code));
            assert(fields@.take(i + 1) =~= fields@.take(i as int).push(fields@[i as int]));
            assert(field_definitions@.map_values(|s: String| s@) =~= before.map_values(|s: String| s@).push(
                code@,
            ));
            assert(fields@.take(i + 1).map_values(|f: Field| try_from_field_code(f)) =~= fields@.take(
                i as int,
            ).map_values(|f: Field| try_from_field_code(f)).push(try_from_field_code(fields@[i as int])));
        }
        i = i + 1;
    }
    assert(fields@.take(fields.len() as int) =~= fields@);
    let mut code = String::from_str("impl TryFrom<surrealdb_schema_derive::SurrealValue> for ");
    code.append(struct_ident.as_str());
    code.append(
        " { type Error = surrealdb_schema_derive::SurrealDbSchemaDeriveQueryError; fn try_from(value: surrealdb_schema_derive::SurrealValue) -> Result<Self, Self::Error> { if let surrealdb_schema_derive::surrealdb::sql::Value::Object(object_value) = value.0 { Ok(Self { ",
    );
    code.append(join_with_commas(&field_definitions).as_str());
    code.append(
        " }) } else { Err(surrealdb_schema_derive::SurrealDbSchemaDeriveQueryError::InvalidValueTypeError(surrealdb_schema_derive::InvalidValueTypeError { expected_type: stringify!(",
    );
    code.append(struct_ident.as_str());
    code.append(").into(), received_type: value.0.to_string(), })) } } }");
    code
}

/// Generates the `Into<SurrealValue>` impl for the struct: an object with one
/// entry per field, keyed by the field's name, optional fields wrapped in
/// `SurrealOption`.
pub fn gen_into_surreal_value(struct_ident: &String, fields: &Vec<Field>) -> (r: String)
    requires
        fields_convertible(fields@),
    ensures
        r@ == into_code(struct_ident@, fields@),
{
    let mut field_conversions: Vec<String> = Vec::new();
    let mut i: usize = 0;
    while i < fields.len()
        invariant
            i <= fields.len(),
            fields_convertible(fields@),
            field_conversions@.map_values(|s: String| s@) =~= fields@.take(i as int).map_values(
                |f: Field| into_field_code(f),
            ),
        decreases fields.len() - i,
    {
        let code = gen_into_field(&fields[i]);
        let ghost before = field_conversions@;
        field_conversions.push(code);
        proof {
            assert(field_conversions@ =~= before.push(code));
            assert(fields@.take(i + 1) =~= fields@.take(i as int).push(fields@[i as int]));
            assert(field_conversions@.map_values(|s: String| s@) =~= before.map_values(|s: String| s@).push(
                code@,
            ));
            assert(fields@.take(i + 1).map_values(|f: Field| into_field_code(f)) =~= fields@.take(
                i as int,
            ).map_values(|f: Field| into_field_code(f)).push(into_field_code(fields@[i as int])));
        }
        i = i + 1;
    }
    assert(fields@.take(fields.len() as int) =~= fields@);
    let mut code = String::from_str("impl Into<surrealdb_schema_derive::SurrealValue> for ");
    code.append(struct_ident.as_str());
    code.append(
        " { fn into(self) -> surrealdb_schema_derive::SurrealValue { surrealdb_schema_derive::SurrealValue(surrealdb_schema_derive::surrealdb::sql::Value::Object(surrealdb_schema_derive::surrealdb::sql::Object(std::collections::BTreeMap::from([ ",
    );
    code.append(join_with_commas(&field_conversions).as_str());
    code.append(" ])))) } }");
    code
}

/// The generated `try_from` reads a field from the key that the generated
/// `into` wrote it under exactly when the field is not optional or is itself
/// named `name`.
pub proof fn lemma_read_key_matches_written_key(f: Field)
    requires
        f.ident is Some,
    ensures
        (read_key(f) == written_key(f)) <==> (optional_inner(f.ty) is None || field_name(f)
            == "name"@),
{
}

/// The first problem that generating a field's conversions runs into: no
/// name, or an `Option` without a type argument.
pub open spec fn conversion_problem(f: Field) -> Option<FieldProblem> {
    if f.ident is None {
        Some(FieldProblem::NoName)
    } else if !optional_extractable(f.ty) {
        Some(FieldProblem::InvalidOption)
    } else {
        None
    }
}

/// Returns the first problem that generating a field's conversions runs into, if any.
pub fn find_conversion_problem(field: &Field) -> (r: Option<FieldProblem>)
    ensures
        r == conversion_problem(*field),
        r is None <==> (field.ident is Some && optional_extractable(field.ty)),
{
    if field.ident.is_none() {
        return Some(FieldProblem::NoName);
    }
    if let RustType::Path(path_type) = &field.ty {
        if path_type.segments.len() > 0 {
            let first = &path_type.segments[0];
            if text_is(&first.ident, "Option") {
                match &first.arguments {
                    PathArguments::AngleBracketed(args) => {
                        if args.len() > 0 {
                            if let GenericArgument::Type(_) = &args[0] {
                                return None;
                            }
                        }
                        return Some(FieldProblem::InvalidOption);
                    },
                    _ => {
                        return Some(FieldProblem::InvalidOption);
                    },
                }
            }
        }
    }
    None
}

/// For a scalar field, the schema marks the field optional (and asserts it is
/// not `NONE`) exactly when the conversions wrap it in `SurrealOption`.
pub proof fn lemma_optional_flag_agrees_with_conversion(t: RustType)
    requires
        surreal_field_type(t) is Some,
    ensures
        surreal_field_type(t).unwrap().1 <==> optional_inner(t) is Some,
{
    lemma_option_is_not_a_kind_name();
}

/// The generated `into` writes one `(key, value)` entry per field, in the
/// fields' order: as many entries as fields, the k-th being the k-th field's.
pub proof fn lemma_into_writes_every_field(struct_ident: Seq<char>, fields: Seq<Field>)
    ensures
        ({
            let entries = Seq::new(fields.len(), |k: int| into_field_code(fields[k]));
            &&& entries.len() == fields.len()
            &&& into_code(struct_ident, fields) == "impl Into<surrealdb_schema_derive::SurrealValue> for "@
                + struct_ident
                + " { fn into(self) -> surrealdb_schema_derive::SurrealValue { surrealdb_schema_derive::SurrealValue(surrealdb_schema_derive::surrealdb::sql::Value::Object(surrealdb_schema_derive::surrealdb::sql::Object(std::collections::BTreeMap::from([ "@
                + comma_join(entries) + " ])))) } }"@
        }),
{
    let entries = Seq::new(fields.len(), |k: int| into_field_code(fields[k]));
    assert(fields.map_values(|f: Field| into_field_code(f)) =~= entries);
}

/// The generated `try_from` holds one field initialiser per field, in the
/// fields' order: as many initialisers as fields, the k-th being the k-th
/// field's.
pub proof fn lemma_try_from_reads_every_field(struct_ident: Seq<char>, fields: Seq<Field>)
    ensures
        ({
            let inits = Seq::new(fields.len(), |k: int| try_from_field_code(fields[k]));
            &&& inits.len() == fields.len()
            &&& try_from_code(struct_ident, fields)
                == "impl TryFrom<surrealdb_schema_derive::SurrealValue> for "@ + struct_ident
                + " { type Error = surrealdb_schema_derive::SurrealDbSchemaDeriveQueryError; fn try_from(value: surrealdb_schema_derive::SurrealValue) -> Result<Self, Self::Error> { if let surrealdb_schema_derive::surrealdb::sql::Value::Object(object_value) = value.0 { Ok(Self { "@
                + comma_join(inits)
                + " }) } else { Err(surrealdb_schema_derive::SurrealDbSchemaDeriveQueryError::InvalidValueTypeError(surrealdb_schema_derive::InvalidValueTypeError { expected_type: stringify!("@
                + struct_ident + ").into(), received_type: value.0.to_string(), })) } } }"@
        }),
{
    let inits = Seq::new(fields.len(), |k: int| try_from_field_code(fields[k]));
    assert(fields.map_values(|f: Field| try_from_field_code(f)) =~= inits);
}

} // verus!
