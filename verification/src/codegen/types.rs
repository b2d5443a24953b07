//! Which SurrealDB field kind a Rust field type is stored as.
use vstd::prelude::*;
use crate::codegen::syntax::{GenericArgument, PathArguments, PathSegment, RustType, TypePath};
use crate::text::text_is;

verus! {

/// A SurrealDB field kind that a Rust scalar type is stored as.
#[derive(Clone, Copy, Debug, PartialEq, Eq, Structural)]
pub enum FieldKind {
    Bool,
    String,
    Int,
    Float,
}

/// Whether the field is declared as `Option<..>`.
pub type IsOptional = bool;

/// The kind that a type named by a single identifier is stored as.
pub open spec fn kind_named(name: Seq<char>) -> Option<FieldKind> {
    if name == "bool"@ {
        Some(FieldKind::Bool)
    } else if name == "String"@ || name == "str"@ {
        Some(FieldKind::String)
    } else if name == "u8"@ || name == "u16"@ || name == "u32"@ || name == "u64"@ || name == "usize"@ {
        Some(FieldKind::Int)
    } else if name == "i8"@ || name == "i16"@ || name == "i32"@ || name == "i64"@ || name == "isize"@ {
        Some(FieldKind::Int)
    } else if name == "f32"@ || name == "f64"@ {
        Some(FieldKind::Float)
    } else {
        None
    }
}

/// Whether `seg` names `Option`.
pub open spec fn is_option_segment(seg: PathSegment) -> bool {
    kind_named(seg.ident@).is_none() && seg.ident@ == "Option"@
}

/// The field kind of a Rust type, and whether the type is optional; `None` for
/// a type that is not stored as a scalar field (such as a nested struct).
pub open spec fn surreal_field_type(t: RustType) -> Option<(FieldKind, IsOptional)>
    decreases t,
{
    match t {
        RustType::Path(p) => {
            if p.segments@.len() == 1 {
                let seg = p.segments@[0];
                match kind_named(seg.ident@) {
                    Some(k) => Some((k, false)),
                    None => if seg.ident@ == "Option"@ {
                        match seg.arguments {
                            PathArguments::AngleBracketed(args) => {
                                if args@.len() > 0 {
                                    match args@[0] {
                                        GenericArgument::Type(inner) => {
                                            match surreal_field_type(inner) {
                                                Some((k, _)) => Some((k, true)),
                                                None => None,
                                            }
                                        },
                                        GenericArgument::Other => None,
                                    }
                                } else {
                                    None
                                }
                            },
                            _ => None,
                        }
                    } else {
                        None
                    },
                }
            } else {
                None
            }
        },
        RustType::Other(_) => None,
    }
}

/// Why a field cannot be given generated code; each is a panic of the derive.
#[derive(Clone, Copy, Debug, PartialEq, Eq, Structural)]
pub enum FieldProblem {
    /// The field has no name.
    NoName,
    /// A type path on the way has no segments.
    EmptyTypePath,
    /// An `Option` on the way has no arguments in angle brackets.
    OptionWithoutArguments,
    /// A type whose first segment is `Option` has no type as its first argument.
    InvalidOption,
    /// The type is neither a scalar nor a path to a struct with its own definitions.
    UnsupportedType,
}

/// The message that the derive panics with for a problem.
pub open spec fn problem_message(p: FieldProblem) -> Seq<char> {
    match p {
        FieldProblem::NoName => "Field has no name"@,
        FieldProblem::EmptyTypePath => "Empty type path specified"@,
        FieldProblem::OptionWithoutArguments => "Found an Option without any type arguments"@,
        FieldProblem::InvalidOption => "Invalid option"@,
        FieldProblem::UnsupportedType => "Type is not supported"@,
    }
}

/// The first problem that mapping the type runs into: an empty path on the
/// way, or an `Option` on the way without arguments in angle brackets.
pub open spec fn type_mapping_problem(t: RustType) -> Option<FieldProblem>
    decreases t,
{
    match t {
        RustType::Path(p) => {
            if p.segments@.len() == 0 {
                Some(FieldProblem::EmptyTypePath)
            } else if p.segments@.len() == 1 {
                let seg = p.segments@[0];
                if is_option_segment(seg) {
                    match seg.arguments {
                        PathArguments::AngleBracketed(args) => {
                            if args@.len() > 0 {
                                match args@[0] {
                                    GenericArgument::Type(inner) => type_mapping_problem(inner),
                                    GenericArgument::Other => None,
                                }
                            } else {
                                None
                            }
                        },
                        _ => Some(FieldProblem::OptionWithoutArguments),
                    }
                } else {
                    None
                }
            } else {
                None
            }
        },
        RustType::Other(_) => None,
    }
}

/// Whether mapping the type gets through without a panic.
pub open spec fn field_type_mappable(t: RustType) -> bool {
    type_mapping_problem(t) is None
}

impl FieldProblem {
    /// Returns the message that the derive panics with for the problem.
    pub fn message(&self) -> (r: String)
        ensures
            r@ == problem_message(*self),
    {
        match self {
            FieldProblem::NoName => String::from_str("Field has no name"),
            FieldProblem::EmptyTypePath => String::from_str("Empty type path specified"),
            FieldProblem::OptionWithoutArguments => String::from_str(
                "Found an Option without any type arguments",
            ),
            FieldProblem::InvalidOption => String::from_str("Invalid option"),
            FieldProblem::UnsupportedType => String::from_str("Type is not supported"),
        }
    }
}

/// Returns the first problem that mapping the type runs into, if any.
pub fn find_type_mapping_problem(syn_type: &RustType) -> (r: Option<FieldProblem>)
    ensures
        r == type_mapping_problem(*syn_type),
    decreases syn_type,
{
    match syn_type {
        RustType::Path(type_path) => {
            if type_path.segments.len() == 0 {
                Some(FieldProblem::EmptyTypePath)
            } else if type_path.segments.len() == 1 {
                let seg = &type_path.segments[0];
                if kind_of_name(&seg.ident).is_none() && text_is(&seg.ident, "Option") {
                    match &seg.arguments {
                        PathArguments::AngleBracketed(args) => {
                            if args.len() > 0 {
                                match &args[0] {
                                    GenericArgument::Type(inner) => find_type_mapping_problem(inner),
                                    GenericArgument::Other => None,
                                }
                            } else {
                                None
                            }
                        },
                        _ => Some(FieldProblem::OptionWithoutArguments),
                    }
                } else {
                    None
                }
            } else {
                None
            }
        },
        RustType::Other(_) => None,
    }
}

/// Returns the kind that a type named by a single identifier is stored as.
fn kind_of_name(name: &String) -> (r: Option<FieldKind>)
    ensures
        r == kind_named(name@),
{
    if text_is(name, "bool") {
        Some(FieldKind::Bool)
    } else if text_is(name, "String") || text_is(name, "str") {
        Some(FieldKind::String)
    } else if text_is(name, "u8") || text_is(name, "u16") || text_is(name, "u32") || text_is(
        name,
        "u64",
    ) || text_is(name, "usize") {
        Some(FieldKind::Int)
    } else if text_is(name, "i8") || text_is(name, "i16") || text_is(name, "i32") || text_is(
        name,
        "i64",
    ) || text_is(name, "isize") {
        Some(FieldKind::Int)
    } else if text_is(name, "f32") || text_is(name, "f64") {
        Some(FieldKind::Float)
    } else {
        None
    }
}

/// Maps a field's Rust type to the SurrealDB kind it is stored as, and says
/// whether it is optional: `bool` to `Bool`; `String` and `str` to `String`;
/// the integer types to `Int`; `f32` and `f64` to `Float`; `Option<T>` to the
/// kind of `T`, optional. Any other type (such as a nested struct) gives `None`.
pub fn type_to_surreal_field_type(syn_type: &RustType) -> (r: Option<(FieldKind, IsOptional)>)
    requires
        field_type_mappable(*syn_type),
    ensures
        r == surreal_field_type(*syn_type),
    decreases syn_type,
{
    match syn_type {
        RustType::Path(type_path) => {
            if type_path.segments.len() == 1 {
                let path_segment = &type_path.segments[0];
                match kind_of_name(&path_segment.ident) {
                    Some(k) => Some((k, false)),
                    None => {
                        if text_is(&path_segment.ident, "Option") {
                            match &path_segment.arguments {
                                PathArguments::AngleBracketed(angle_args) => {
                                    if angle_args.len() > 0 {
                                        match &angle_args[0] {
                                            GenericArgument::Type(type_arg) => {
                                                match type_to_surreal_field_type(type_arg) {
                                                    Some((inner_type, _)) => Some((inner_type, true)),
                                                    None => None,
                                                }
                                            },
                                            GenericArgument::Other => None,
                                        }
                                    } else {
                                        None
                                    }
                                },
                                _ => None,
                            }
                        } else {
                            None
                        }
                    },
                }
            } else {
                None
            }
        },
        RustType::Other(_) => None,
    }
}

/// `Option` names none of the scalar kinds.
pub proof fn lemma_option_is_not_a_kind_name()
    ensures
        kind_named("Option"@) is None,
{
    reveal_strlit("Option");
    reveal_strlit("bool");
    reveal_strlit("String");
    reveal_strlit("str");
    reveal_strlit("u8");
    reveal_strlit("u16");
    reveal_strlit("u32");
    reveal_strlit("u64");
    reveal_strlit("usize");
    reveal_strlit("i8");
    reveal_strlit("i16");
    reveal_strlit("i32");
    reveal_strlit("i64");
    reveal_strlit("isize");
    reveal_strlit("f32");
    reveal_strlit("f64");
    assert("Option"@[0] != "String"@[0]);
    assert("Option"@.len() != "bool"@.len());
    assert("Option"@.len() != "str"@.len());
    assert("Option"@.len() != "u8"@.len());
    assert("Option"@.len() != "u16"@.len());
    assert("Option"@.len() != "u32"@.len());
    assert("Option"@.len() != "u64"@.len());
    assert("Option"@.len() != "usize"@.len());
    assert("Option"@.len() != "i8"@.len());
    assert("Option"@.len() != "i16"@.len());
    assert("Option"@.len() != "i32"@.len());
    assert("Option"@.len() != "i64"@.len());
    assert("Option"@.len() != "isize"@.len());
    assert("Option"@.len() != "f32"@.len());
    assert("Option"@.len() != "f64"@.len());
}

/// Wrapping a type in `Option<..>` keeps its field kind and marks it optional;
/// a type without a field kind stays without one. The wrapped type maps
/// without a panic exactly when the inner type does, so
/// `type_to_surreal_field_type` accepts both or neither, and its results on
/// them are related as stated here.
pub proof fn lemma_option_keeps_kind(t: RustType, inner: RustType)
    requires
        t matches RustType::Path(p) && p.segments@.len() == 1 && p.segments@[0].ident@ == "Option"@
            && p.segments@[0].arguments.first_argument() == Some(GenericArgument::Type(inner)),
    ensures
        field_type_mappable(t) <==> field_type_mappable(inner),
        surreal_field_type(t) == (match surreal_field_type(inner) {
            Some((k, _)) => Some((k, true)),
            None => None::<(FieldKind, IsOptional)>,
        }),
{
    lemma_option_is_not_a_kind_name();
}

/// A type is optional only when it is written `Option<..>`, as a path of one
/// segment.
pub proof fn lemma_optional_only_for_option(t: RustType)
    requires
        surreal_field_type(t) matches Some((_, is_optional)) && is_optional,
    ensures
        t matches RustType::Path(p) && p.segments@.len() == 1 && p.segments@[0].ident@ == "Option"@,
{
}

/// Each scalar type name is stored as its own kind: `bool` as Bool, `String`
/// and `str` as String, the integer types as Int, `f32` and `f64` as Float; and
/// a one-segment path of that name maps to that kind, not optional.
pub proof fn lemma_scalar_names()
    ensures
        kind_named("bool"@) == Some(FieldKind::Bool),
        kind_named("String"@) == Some(FieldKind::String),
        kind_named("str"@) == Some(FieldKind::String),
        kind_named("u8"@) == Some(FieldKind::Int),
        kind_named("u16"@) == Some(FieldKind::Int),
        kind_named("u32"@) == Some(FieldKind::Int),
        kind_named("u64"@) == Some(FieldKind::Int),
        kind_named("usize"@) == Some(FieldKind::Int),
        kind_named("i8"@) == Some(FieldKind::Int),
        kind_named("i16"@) == Some(FieldKind::Int),
        kind_named("i32"@) == Some(FieldKind::Int),
        kind_named("i64"@) == Some(FieldKind::Int),
        kind_named("isize"@) == Some(FieldKind::Int),
        kind_named("f32"@) == Some(FieldKind::Float),
        kind_named("f64"@) == Some(FieldKind::Float),
{
    reveal_strlit("bool");
    reveal_strlit("String");
    reveal_strlit("str");
    reveal_strlit("u8");
    reveal_strlit("u16");
    reveal_strlit("u32");
    reveal_strlit("u64");
    reveal_strlit("usize");
    reveal_strlit("i8");
    reveal_strlit("i16");
    reveal_strlit("i32");
    reveal_strlit("i64");
    reveal_strlit("isize");
    reveal_strlit("f32");
    reveal_strlit("f64");
    assert("String"@.len() != "bool"@.len());
    assert("str"@.len() != "bool"@.len());
    assert("u8"@.len() != "bool"@.len());
    assert("u8"@.len() != "String"@.len());
    assert("u8"@.len() != "str"@.len());
    assert("u16"@.len() != "bool"@.len());
    assert("u16"@.len() != "String"@.len());
    assert("u16"@[0] != "str"@[0]);
    assert("u32"@.len() != "bool"@.len());
    assert("u32"@.len() != "String"@.len());
    assert("u32"@[0] != "str"@[0]);
    assert("u64"@.len() != "bool"@.len());
    assert("u64"@.len() != "String"@.len());
    assert("u64"@[0] != "str"@[0]);
    assert("usize"@.len() != "bool"@.len());
    assert("usize"@.len() != "String"@.len());
    assert("usize"@.len() != "str"@.len());
    assert("i8"@.len() != "bool"@.len());
    assert("i8"@.len() != "String"@.len());
    assert("i8"@.len() != "str"@.len());
    assert("i8"@[0] != "u8"@[0]);
    assert("i8"@.len() != "u16"@.len());
    assert("i8"@.len() != "u32"@.len());
    assert("i8"@.len() != "u64"@.len());
    assert("i8"@.len() != "usize"@.len());
    assert("i16"@.len() != "bool"@.len());
    assert("i16"@.len() != "String"@.len());
    assert("i16"@[0] != "str"@[0]);
    assert("i16"@.len() != "u8"@.len());
    assert("i16"@[0] != "u16"@[0]);
    assert("i16"@[0] != "u32"@[0]);
    assert("i16"@[0] != "u64"@[0]);
    assert("i16"@.len() != "usize"@.len());
    assert("i32"@.len() != "bool"@.len());
    assert("i32"@.len() != "String"@.len());
    assert("i32"@[0] != "str"@[0]);
    assert("i32"@.len() != "u8"@.len());
    assert("i32"@[0] != "u16"@[0]);
    assert("i32"@[0] != "u32"@[0]);
    assert("i32"@[0] != "u64"@[0]);
    assert("i32"@.len() != "usize"@.len());
    assert("i64"@.len() != "bool"@.len());
    assert("i64"@.len() != "String"@.len());
    assert("i64"@[0] != "str"@[0]);
    assert("i64"@.len() != "u8"@.len());
    assert("i64"@[0] != "u16"@[0]);
    assert("i64"@[0] != "u32"@[0]);
    assert("i64"@[0] != "u64"@[0]);
    assert("i64"@.len() != "usize"@.len());
    assert("isize"@.len() != "bool"@.len());
    assert("isize"@.len() != "String"@.len());
    assert("isize"@.len() != "str"@.len());
    assert("isize"@.len() != "u8"@.len());
    assert("isize"@.len() != "u16"@.len());
    assert("isize"@.len() != "u32"@.len());
    assert("isize"@.len() != "u64"@.len());
    assert("isize"@[0] != "usize"@[0]);
    assert("f32"@.len() != "bool"@.len());
    assert("f32"@.len() != "String"@.len());
    assert("f32"@[0] != "str"@[0]);
    assert("f32"@.len() != "u8"@.len());
    assert("f32"@[0] != "u16"@[0]);
    assert("f32"@[0] != "u32"@[0]);
    assert("f32"@[0] != "u64"@[0]);
    assert("f32"@.len() != "usize"@.len());
    assert("f32"@.len() != "i8"@.len());
    assert("f32"@[0] != "i16"@[0]);
    assert("f32"@[0] != "i32"@[0]);
    assert("f32"@[0] != "i64"@[0]);
    assert("f32"@.len() != "isize"@.len());
    assert("f64"@.len() != "bool"@.len());
    assert("f64"@.len() != "String"@.len());
    assert("f64"@[0] != "str"@[0]);
    assert("f64"@.len() != "u8"@.len());
    assert("f64"@[0] != "u16"@[0]);
    assert("f64"@[0] != "u32"@[0]);
    assert("f64"@[0] != "u64"@[0]);
    assert("f64"@.len() != "usize"@.len());
    assert("f64"@.len() != "i8"@.len());
    assert("f64"@[0] != "i16"@[0]);
    assert("f64"@[0] != "i32"@[0]);
    assert("f64"@[0] != "i64"@[0]);
    assert("f64"@.len() != "isize"@.len());
}

/// A field written with a single scalar type name maps to that name's kind,
/// not optional; written `Option<..>` of it, to the same kind, optional.
pub proof fn lemma_single_name_maps_to_its_kind(t: RustType)
    requires
        t matches RustType::Path(p) && p.segments@.len() == 1 && kind_named(p.segments@[0].ident@) is Some,
    ensures
        surreal_field_type(t) == Some((kind_named(t->Path_0.segments@[0].ident@).unwrap(), false)),
{
}

} // verus!
