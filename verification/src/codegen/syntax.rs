//! The parts of a struct definition that the code generator reads, as plain
//! values: field names, and field types down to their path segments and first
//! generic argument.
use vstd::prelude::*;

verus! {

/// A Rust type as written in a struct field.
pub enum RustType {
    /// A path type such as `String`, `Option<u32>` or `crate::Address`.
    Path(TypePath),
    /// Any other type (reference, tuple, array, ...), held by the text of its tokens.
    Other(String),
}

/// A path type: its segments, and the text of its tokens as written.
pub struct TypePath {
    pub segments: Vec<PathSegment>,
    pub text: String,
}

/// One segment of a path: its identifier and the arguments that follow it.
pub struct PathSegment {
    pub ident: String,
    pub arguments: PathArguments,
}

/// The arguments after a path segment.
pub enum PathArguments {
    /// No arguments, as in `String`.
    NoArguments,
    /// Arguments in angle brackets, as in `Option<u32>`.
    AngleBracketed(Vec<GenericArgument>),
    /// Arguments in parentheses, as in `Fn(u32) -> u32`.
    Parenthesized,
}

/// One argument in angle brackets.
pub enum GenericArgument {
    /// A type argument.
    Type(RustType),
    /// A lifetime, a constant, a binding or a constraint.
    Other,
}

/// A named field of a struct: its name (absent only in a tuple struct) and its type.
pub struct Field {
    pub ident: Option<String>,
    pub ty: RustType,
}

impl RustType {
    /// The text of the type's tokens, as it is pasted into generated code.
    pub open spec fn text(self) -> Seq<char> {
        match self {
            RustType::Path(p) => p.text@,
            RustType::Other(t) => t@,
        }
    }

    /// The first segment of a path type, if it has one.
    pub open spec fn first_segment(self) -> Option<PathSegment> {
        match self {
            RustType::Path(p) => if p.segments@.len() > 0 {
                Some(p.segments@[0])
            } else {
                None
            },
            RustType::Other(_) => None,
        }
    }

    /// Returns the text of the type's tokens.
    pub fn text_string(&self) -> (r: String)
        ensures
            r@ == self.text(),
    {
        match self {
            RustType::Path(p) => p.text.clone(),
            RustType::Other(t) => t.clone(),
        }
    }
}

impl PathArguments {
    /// The first argument in angle brackets, if there is one.
    pub open spec fn first_argument(self) -> Option<GenericArgument> {
        match self {
            PathArguments::AngleBracketed(args) => if args@.len() > 0 {
                Some(args@[0])
            } else {
                None
            },
            _ => None,
        }
    }
}

} // verus!
