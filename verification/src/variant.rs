//! Structural description of the input type, as the generator sees it.
//!
//! The generator never inspects the host language's syntax tree directly:
//! the caller hands it the enum's name together with one descriptor per
//! variant, each carrying the variant's shape and the markers attached to
//! it. A marker is a name plus an opaque payload, kept as raw text.

use vstd::prelude::*;

verus! {

/// One attribute attached to a variant: its name and its raw payload text.
/// For `#[status(StatusCode::UNPROCESSABLE_ENTITY)]` the name is `status`
/// and the payload is the parenthesized token text.
pub struct Marker {
    pub name: String,
    pub payload: String,
}

/// The shape of a variant's payload: no fields, a number of unnamed
/// fields, or named fields.
#[derive(Clone, Copy, PartialEq, Eq, Structural)]
pub enum Shape {
    Unit,
    Positional(usize),
    Named,
}

/// One variant of the input enum: its name, its shape, and the markers
/// attached to it in source order.
pub struct VariantDescriptor {
    pub name: String,
    pub shape: Shape,
    pub markers: Vec<Marker>,
}

/// One entry of the resolved mapping: a variant together with its
/// effective classification expression (explicit marker payload, or the
/// server-fault default).
pub struct ResolvedVariant {
    pub name: String,
    pub shape: Shape,
    pub expr: String,
}

/// The structural description of the annotated type. Only a tagged union
/// (an enum) can be generated for; the other shapes are refused.
pub enum TypeData {
    Enum(Vec<VariantDescriptor>),
    Struct,
    Union,
}

/// Why generation was refused: the input type is not a tagged union.
#[derive(Clone, Copy, Debug, PartialEq, Eq, Structural)]
pub enum GenerateError {
    StructInput,
    UnionInput,
}

impl GenerateError {
    /// The diagnostic text that aborts generation for this refusal.
    pub fn message(&self) -> (r: String)
        ensures
            *self == GenerateError::StructInput ==> r@ == "cannot derive ErrorResponse for structs yet"@,
            *self == GenerateError::UnionInput ==> r@ == "cannot derive ErrorResponse for unions"@,
    {
        match self {
            GenerateError::StructInput => "cannot derive ErrorResponse for structs yet".to_owned(),
            GenerateError::UnionInput => "cannot derive ErrorResponse for unions".to_owned(),
        }
    }
}

} // verus!
