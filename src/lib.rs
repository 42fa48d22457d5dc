//! Flattening of nested record declarations.
//!
//! A declaration may hold, in place of a field's type, a whole nested
//! declaration. The engine turns such a tree into a sequence of flat
//! declarations: each nested declaration is extracted, and its parent gets an
//! ordinary field that refers to it by name.

mod case;
pub mod flatten;
pub mod laws;
pub mod model;
pub mod spec;

pub use case::snake_of;
pub use flatten::{
    field_for, flatten, flatten_declaration, nested, reference_field, DEFAULT_DEPTH_LIMIT,
};
pub use model::{
    Annotation, Block, Declaration, Field, FlatDecl, FlatDeclV, GenericParam, Generics, Identity,
    NestError, PlainField, PlainFieldV, TypeRef, TypeRefV,
};
