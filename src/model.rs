//! The declaration tree that the engine reads and the flat declarations it
//! writes.
//!
//! Token text that the engine never looks into (an annotation's tokens, a
//! visibility, a written type, a generic parameter) is held as a `String`
//! and carried through unchanged.
use vstd::prelude::*;

verus! {

/// A metadata annotation on a declaration or a field, kept as its token text.
#[derive(Debug, Clone, PartialEq, Eq)]
pub enum Annotation {
    /// A documentation comment.
    Doc(String),
    /// Any other annotation (`derive`, `serde`, ...).
    Meta(String),
}

impl Annotation {
    /// Whether this is a documentation comment.
    pub fn is_doc(&self) -> (r: bool)
        ensures
            r == (*self is Doc),
    {
        match self {
            Annotation::Doc(_) => true,
            Annotation::Meta(_) => false,
        }
    }

    /// A copy equal to `self`.
    pub fn duplicate(&self) -> (r: Annotation)
        ensures
            r == *self,
    {
        match self {
            Annotation::Doc(t) => Annotation::Doc(t.clone()),
            Annotation::Meta(t) => Annotation::Meta(t.clone()),
        }
    }
}

/// One generic parameter: its declaration (`T: Clone`, `'a`, `const N: usize`)
/// and the argument that names it at a use site (`T`, `'a`, `N`).
#[derive(Debug, Clone, PartialEq, Eq)]
pub struct GenericParam {
    pub decl: String,
    pub arg: String,
}

/// Generic parameters and an optional `where` clause.
#[derive(Debug, Clone, PartialEq, Eq)]
pub struct Generics {
    pub params: Vec<GenericParam>,
    pub where_clause: Option<String>,
}

/// The type of a plain field.
#[derive(Debug, Clone, PartialEq, Eq)]
pub enum TypeRef {
    /// A type as it was written in the input.
    Written(String),
    /// A named type instantiated with arguments, written `name::<args>`
    /// (just `name` when there are none).
    Instance { name: String, args: Vec<String> },
}

/// Model of a [`TypeRef`].
pub enum TypeRefV {
    Written(String),
    Instance { name: String, args: Seq<String> },
}

impl View for TypeRef {
    type V = TypeRefV;

    open spec fn view(&self) -> TypeRefV {
        match self {
            TypeRef::Written(t) => TypeRefV::Written(*t),
            TypeRef::Instance { name, args } => TypeRefV::Instance { name: *name, args: args@ },
        }
    }
}

/// An ordinary field: annotations, visibility, name and type.
#[derive(Debug, Clone, PartialEq, Eq)]
pub struct PlainField {
    pub annotations: Vec<Annotation>,
    pub vis: String,
    pub name: String,
    pub ty: TypeRef,
}

/// Model of a [`PlainField`].
pub struct PlainFieldV {
    pub annotations: Seq<Annotation>,
    pub vis: String,
    pub name: Seq<char>,
    pub ty: TypeRefV,
}

impl View for PlainField {
    type V = PlainFieldV;

    open spec fn view(&self) -> PlainFieldV {
        PlainFieldV {
            annotations: self.annotations@,
            vis: self.vis,
            name: self.name@,
            ty: self.ty@,
        }
    }
}

/// How a declaration is named.
#[derive(Debug, Clone, PartialEq, Eq)]
pub enum Identity {
    /// A type name alone: `struct Foo`.
    Bare(String),
    /// A field name and a type name: `struct field: #[a] Foo`. The
    /// annotations written before the type name belong to the field that
    /// the parent gets.
    FieldTyped { field: String, type_annotations: Vec<Annotation>, ty_name: String },
}

/// A field entry: an ordinary field or a nested declaration.
#[derive(Debug, PartialEq, Eq)]
pub enum Field {
    Plain(PlainField),
    Nested(Declaration),
}

/// A record declaration, which may hold nested declarations among its fields.
#[derive(Debug, PartialEq, Eq)]
pub struct Declaration {
    pub annotations: Vec<Annotation>,
    pub vis: String,
    pub identity: Identity,
    pub generics: Generics,
    /// `None` for a unit declaration, else the fields in order.
    pub fields: Option<Vec<Field>>,
}

/// The whole input: annotations for every emitted declaration, then the root.
#[derive(Debug, PartialEq, Eq)]
pub struct Block {
    pub global_annotations: Vec<Annotation>,
    pub root: Declaration,
}

/// A declaration with no nested declarations in it.
#[derive(Debug, Clone, PartialEq, Eq)]
pub struct FlatDecl {
    pub annotations: Vec<Annotation>,
    pub vis: String,
    pub name: String,
    pub generics: Generics,
    /// `None` for a unit declaration.
    pub fields: Option<Vec<PlainField>>,
}

/// Model of a [`FlatDecl`].
pub struct FlatDeclV {
    pub annotations: Seq<Annotation>,
    pub vis: String,
    pub name: Seq<char>,
    pub generics: Generics,
    pub fields: Option<Seq<PlainFieldV>>,
}

/// The models of a sequence of fields.
pub open spec fn plain_views(fs: Seq<PlainField>) -> Seq<PlainFieldV> {
    fs.map_values(|f: PlainField| f@)
}

/// The models of a sequence of flat declarations.
pub open spec fn flat_views(ds: Seq<FlatDecl>) -> Seq<FlatDeclV> {
    ds.map_values(|d: FlatDecl| d@)
}

impl View for FlatDecl {
    type V = FlatDeclV;

    open spec fn view(&self) -> FlatDeclV {
        FlatDeclV {
            annotations: self.annotations@,
            vis: self.vis,
            name: self.name@,
            generics: self.generics,
            fields: match self.fields {
                Some(fs) => Some(plain_views(fs@)),
                None => None,
            },
        }
    }
}

/// Why flattening failed.
#[derive(Debug, Clone, Copy, PartialEq, Eq)]
pub enum NestError {
    /// The input nests deeper than the limit allows: `depth` is the level at
    /// which the limit was passed.
    NestingTooDeep { depth: u64, limit: u32 },
}

} // verus!
