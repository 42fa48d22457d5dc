//! What flattening means, stated over the declaration tree.
use crate::case::snake_of;
use crate::model::{Annotation, Declaration, Field, FlatDeclV, GenericParam, Generics, Identity, PlainFieldV, TypeRefV};
use vstd::prelude::*;

verus! {

/// The name a declaration is emitted under: the type name in either form of
/// identity.
pub open spec fn decl_name(id: Identity) -> String {
    match id {
        Identity::Bare(t) => t,
        Identity::FieldTyped { ty_name, .. } => ty_name,
    }
}

/// The documentation annotations among `anns`, in order.
pub open spec fn doc_only(anns: Seq<Annotation>) -> Seq<Annotation>
    decreases anns.len(),
{
    if anns.len() == 0 {
        anns
    } else if anns.last() is Doc {
        doc_only(anns.drop_last()).push(anns.last())
    } else {
        doc_only(anns.drop_last())
    }
}

/// The arguments that instantiate a declaration's generic parameters.
pub open spec fn type_args(g: Generics) -> Seq<String> {
    g.params@.map_values(|p: GenericParam| p.arg)
}

/// The field that a parent gets for the nested declaration `c`, where
/// `derived` is the field name to use when `c` has a bare type name.
pub open spec fn field_from(c: Declaration, derived: Seq<char>) -> PlainFieldV {
    match c.identity {
        Identity::Bare(t) => PlainFieldV {
            annotations: doc_only(c.annotations@),
            vis: c.vis,
            name: derived,
            ty: TypeRefV::Instance { name: t, args: type_args(c.generics) },
        },
        Identity::FieldTyped { field, type_annotations, ty_name } => PlainFieldV {
            annotations: type_annotations@,
            vis: c.vis,
            name: field@,
            ty: TypeRefV::Instance { name: ty_name, args: type_args(c.generics) },
        },
    }
}

/// The field that a parent gets for the nested declaration `c`: a bare type
/// name gives a field named after it in snake case.
pub open spec fn synthesized(c: Declaration) -> PlainFieldV {
    field_from(c, snake_of(decl_name(c.identity)@))
}

/// What a field entry becomes in its parent's emitted field list.
pub open spec fn emitted_field(f: Field) -> PlainFieldV {
    match f {
        Field::Plain(p) => p@,
        Field::Nested(c) => synthesized(c),
    }
}

/// What a field list becomes: one plain field per entry, in the same order.
pub open spec fn emitted_fields(fs: Seq<Field>) -> Seq<PlainFieldV> {
    fs.map_values(|f: Field| emitted_field(f))
}

/// The flat declaration emitted for `d` itself, with global annotations `g`.
pub open spec fn header(d: Declaration, g: Seq<Annotation>) -> FlatDeclV {
    FlatDeclV {
        annotations: g + d.annotations@,
        vis: d.vis,
        name: decl_name(d.identity)@,
        generics: d.generics,
        fields: match d.fields {
            Some(fs) => Some(emitted_fields(fs@)),
            None => None,
        },
    }
}

/// The flattening of `d`: its own declaration, then the flattening of each
/// nested declaration among its fields, in field order.
pub open spec fn flat_of(d: Declaration, g: Seq<Annotation>) -> Seq<FlatDeclV>
    decreases d,
{
    seq![header(d, g)] + match d.fields {
        Some(fs) => flat_of_fields(fs@, g),
        None => Seq::empty(),
    }
}

/// The flattenings of the nested declarations in `fs`, concatenated in order.
pub open spec fn flat_of_fields(fs: Seq<Field>, g: Seq<Annotation>) -> Seq<FlatDeclV>
    decreases fs,
{
    if fs.len() == 0 {
        Seq::empty()
    } else {
        flat_of_fields(fs.drop_last(), g) + match fs.last() {
            Field::Nested(c) => flat_of(c, g),
            Field::Plain(_) => Seq::empty(),
        }
    }
}

/// How many declarations deep `d` nests: 1 for a declaration without nested
/// fields.
pub open spec fn depth(d: Declaration) -> nat
    decreases d,
{
    1 + match d.fields {
        Some(fs) => fields_depth(fs@),
        None => 0,
    }
}

/// The greatest depth among the nested declarations in `fs`, 0 if none.
pub open spec fn fields_depth(fs: Seq<Field>) -> nat
    decreases fs,
{
    if fs.len() == 0 {
        0
    } else {
        let rest = fields_depth(fs.drop_last());
        let here = match fs.last() {
            Field::Nested(c) => depth(c),
            Field::Plain(_) => 0,
        };
        if rest >= here { rest } else { here }
    }
}

/// The nested declarations in `fs`, in order.
pub open spec fn children(fs: Seq<Field>) -> Seq<Declaration>
    decreases fs.len(),
{
    if fs.len() == 0 {
        Seq::empty()
    } else {
        match fs.last() {
            Field::Nested(c) => children(fs.drop_last()).push(c),
            Field::Plain(_) => children(fs.drop_last()),
        }
    }
}

/// The flattenings of `cs`, concatenated in order.
pub open spec fn flat_all(cs: Seq<Declaration>, g: Seq<Annotation>) -> Seq<FlatDeclV>
    decreases cs.len(),
{
    if cs.len() == 0 {
        Seq::empty()
    } else {
        flat_all(cs.drop_last(), g) + flat_of(cs.last(), g)
    }
}

/// The greatest depth among `cs`, 0 if empty.
pub open spec fn all_depth(cs: Seq<Declaration>) -> nat
    decreases cs.len(),
{
    if cs.len() == 0 {
        0
    } else {
        let rest = all_depth(cs.drop_last());
        if rest >= depth(cs.last()) { rest } else { depth(cs.last()) }
    }
}

} // verus!

verus! {

/// Flattening the fields of a declaration is flattening its nested
/// declarations, and their depth is the depth of those declarations.
pub proof fn lemma_fields_children(fs: Seq<Field>, g: Seq<Annotation>)
    ensures
        flat_of_fields(fs, g) == flat_all(children(fs), g),
        fields_depth(fs) == all_depth(children(fs)),
    decreases fs.len(),
{
    if fs.len() > 0 {
        lemma_fields_children(fs.drop_last(), g);
        if let Field::Nested(c) = fs.last() {
            let cs = children(fs.drop_last()).push(c);
            assert(cs.drop_last() =~= children(fs.drop_last()));
        }
    }
}

/// No declaration in `cs` is deeper than `all_depth(cs)`.
pub proof fn lemma_all_depth_bounds(cs: Seq<Declaration>, j: int)
    requires
        0 <= j < cs.len(),
    ensures
        depth(cs[j]) <= all_depth(cs),
    decreases cs.len(),
{
    if j < cs.len() - 1 {
        lemma_all_depth_bounds(cs.drop_last(), j);
    }
}

/// Every declaration is at least one level deep.
pub proof fn lemma_depth_positive(d: Declaration)
    ensures
        depth(d) >= 1,
{
}

} // verus!
