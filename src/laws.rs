//! Properties of flattening, proved over its specification.
use crate::model::{Annotation, Declaration, Field, FlatDeclV};
use crate::spec::{
    decl_name, doc_only, emitted_field, emitted_fields, flat_of, flat_of_fields, header,
};
use vstd::prelude::*;

verus! {

/// Whether no field of `d` is a nested declaration.
pub open spec fn has_no_nested(d: Declaration) -> bool {
    match d.fields {
        Some(fs) => forall|i: int| 0 <= i < fs@.len() ==> (#[trigger] fs@[i]) is Plain,
        None => true,
    }
}

/// The plain fields in `d` and in every declaration nested in it.
pub open spec fn plain_count(d: Declaration) -> nat
    decreases d,
{
    match d.fields {
        Some(fs) => plain_count_in(fs@),
        None => 0,
    }
}

/// The plain fields in `fs` and in every declaration nested in it.
pub open spec fn plain_count_in(fs: Seq<Field>) -> nat
    decreases fs,
{
    if fs.len() == 0 {
        0
    } else {
        plain_count_in(fs.drop_last()) + match fs.last() {
            Field::Plain(_) => 1,
            Field::Nested(c) => plain_count(c),
        }
    }
}

/// The nested fields in `d` and in every declaration nested in it.
pub open spec fn nested_count(d: Declaration) -> nat
    decreases d,
{
    match d.fields {
        Some(fs) => nested_count_in(fs@),
        None => 0,
    }
}

/// The nested fields in `fs` and in every declaration nested in them.
pub open spec fn nested_count_in(fs: Seq<Field>) -> nat
    decreases fs,
{
    if fs.len() == 0 {
        0
    } else {
        nested_count_in(fs.drop_last()) + match fs.last() {
            Field::Plain(_) => 0,
            Field::Nested(c) => 1 + nested_count(c),
        }
    }
}

/// The number of fields of a flat declaration, 0 for a unit one.
pub open spec fn field_len(d: FlatDeclV) -> nat {
    match d.fields {
        Some(fs) => fs.len(),
        None => 0,
    }
}

/// The fields of all of `ds` together.
pub open spec fn total_fields(ds: Seq<FlatDeclV>) -> nat
    decreases ds.len(),
{
    if ds.len() == 0 {
        0
    } else {
        total_fields(ds.drop_last()) + field_len(ds.last())
    }
}

/// Whether each of `ds` has `g` before its own annotations.
pub open spec fn all_start_with(ds: Seq<FlatDeclV>, g: Seq<Annotation>) -> bool {
    forall|k: int|
        0 <= k < ds.len() ==> (#[trigger] ds[k]).annotations.len() >= g.len()
            && ds[k].annotations.subrange(0, g.len() as int) == g
}

proof fn lemma_total_fields_concat(a: Seq<FlatDeclV>, b: Seq<FlatDeclV>)
    ensures
        total_fields(a + b) == total_fields(a) + total_fields(b),
    decreases b.len(),
{
    if b.len() > 0 {
        lemma_total_fields_concat(a, b.drop_last());
        assert((a + b).drop_last() =~= a + b.drop_last());
    }
}

proof fn lemma_flat_of_fields_concat(a: Seq<Field>, b: Seq<Field>, g: Seq<Annotation>)
    ensures
        flat_of_fields(a + b, g) == flat_of_fields(a, g) + flat_of_fields(b, g),
    decreases b.len(),
{
    if b.len() == 0 {
        assert(a + b =~= a);
        assert(flat_of_fields(a, g) + flat_of_fields(b, g) =~= flat_of_fields(a, g));
    } else {
        lemma_flat_of_fields_concat(a, b.drop_last(), g);
        assert((a + b).drop_last() =~= a + b.drop_last());
        assert((a + b).last() == b.last());
        let tail = match b.last() {
            Field::Nested(c) => flat_of(c, g),
            Field::Plain(_) => Seq::empty(),
        };
        assert(flat_of_fields(a, g) + flat_of_fields(b.drop_last(), g) + tail =~= flat_of_fields(
            a,
            g,
        ) + (flat_of_fields(b.drop_last(), g) + tail));
    }
}

proof fn lemma_counts(d: Declaration, g: Seq<Annotation>)
    ensures
        total_fields(flat_of(d, g)) == plain_count(d) + nested_count(d),
        flat_of(d, g).len() == 1 + nested_count(d),
        all_start_with(flat_of(d, g), g),
    decreases d,
{
    let h = seq![header(d, g)];
    assert(h.drop_last() =~= Seq::<FlatDeclV>::empty());
    assert(header(d, g).annotations.subrange(0, g.len() as int) =~= g);
    assert(total_fields(h.drop_last()) == 0);
    assert(total_fields(h) == field_len(header(d, g)));
    match d.fields {
        Some(fs) => {
            lemma_counts_in(fs@, g);
            lemma_total_fields_concat(h, flat_of_fields(fs@, g));
            assert(emitted_fields(fs@).len() == fs@.len());
        },
        None => {
            assert(flat_of(d, g) =~= h);
        },
    }
}

proof fn lemma_counts_in(fs: Seq<Field>, g: Seq<Annotation>)
    ensures
        total_fields(flat_of_fields(fs, g)) + fs.len() == plain_count_in(fs) + nested_count_in(fs),
        flat_of_fields(fs, g).len() == nested_count_in(fs),
        all_start_with(flat_of_fields(fs, g), g),
    decreases fs,
{
    if fs.len() > 0 {
        lemma_counts_in(fs.drop_last(), g);
        match fs.last() {
            Field::Nested(c) => {
                lemma_counts(c, g);
                lemma_total_fields_concat(flat_of_fields(fs.drop_last(), g), flat_of(c, g));
            },
            Field::Plain(_) => {
                assert(flat_of_fields(fs, g) =~= flat_of_fields(fs.drop_last(), g));
            },
        }
    }
}

proof fn lemma_plain_only(fs: Seq<Field>, g: Seq<Annotation>)
    requires
        forall|i: int| 0 <= i < fs.len() ==> (#[trigger] fs[i]) is Plain,
    ensures
        flat_of_fields(fs, g) == Seq::<FlatDeclV>::empty(),
    decreases fs.len(),
{
    if fs.len() > 0 {
        assert(fs.last() is Plain);
        lemma_plain_only(fs.drop_last(), g);
    }
}

/// Where the flattening of the nested declaration at field `i` of `d` stands
/// in the flattening of `d`.
proof fn lemma_child_position(d: Declaration, g: Seq<Annotation>, i: int)
    requires
        d.fields is Some,
        0 <= i < d.fields->Some_0@.len(),
        d.fields->Some_0@[i] is Nested,
    ensures
        ({
            let fs = d.fields->Some_0@;
            let k: int = 1 + flat_of_fields(fs.subrange(0, i), g).len() as int;
            &&& k < flat_of(d, g).len()
            &&& flat_of(d, g)[k] == header(fs[i]->Nested_0, g)
        }),
{
    let fs = d.fields->Some_0@;
    let c = fs[i]->Nested_0;
    let a = fs.subrange(0, i);
    let b = fs.subrange(i, fs.len() as int);
    let one = seq![fs[i]];
    let rest = fs.subrange(i + 1, fs.len() as int);
    assert(fs =~= a + b);
    assert(b =~= one + rest);
    lemma_flat_of_fields_concat(a, b, g);
    lemma_flat_of_fields_concat(one, rest, g);
    assert(one.drop_last() =~= Seq::<Field>::empty());
    assert(one.last() == fs[i]);
    assert(flat_of_fields(one.drop_last(), g) =~= Seq::<FlatDeclV>::empty());
    assert(flat_of_fields(one, g) =~= flat_of(c, g));
    assert(flat_of(c, g)[0] == header(c, g));
}

/// A declaration without nested fields flattens to itself alone: only the
/// global annotations are put before its own.
pub proof fn law_flat_input_unchanged(d: Declaration, g: Seq<Annotation>)
    requires
        has_no_nested(d),
    ensures
        flat_of(d, g).len() == 1,
        flat_of(d, g)[0].annotations == g + d.annotations@,
        flat_of(d, g)[0].vis == d.vis,
        flat_of(d, g)[0].name == decl_name(d.identity)@,
        flat_of(d, g)[0].generics == d.generics,
        flat_of(d, g)[0].fields == match d.fields {
            Some(fs) => Some(fs@.map_values(|f: Field| f->Plain_0@)),
            None => None,
        },
{
    if let Some(fs) = d.fields {
        lemma_plain_only(fs@, g);
        assert(emitted_fields(fs@) =~= fs@.map_values(|f: Field| f->Plain_0@));
    }
    assert(flat_of(d, g) =~= seq![header(d, g)]);
}

/// Each nested field becomes one plain field and one more declaration: the
/// emitted declarations hold as many fields as the tree holds plain and
/// nested fields together, and there is one declaration more than there are
/// nested fields.
pub proof fn law_field_count(d: Declaration, g: Seq<Annotation>)
    ensures
        total_fields(flat_of(d, g)) == plain_count(d) + nested_count(d),
        flat_of(d, g).len() == 1 + nested_count(d),
{
    lemma_counts(d, g);
}

/// The first declaration emitted is `d` itself, whose field list has one
/// entry for each field entry of `d` at the same position, so that sibling
/// fields keep their relative order.
pub proof fn law_field_order(d: Declaration, g: Seq<Annotation>, i: int, j: int)
    requires
        d.fields is Some,
        0 <= i < j < d.fields->Some_0@.len(),
    ensures
        flat_of(d, g)[0].name == decl_name(d.identity)@,
        flat_of(d, g)[0].fields->Some_0.len() == d.fields->Some_0@.len(),
        flat_of(d, g)[0].fields->Some_0[i] == emitted_field(d.fields->Some_0@[i]),
        flat_of(d, g)[0].fields->Some_0[j] == emitted_field(d.fields->Some_0@[j]),
{
}

/// A nested declaration with a bare type name gives its parent a field that
/// carries only its documentation annotations, while the declaration emitted
/// for it carries all of its annotations after the global ones.
pub proof fn law_bare_name_annotations(d: Declaration, g: Seq<Annotation>, i: int)
    requires
        d.fields is Some,
        0 <= i < d.fields->Some_0@.len(),
        d.fields->Some_0@[i] matches Field::Nested(c) && c.identity is Bare,
    ensures
        ({
            let c = d.fields->Some_0@[i]->Nested_0;
            &&& flat_of(d, g)[0].fields->Some_0[i].annotations == doc_only(c.annotations@)
            &&& exists|k: int|
                0 < k < flat_of(d, g).len() && #[trigger] flat_of(d, g)[k] == header(c, g)
                    && flat_of(d, g)[k].annotations == g + c.annotations@
        }),
{
    lemma_child_position(d, g, i);
    let k: int = 1 + flat_of_fields(d.fields->Some_0@.subrange(0, i), g).len() as int;
    assert(flat_of(d, g)[k] == header(d.fields->Some_0@[i]->Nested_0, g));
}

/// A nested declaration written `field: #[a] Type { .. }` gives its parent a
/// field that carries the annotations written before the type name, while the
/// declaration emitted for it carries, after the global ones, only the
/// annotations written before its own `struct`.
pub proof fn law_named_annotations(d: Declaration, g: Seq<Annotation>, i: int)
    requires
        d.fields is Some,
        0 <= i < d.fields->Some_0@.len(),
        d.fields->Some_0@[i] matches Field::Nested(c) && c.identity is FieldTyped,
    ensures
        ({
            let c = d.fields->Some_0@[i]->Nested_0;
            &&& flat_of(d, g)[0].fields->Some_0[i].annotations
                == c.identity->FieldTyped_type_annotations@
            &&& flat_of(d, g)[0].fields->Some_0[i].name == c.identity->FieldTyped_field@
            &&& exists|k: int|
                0 < k < flat_of(d, g).len() && #[trigger] flat_of(d, g)[k] == header(c, g)
                    && flat_of(d, g)[k].annotations == g + c.annotations@
        }),
{
    lemma_child_position(d, g, i);
    let k: int = 1 + flat_of_fields(d.fields->Some_0@.subrange(0, i), g).len() as int;
    assert(flat_of(d, g)[k] == header(d.fields->Some_0@[i]->Nested_0, g));
}

/// Every emitted declaration begins with the global annotations, in the
/// order they were given.
pub proof fn law_global_annotations(d: Declaration, g: Seq<Annotation>, k: int)
    requires
        0 <= k < flat_of(d, g).len(),
    ensures
        flat_of(d, g)[k].annotations.len() >= g.len(),
        flat_of(d, g)[k].annotations.subrange(0, g.len() as int) == g,
{
    lemma_counts(d, g);
}

} // verus!
