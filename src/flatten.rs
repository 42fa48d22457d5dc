//! The flattening engine.
use crate::case::snake_case;
use crate::model::{
    flat_views, plain_views, Annotation, Block, Declaration, Field, FlatDecl, FlatDeclV, Generics,
    Identity, NestError, PlainField, TypeRef,
};
use crate::spec::{
    all_depth, children, depth, doc_only, emitted_field, emitted_fields, field_from, flat_all,
    flat_of, header, lemma_all_depth_bounds, lemma_depth_positive, lemma_fields_children,
    synthesized, type_args,
};
use vstd::prelude::*;

verus! {

/// How deep a declaration may nest when no other limit is given.
pub const DEFAULT_DEPTH_LIMIT: u32 = 64;

/// A copy of each annotation, in order.
fn copy_annotations(anns: &Vec<Annotation>) -> (r: Vec<Annotation>)
    ensures
        r@ == anns@,
{
    let mut r: Vec<Annotation> = Vec::new();
    let mut i: usize = 0;
    while i < anns.len()
        invariant
            i <= anns.len(),
            r@ == anns@.subrange(0, i as int),
        decreases anns.len() - i,
    {
        r.push(anns[i].duplicate());
        i = i + 1;
        assert(r@ =~= anns@.subrange(0, i as int));
    }
    assert(anns@.subrange(0, anns.len() as int) =~= anns@);
    r
}

/// A copy of the documentation annotations, in order.
fn doc_annotations(anns: &Vec<Annotation>) -> (r: Vec<Annotation>)
    ensures
        r@ == doc_only(anns@),
{
    let mut r: Vec<Annotation> = Vec::new();
    let mut i: usize = 0;
    while i < anns.len()
        invariant
            i <= anns.len(),
            r@ == doc_only(anns@.subrange(0, i as int)),
        decreases anns.len() - i,
    {
        let ghost pre = anns@.subrange(0, i as int);
        assert(anns@.subrange(0, i + 1).drop_last() =~= pre);
        if anns[i].is_doc() {
            r.push(anns[i].duplicate());
        }
        i = i + 1;
    }
    assert(anns@.subrange(0, anns.len() as int) =~= anns@);
    r
}

/// The arguments that instantiate `g`'s parameters, in order.
fn type_arguments(g: &Generics) -> (r: Vec<String>)
    ensures
        r@ == type_args(*g),
{
    let mut r: Vec<String> = Vec::new();
    let mut i: usize = 0;
    while i < g.params.len()
        invariant
            i <= g.params.len(),
            r@ == type_args(*g).subrange(0, i as int),
        decreases g.params.len() - i,
    {
        r.push(g.params[i].arg.clone());
        i = i + 1;
        assert(r@ =~= type_args(*g).subrange(0, i as int));
    }
    assert(type_args(*g).subrange(0, i as int) =~= type_args(*g));
    r
}

/// The field that a parent gets for the nested declaration `c`, where
/// `derived_name` names the field when `c` has a bare type name.
///
/// A bare name gives the field only the documentation annotations of `c`; a
/// field name with a type name gives it the annotations written before the
/// type name. Either way the field has `c`'s visibility and refers to `c`'s
/// type, instantiated with `c`'s generic arguments.
pub fn reference_field(c: &Declaration, derived_name: String) -> (r: PlainField)
    ensures
        r@ == field_from(*c, derived_name@),
{
    let args = type_arguments(&c.generics);
    match &c.identity {
        Identity::Bare(t) => PlainField {
            annotations: doc_annotations(&c.annotations),
            vis: c.vis.clone(),
            name: derived_name,
            ty: TypeRef::Instance { name: t.clone(), args },
        },
        Identity::FieldTyped { field, type_annotations, ty_name } => PlainField {
            annotations: copy_annotations(type_annotations),
            vis: c.vis.clone(),
            name: field.clone(),
            ty: TypeRef::Instance { name: ty_name.clone(), args },
        },
    }
}

/// The field that a parent gets for the nested declaration `c`; a bare type
/// name is turned into snake case for the field's name.
pub fn field_for(c: &Declaration) -> (r: PlainField)
    ensures
        r@ == synthesized(*c),
{
    match &c.identity {
        Identity::Bare(t) => {
            let derived = snake_case(t);
            reference_field(c, derived)
        },
        Identity::FieldTyped { .. } => reference_field(c, String::new()),
    }
}

/// Appends the flattening of `d`, found at nesting level `level`, to `out`.
fn flatten_into(
    d: Declaration,
    g: &Vec<Annotation>,
    level: u32,
    limit: u32,
    out: &mut Vec<FlatDecl>,
) -> (r: Result<(), NestError>)
    requires
        1 <= level <= limit,
    ensures
        r is Ok <==> depth(d) + level <= limit + 1,
        r is Ok ==> flat_views(final(out)@) == flat_views(old(out)@) + flat_of(d, g@),
        r matches Err(e) ==> e == (NestError::NestingTooDeep { depth: (limit + 1) as u64, limit }),
    decreases limit - level,
{
    let ghost dg = d;
    let ghost out0 = out@;
    let Declaration { annotations, vis, identity, generics, fields } = d;
    let mut anns = copy_annotations(g);
    let mut own = annotations;
    anns.append(&mut own);
    let name = match identity {
        Identity::Bare(t) => t,
        Identity::FieldTyped { ty_name, .. } => ty_name,
    };
    let fs = match fields {
        None => {
            let h = FlatDecl { annotations: anns, vis, name, generics, fields: None };
            assert(h@ == header(dg, g@));
            out.push(h);
            assert(flat_views(out@) =~= flat_views(out0) + flat_of(dg, g@));
            return Ok(());
        },
        Some(fs) => fs,
    };
    let ghost orig = fs@;
    let mut rest = fs;
    let mut emitted: Vec<PlainField> = Vec::new();
    let mut pending: Vec<Declaration> = Vec::new();
    while rest.len() > 0
        invariant
            rest@.len() <= orig.len(),
            rest@ == orig.subrange(orig.len() - rest@.len(), orig.len() as int),
            plain_views(emitted@) == emitted_fields(orig.subrange(0, orig.len() - rest@.len())),
            pending@ == children(orig.subrange(0, orig.len() - rest@.len())),
        decreases rest.len(),
    {
        let ghost i = orig.len() - rest@.len();
        let ghost prev = emitted@;
        let f = rest.remove(0);
        let ghost fg = f;
        assert(orig.subrange(0, i + 1).drop_last() =~= orig.subrange(0, i));
        assert(orig.subrange(0, i + 1).last() == f);
        match f {
            Field::Plain(p) => {
                emitted.push(p);
            },
            Field::Nested(c) => {
                emitted.push(field_for(&c));
                pending.push(c);
            },
        }
        assert(rest@ =~= orig.subrange(i + 1, orig.len() as int));
        assert(plain_views(emitted@) =~= plain_views(prev).push(emitted_field(fg)));
        assert(emitted_fields(orig.subrange(0, i + 1)) =~= emitted_fields(orig.subrange(0, i)).push(
            emitted_field(fg),
        ));
    }
    assert(orig.subrange(0, orig.len() as int) =~= orig);
    let ghost cs = pending@;
    proof {
        lemma_fields_children(orig, g@);
        if cs.len() > 0 {
            lemma_all_depth_bounds(cs, 0);
            lemma_depth_positive(cs[0]);
        }
    }
    if pending.len() > 0 && level >= limit {
        return Err(NestError::NestingTooDeep { depth: limit as u64 + 1, limit });
    }
    let h = FlatDecl { annotations: anns, vis, name, generics, fields: Some(emitted) };
    assert(h@ == header(dg, g@));
    out.push(h);
    assert(depth(dg) == 1 + all_depth(cs));
    let ghost base = flat_views(out0) + seq![header(dg, g@)];
    assert(flat_views(out@) =~= base + flat_all(cs.subrange(0, 0), g@));
    while pending.len() > 0
        invariant
            level < limit || cs.len() == 0,
            depth(dg) == 1 + all_depth(cs),
            dg == d,
            pending@.len() <= cs.len(),
            pending@ == cs.subrange(cs.len() - pending@.len(), cs.len() as int),
            flat_views(out@) == base + flat_all(cs.subrange(0, cs.len() - pending@.len()), g@),
            all_depth(cs.subrange(0, cs.len() - pending@.len())) + level + 1 <= limit + 1,
        decreases pending.len(),
    {
        let ghost k = cs.len() - pending@.len();
        let ghost done = flat_views(out@);
        let c = pending.remove(0);
        let ghost cg = c;
        assert(cs.subrange(0, k + 1).drop_last() =~= cs.subrange(0, k));
        assert(cs.subrange(0, k + 1).last() == c);
        match flatten_into(c, g, level + 1, limit, out) {
            Ok(()) => {},
            Err(e) => {
                proof {
                    lemma_all_depth_bounds(cs, k);
                    assert(cs[k] == cg);
                    assert(depth(dg) == 1 + all_depth(cs));
                }
                return Err(e);
            },
        }
        assert(pending@ =~= cs.subrange(k + 1, cs.len() as int));
        assert(flat_views(out@) =~= base + flat_all(cs.subrange(0, k + 1), g@));
    }
    assert(cs.subrange(0, cs.len() as int) =~= cs);
    Ok(())
}

/// Flattens `root`, with the global annotations `g` put before each emitted
/// declaration's own, and nesting at most `limit` levels deep.
pub fn flatten_declaration(root: Declaration, g: Vec<Annotation>, limit: u32) -> (r: Result<
    Vec<FlatDecl>,
    NestError,
>)
    ensures
        depth(root) <= limit ==> r is Ok && flat_views(r->Ok_0@) == flat_of(root, g@),
        depth(root) > limit ==> r == Err::<Vec<FlatDecl>, NestError>(
            NestError::NestingTooDeep { depth: (limit + 1) as u64, limit },
        ),
{
    proof {
        lemma_depth_positive(root);
    }
    if limit == 0 {
        return Err(NestError::NestingTooDeep { depth: 1, limit });
    }
    let mut out: Vec<FlatDecl> = Vec::new();
    match flatten_into(root, &g, 1, limit, &mut out) {
        Ok(()) => {
            assert(flat_views(Seq::<FlatDecl>::empty()) =~= Seq::<FlatDeclV>::empty());
            assert(flat_views(out@) =~= flat_of(root, g@));
            Ok(out)
        },
        Err(e) => Err(e),
    }
}

/// Flattens a whole input block, nesting at most `limit` levels deep.
pub fn flatten(block: Block, limit: u32) -> (r: Result<Vec<FlatDecl>, NestError>)
    ensures
        depth(block.root) <= limit ==> r is Ok && flat_views(r->Ok_0@) == flat_of(
            block.root,
            block.global_annotations@,
        ),
        depth(block.root) > limit ==> r == Err::<Vec<FlatDecl>, NestError>(
            NestError::NestingTooDeep { depth: (limit + 1) as u64, limit },
        ),
{
    flatten_declaration(block.root, block.global_annotations, limit)
}

/// Flattens a whole input block under the default depth limit.
pub fn nested(block: Block) -> (r: Result<Vec<FlatDecl>, NestError>)
    ensures
        depth(block.root) <= DEFAULT_DEPTH_LIMIT ==> r is Ok && flat_views(r->Ok_0@) == flat_of(
            block.root,
            block.global_annotations@,
        ),
        depth(block.root) > DEFAULT_DEPTH_LIMIT ==> r == Err::<Vec<FlatDecl>, NestError>(
            NestError::NestingTooDeep { depth: (DEFAULT_DEPTH_LIMIT + 1) as u64, limit: DEFAULT_DEPTH_LIMIT },
        ),
{
    flatten(block, DEFAULT_DEPTH_LIMIT)
}

} // verus!
