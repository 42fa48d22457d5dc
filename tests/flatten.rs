use nested_attr::{
    field_for, flatten, flatten_declaration, nested, reference_field, Annotation, Block,
    Declaration, Field, FlatDecl, GenericParam, Generics, Identity, NestError, PlainField, TypeRef,
    DEFAULT_DEPTH_LIMIT,
};

fn s(t: &str) -> String {
    t.to_string()
}

fn no_generics() -> Generics {
    Generics { params: Vec::new(), where_clause: None }
}

fn doc(t: &str) -> Annotation {
    Annotation::Doc(s(t))
}

fn meta(t: &str) -> Annotation {
    Annotation::Meta(s(t))
}

fn plain(name: &str, ty: &str) -> Field {
    Field::Plain(plain_field(name, ty))
}

fn plain_field(name: &str, ty: &str) -> PlainField {
    PlainField {
        annotations: Vec::new(),
        vis: String::new(),
        name: s(name),
        ty: TypeRef::Written(s(ty)),
    }
}

fn decl(name: &str, fields: Vec<Field>) -> Declaration {
    Declaration {
        annotations: Vec::new(),
        vis: String::new(),
        identity: Identity::Bare(s(name)),
        generics: no_generics(),
        fields: Some(fields),
    }
}

fn block(root: Declaration) -> Block {
    Block { global_annotations: Vec::new(), root }
}

fn instance(name: &str) -> TypeRef {
    TypeRef::Instance { name: s(name), args: Vec::new() }
}

fn field_names(d: &FlatDecl) -> Vec<String> {
    d.fields.as_ref().unwrap().iter().map(|f| f.name.clone()).collect()
}

fn nest_chain(levels: usize) -> Declaration {
    let mut d = decl("L0", vec![plain("x", "i32")]);
    for i in 1..levels {
        d = decl(&format!("L{}", i), vec![Field::Nested(d)]);
    }
    d
}

#[test]
fn end_to_end_two_declarations() {
    let root = decl("P", vec![plain("a", "i32"), Field::Nested(decl("Q", vec![plain("b", "i32")]))]);
    let out = nested(block(root)).unwrap();
    assert_eq!(out.len(), 2);
    assert_eq!(out[0].name, "P");
    assert_eq!(
        out[0].fields,
        Some(vec![
            plain_field("a", "i32"),
            PlainField {
                annotations: Vec::new(),
                vis: String::new(),
                name: s("q"),
                ty: instance("Q"),
            },
        ])
    );
    assert_eq!(out[1].name, "Q");
    assert_eq!(out[1].fields, Some(vec![plain_field("b", "i32")]));
}

#[test]
fn flat_input_is_unchanged_but_for_globals() {
    let mut root = decl("Only", vec![plain("a", "i32"), plain("b", "String")]);
    root.annotations = vec![meta("#[derive(Debug)]")];
    root.vis = s("pub");
    let b = Block { global_annotations: vec![meta("#[allow(dead_code)]")], root };
    let out = nested(b).unwrap();
    assert_eq!(out.len(), 1);
    assert_eq!(out[0].annotations, vec![meta("#[allow(dead_code)]"), meta("#[derive(Debug)]")]);
    assert_eq!(out[0].vis, "pub");
    assert_eq!(out[0].name, "Only");
    assert_eq!(out[0].fields, Some(vec![plain_field("a", "i32"), plain_field("b", "String")]));
}

#[test]
fn field_count_is_conserved() {
    // 3 plain and 3 nested fields in the tree.
    let inner = decl("C", vec![plain("c1", "u8")]);
    let mid = decl("B", vec![plain("b1", "u8"), Field::Nested(inner)]);
    let root = decl("A", vec![Field::Nested(mid), plain("a1", "u8"), Field::Nested(decl("U", vec![]))]);
    let out = nested(block(root)).unwrap();
    assert_eq!(out.len(), 4);
    let total: usize = out.iter().map(|d| d.fields.as_ref().map_or(0, |f| f.len())).sum();
    assert_eq!(total, 6);
}

#[test]
fn sibling_order_is_kept() {
    let root = decl(
        "R",
        vec![
            plain("first", "u8"),
            Field::Nested(decl("Second", vec![])),
            plain("third", "u8"),
            Field::Nested(decl("FourthOne", vec![])),
        ],
    );
    let out = nested(block(root)).unwrap();
    assert_eq!(field_names(&out[0]), vec![s("first"), s("second"), s("third"), s("fourth_one")]);
    assert_eq!(out[1].name, "Second");
    assert_eq!(out[2].name, "FourthOne");
}

#[test]
fn bare_name_field_gets_only_docs() {
    let mut foo = decl("Foo", vec![plain("x", "i32")]);
    foo.annotations = vec![doc("/// a foo"), meta("#[derive(Clone)]")];
    let root = decl("Outer", vec![Field::Nested(foo)]);
    let out = nested(block(root)).unwrap();
    let f = &out[0].fields.as_ref().unwrap()[0];
    assert_eq!(f.name, "foo");
    assert_eq!(f.annotations, vec![doc("/// a foo")]);
    assert_eq!(out[1].name, "Foo");
    assert_eq!(out[1].annotations, vec![doc("/// a foo"), meta("#[derive(Clone)]")]);
}

#[test]
fn named_form_field_gets_type_position_annotations() {
    let inner = Declaration {
        annotations: vec![doc("/// the type")],
        vis: s("pub"),
        identity: Identity::FieldTyped {
            field: s("member"),
            type_annotations: vec![doc("/// the field"), meta("#[serde(default)]")],
            ty_name: s("Member"),
        },
        generics: no_generics(),
        fields: Some(vec![plain("m", "u8")]),
    };
    let root = decl("Holder", vec![Field::Nested(inner)]);
    let out = nested(block(root)).unwrap();
    let f = &out[0].fields.as_ref().unwrap()[0];
    assert_eq!(f.name, "member");
    assert_eq!(f.vis, "pub");
    assert_eq!(f.annotations, vec![doc("/// the field"), meta("#[serde(default)]")]);
    assert_eq!(f.ty, instance("Member"));
    assert_eq!(out[1].name, "Member");
    assert_eq!(out[1].vis, "pub");
    assert_eq!(out[1].annotations, vec![doc("/// the type")]);
}

#[test]
fn global_annotations_prefix_every_declaration() {
    let c = decl("Three", vec![plain("z", "u8")]);
    let b = decl("Two", vec![Field::Nested(c)]);
    let mut a = decl("One", vec![Field::Nested(b)]);
    a.annotations = vec![doc("/// one")];
    let globals = vec![meta("#[derive(Debug)]"), meta("#[derive(Clone)]")];
    let out = nested(Block { global_annotations: globals.clone(), root: a }).unwrap();
    assert_eq!(out.len(), 3);
    for d in &out {
        assert_eq!(&d.annotations[0..2], &globals[..]);
    }
    assert_eq!(out[0].annotations.len(), 3);
    assert_eq!(out[1].annotations.len(), 2);
}

#[test]
fn bare_name_is_snake_cased() {
    let c = decl("UserProfile", vec![]);
    let f = field_for(&c);
    assert_eq!(f.name, "user_profile");
    assert_eq!(f.ty, instance("UserProfile"));
}

#[test]
fn reference_field_uses_given_name() {
    let mut c = decl("Whatever", vec![]);
    c.annotations = vec![meta("#[derive(Debug)]"), doc("/// d")];
    c.vis = s("pub(crate)");
    let f = reference_field(&c, s("chosen"));
    assert_eq!(f.name, "chosen");
    assert_eq!(f.vis, "pub(crate)");
    assert_eq!(f.annotations, vec![doc("/// d")]);
}

#[test]
fn hundred_levels_is_too_deep() {
    let r = nested(block(nest_chain(100)));
    assert_eq!(r.unwrap_err(), NestError::NestingTooDeep { depth: 65, limit: 64 });
}

#[test]
fn depth_at_limit_is_accepted() {
    let out = nested(block(nest_chain(DEFAULT_DEPTH_LIMIT as usize))).unwrap();
    assert_eq!(out.len(), 64);
    let r = nested(block(nest_chain(DEFAULT_DEPTH_LIMIT as usize + 1)));
    assert_eq!(r.unwrap_err(), NestError::NestingTooDeep { depth: 65, limit: 64 });
}

#[test]
fn custom_limits() {
    assert_eq!(flatten(block(nest_chain(3)), 3).unwrap().len(), 3);
    assert_eq!(
        flatten(block(nest_chain(3)), 2).unwrap_err(),
        NestError::NestingTooDeep { depth: 3, limit: 2 }
    );
    assert_eq!(
        flatten_declaration(decl("A", vec![]), Vec::new(), 0).unwrap_err(),
        NestError::NestingTooDeep { depth: 1, limit: 0 }
    );
    assert_eq!(flatten_declaration(decl("A", vec![]), Vec::new(), 1).unwrap().len(), 1);
}

#[test]
fn generic_nested_type_is_instantiated() {
    let inner = Declaration {
        annotations: Vec::new(),
        vis: String::new(),
        identity: Identity::Bare(s("Pair")),
        generics: Generics {
            params: vec![
                GenericParam { decl: s("'a"), arg: s("'a") },
                GenericParam { decl: s("T: Clone"), arg: s("T") },
            ],
            where_clause: Some(s("where T: Default")),
        },
        fields: Some(vec![plain("left", "&'a T")]),
    };
    let out = nested(block(decl("Top", vec![Field::Nested(inner)]))).unwrap();
    let f = &out[0].fields.as_ref().unwrap()[0];
    assert_eq!(f.name, "pair");
    assert_eq!(f.ty, TypeRef::Instance { name: s("Pair"), args: vec![s("'a"), s("T")] });
    assert_eq!(out[1].generics.params.len(), 2);
    assert_eq!(out[1].generics.where_clause, Some(s("where T: Default")));
}

#[test]
fn unit_nested_declaration() {
    let mut unit = decl("Marker", vec![]);
    unit.fields = None;
    let out = nested(block(decl("Host", vec![Field::Nested(unit)]))).unwrap();
    assert_eq!(field_names(&out[0]), vec![s("marker")]);
    assert_eq!(out[1].name, "Marker");
    assert_eq!(out[1].fields, None);
}

#[test]
fn grandchildren_follow_their_parent() {
    // A { B { D }, C }  emits A, B, D, C.
    let b = decl("B", vec![Field::Nested(decl("D", vec![]))]);
    let root = decl("A", vec![Field::Nested(b), Field::Nested(decl("C", vec![]))]);
    let out = nested(block(root)).unwrap();
    let names: Vec<String> = out.iter().map(|d| d.name.clone()).collect();
    assert_eq!(names, vec![s("A"), s("B"), s("D"), s("C")]);
}

#[test]
fn mixed_fixture() {
    // pub struct Nested { a, struct B { b1, b3 }, c, struct d: D { struct E { mt }, struct F } }
    let mut b = decl("B", vec![plain("b1", "i32"), plain("b3", "char")]);
    b.annotations = vec![doc("/// struct mem b/B")];
    b.vis = s("pub");
    let e = decl("E", vec![plain("mt", "()")]);
    let mut f = decl("F", vec![]);
    f.fields = None;
    let d = Declaration {
        annotations: vec![doc("/// mem struct D")],
        vis: s("pub"),
        identity: Identity::FieldTyped {
            field: s("d"),
            type_annotations: vec![doc("/// struct mem d")],
            ty_name: s("D"),
        },
        generics: no_generics(),
        fields: Some(vec![Field::Nested(e), Field::Nested(f)]),
    };
    let root = decl(
        "Nested",
        vec![plain("a", "i32"), Field::Nested(b), plain("c", "usize"), Field::Nested(d)],
    );
    let globals = vec![meta("#[derive(Debug)]")];
    let out = nested(Block { global_annotations: globals, root }).unwrap();
    let names: Vec<String> = out.iter().map(|d| d.name.clone()).collect();
    assert_eq!(names, vec![s("Nested"), s("B"), s("D"), s("E"), s("F")]);
    assert_eq!(field_names(&out[0]), vec![s("a"), s("b"), s("c"), s("d")]);
    assert_eq!(out[0].fields.as_ref().unwrap()[3].annotations, vec![doc("/// struct mem d")]);
    assert_eq!(out[2].annotations, vec![meta("#[derive(Debug)]"), doc("/// mem struct D")]);
    assert_eq!(field_names(&out[2]), vec![s("e"), s("f")]);
}
