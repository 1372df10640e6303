use apiparse::api::Api;
use apiparse::ast::{AstField, Attr, ConstDecl, EnumDecl, ForeignFn, ImplBlock, Item, StructItem,
    TypeAliasDecl, UseDecl, UseTree};
use apiparse::config::{Config, RustPath, Subclass, ExternRustFun};
use apiparse::convert_error::ConvertError;
use apiparse::parse_bindgen::{ParseBindgen, ParseOutput};
use apiparse::types::{Namespace, QualifiedName};

fn s(x: &str) -> String {
    x.to_string()
}

fn cfg() -> Config {
    Config {
        blocklist: vec![],
        must_generate: vec![],
        subclasses: vec![],
        extern_rust_funs: vec![],
        rust_types: vec![],
        suppress_utilities: true,
        makestring_name: s("make_string"),
    }
}

fn root(items: Vec<Item>) -> Vec<Item> {
    vec![Item::Mod { ident: s("root"), content: Some(items) }]
}

fn parse(config: Config, items: Vec<Item>) -> Result<ParseOutput, ConvertError> {
    ParseBindgen::new(config).parse_items(&items)
}

fn names(out: &ParseOutput) -> Vec<String> {
    let mut r = Vec::new();
    for i in 0..out.apis.len() {
        r.push(out.apis.get(i).name().to_cpp_name());
    }
    r
}

fn plain_struct(ident: &str, fields: Vec<AstField>) -> Item {
    Item::Struct(StructItem { ident: s(ident), fields, attrs: vec![] })
}

#[test]
fn forward_declaration_in_nested_namespace() {
    let items = root(vec![Item::Mod {
        ident: s("a"),
        content: Some(vec![Item::Mod {
            ident: s("b"),
            content: Some(vec![plain_struct(
                "Foo",
                vec![AstField { ident: Some(s("_unused")), attrs: vec![] }],
            )]),
        }]),
    }]);
    let out = parse(cfg(), items).unwrap();
    assert_eq!(out.apis.len(), 1);
    match out.apis.get(0) {
        Api::ForwardDeclaration { name } => {
            assert_eq!(name.name.to_cpp_name(), "a::b::Foo");
        }
        _ => panic!("expected a ForwardDeclaration, never a Struct"),
    }
    assert_eq!(out.diags.len(), 0);
}

#[test]
fn ordinary_struct_is_a_full_struct() {
    let items = root(vec![plain_struct(
        "Foo",
        vec![AstField { ident: Some(s("x")), attrs: vec![] }],
    )]);
    let out = parse(cfg(), items).unwrap();
    assert_eq!(out.apis.len(), 1);
    match out.apis.get(0) {
        Api::Struct { name, details, .. } => {
            assert_eq!(name.name.to_cpp_name(), "Foo");
            assert!(!details.has_rvalue_reference_fields);
        }
        _ => panic!("expected a Struct"),
    }
}

#[test]
fn rvalue_reference_hint_is_recorded() {
    let items = root(vec![plain_struct(
        "Foo",
        vec![AstField {
            ident: Some(s("x")),
            attrs: vec![Attr { name: s("bindgen_rvalue_reference"), value: None }],
        }],
    )]);
    let out = parse(cfg(), items).unwrap();
    match out.apis.get(0) {
        Api::Struct { details, .. } => assert!(details.has_rvalue_reference_fields),
        _ => panic!("expected a Struct"),
    }
}

#[test]
fn configured_rust_type_struct_is_replaced() {
    let mut c = cfg();
    c.rust_types = vec![RustPath::new(vec![s("Foo")])];
    let items = root(vec![plain_struct(
        "Foo",
        vec![AstField { ident: Some(s("x")), attrs: vec![] }],
    )]);
    let out = parse(c, items).unwrap();
    assert_eq!(out.apis.len(), 1);
    match out.apis.get(0) {
        Api::RustType { name, .. } => assert_eq!(name.name.to_cpp_name(), "Foo"),
        _ => panic!("expected the RustType entry, not a Struct"),
    }
}

#[test]
fn vtable_placeholder_is_dropped() {
    let items = root(vec![plain_struct("Foo__bindgen_vtable", vec![])]);
    let out = parse(cfg(), items).unwrap();
    assert_eq!(out.apis.len(), 0);
    assert_eq!(out.diags.len(), 0);
}

#[test]
fn reserved_struct_name_becomes_ignored_item() {
    let items = root(vec![plain_struct("UniquePtr", vec![])]);
    let out = parse(cfg(), items).unwrap();
    assert_eq!(out.apis.len(), 1);
    match out.apis.get(0) {
        Api::IgnoredItem { name, err, .. } => {
            assert_eq!(name.name.to_cpp_name(), "UniquePtr");
            assert_eq!(*err, ConvertError::ReservedName(s("UniquePtr")));
        }
        _ => panic!("expected an IgnoredItem"),
    }
    assert_eq!(out.diags.len(), 1);
}

#[test]
fn blocklisted_struct_is_not_emitted() {
    let mut c = cfg();
    c.blocklist = vec![s("n::Evil")];
    let items = root(vec![Item::Mod {
        ident: s("n"),
        content: Some(vec![plain_struct("Evil", vec![]), plain_struct("Good", vec![])]),
    }]);
    let out = parse(c, items).unwrap();
    assert_eq!(names(&out), vec![s("n::Good")]);
}

#[test]
fn recursive_alias_is_rejected_recoverably() {
    // In namespace `a`, `use self::super::a::B as B` reconstructs old name
    // `a::B`, equal to the new name: the infinitely recursive alias error.
    let tree = UseTree::Path {
        segment: s("self"),
        rest: Box::new(UseTree::Path {
            segment: s("super"),
            rest: Box::new(UseTree::Path {
                segment: s("a"),
                rest: Box::new(UseTree::Rename { ident: s("B"), rename: s("B") }),
            }),
        }),
    };
    let items = root(vec![Item::Mod {
        ident: s("a"),
        content: Some(vec![Item::Use(UseDecl { tree, attrs: vec![] })]),
    }]);
    let out = parse(cfg(), items).unwrap();
    assert_eq!(out.apis.len(), 1);
    match out.apis.get(0) {
        Api::IgnoredItem { name, err, .. } => {
            assert_eq!(name.name.to_cpp_name(), "a::B");
            match err {
                ConvertError::InfinitelyRecursiveTypedef(qn) => {
                    assert_eq!(qn.to_cpp_name(), "a::B");
                }
                _ => panic!("expected the infinitely recursive alias error"),
            }
        }
        _ => panic!("expected an IgnoredItem"),
    }
    assert_eq!(out.diags.len(), 1);
}

#[test]
fn renaming_alias_becomes_typedef() {
    let tree = UseTree::Path {
        segment: s("self"),
        rest: Box::new(UseTree::Path {
            segment: s("super"),
            rest: Box::new(UseTree::Path {
                segment: s("a"),
                rest: Box::new(UseTree::Rename { ident: s("B"), rename: s("C") }),
            }),
        }),
    };
    let items = root(vec![Item::Mod {
        ident: s("a"),
        content: Some(vec![Item::Use(UseDecl { tree, attrs: vec![] })]),
    }]);
    let out = parse(cfg(), items).unwrap();
    assert_eq!(out.apis.len(), 1);
    match out.apis.get(0) {
        Api::Typedef { name, old_tyname, .. } => {
            assert_eq!(name.name.to_cpp_name(), "a::C");
            let old = old_tyname.as_ref().expect("old name should be recorded");
            assert_eq!(old.to_cpp_name(), "a::B");
        }
        _ => panic!("expected a Typedef"),
    }
    assert_eq!(out.diags.len(), 0);
}

#[test]
fn plain_use_of_root_marker_is_dropped() {
    let items = root(vec![Item::Use(UseDecl {
        tree: UseTree::Path {
            segment: s("self"),
            rest: Box::new(UseTree::Name { ident: s("root") }),
        },
        attrs: vec![],
    })]);
    let out = parse(cfg(), items).unwrap();
    assert_eq!(out.apis.len(), 0);
    assert_eq!(out.diags.len(), 0);
}

#[test]
fn glob_use_is_diagnosed_without_placeholder() {
    let items = root(vec![Item::Use(UseDecl {
        tree: UseTree::Path { segment: s("self"), rest: Box::new(UseTree::Glob) },
        attrs: vec![],
    })]);
    let out = parse(cfg(), items).unwrap();
    assert_eq!(out.apis.len(), 0);
    assert_eq!(out.diags.len(), 1);
    match &out.diags[0].err {
        ConvertError::UnexpectedUseStatement(last) => assert_eq!(last.as_deref(), Some("self")),
        _ => panic!("expected the unexpected-alias error"),
    }
}

#[test]
fn unexpected_item_is_diagnosed_and_dropped() {
    let items = root(vec![Item::Other]);
    let out = parse(cfg(), items).unwrap();
    assert_eq!(out.apis.len(), 0);
    assert_eq!(out.diags.len(), 1);
    assert_eq!(out.diags[0].err, ConvertError::UnexpectedItemInMod);
}

#[test]
fn duplicate_typedefs_collapse_to_first() {
    let items = root(vec![
        Item::TypeAlias(TypeAliasDecl { ident: s("T"), attrs: vec![] }),
        Item::TypeAlias(TypeAliasDecl { ident: s("T"), attrs: vec![] }),
    ]);
    let out = parse(cfg(), items).unwrap();
    assert_eq!(out.apis.len(), 1);
}

#[test]
fn missing_directive_fails_whole_parse() {
    let mut c = cfg();
    c.must_generate = vec![s("Missing")];
    let items = root(vec![Item::Const(ConstDecl { ident: s("Foo"), attrs: vec![] })]);
    let r = parse(c, items);
    assert_eq!(r.err(), Some(ConvertError::DidNotGenerateAnything(s("Missing"))));
}

#[test]
fn satisfied_directive_passes() {
    let mut c = cfg();
    c.must_generate = vec![s("n::Foo")];
    let items = root(vec![Item::Mod {
        ident: s("n"),
        content: Some(vec![Item::Const(ConstDecl { ident: s("Foo"), attrs: vec![] })]),
    }]);
    assert!(parse(c, items).is_ok());
}

#[test]
fn unexpected_top_level_item_is_fatal() {
    let items = vec![Item::Const(ConstDecl { ident: s("Foo"), attrs: vec![] })];
    let r = parse(cfg(), items);
    assert_eq!(r.err(), Some(ConvertError::UnexpectedOuterItem));
}

#[test]
fn wrongly_named_wrapper_module_is_fatal() {
    let items = vec![Item::Mod { ident: s("other"), content: Some(vec![]) }];
    let r = parse(cfg(), items);
    assert_eq!(r.err(), Some(ConvertError::UnexpectedOuterItem));
}

#[test]
fn empty_input_yields_empty_output() {
    let out = parse(cfg(), vec![]).unwrap();
    assert_eq!(out.apis.len(), 0);
}

#[test]
fn deterministic_order_config_then_traversal() {
    let mut c = cfg();
    c.subclasses = vec![Subclass {
        subclass: s("Sub"),
        superclass: QualifiedName::new(&Namespace::new(), s("Base")),
    }];
    c.extern_rust_funs = vec![ExternRustFun {
        path: RustPath::new(vec![s("m"), s("f")]),
        sig_ident: s("f"),
    }];
    let items = root(vec![
        Item::Const(ConstDecl { ident: s("A"), attrs: vec![] }),
        Item::Enum(EnumDecl { ident: s("B"), attrs: vec![] }),
    ]);
    let out = parse(c, items).unwrap();
    assert_eq!(names(&out), vec![s("Sub"), s("f"), s("A"), s("B")]);
}

#[test]
fn utility_api_is_seeded_first() {
    let mut c = cfg();
    c.suppress_utilities = false;
    let items = root(vec![Item::Const(ConstDecl { ident: s("A"), attrs: vec![] })]);
    let out = parse(c, items).unwrap();
    assert_eq!(names(&out), vec![s("make_string"), s("A")]);
    match out.apis.get(0) {
        Api::StringConstructor { .. } => {}
        _ => panic!("expected the seeded string constructor"),
    }
}

#[test]
fn foreign_functions_are_finalized_per_namespace() {
    let items = root(vec![
        Item::ForeignMod {
            funs: vec![ForeignFn { ident: s("do_it"), attrs: vec![] }],
        },
        Item::Impl(ImplBlock { self_ty: s("Klass"), methods: vec![s("do_it")] }),
        Item::Const(ConstDecl { ident: s("A"), attrs: vec![] }),
    ]);
    let out = parse(cfg(), items).unwrap();
    assert_eq!(names(&out), vec![s("A"), s("do_it")]);
    match out.apis.get(1) {
        Api::Function { fun, .. } => {
            assert_eq!(fun.ident, "do_it");
            assert_eq!(fun.self_ty.as_deref(), Some("Klass"));
        }
        _ => panic!("expected the synthesized Function entry"),
    }
}

#[test]
fn original_name_annotation_is_recorded() {
    let items = root(vec![Item::Struct(StructItem {
        ident: s("Renamed"),
        fields: vec![AstField { ident: Some(s("x")), attrs: vec![] }],
        attrs: vec![Attr { name: s("bindgen_original_name"), value: Some(s("Orig")) }],
    })]);
    let out = parse(cfg(), items).unwrap();
    match out.apis.get(0) {
        Api::Struct { name, .. } => {
            assert_eq!(name.cpp_name.as_deref(), Some("Orig"));
        }
        _ => panic!("expected a Struct"),
    }
}
