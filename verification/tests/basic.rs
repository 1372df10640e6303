use apiparse::types::{Namespace, QualifiedName, validate_ident_ok_for_cxx};
use apiparse::convert_error::{ConvertError, ErrorContext};
use apiparse::api::{Api, ApiName, NullPhase};
use apiparse::apivec::ApiVec;
use apiparse::ast::{Attr, ConstDecl, EnumDecl};
use apiparse::analysis::remove_bindgen_attrs;
use apiparse::error_reporter::ignored_item;

fn s(x: &str) -> String {
    x.to_string()
}

#[test]
fn cpp_name_joins_segments() {
    let ns = Namespace::new().push(s("a")).push(s("b"));
    let qn = QualifiedName::new(&ns, s("Foo"));
    assert_eq!(qn.to_cpp_name(), "a::b::Foo");
}

#[test]
fn cpp_name_in_root_is_bare() {
    let qn = QualifiedName::new(&Namespace::new(), s("Foo"));
    assert_eq!(qn.to_cpp_name(), "Foo");
}

#[test]
fn reserved_idents_are_rejected() {
    assert_eq!(
        validate_ident_ok_for_cxx(&s("UniquePtr")),
        Err(ConvertError::ReservedName(s("UniquePtr")))
    );
    assert_eq!(
        validate_ident_ok_for_cxx(&s("")),
        Err(ConvertError::ReservedName(s("")))
    );
    assert_eq!(validate_ident_ok_for_cxx(&s("Foo")), Ok(()));
}

#[test]
fn duplicate_identity_keeps_first_entry() {
    let ns = Namespace::new();
    let mut apis: ApiVec<NullPhase> = ApiVec::new();
    apis.push_eliminating_duplicates(Api::Const {
        name: ApiName::new(&ns, s("X")),
        const_item: ConstDecl { ident: s("X"), attrs: vec![] },
    });
    apis.push_eliminating_duplicates(Api::Enum {
        name: ApiName::new(&ns, s("X")),
        item: EnumDecl { ident: s("X"), attrs: vec![] },
    });
    assert_eq!(apis.len(), 1);
    match apis.get(0) {
        Api::Const { .. } => {}
        _ => panic!("first-seen entry should be kept"),
    }
}

#[test]
fn distinct_identities_are_both_kept() {
    let ns = Namespace::new();
    let inner = Namespace::new().push(s("m"));
    let mut apis: ApiVec<NullPhase> = ApiVec::new();
    apis.push_eliminating_duplicates(Api::Const {
        name: ApiName::new(&ns, s("X")),
        const_item: ConstDecl { ident: s("X"), attrs: vec![] },
    });
    apis.push_eliminating_duplicates(Api::Const {
        name: ApiName::new(&inner, s("X")),
        const_item: ConstDecl { ident: s("X"), attrs: vec![] },
    });
    assert_eq!(apis.len(), 2);
}

#[test]
fn bindgen_attrs_are_stripped() {
    let mut attrs = vec![
        Attr { name: s("bindgen_original_name"), value: Some(s("Old")) },
        Attr { name: s("derive"), value: None },
        Attr { name: s("bindgen_layout"), value: Some(s("packed")) },
    ];
    remove_bindgen_attrs(&mut attrs);
    assert_eq!(attrs.len(), 1);
    assert_eq!(attrs[0].name, "derive");
}

#[test]
fn short_attr_names_are_kept() {
    let mut attrs = vec![Attr { name: s("doc"), value: None }];
    remove_bindgen_attrs(&mut attrs);
    assert_eq!(attrs.len(), 1);
}

#[test]
fn ignored_item_carries_identity_and_error() {
    let ns = Namespace::new().push(s("n"));
    let item: Option<Api<NullPhase>> = ignored_item(
        &ns,
        ErrorContext::Item(s("Broken")),
        ConvertError::UnexpectedItemInMod,
    );
    match item {
        Some(Api::IgnoredItem { name, err, ctx }) => {
            assert_eq!(name.name.to_cpp_name(), "n::Broken");
            assert_eq!(err, ConvertError::UnexpectedItemInMod);
            assert_eq!(ctx, ErrorContext::Item(s("Broken")));
        }
        _ => panic!("expected an ignored-item placeholder"),
    }
}

#[test]
fn method_context_recovers_the_method_name() {
    let ns = Namespace::new();
    let item: Option<Api<NullPhase>> = ignored_item(
        &ns,
        ErrorContext::Method { self_ty: s("K"), method: s("go") },
        ConvertError::UnexpectedItemInMod,
    );
    match item {
        Some(Api::IgnoredItem { name, .. }) => {
            assert_eq!(name.name.to_cpp_name(), "go");
        }
        _ => panic!("expected an ignored-item placeholder"),
    }
}
