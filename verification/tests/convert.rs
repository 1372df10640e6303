use apiparse::api::{Api, ApiName, FuncToConvert, NullPhase, StructDetails, TypedefKind};
use apiparse::apivec::ApiVec;
use apiparse::ast::{ConstDecl, EnumDecl};
use apiparse::convert_error::{ConvertError, ConvertErrorWithContext, Diagnostic, ErrorContext};
use apiparse::error_reporter::{ApiConversion, ItemConversion, convert_apis, convert_item_apis};
use apiparse::types::{Namespace, QualifiedName};

fn s(x: &str) -> String {
    x.to_string()
}

fn root_name(id: &str) -> ApiName {
    ApiName::new(&Namespace::new(), s(id))
}

fn const_api(id: &str) -> Api<NullPhase> {
    Api::Const { name: root_name(id), const_item: ConstDecl { ident: s(id), attrs: vec![] } }
}

fn function_api(id: &str) -> Api<NullPhase> {
    Api::Function {
        name: root_name(id),
        fun: FuncToConvert { ident: s(id), original_name: None, self_ty: None },
        analysis: (),
        name_for_gc: None,
    }
}

/// A converter that reproduces Function entries, except the one named
/// `bad`, which it fails; everything else it passes along one-to-one.
struct FailBad;

impl ApiConversion<NullPhase, NullPhase> for FailBad {
    fn convert_function(
        &mut self,
        name: ApiName,
        fun: FuncToConvert,
        _analysis: (),
        name_for_gc: Option<QualifiedName>,
    ) -> Result<Vec<Api<NullPhase>>, ConvertErrorWithContext> {
        if fun.ident == "bad" {
            Err(ConvertErrorWithContext(
                ConvertError::AnalysisFailed(s("no good")),
                Some(ErrorContext::Item(s("bad"))),
            ))
        } else {
            Ok(vec![Api::Function { name, fun, analysis: (), name_for_gc }])
        }
    }

    fn convert_struct(
        &mut self,
        name: ApiName,
        details: StructDetails,
        _analysis: (),
    ) -> Result<Vec<Api<NullPhase>>, ConvertErrorWithContext> {
        Ok(vec![Api::Struct { name, details, analysis: () }])
    }

    fn convert_enum(
        &mut self,
        name: ApiName,
        item: EnumDecl,
    ) -> Result<Vec<Api<NullPhase>>, ConvertErrorWithContext> {
        Ok(vec![Api::Enum { name, item }])
    }

    fn convert_typedef(
        &mut self,
        name: ApiName,
        item: TypedefKind,
        old_tyname: Option<QualifiedName>,
        _analysis: (),
    ) -> Result<Vec<Api<NullPhase>>, ConvertErrorWithContext> {
        Ok(vec![Api::Typedef { name, item, old_tyname, analysis: () }])
    }
}

fn names(apis: &ApiVec<NullPhase>) -> Vec<String> {
    let mut r = Vec::new();
    for i in 0..apis.len() {
        r.push(apis.get(i).name().to_cpp_name());
    }
    r
}

#[test]
fn passthrough_variants_convert_to_identity() {
    let mut in_apis: ApiVec<NullPhase> = ApiVec::new();
    in_apis.push_eliminating_duplicates(const_api("A"));
    in_apis.push_eliminating_duplicates(Api::ForwardDeclaration { name: root_name("B") });
    in_apis.push_eliminating_duplicates(Api::StringConstructor { name: root_name("C") });
    let mut out: ApiVec<NullPhase> = ApiVec::new();
    let mut diags: Vec<Diagnostic> = Vec::new();
    convert_apis(in_apis, &mut out, &mut FailBad, &mut diags);
    assert_eq!(names(&out), vec![s("A"), s("B"), s("C")]);
    match out.get(0) {
        Api::Const { const_item, .. } => assert_eq!(const_item.ident, "A"),
        _ => panic!("a Const must pass through unchanged"),
    }
    match out.get(1) {
        Api::ForwardDeclaration { .. } => {}
        _ => panic!("a ForwardDeclaration must pass through unchanged"),
    }
    assert_eq!(diags.len(), 0);
}

#[test]
fn single_failure_degrades_only_that_entry() {
    let mut in_apis: ApiVec<NullPhase> = ApiVec::new();
    in_apis.push_eliminating_duplicates(function_api("first"));
    in_apis.push_eliminating_duplicates(function_api("bad"));
    in_apis.push_eliminating_duplicates(function_api("last"));
    let mut out: ApiVec<NullPhase> = ApiVec::new();
    let mut diags: Vec<Diagnostic> = Vec::new();
    convert_apis(in_apis, &mut out, &mut FailBad, &mut diags);
    assert_eq!(names(&out), vec![s("first"), s("bad"), s("last")]);
    match out.get(0) {
        Api::Function { .. } => {}
        _ => panic!("the first conversion must be unaffected"),
    }
    match out.get(1) {
        Api::IgnoredItem { name, err, .. } => {
            assert_eq!(name.name.to_cpp_name(), "bad");
            assert_eq!(*err, ConvertError::AnalysisFailed(s("no good")));
        }
        _ => panic!("the failing entry must become an IgnoredItem in place"),
    }
    match out.get(2) {
        Api::Function { .. } => {}
        _ => panic!("the last conversion must be unaffected"),
    }
    assert_eq!(diags.len(), 1);
    assert_eq!(diags[0].name.as_ref().map(|q| q.to_cpp_name()), Some(s("bad")));
}

#[test]
fn ignored_items_pass_through_conversion() {
    let mut in_apis: ApiVec<NullPhase> = ApiVec::new();
    in_apis.push_eliminating_duplicates(Api::IgnoredItem {
        name: root_name("broken"),
        err: ConvertError::UnexpectedItemInMod,
        ctx: ErrorContext::Item(s("broken")),
    });
    let mut out: ApiVec<NullPhase> = ApiVec::new();
    let mut diags: Vec<Diagnostic> = Vec::new();
    convert_apis(in_apis, &mut out, &mut FailBad, &mut diags);
    assert_eq!(out.len(), 1);
    match out.get(0) {
        Api::IgnoredItem { err, .. } => assert_eq!(*err, ConvertError::UnexpectedItemInMod),
        _ => panic!("an IgnoredItem survives all phases unchanged"),
    }
}

/// A uniform converter that drops Enum entries, fails Function entries,
/// and passes everything else along.
struct Uniform;

impl ItemConversion<NullPhase, NullPhase> for Uniform {
    fn convert(&mut self, api: Api<NullPhase>) -> Result<Vec<Api<NullPhase>>, ConvertError> {
        match api {
            Api::Enum { .. } => Ok(vec![]),
            Api::Function { .. } => Err(ConvertError::AnalysisFailed(s("functions refused"))),
            other => Ok(vec![other]),
        }
    }
}

#[test]
fn uniform_conversion_can_drop_and_fail_per_item() {
    let mut in_apis: ApiVec<NullPhase> = ApiVec::new();
    in_apis.push_eliminating_duplicates(const_api("keep"));
    in_apis.push_eliminating_duplicates(Api::Enum {
        name: root_name("gone"),
        item: EnumDecl { ident: s("gone"), attrs: vec![] },
    });
    in_apis.push_eliminating_duplicates(function_api("f"));
    let mut out: ApiVec<NullPhase> = ApiVec::new();
    let mut diags: Vec<Diagnostic> = Vec::new();
    convert_item_apis(in_apis, &mut out, &mut Uniform, &mut diags);
    assert_eq!(names(&out), vec![s("keep"), s("f")]);
    match out.get(1) {
        Api::IgnoredItem { err, ctx, .. } => {
            assert_eq!(*err, ConvertError::AnalysisFailed(s("functions refused")));
            assert_eq!(*ctx, ErrorContext::Item(s("f")));
        }
        _ => panic!("the failing entry is degraded, attributed to itself"),
    }
    assert_eq!(diags.len(), 1);
}

#[test]
fn converted_duplicates_are_eliminated_on_insert() {
    let mut in_apis: ApiVec<NullPhase> = ApiVec::new();
    in_apis.push_eliminating_duplicates(const_api("X"));
    let mut out: ApiVec<NullPhase> = ApiVec::new();
    out.push_eliminating_duplicates(Api::StringConstructor { name: root_name("X") });
    let mut diags: Vec<Diagnostic> = Vec::new();
    convert_apis(in_apis, &mut out, &mut FailBad, &mut diags);
    assert_eq!(out.len(), 1);
    match out.get(0) {
        Api::StringConstructor { .. } => {}
        _ => panic!("the earlier entry keeps its identity"),
    }
}

#[test]
fn enum_entries_are_dispatched_to_their_callback() {
    let mut in_apis: ApiVec<NullPhase> = ApiVec::new();
    in_apis.push_eliminating_duplicates(Api::Enum {
        name: root_name("E"),
        item: EnumDecl { ident: s("E"), attrs: vec![] },
    });
    let mut out: ApiVec<NullPhase> = ApiVec::new();
    let mut diags: Vec<Diagnostic> = Vec::new();
    convert_apis(in_apis, &mut out, &mut FailBad, &mut diags);
    assert_eq!(out.len(), 1);
    match out.get(0) {
        Api::Enum { item, .. } => assert_eq!(item.ident, "E"),
        _ => panic!("expected the converted Enum"),
    }
}

#[test]
fn typedef_entries_keep_their_old_name_through_conversion() {
    let mut in_apis: ApiVec<NullPhase> = ApiVec::new();
    let old = QualifiedName::new(&Namespace::new().push(s("a")), s("B"));
    in_apis.push_eliminating_duplicates(Api::Typedef {
        name: root_name("T"),
        item: TypedefKind::Use { old: old.clone(), new_id: s("T") },
        old_tyname: Some(old),
        analysis: (),
    });
    let mut out: ApiVec<NullPhase> = ApiVec::new();
    let mut diags: Vec<Diagnostic> = Vec::new();
    convert_apis(in_apis, &mut out, &mut FailBad, &mut diags);
    match out.get(0) {
        Api::Typedef { old_tyname, .. } => {
            assert_eq!(old_tyname.as_ref().unwrap().to_cpp_name(), "a::B");
        }
        _ => panic!("expected the converted Typedef"),
    }
}
