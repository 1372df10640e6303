use vstd::prelude::*;
use crate::types::{Namespace, QualifiedName, QnView, clone_opt_string};
use crate::convert_error::{ConvertError, ErrorContext, ErrView, CtxView, ctx_id, opt_qn_view};
use crate::ast::{
    StructItem, StructItemView, EnumDecl, EnumDeclView, ConstDecl, ConstDeclView, TypeAliasDecl,
    TypeAliasDeclView, CppVisibility, MemoryLayout,
};
use crate::config::RustPath;

verus! {

/// Selects, per analysis-sensitive API variant, the derived-analysis payload
/// that accompanies it at one stage of the pipeline.
pub trait AnalysisPhase {
    type FunAnalysis;

    type StructAnalysis;

    type TypedefAnalysis;
}

/// The phase straight out of parsing: no analysis has been layered on yet.
pub struct NullPhase;

impl AnalysisPhase for NullPhase {
    type FunAnalysis = ();

    type StructAnalysis = ();

    type TypedefAnalysis = ();
}

/// A qualified name plus an optional original external spelling, used when
/// the translator's identifier differs from the name to surface.
#[derive(Debug, PartialEq, Eq)]
pub struct ApiName {
    pub name: QualifiedName,
    pub cpp_name: Option<String>,
}

/// Mathematical value of an [`ApiName`].
pub ghost struct ApiNameView {
    pub qn: QnView,
    pub cpp_name: Option<Seq<char>>,
}

impl View for ApiName {
    type V = ApiNameView;

    open spec fn view(&self) -> ApiNameView {
        ApiNameView { qn: self.name@, cpp_name: self.cpp_name.deep_view() }
    }
}

impl Clone for ApiName {
    fn clone(&self) -> (r: Self)
        ensures
            r@ == self@,
    {
        ApiName { name: self.name.clone(), cpp_name: clone_opt_string(&self.cpp_name) }
    }
}

impl ApiName {
    pub fn new(ns: &Namespace, id: String) -> (r: Self)
        ensures
            r@ == (ApiNameView { qn: QnView { ns: ns@, id: id@ }, cpp_name: None }),
    {
        ApiName { name: QualifiedName::new(ns, id), cpp_name: None }
    }

    pub fn new_with_cpp_name(ns: &Namespace, id: String, cpp_name: Option<String>) -> (r: Self)
        ensures
            r@ == (ApiNameView {
                qn: QnView { ns: ns@, id: id@ },
                cpp_name: cpp_name.deep_view(),
            }),
    {
        ApiName { name: QualifiedName::new(ns, id), cpp_name }
    }

    pub fn new_in_root_namespace(id: String) -> (r: Self)
        ensures
            r@ == (ApiNameView {
                qn: QnView { ns: Seq::<Seq<char>>::empty(), id: id@ },
                cpp_name: None,
            }),
    {
        ApiName::new(&Namespace::new(), id)
    }
}

/// The name of a declared subclass, always in the root namespace.
#[derive(Debug, PartialEq, Eq)]
pub struct SubclassName(pub ApiName);

impl View for SubclassName {
    type V = ApiNameView;

    open spec fn view(&self) -> ApiNameView {
        self.0@
    }
}

impl SubclassName {
    pub fn new(id: String) -> (r: Self)
        ensures
            r@ == (ApiNameView {
                qn: QnView { ns: Seq::<Seq<char>>::empty(), id: id@ },
                cpp_name: None,
            }),
    {
        SubclassName(ApiName::new_in_root_namespace(id))
    }
}

/// The descriptor of a function awaiting conversion: what the translator
/// declared, plus whether an impl block claimed it as a method.
pub struct FuncToConvert {
    pub ident: String,
    pub original_name: Option<String>,
    pub self_ty: Option<String>,
}

/// Mathematical value of a [`FuncToConvert`].
pub ghost struct FuncView {
    pub ident: Seq<char>,
    pub original_name: Option<Seq<char>>,
    pub self_ty: Option<Seq<char>>,
}

impl View for FuncToConvert {
    type V = FuncView;

    open spec fn view(&self) -> FuncView {
        FuncView {
            ident: self.ident@,
            original_name: self.original_name.deep_view(),
            self_ty: self.self_ty.deep_view(),
        }
    }
}

impl Clone for FuncToConvert {
    fn clone(&self) -> (r: Self)
        ensures
            r@ == self@,
    {
        FuncToConvert {
            ident: self.ident.clone(),
            original_name: clone_opt_string(&self.original_name),
            self_ty: clone_opt_string(&self.self_ty),
        }
    }
}

/// What a real struct records besides its identity.
pub struct StructDetails {
    pub vis: CppVisibility,
    pub layout: Option<MemoryLayout>,
    pub item: StructItem,
    pub has_rvalue_reference_fields: bool,
}

/// Mathematical value of a [`StructDetails`].
pub ghost struct StructDetailsView {
    pub vis: CppVisibility,
    pub layout: Option<MemoryLayout>,
    pub item: StructItemView,
    pub has_rvalue_reference_fields: bool,
}

impl View for StructDetails {
    type V = StructDetailsView;

    open spec fn view(&self) -> StructDetailsView {
        StructDetailsView {
            vis: self.vis,
            layout: self.layout,
            item: self.item@,
            has_rvalue_reference_fields: self.has_rvalue_reference_fields,
        }
    }
}

/// How a typedef was declared.
pub enum TypedefKind {
    /// A renaming alias: `old as new_id`, with the old name already
    /// reconstructed relative to the enclosing namespace.
    Use { old: QualifiedName, new_id: String },
    /// A plain type alias.
    Type(TypeAliasDecl),
}

/// Mathematical value of a [`TypedefKind`].
pub ghost enum TypedefKindView {
    Use { old: QnView, new_id: Seq<char> },
    Type(TypeAliasDeclView),
}

impl View for TypedefKind {
    type V = TypedefKindView;

    open spec fn view(&self) -> TypedefKindView {
        match self {
            TypedefKind::Use { old, new_id } => TypedefKindView::Use {
                old: old@,
                new_id: new_id@,
            },
            TypedefKind::Type(t) => TypedefKindView::Type(t@),
        }
    }
}

/// The signature of a declared extern function: its name.
#[derive(Debug, PartialEq, Eq)]
pub struct FnSig {
    pub ident: String,
}

impl View for FnSig {
    type V = Seq<char>;

    open spec fn view(&self) -> Seq<char> {
        self.ident@
    }
}

/// Payload of a generated subclass entry point.
pub struct RustSubclassFnDetails {
    pub method: String,
}

impl View for RustSubclassFnDetails {
    type V = Seq<char>;

    open spec fn view(&self) -> Seq<char> {
        self.method@
    }
}

/// Payload of a subclass trait item.
pub struct SubclassTraitItemDetails {
    pub method: String,
}

impl View for SubclassTraitItemDetails {
    type V = Seq<char>;

    open spec fn view(&self) -> Seq<char> {
        self.method@
    }
}

/// One API entry at a given analysis phase.
pub enum Api<P: AnalysisPhase> {
    ConcreteType { name: ApiName, rs_definition: Option<String>, cpp_definition: String },
    ForwardDeclaration { name: ApiName },
    StringConstructor { name: ApiName },
    Const { name: ApiName, const_item: ConstDecl },
    CType { name: ApiName, typename: QualifiedName },
    RustType { name: ApiName, path: RustPath },
    RustFn { name: ApiName, sig: FnSig, path: RustPath },
    RustSubclassFn { name: ApiName, subclass: SubclassName, details: RustSubclassFnDetails },
    Subclass { name: SubclassName, superclass: QualifiedName },
    SubclassTraitItem { name: ApiName, details: SubclassTraitItemDetails },
    IgnoredItem { name: ApiName, err: ConvertError, ctx: ErrorContext },
    Enum { name: ApiName, item: EnumDecl },
    Typedef {
        name: ApiName,
        item: TypedefKind,
        old_tyname: Option<QualifiedName>,
        analysis: P::TypedefAnalysis,
    },
    Function {
        name: ApiName,
        fun: FuncToConvert,
        analysis: P::FunAnalysis,
        name_for_gc: Option<QualifiedName>,
    },
    Struct { name: ApiName, details: StructDetails, analysis: P::StructAnalysis },
}

/// Phase-independent mathematical value of an API entry.  The analysis
/// payload of the phase-sensitive variants is the phase's own business and
/// is not part of this value.
pub ghost enum AView {
    ConcreteType { name: ApiNameView, rs_definition: Option<Seq<char>>, cpp_definition: Seq<char> },
    ForwardDeclaration { name: ApiNameView },
    StringConstructor { name: ApiNameView },
    Const { name: ApiNameView, const_item: ConstDeclView },
    CType { name: ApiNameView, typename: QnView },
    RustType { name: ApiNameView, path: Seq<Seq<char>> },
    RustFn { name: ApiNameView, sig: Seq<char>, path: Seq<Seq<char>> },
    RustSubclassFn { name: ApiNameView, subclass: ApiNameView, details: Seq<char> },
    Subclass { name: ApiNameView, superclass: QnView },
    SubclassTraitItem { name: ApiNameView, details: Seq<char> },
    IgnoredItem { name: ApiNameView, err: ErrView, ctx: CtxView },
    Enum { name: ApiNameView, item: EnumDeclView },
    Typedef { name: ApiNameView, item: TypedefKindView, old_tyname: Option<QnView> },
    Function { name: ApiNameView, fun: FuncView, name_for_gc: Option<QnView> },
    Struct { name: ApiNameView, details: StructDetailsView },
}

impl<P: AnalysisPhase> View for Api<P> {
    type V = AView;

    open spec fn view(&self) -> AView {
        match self {
            Api::ConcreteType { name, rs_definition, cpp_definition } => AView::ConcreteType {
                name: name@,
                rs_definition: rs_definition.deep_view(),
                cpp_definition: cpp_definition@,
            },
            Api::ForwardDeclaration { name } => AView::ForwardDeclaration { name: name@ },
            Api::StringConstructor { name } => AView::StringConstructor { name: name@ },
            Api::Const { name, const_item } => AView::Const {
                name: name@,
                const_item: const_item@,
            },
            Api::CType { name, typename } => AView::CType { name: name@, typename: typename@ },
            Api::RustType { name, path } => AView::RustType { name: name@, path: path@ },
            Api::RustFn { name, sig, path } => AView::RustFn {
                name: name@,
                sig: sig@,
                path: path@,
            },
            Api::RustSubclassFn { name, subclass, details } => AView::RustSubclassFn {
                name: name@,
                subclass: subclass@,
                details: details@,
            },
            Api::Subclass { name, superclass } => AView::Subclass {
                name: name@,
                superclass: superclass@,
            },
            Api::SubclassTraitItem { name, details } => AView::SubclassTraitItem {
                name: name@,
                details: details@,
            },
            Api::IgnoredItem { name, err, ctx } => AView::IgnoredItem {
                name: name@,
                err: err@,
                ctx: ctx@,
            },
            Api::Enum { name, item } => AView::Enum { name: name@, item: item@ },
            Api::Typedef { name, item, old_tyname, analysis: _ } => AView::Typedef {
                name: name@,
                item: item@,
                old_tyname: opt_qn_view(*old_tyname),
            },
            Api::Function { name, fun, analysis: _, name_for_gc } => AView::Function {
                name: name@,
                fun: fun@,
                name_for_gc: opt_qn_view(*name_for_gc),
            },
            Api::Struct { name, details, analysis: _ } => AView::Struct {
                name: name@,
                details: details@,
            },
        }
    }
}

/// The name information of an API entry.
pub open spec fn api_name_view(a: AView) -> ApiNameView {
    match a {
        AView::ConcreteType { name, .. } => name,
        AView::ForwardDeclaration { name } => name,
        AView::StringConstructor { name } => name,
        AView::Const { name, .. } => name,
        AView::CType { name, .. } => name,
        AView::RustType { name, .. } => name,
        AView::RustFn { name, .. } => name,
        AView::RustSubclassFn { name, .. } => name,
        AView::Subclass { name, .. } => name,
        AView::SubclassTraitItem { name, .. } => name,
        AView::IgnoredItem { name, .. } => name,
        AView::Enum { name, .. } => name,
        AView::Typedef { name, .. } => name,
        AView::Function { name, .. } => name,
        AView::Struct { name, .. } => name,
    }
}

/// The identity an API entry is deduplicated by.
pub open spec fn api_qname(a: AView) -> QnView {
    api_name_view(a).qn
}

/// Whether the phase-conversion engine passes this entry through untouched
/// (as opposed to dispatching it to a per-kind conversion).
pub open spec fn is_passthrough(a: AView) -> bool {
    !(a is Enum || a is Typedef || a is Function || a is Struct)
}

/// What an entity that failed conversion leaves behind: a placeholder API
/// documenting the skip, provided the context recovers an identifier.
pub open spec fn spec_ignored_item(
    ns: Seq<Seq<char>>,
    ctx: CtxView,
    err: ErrView,
) -> Option<AView> {
    match ctx_id(ctx) {
        Some(id) => Some(
            AView::IgnoredItem {
                name: ApiNameView { qn: QnView { ns, id }, cpp_name: None },
                err,
                ctx,
            },
        ),
        None => None,
    }
}

impl<P: AnalysisPhase> Api<P> {
    /// The qualified name this entry is identified by.
    pub fn name(&self) -> (r: &QualifiedName)
        ensures
            r@ == api_qname(self@),
    {
        match self {
            Api::ConcreteType { name, .. } => &name.name,
            Api::ForwardDeclaration { name } => &name.name,
            Api::StringConstructor { name } => &name.name,
            Api::Const { name, .. } => &name.name,
            Api::CType { name, .. } => &name.name,
            Api::RustType { name, .. } => &name.name,
            Api::RustFn { name, .. } => &name.name,
            Api::RustSubclassFn { name, .. } => &name.name,
            Api::Subclass { name, .. } => &name.0.name,
            Api::SubclassTraitItem { name, .. } => &name.name,
            Api::IgnoredItem { name, .. } => &name.name,
            Api::Enum { name, .. } => &name.name,
            Api::Typedef { name, .. } => &name.name,
            Api::Function { name, .. } => &name.name,
            Api::Struct { name, .. } => &name.name,
        }
    }
}

} // verus!
