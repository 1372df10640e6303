use vstd::prelude::*;
use crate::types::{QualifiedName, QnView};

verus! {

/// Reasons an item, or a whole parse, cannot be processed.
#[derive(Debug, PartialEq, Eq)]
pub enum ConvertError {
    /// The translator's output did not consist of a single wrapper module.
    UnexpectedOuterItem,
    /// An item of a kind this stage does not understand stood in a namespace.
    UnexpectedItemInMod,
    /// A renaming alias whose reconstructed old name equals its new name.
    InfinitelyRecursiveTypedef(QualifiedName),
    /// An alias declaration of a shape this stage does not understand; the
    /// payload is the last path segment seen, if any.
    UnexpectedUseStatement(Option<String>),
    /// An identifier the bridge's target naming rules reserve.
    ReservedName(String),
    /// A must-generate directive that no produced API satisfied.
    DidNotGenerateAnything(String),
    /// A failure reported by a downstream per-kind conversion callback.
    AnalysisFailed(String),
}

/// Mathematical value of a [`ConvertError`].
pub ghost enum ErrView {
    UnexpectedOuterItem,
    UnexpectedItemInMod,
    InfinitelyRecursiveTypedef(QnView),
    UnexpectedUseStatement(Option<Seq<char>>),
    ReservedName(Seq<char>),
    DidNotGenerateAnything(Seq<char>),
    AnalysisFailed(Seq<char>),
}

impl View for ConvertError {
    type V = ErrView;

    open spec fn view(&self) -> ErrView {
        match self {
            ConvertError::UnexpectedOuterItem => ErrView::UnexpectedOuterItem,
            ConvertError::UnexpectedItemInMod => ErrView::UnexpectedItemInMod,
            ConvertError::InfinitelyRecursiveTypedef(q) => ErrView::InfinitelyRecursiveTypedef(q@),
            ConvertError::UnexpectedUseStatement(o) => ErrView::UnexpectedUseStatement(
                o.deep_view(),
            ),
            ConvertError::ReservedName(s) => ErrView::ReservedName(s@),
            ConvertError::DidNotGenerateAnything(s) => ErrView::DidNotGenerateAnything(s@),
            ConvertError::AnalysisFailed(s) => ErrView::AnalysisFailed(s@),
        }
    }
}

impl Clone for ConvertError {
    fn clone(&self) -> (r: Self)
        ensures
            r@ == self@,
    {
        match self {
            ConvertError::UnexpectedOuterItem => ConvertError::UnexpectedOuterItem,
            ConvertError::UnexpectedItemInMod => ConvertError::UnexpectedItemInMod,
            ConvertError::InfinitelyRecursiveTypedef(q) => ConvertError::InfinitelyRecursiveTypedef(
                q.clone(),
            ),
            ConvertError::UnexpectedUseStatement(o) => ConvertError::UnexpectedUseStatement(
                crate::types::clone_opt_string(o),
            ),
            ConvertError::ReservedName(s) => ConvertError::ReservedName(s.clone()),
            ConvertError::DidNotGenerateAnything(s) => ConvertError::DidNotGenerateAnything(
                s.clone(),
            ),
            ConvertError::AnalysisFailed(s) => ConvertError::AnalysisFailed(s.clone()),
        }
    }
}

/// Attribution of a per-item error to the entity it concerns; attribution
/// decides whether the skip surfaces as a documented placeholder API.
#[derive(Debug, PartialEq, Eq)]
pub enum ErrorContext {
    /// A free-standing item, identified by its identifier.
    Item(String),
    /// A method, identified by its receiver type and its own name.
    Method { self_ty: String, method: String },
}

/// Mathematical value of an [`ErrorContext`].
pub ghost enum CtxView {
    Item(Seq<char>),
    Method { self_ty: Seq<char>, method: Seq<char> },
}

impl View for ErrorContext {
    type V = CtxView;

    open spec fn view(&self) -> CtxView {
        match self {
            ErrorContext::Item(s) => CtxView::Item(s@),
            ErrorContext::Method { self_ty, method } => CtxView::Method {
                self_ty: self_ty@,
                method: method@,
            },
        }
    }
}

impl Clone for ErrorContext {
    fn clone(&self) -> (r: Self)
        ensures
            r@ == self@,
    {
        match self {
            ErrorContext::Item(s) => ErrorContext::Item(s.clone()),
            ErrorContext::Method { self_ty, method } => ErrorContext::Method {
                self_ty: self_ty.clone(),
                method: method.clone(),
            },
        }
    }
}

/// The identifier a context recovers for the skipped entity, if any.
pub open spec fn ctx_id(ctx: CtxView) -> Option<Seq<char>> {
    match ctx {
        CtxView::Item(id) => Some(id),
        CtxView::Method { self_ty: _, method } => Some(method),
    }
}

impl ErrorContext {
    pub fn get_id(&self) -> (r: Option<&String>)
        ensures
            r.deep_view() == ctx_id(self@),
    {
        match self {
            ErrorContext::Item(id) => Some(id),
            ErrorContext::Method { self_ty: _, method } => Some(method),
        }
    }
}

/// A per-item error together with its optional attribution.
#[derive(Debug, PartialEq, Eq)]
pub struct ConvertErrorWithContext(pub ConvertError, pub Option<ErrorContext>);

/// Mathematical value of the optional attribution.
pub open spec fn opt_ctx_view(o: Option<ErrorContext>) -> Option<CtxView> {
    match o {
        Some(c) => Some(c@),
        None => None,
    }
}

/// Mathematical value of an optional qualified name.
pub open spec fn opt_qn_view(o: Option<QualifiedName>) -> Option<QnView> {
    match o {
        Some(q) => Some(q@),
        None => None,
    }
}

/// One diagnostic event: an entity was skipped, and why.  The caller
/// decides how to surface these.
#[derive(Debug, PartialEq, Eq)]
pub struct Diagnostic {
    /// The qualified name of the item being converted, where one was known.
    pub name: Option<QualifiedName>,
    pub err: ConvertError,
    pub ctx: Option<ErrorContext>,
}

/// Mathematical value of a [`Diagnostic`].
pub ghost struct DiagView {
    pub name: Option<QnView>,
    pub err: ErrView,
    pub ctx: Option<CtxView>,
}

impl View for Diagnostic {
    type V = DiagView;

    open spec fn view(&self) -> DiagView {
        DiagView { name: opt_qn_view(self.name), err: self.err@, ctx: opt_ctx_view(self.ctx) }
    }
}

impl DeepView for Diagnostic {
    type V = DiagView;

    open spec fn deep_view(&self) -> DiagView {
        self@
    }
}

} // verus!
