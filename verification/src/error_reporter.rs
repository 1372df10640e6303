use vstd::prelude::*;
use crate::types::{Namespace, QnView};
use crate::convert_error::{
    ConvertError, ConvertErrorWithContext, ErrorContext, Diagnostic, DiagView, ErrView, CtxView,
    opt_ctx_view,
};
use crate::api::{
    Api, AView, AnalysisPhase, ApiName, ApiNameView, FuncToConvert, StructDetails, TypedefKind,
    api_qname, is_passthrough, spec_ignored_item,
};
use crate::apivec::{ApiVec, dedup_extend, dedup_push, distinct_names, contains_name, views_of};
use crate::ast::EnumDecl;
use crate::types::QualifiedName;

verus! {

/// Concatenation of a sequence of sequences, in order.
pub open spec fn concat_seqs<T>(chunks: Seq<Seq<T>>) -> Seq<T>
    decreases chunks.len(),
{
    if chunks.len() == 0 {
        Seq::empty()
    } else {
        concat_seqs(chunks.drop_last()) + chunks.last()
    }
}

/// Adding one more chunk on the right.
pub proof fn lemma_concat_push<T>(chunks: Seq<Seq<T>>, c: Seq<T>)
    ensures
        concat_seqs(chunks.push(c)) == concat_seqs(chunks) + c,
{
    assert(chunks.push(c).drop_last() =~= chunks);
    assert(chunks.push(c).last() == c);
}

/// Splitting a duplicate-eliminating extension at a concatenation.
pub proof fn lemma_dedup_extend_concat(s: Seq<AView>, a: Seq<AView>, b: Seq<AView>)
    ensures
        dedup_extend(s, a + b) == dedup_extend(dedup_extend(s, a), b),
    decreases b.len(),
{
    if b.len() == 0 {
        assert(a + b =~= a);
    } else {
        assert((a + b).drop_last() =~= a + b.drop_last());
        assert((a + b).last() == b.last());
        lemma_dedup_extend_concat(s, a, b.drop_last());
    }
}

/// A sequence of entries whose identities are pairwise distinct and all
/// fresh with respect to `s` is inserted without a single drop.
pub proof fn lemma_dedup_extend_fresh(s: Seq<AView>, items: Seq<AView>)
    requires
        distinct_names(items),
        forall|i: int| 0 <= i < items.len() ==> !contains_name(s, api_qname(items[i])),
    ensures
        dedup_extend(s, items) == s + items,
    decreases items.len(),
{
    if items.len() == 0 {
        assert(s + items =~= s);
    } else {
        lemma_dedup_extend_fresh(s, items.drop_last());
        let prev = s + items.drop_last();
        let qn = api_qname(items.last());
        assert forall|i: int| 0 <= i < prev.len() implies api_qname(prev[i]) != qn by {
            if i < s.len() {
                assert(!contains_name(s, qn));
            } else {
                assert(prev[i] == items[i - s.len()]);
            }
        }
        assert(!contains_name(prev, qn));
        assert(prev.push(items.last()) =~= s + items);
    }
}

/// Concatenating singleton chunks yields the corresponding entries in
/// order.
pub proof fn lemma_concat_singletons(outs: Seq<AView>, chunks: Seq<Seq<AView>>)
    requires
        chunks.len() == outs.len(),
        forall|i: int| 0 <= i < outs.len() ==> chunks[i] == seq![outs[i]],
    ensures
        concat_seqs(chunks) == outs,
    decreases outs.len(),
{
    if outs.len() > 0 {
        lemma_concat_singletons(outs.drop_last(), chunks.drop_last());
        assert(chunks.last() == seq![outs.last()]);
        assert(outs.drop_last() + seq![outs.last()] =~= outs);
    }
}

/// Law: phase conversion of phase-insensitive entries is the identity.
/// When every input entry is a pass-through variant — so each conversion
/// chunk is exactly that entry — converting into an empty output list
/// reproduces the input list, entry for entry and in order.
pub proof fn lemma_passthrough_identity(ins: Seq<AView>, chunks: Seq<Seq<AView>>)
    requires
        distinct_names(ins),
        chunks.len() == ins.len(),
        forall|i: int| 0 <= i < ins.len() ==> is_passthrough(ins[i]) && chunks[i] == seq![ins[i]],
    ensures
        dedup_extend(Seq::<AView>::empty(), concat_seqs(chunks)) == ins,
{
    lemma_concat_singletons(ins, chunks);
    assert(forall|i: int|
        0 <= i < ins.len() ==> !contains_name(Seq::<AView>::empty(), api_qname(ins[i])));
    lemma_dedup_extend_fresh(Seq::<AView>::empty(), ins);
    assert(Seq::<AView>::empty() + ins =~= ins);
}

/// Law: a conversion failure for one entry degrades only that entry.
/// When every chunk is a singleton — the successful conversions, except
/// position `k`, whose chunk is the ignored-item placeholder — the output
/// keeps every other conversion at its original position, with the
/// placeholder standing exactly at position `k`.
pub proof fn lemma_single_failure_isolated(outs: Seq<AView>, chunks: Seq<Seq<AView>>, k: int)
    requires
        distinct_names(outs),
        chunks.len() == outs.len(),
        forall|i: int| 0 <= i < outs.len() ==> chunks[i] == seq![outs[i]],
        0 <= k < outs.len(),
        outs[k] is IgnoredItem,
    ensures
        dedup_extend(Seq::<AView>::empty(), concat_seqs(chunks)) == outs,
        dedup_extend(Seq::<AView>::empty(), concat_seqs(chunks))[k] is IgnoredItem,
        forall|i: int|
            0 <= i < outs.len() && i != k ==> dedup_extend(
                Seq::<AView>::empty(),
                concat_seqs(chunks),
            )[i] == outs[i],
{
    lemma_concat_singletons(outs, chunks);
    assert(forall|i: int|
        0 <= i < outs.len() ==> !contains_name(Seq::<AView>::empty(), api_qname(outs[i])));
    lemma_dedup_extend_fresh(Seq::<AView>::empty(), outs);
    assert(Seq::<AView>::empty() + outs =~= outs);
}

/// The mathematical value of a per-item conversion outcome.
pub open spec fn result_view<P: AnalysisPhase>(
    r: Result<Vec<Api<P>>, ConvertErrorWithContext>,
) -> Result<Seq<AView>, (ErrView, Option<CtxView>)> {
    match r {
        Ok(v) => Ok(views_of(v@)),
        Err(e) => Err((e.0@, opt_ctx_view(e.1))),
    }
}

/// The entries one conversion outcome contributes: the converted entries on
/// success; on failure, the ignored-item placeholder where the context
/// recovers an identifier, and nothing otherwise.
pub open spec fn chunk_of(
    qn: QnView,
    out: Result<Seq<AView>, (ErrView, Option<CtxView>)>,
) -> Seq<AView> {
    match out {
        Ok(s) => s,
        Err((err, None)) => Seq::empty(),
        Err((err, Some(ctx))) => match spec_ignored_item(qn.ns, ctx, err) {
            Some(a) => seq![a],
            None => Seq::empty(),
        },
    }
}

/// The diagnostics one conversion outcome contributes.
pub open spec fn diags_of(
    qn: QnView,
    out: Result<Seq<AView>, (ErrView, Option<CtxView>)>,
) -> Seq<DiagView> {
    match out {
        Ok(_) => Seq::empty(),
        Err((err, ctx)) => seq![DiagView { name: Some(qn), err, ctx }],
    }
}

/// Builds the placeholder API that documents a skipped entity, provided the
/// error context recovers an identifier for it.
pub fn ignored_item<P: AnalysisPhase>(ns: &Namespace, ctx: ErrorContext, err: ConvertError) -> (r:
    Option<Api<P>>)
    ensures
        match spec_ignored_item(ns@, ctx@, err@) {
            Some(a) => r is Some && r->0@ == a,
            None => r is None,
        },
{
    let id = match ctx.get_id() {
        Some(id) => Some(id.clone()),
        None => None,
    };
    match id {
        Some(id) => Some(Api::IgnoredItem { name: ApiName::new(ns, id), err, ctx }),
        None => None,
    }
}

/// Runs the outcome of some per-item parsing logic through error
/// isolation: a success propagates; a failure is recorded as a diagnostic,
/// and — where its context recovers an identifier — as an ignored-item
/// placeholder, so the enclosing collection process never aborts.
pub fn report_any_error<T, P: AnalysisPhase>(
    ns: &Namespace,
    apis: &mut ApiVec<P>,
    diags: &mut Vec<Diagnostic>,
    result: Result<T, ConvertErrorWithContext>,
) -> (r: Option<T>)
    ensures
        result is Ok ==> r == Some(result->Ok_0) && final(apis)@ == old(apis)@ && final(diags).deep_view()
            == old(diags).deep_view(),
        result is Err ==> r is None && final(diags).deep_view() == old(diags).deep_view().push(
            DiagView {
                name: None,
                err: result->Err_0.0@,
                ctx: opt_ctx_view(result->Err_0.1),
            },
        ) && final(apis)@ == (match opt_ctx_view(result->Err_0.1) {
            None => old(apis)@,
            Some(c) => match spec_ignored_item(ns@, c, result->Err_0.0@) {
                Some(a) => dedup_push(old(apis)@, a),
                None => old(apis)@,
            },
        }),
        old(apis).wf() ==> final(apis).wf(),
{
    match result {
        Ok(t) => Some(t),
        Err(ConvertErrorWithContext(err, None)) => {
            diags.push(Diagnostic { name: None, err, ctx: None });
            None
        },
        Err(ConvertErrorWithContext(err, Some(ctx))) => {
            diags.push(
                Diagnostic { name: None, err: err.clone(), ctx: Some(ctx.clone()) },
            );
            if let Some(item) = ignored_item(ns, ctx, err) {
                apis.push_eliminating_duplicates(item);
            }
            None
        },
    }
}

/// Appends one conversion outcome's contribution: the converted entries on
/// success, or a diagnostic plus — where the context recovers an
/// identifier — the ignored-item placeholder on failure.
fn api_or_error<P: AnalysisPhase>(
    name: QualifiedName,
    result: Result<Vec<Api<P>>, ConvertErrorWithContext>,
    diags: &mut Vec<Diagnostic>,
) -> (r: Vec<Api<P>>)
    ensures
        views_of(r@) == chunk_of(name@, result_view(result)),
        final(diags).deep_view() == old(diags).deep_view() + diags_of(name@, result_view(result)),
{
    match result {
        Ok(v) => {
            proof {
                assert(old(diags).deep_view() + diags_of(name@, result_view(result)) =~= old(diags).deep_view());
            }
            v
        },
        Err(ConvertErrorWithContext(err, None)) => {
            diags.push(Diagnostic { name: Some(name), err, ctx: None });
            proof {
                assert(old(diags).deep_view().push(diags.deep_view().last()) =~= old(diags).deep_view() + diags_of(
                    name@,
                    result_view(result),
                ));
            }
            let r = Vec::<Api<P>>::new();
            proof {
                assert(views_of(r@) =~= Seq::<AView>::empty());
            }
            r
        },
        Err(ConvertErrorWithContext(err, Some(ctx))) => {
            diags.push(
                Diagnostic { name: Some(name.clone()), err: err.clone(), ctx: Some(ctx.clone()) },
            );
            let mut r = Vec::<Api<P>>::new();
            if let Some(item) = ignored_item::<P>(name.get_namespace(), ctx, err) {
                r.push(item);
            }
            proof {
                match spec_ignored_item(name@.ns, ctx@, err@) {
                    Some(a) => {
                        assert(views_of(r@) =~= seq![a]);
                    },
                    None => {
                        assert(views_of(r@) =~= Seq::<AView>::empty());
                    },
                }
                assert(final(diags).deep_view() =~= old(diags).deep_view() + diags_of(name@, result_view(result)));
            }
            r
        },
    }
}

/// Per-kind conversion callbacks supplied by a downstream analyzer to lift
/// the analysis-sensitive variants from phase `A` to phase `B`.  A callback
/// may expand one entry into zero or more entries, or fail with a
/// contextualized error.
pub trait ApiConversion<A: AnalysisPhase, B: AnalysisPhase> {
    fn convert_function(
        &mut self,
        name: ApiName,
        fun: FuncToConvert,
        analysis: A::FunAnalysis,
        name_for_gc: Option<QualifiedName>,
    ) -> Result<Vec<Api<B>>, ConvertErrorWithContext>;

    fn convert_struct(
        &mut self,
        name: ApiName,
        details: StructDetails,
        analysis: A::StructAnalysis,
    ) -> Result<Vec<Api<B>>, ConvertErrorWithContext>;

    fn convert_enum(&mut self, name: ApiName, item: EnumDecl) -> Result<
        Vec<Api<B>>,
        ConvertErrorWithContext,
    >;

    fn convert_typedef(
        &mut self,
        name: ApiName,
        item: TypedefKind,
        old_tyname: Option<QualifiedName>,
        analysis: A::TypedefAnalysis,
    ) -> Result<Vec<Api<B>>, ConvertErrorWithContext>;
}

/// A single uniform conversion callback, for simpler phase transitions.
pub trait ItemConversion<A: AnalysisPhase, B: AnalysisPhase> {
    fn convert(&mut self, api: Api<A>) -> Result<Vec<Api<B>>, ConvertError>;
}

/// What the engine guarantees of the chunk and the diagnostics recorded for
/// one input entry: a pass-through entry contributes exactly itself and no
/// diagnostic; a kind-dispatched entry contributes whatever its callback
/// produced, with any failure recorded as one diagnostic naming the entry
/// and any placeholder carrying the entry's own namespace and identifier.
pub open spec fn chunk_ok(a: AView, chunk: Seq<AView>, d: Seq<DiagView>) -> bool {
    if is_passthrough(a) {
        chunk == seq![a] && d == Seq::<DiagView>::empty()
    } else {
        exists|out: Result<Seq<AView>, (ErrView, Option<CtxView>)>|
            chunk == chunk_of(api_qname(a), out) && d == diags_of(api_qname(a), out)
    }
}

/// Lifts a whole API list from phase `A` to phase `B`: pass-through
/// variants are reproduced exactly; Function, Struct, Enum and Typedef
/// entries are dispatched to the per-kind callbacks; a callback failure
/// degrades only its own entry, to a diagnostic and (where attributable) an
/// ignored-item placeholder.  Relative input order is preserved, each entry
/// expanding in place, and insertion into `out_apis` eliminates duplicate
/// identities.
pub fn convert_apis<A: AnalysisPhase, B: AnalysisPhase, C: ApiConversion<A, B>>(
    in_apis: ApiVec<A>,
    out_apis: &mut ApiVec<B>,
    conv: &mut C,
    diags: &mut Vec<Diagnostic>,
)
    ensures
        exists|chunks: Seq<Seq<AView>>, ds: Seq<Seq<DiagView>>|
            {
                &&& chunks.len() == in_apis@.len()
                &&& ds.len() == in_apis@.len()
                &&& (forall|i: int|
                    0 <= i < in_apis@.len() ==> chunk_ok(in_apis@[i], chunks[i], ds[i]))
                &&& final(out_apis)@ == dedup_extend(old(out_apis)@, concat_seqs(chunks))
                &&& final(diags).deep_view() == old(diags).deep_view() + concat_seqs(ds)
            },
        old(out_apis).wf() ==> final(out_apis).wf(),
{
    let ghost in_views = in_apis@;
    let ghost pre_out = out_apis@;
    let ghost pre_diags = diags.deep_view();
    let mut items = in_apis.into_items();
    let ghost mut chunks: Seq<Seq<AView>> = Seq::empty();
    let ghost mut ds: Seq<Seq<DiagView>> = Seq::empty();
    let ghost mut k: int = 0;
    proof {
        assert(concat_seqs(chunks) =~= Seq::<AView>::empty());
        assert(pre_diags + concat_seqs(ds) =~= pre_diags);
        assert(dedup_extend(pre_out, concat_seqs(chunks)) == pre_out);
    }
    while items.len() > 0
        invariant
            0 <= k <= in_views.len(),
            items@.len() == in_views.len() - k,
            forall|j: int| 0 <= j < items@.len() ==> items@[j]@ == in_views[k + j],
            chunks.len() == k,
            ds.len() == k,
            forall|i: int| 0 <= i < k ==> chunk_ok(in_views[i], chunks[i], ds[i]),
            out_apis@ == dedup_extend(pre_out, concat_seqs(chunks)),
            diags.deep_view() == pre_diags + concat_seqs(ds),
            distinct_names(pre_out) ==> distinct_names(out_apis@),
        decreases items.len(),
    {
        let ghost pre_items = items@;
        let api = items.remove(0);
        let ghost a = api@;
        proof {
            assert(a == in_views[k]);
            assert(items@ =~= pre_items.remove(0));
        }
        let tn = api.name().clone();
        let result: Result<Vec<Api<B>>, ConvertErrorWithContext> = match api {
            Api::ConcreteType { name, rs_definition, cpp_definition } => {
                let v = vec![Api::<B>::ConcreteType { name, rs_definition, cpp_definition }];
                proof {
                    assert(views_of(v@) =~= seq![a]);
                }
                Ok(v)
            },
            Api::ForwardDeclaration { name } => {
                let v = vec![Api::<B>::ForwardDeclaration { name }];
                proof {
                    assert(views_of(v@) =~= seq![a]);
                }
                Ok(v)
            },
            Api::StringConstructor { name } => {
                let v = vec![Api::<B>::StringConstructor { name }];
                proof {
                    assert(views_of(v@) =~= seq![a]);
                }
                Ok(v)
            },
            Api::Const { name, const_item } => {
                let v = vec![Api::<B>::Const { name, const_item }];
                proof {
                    assert(views_of(v@) =~= seq![a]);
                }
                Ok(v)
            },
            Api::CType { name, typename } => {
                let v = vec![Api::<B>::CType { name, typename }];
                proof {
                    assert(views_of(v@) =~= seq![a]);
                }
                Ok(v)
            },
            Api::RustType { name, path } => {
                let v = vec![Api::<B>::RustType { name, path }];
                proof {
                    assert(views_of(v@) =~= seq![a]);
                }
                Ok(v)
            },
            Api::RustFn { name, sig, path } => {
                let v = vec![Api::<B>::RustFn { name, sig, path }];
                proof {
                    assert(views_of(v@) =~= seq![a]);
                }
                Ok(v)
            },
            Api::RustSubclassFn { name, subclass, details } => {
                let v = vec![Api::<B>::RustSubclassFn { name, subclass, details }];
                proof {
                    assert(views_of(v@) =~= seq![a]);
                }
                Ok(v)
            },
            Api::Subclass { name, superclass } => {
                let v = vec![Api::<B>::Subclass { name, superclass }];
                proof {
                    assert(views_of(v@) =~= seq![a]);
                }
                Ok(v)
            },
            Api::SubclassTraitItem { name, details } => {
                let v = vec![Api::<B>::SubclassTraitItem { name, details }];
                proof {
                    assert(views_of(v@) =~= seq![a]);
                }
                Ok(v)
            },
            Api::IgnoredItem { name, err, ctx } => {
                let v = vec![Api::<B>::IgnoredItem { name, err, ctx }];
                proof {
                    assert(views_of(v@) =~= seq![a]);
                }
                Ok(v)
            },
            Api::Enum { name, item } => conv.convert_enum(name, item),
            Api::Typedef { name, item, old_tyname, analysis } => conv.convert_typedef(
                name,
                item,
                old_tyname,
                analysis,
            ),
            Api::Function { name, fun, analysis, name_for_gc } => conv.convert_function(
                name,
                fun,
                analysis,
                name_for_gc,
            ),
            Api::Struct { name, details, analysis } => conv.convert_struct(name, details, analysis),
        };
        let ghost rv = result_view(result);
        proof {
            if is_passthrough(a) {
                assert(rv is Ok && rv->Ok_0 == seq![a]);
            }
        }
        let produced = api_or_error(tn, result, diags);
        let ghost chunk = views_of(produced@);
        let ghost dchunk = diags_of(tn@, rv);
        out_apis.extend_vec(produced);
        proof {
            assert(chunk == chunk_of(api_qname(a), rv));
            if is_passthrough(a) {
                assert(chunk == seq![a]);
                assert(dchunk =~= Seq::<DiagView>::empty());
            }
            assert(chunk_ok(a, chunk, dchunk));
            lemma_concat_push(chunks, chunk);
            lemma_concat_push(ds, dchunk);
            lemma_dedup_extend_concat(pre_out, concat_seqs(chunks), chunk);
            assert((pre_diags + concat_seqs(ds)) + dchunk =~= pre_diags + (concat_seqs(ds)
                + dchunk));
            chunks = chunks.push(chunk);
            ds = ds.push(dchunk);
            k = k + 1;
        }
    }
    proof {
        assert(in_views.len() == k);
    }
}

/// Lifts a whole API list from phase `A` to phase `B` through one uniform
/// per-item callback, isolating each failure: a failing entry degrades to a
/// diagnostic and an ignored-item placeholder attributed to that entry's
/// own identifier.  Relative input order is preserved and insertion into
/// `out_apis` eliminates duplicate identities.
pub fn convert_item_apis<A: AnalysisPhase, B: AnalysisPhase, F: ItemConversion<A, B>>(
    in_apis: ApiVec<A>,
    out_apis: &mut ApiVec<B>,
    fun: &mut F,
    diags: &mut Vec<Diagnostic>,
)
    ensures
        exists|chunks: Seq<Seq<AView>>, ds: Seq<Seq<DiagView>>|
            {
                &&& chunks.len() == in_apis@.len()
                &&& ds.len() == in_apis@.len()
                &&& (forall|i: int|
                    0 <= i < in_apis@.len() ==> item_chunk_ok(in_apis@[i], chunks[i], ds[i]))
                &&& final(out_apis)@ == dedup_extend(old(out_apis)@, concat_seqs(chunks))
                &&& final(diags).deep_view() == old(diags).deep_view() + concat_seqs(ds)
            },
        old(out_apis).wf() ==> final(out_apis).wf(),
{
    let ghost in_views = in_apis@;
    let ghost pre_out = out_apis@;
    let ghost pre_diags = diags.deep_view();
    let mut items = in_apis.into_items();
    let ghost mut chunks: Seq<Seq<AView>> = Seq::empty();
    let ghost mut ds: Seq<Seq<DiagView>> = Seq::empty();
    let ghost mut k: int = 0;
    proof {
        assert(concat_seqs(chunks) =~= Seq::<AView>::empty());
        assert(pre_diags + concat_seqs(ds) =~= pre_diags);
        assert(dedup_extend(pre_out, concat_seqs(chunks)) == pre_out);
    }
    while items.len() > 0
        invariant
            0 <= k <= in_views.len(),
            items@.len() == in_views.len() - k,
            forall|j: int| 0 <= j < items@.len() ==> items@[j]@ == in_views[k + j],
            chunks.len() == k,
            ds.len() == k,
            forall|i: int| 0 <= i < k ==> item_chunk_ok(in_views[i], chunks[i], ds[i]),
            out_apis@ == dedup_extend(pre_out, concat_seqs(chunks)),
            diags.deep_view() == pre_diags + concat_seqs(ds),
            distinct_names(pre_out) ==> distinct_names(out_apis@),
        decreases items.len(),
    {
        let ghost pre_items = items@;
        let api = items.remove(0);
        let ghost a = api@;
        proof {
            assert(a == in_views[k]);
            assert(items@ =~= pre_items.remove(0));
        }
        let tn = api.name().clone();
        let result: Result<Vec<Api<B>>, ConvertErrorWithContext> = match fun.convert(api) {
            Ok(v) => Ok(v),
            Err(e) => Err(
                ConvertErrorWithContext(
                    e,
                    Some(ErrorContext::Item(tn.get_final_ident().clone())),
                ),
            ),
        };
        let ghost rv = result_view(result);
        let produced = api_or_error(tn, result, diags);
        let ghost chunk = views_of(produced@);
        let ghost dchunk = diags_of(tn@, rv);
        out_apis.extend_vec(produced);
        proof {
            assert(item_chunk_ok(a, chunk, dchunk));
            lemma_concat_push(chunks, chunk);
            lemma_concat_push(ds, dchunk);
            lemma_dedup_extend_concat(pre_out, concat_seqs(chunks), chunk);
            assert((pre_diags + concat_seqs(ds)) + dchunk =~= pre_diags + (concat_seqs(ds)
                + dchunk));
            chunks = chunks.push(chunk);
            ds = ds.push(dchunk);
            k = k + 1;
        }
    }
    proof {
        assert(in_views.len() == k);
    }
}

/// What the uniform engine guarantees of one input entry's chunk and
/// diagnostics: either the callback succeeded and the chunk is whatever it
/// returned, or the chunk is exactly the ignored-item placeholder named
/// after the entry itself, with one diagnostic naming the entry.
pub open spec fn item_chunk_ok(a: AView, chunk: Seq<AView>, d: Seq<DiagView>) -> bool {
    exists|out: Result<Seq<AView>, (ErrView, Option<CtxView>)>|
        {
            &&& chunk == chunk_of(api_qname(a), out)
            &&& d == diags_of(api_qname(a), out)
            &&& (out is Err ==> out->Err_0.1 == Some(CtxView::Item(api_qname(a).id)))
        }
}

} // verus!
