use vstd::prelude::*;
use crate::types::{Namespace, QnView};
use crate::api::{Api, AView, ApiName, ApiNameView, FuncToConvert, FuncView, NullPhase};
use crate::apivec::{ApiVec, dedup_push};
use crate::ast::{ForeignFn, ForeignFnView, ImplBlock, ImplBlockView, attr_original_name,
    get_original_name};

verus! {

/// A method sighting: a method name and the receiver type whose impl block
/// declared it.
pub struct MethodReceiver {
    pub method: String,
    pub self_ty: String,
}

/// Mathematical value of a [`MethodReceiver`].
pub ghost struct MethodReceiverView {
    pub method: Seq<char>,
    pub self_ty: Seq<char>,
}

impl View for MethodReceiver {
    type V = MethodReceiverView;

    open spec fn view(&self) -> MethodReceiverView {
        MethodReceiverView { method: self.method@, self_ty: self.self_ty@ }
    }
}

impl DeepView for MethodReceiver {
    type V = MethodReceiverView;

    open spec fn deep_view(&self) -> MethodReceiverView {
        self@
    }
}

/// The receiver type recorded for a method name, if any impl block claimed
/// it.
pub open spec fn receiver_for(recvs: Seq<MethodReceiverView>, method: Seq<char>) -> Option<
    Seq<char>,
>
    decreases recvs.len(),
{
    if recvs.len() == 0 {
        None
    } else if recvs[0].method == method {
        Some(recvs[0].self_ty)
    } else {
        receiver_for(recvs.drop_first(), method)
    }
}

/// The method sightings one impl block contributes.
pub open spec fn recvs_of_impl(imp: ImplBlockView) -> Seq<MethodReceiverView> {
    Seq::new(imp.methods.len(), |i: int| MethodReceiverView {
        method: imp.methods[i],
        self_ty: imp.self_ty,
    })
}

/// The Function API synthesized for one accumulated foreign declaration.
pub open spec fn spec_foreign_fn_api(
    ns: Seq<Seq<char>>,
    f: ForeignFnView,
    recvs: Seq<MethodReceiverView>,
) -> AView {
    AView::Function {
        name: ApiNameView {
            qn: QnView { ns, id: f.ident },
            cpp_name: attr_original_name(f.attrs),
        },
        fun: FuncView {
            ident: f.ident,
            original_name: attr_original_name(f.attrs),
            self_ty: receiver_for(recvs, f.ident),
        },
        name_for_gc: None,
    }
}

/// The API list after finalizing the accumulated declarations, in order,
/// with duplicate elimination.
pub open spec fn spec_finish_foreign(
    ns: Seq<Seq<char>>,
    funs: Seq<ForeignFnView>,
    recvs: Seq<MethodReceiverView>,
    apis: Seq<AView>,
) -> Seq<AView>
    decreases funs.len(),
{
    if funs.len() == 0 {
        apis
    } else {
        dedup_push(
            spec_finish_foreign(ns, funs.drop_last(), recvs, apis),
            spec_foreign_fn_api(ns, funs.last(), recvs),
        )
    }
}

/// Accumulates, per namespace, the foreign-function declarations and the
/// impl-block method sightings, and finally synthesizes one Function API
/// per declaration.
pub struct ParseForeignMod {
    ns: Namespace,
    funs: Vec<ForeignFn>,
    recvs: Vec<MethodReceiver>,
}

/// Mathematical value of a [`ParseForeignMod`].
pub ghost struct PfmView {
    pub ns: Seq<Seq<char>>,
    pub funs: Seq<ForeignFnView>,
    pub recvs: Seq<MethodReceiverView>,
}

impl View for ParseForeignMod {
    type V = PfmView;

    closed spec fn view(&self) -> PfmView {
        PfmView {
            ns: self.ns@,
            funs: self.funs.deep_view(),
            recvs: self.recvs.deep_view(),
        }
    }
}

impl ParseForeignMod {
    pub fn new(ns: Namespace) -> (r: Self)
        ensures
            r@ == (PfmView { ns: ns@, funs: Seq::empty(), recvs: Seq::empty() }),
    {
        let r = ParseForeignMod { ns, funs: Vec::new(), recvs: Vec::new() };
        proof {
            assert(r@.funs =~= Seq::<ForeignFnView>::empty());
            assert(r@.recvs =~= Seq::<MethodReceiverView>::empty());
        }
        r
    }

    /// Accumulates the declarations of one foreign block.
    pub fn convert_foreign_mod_items(&mut self, funs: &Vec<ForeignFn>)
        ensures
            final(self)@ == (PfmView {
                ns: old(self)@.ns,
                funs: old(self)@.funs + funs.deep_view(),
                recvs: old(self)@.recvs,
            }),
    {
        let mut i: usize = 0;
        while i < funs.len()
            invariant
                i <= funs.len(),
                self@.ns == old(self)@.ns,
                self@.recvs == old(self)@.recvs,
                self@.funs == old(self)@.funs + funs.deep_view().subrange(0, i as int),
            decreases funs.len() - i,
        {
            let ghost pre = self@.funs;
            self.funs.push(funs[i].clone());
            proof {
                assert(self@.funs =~= pre.push(funs.deep_view()[i as int]));
                assert(old(self)@.funs + funs.deep_view().subrange(0, i + 1 as int) =~= pre.push(
                    funs.deep_view()[i as int],
                ));
            }
            i += 1;
        }
        proof {
            assert(funs.deep_view().subrange(0, funs.deep_view().len() as int)
                =~= funs.deep_view());
        }
    }

    /// Records which methods an impl block claims, so that functions can be
    /// told apart from static methods later.
    pub fn convert_impl_items(&mut self, imp: &ImplBlock)
        ensures
            final(self)@ == (PfmView {
                ns: old(self)@.ns,
                funs: old(self)@.funs,
                recvs: old(self)@.recvs + recvs_of_impl(imp@),
            }),
    {
        let mut i: usize = 0;
        while i < imp.methods.len()
            invariant
                i <= imp.methods.len(),
                self@.ns == old(self)@.ns,
                self@.funs == old(self)@.funs,
                self@.recvs == old(self)@.recvs + recvs_of_impl(imp@).subrange(0, i as int),
            decreases imp.methods.len() - i,
        {
            let ghost pre = self@.recvs;
            self.recvs.push(
                MethodReceiver { method: imp.methods[i].clone(), self_ty: imp.self_ty.clone() },
            );
            proof {
                assert(self@.recvs =~= pre.push(recvs_of_impl(imp@)[i as int]));
                assert(old(self)@.recvs + recvs_of_impl(imp@).subrange(0, i + 1 as int)
                    =~= pre.push(recvs_of_impl(imp@)[i as int]));
            }
            i += 1;
        }
        proof {
            assert(recvs_of_impl(imp@).subrange(0, recvs_of_impl(imp@).len() as int)
                =~= recvs_of_impl(imp@));
        }
    }

    /// Looks up the receiver type recorded for a method name.
    fn receiver_of(&self, method: &String) -> (r: Option<String>)
        ensures
            r.deep_view() == receiver_for(self@.recvs, method@),
    {
        let mut i: usize = 0;
        proof {
            assert(self@.recvs.subrange(0, self@.recvs.len() as int) =~= self@.recvs);
        }
        while i < self.recvs.len()
            invariant
                i <= self.recvs.len(),
                receiver_for(self@.recvs, method@) == receiver_for(
                    self@.recvs.subrange(i as int, self@.recvs.len() as int),
                    method@,
                ),
            decreases self.recvs.len() - i,
        {
            let ghost tail = self@.recvs.subrange(i as int, self@.recvs.len() as int);
            proof {
                assert(tail[0] == self@.recvs[i as int]);
                assert(tail.drop_first() =~= self@.recvs.subrange(
                    i + 1 as int,
                    self@.recvs.len() as int,
                ));
            }
            if self.recvs[i].method == *method {
                return Some(self.recvs[i].self_ty.clone());
            }
            i += 1;
        }
        None
    }

    /// Synthesizes one Function API per accumulated declaration, inserting
    /// each with duplicate elimination, in declaration order.
    pub fn finished(self, apis: &mut ApiVec<NullPhase>)
        ensures
            final(apis)@ == spec_finish_foreign(self@.ns, self@.funs, self@.recvs, old(apis)@),
            old(apis).wf() ==> final(apis).wf(),
    {
        let mut i: usize = 0;
        while i < self.funs.len()
            invariant
                i <= self.funs.len(),
                apis@ == spec_finish_foreign(
                    self@.ns,
                    self@.funs.subrange(0, i as int),
                    self@.recvs,
                    old(apis)@,
                ),
                old(apis).wf() ==> apis.wf(),
            decreases self.funs.len() - i,
        {
            let f = &self.funs[i];
            let original_name = get_original_name(&f.attrs);
            let original_name2 = crate::types::clone_opt_string(&original_name);
            let name = ApiName::new_with_cpp_name(&self.ns, f.ident.clone(), original_name);
            let self_ty = self.receiver_of(&f.ident);
            let fun = FuncToConvert { ident: f.ident.clone(), original_name: original_name2,
                self_ty };
            let api = Api::<NullPhase>::Function { name, fun, analysis: (), name_for_gc: None };
            proof {
                assert(api@ == spec_foreign_fn_api(self@.ns, self@.funs[i as int], self@.recvs));
                assert(self@.funs.subrange(0, i + 1 as int).drop_last() =~= self@.funs.subrange(
                    0,
                    i as int,
                ));
                assert(self@.funs.subrange(0, i + 1 as int).last() == self@.funs[i as int]);
            }
            apis.push_eliminating_duplicates(api);
            i += 1;
        }
        proof {
            assert(self@.funs.subrange(0, self@.funs.len() as int) =~= self@.funs);
        }
    }
}

} // verus!
