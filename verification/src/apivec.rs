use vstd::prelude::*;
use crate::api::{Api, AView, AnalysisPhase, api_qname};
use crate::types::{QualifiedName, QnView};

verus! {

/// Whether an entry with the given identity is already present.
pub open spec fn contains_name(s: Seq<AView>, qn: QnView) -> bool {
    exists|i: int| 0 <= i < s.len() && api_qname(s[i]) == qn
}

/// Every entry's identity occurs once.
pub open spec fn distinct_names(s: Seq<AView>) -> bool {
    forall|i: int, j: int| 0 <= i < j < s.len() ==> api_qname(s[i]) != api_qname(s[j])
}

/// Insertion with duplicate elimination: an entry whose identity is already
/// present is silently dropped, keeping the first-seen entry.
pub open spec fn dedup_push(s: Seq<AView>, a: AView) -> Seq<AView> {
    if contains_name(s, api_qname(a)) {
        s
    } else {
        s.push(a)
    }
}

/// Duplicate-eliminating insertion of a whole sequence, left to right.
pub open spec fn dedup_extend(s: Seq<AView>, items: Seq<AView>) -> Seq<AView>
    decreases items.len(),
{
    if items.len() == 0 {
        s
    } else {
        dedup_push(dedup_extend(s, items.drop_last()), items.last())
    }
}

/// `dedup_push` preserves distinctness.
pub proof fn lemma_dedup_push_distinct(s: Seq<AView>, a: AView)
    requires
        distinct_names(s),
    ensures
        distinct_names(dedup_push(s, a)),
{
}

/// `dedup_extend` preserves distinctness.
pub proof fn lemma_dedup_extend_distinct(s: Seq<AView>, items: Seq<AView>)
    requires
        distinct_names(s),
    ensures
        distinct_names(dedup_extend(s, items)),
    decreases items.len(),
{
    if items.len() > 0 {
        lemma_dedup_extend_distinct(s, items.drop_last());
        lemma_dedup_push_distinct(dedup_extend(s, items.drop_last()), items.last());
    }
}

/// Processing one more item on the right of a duplicate-eliminating
/// extension.
pub proof fn lemma_dedup_extend_push(s: Seq<AView>, items: Seq<AView>, a: AView)
    ensures
        dedup_extend(s, items.push(a)) == dedup_push(dedup_extend(s, items), a),
{
    assert(items.push(a).drop_last() =~= items);
    assert(items.push(a).last() == a);
}

/// The mathematical values of a sequence of API entries.
pub open spec fn views_of<P: AnalysisPhase>(v: Seq<Api<P>>) -> Seq<AView> {
    Seq::new(v.len(), |i: int| v[i]@)
}

/// An ordered collection of APIs with insertion-order semantics whose
/// entries carry pairwise distinct identities.
pub struct ApiVec<P: AnalysisPhase> {
    apis: Vec<Api<P>>,
}

impl<P: AnalysisPhase> View for ApiVec<P> {
    type V = Seq<AView>;

    closed spec fn view(&self) -> Seq<AView> {
        Seq::new(self.apis@.len(), |i: int| self.apis@[i]@)
    }
}

impl<P: AnalysisPhase> ApiVec<P> {
    /// Every entry's identity occurs once.
    pub open spec fn wf(&self) -> bool {
        distinct_names(self@)
    }

    pub fn new() -> (r: Self)
        ensures
            r@ == Seq::<AView>::empty(),
            r.wf(),
    {
        let r = ApiVec { apis: Vec::new() };
        proof {
            assert(r@ =~= Seq::<AView>::empty());
        }
        r
    }

    /// Whether an entry with the given identity is already present.
    pub fn contains(&self, name: &QualifiedName) -> (r: bool)
        ensures
            r == contains_name(self@, name@),
    {
        let mut i: usize = 0;
        while i < self.apis.len()
            invariant
                i <= self.apis.len(),
                forall|j: int| 0 <= j < i ==> api_qname(self@[j]) != name@,
            decreases self.apis.len() - i,
        {
            if self.apis[i].name().same(name) {
                proof {
                    assert(api_qname(self@[i as int]) == name@);
                }
                return true;
            }
            i += 1;
        }
        false
    }

    /// Plain append, for entries that cannot duplicate an existing identity
    /// by construction.
    pub fn push(&mut self, api: Api<P>)
        requires
            !contains_name(old(self)@, api_qname(api@)),
        ensures
            final(self)@ == old(self)@.push(api@),
            old(self).wf() ==> final(self).wf(),
    {
        let ghost pre = self@;
        self.apis.push(api);
        proof {
            assert(self@ =~= pre.push(api@));
        }
    }

    /// Insertion with duplicate elimination: silently drops the entry if one
    /// with the same identity is already present.
    pub fn push_eliminating_duplicates(&mut self, api: Api<P>)
        ensures
            final(self)@ == dedup_push(old(self)@, api@),
            old(self).wf() ==> final(self).wf(),
    {
        let ghost pre = self@;
        if !self.contains(api.name()) {
            self.apis.push(api);
            proof {
                assert(self@ =~= pre.push(api@));
            }
        }
        proof {
            if distinct_names(pre) {
                lemma_dedup_push_distinct(pre, api@);
            }
        }
    }

    /// Moves every entry of `other` into `self`, eliminating duplicates.
    pub fn append(&mut self, other: ApiVec<P>)
        ensures
            final(self)@ == dedup_extend(old(self)@, other@),
            old(self).wf() ==> final(self).wf(),
    {
        let items = other.into_items();
        self.extend_vec(items);
    }

    /// Inserts every entry of `items`, in order, eliminating duplicates.
    pub fn extend_vec(&mut self, items: Vec<Api<P>>)
        ensures
            final(self)@ == dedup_extend(old(self)@, views_of(items@)),
            old(self).wf() ==> final(self).wf(),
    {
        let ghost pre = self@;
        let ghost incoming = views_of(items@);
        let mut items = items;
        let ghost mut k: int = 0;
        proof {
            assert(incoming.subrange(0, 0) =~= Seq::<AView>::empty());
        }
        while items.len() > 0
            invariant
                0 <= k <= incoming.len(),
                items@.len() == incoming.len() - k,
                forall|j: int| 0 <= j < items@.len() ==> items@[j]@ == incoming[k + j],
                self@ == dedup_extend(pre, incoming.subrange(0, k)),
            decreases items.len(),
        {
            let ghost done = incoming.subrange(0, k);
            let api = items.remove(0);
            proof {
                assert(api@ == incoming[k]);
                lemma_dedup_extend_push(pre, done, api@);
                assert(done.push(api@) =~= incoming.subrange(0, k + 1));
            }
            self.push_eliminating_duplicates(api);
            proof {
                k = k + 1;
            }
        }
        proof {
            assert(incoming.subrange(0, incoming.len() as int) =~= incoming);
            if distinct_names(pre) {
                lemma_dedup_extend_distinct(pre, incoming);
            }
        }
    }

    pub fn len(&self) -> (r: usize)
        ensures
            r == self@.len(),
    {
        self.apis.len()
    }

    pub fn get(&self, i: usize) -> (r: &Api<P>)
        requires
            i < self@.len(),
        ensures
            r@ == self@[i as int],
    {
        &self.apis[i]
    }

    /// Surrenders the entries as a plain vector.
    pub fn into_items(self) -> (r: Vec<Api<P>>)
        ensures
            self@ == Seq::new(r@.len(), |i: int| r@[i]@),
    {
        let ApiVec { apis } = self;
        apis
    }
}

} // verus!
