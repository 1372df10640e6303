use vstd::prelude::*;
use crate::types::QnView;
use crate::api::{Api, AView, ApiName, ApiNameView, NullPhase};
use crate::apivec::{ApiVec, dedup_push};
use crate::config::{Config, ConfigView};

verus! {

/// The utility API seeded when utility generation is not suppressed: a
/// string constructor under the configured name, in the root namespace.
pub open spec fn utility_api(c: ConfigView) -> AView {
    AView::StringConstructor {
        name: ApiNameView {
            qn: QnView { ns: Seq::<Seq<char>>::empty(), id: c.makestring_name },
            cpp_name: None,
        },
    }
}

/// Seeds the output list with the fixed utility APIs.
pub fn generate_utilities(apis: &mut ApiVec<NullPhase>, config: &Config)
    ensures
        final(apis)@ == dedup_push(old(apis)@, utility_api(config@)),
        old(apis).wf() ==> final(apis).wf(),
{
    let name = ApiName::new_in_root_namespace(config.makestring_name.clone());
    apis.push_eliminating_duplicates(Api::StringConstructor { name });
}

} // verus!
