use vstd::prelude::*;
use vstd::string::StringExecFns;
use vstd::string::StrSliceExecFns;
use crate::ast::{Attr, AttrView};

verus! {

/// Whether an attribute is one of the translator's own annotations, i.e.
/// its name starts with `bindgen_`.
pub open spec fn is_bindgen_attr(a: AttrView) -> bool {
    a.name.len() >= "bindgen_"@.len() && a.name.subrange(0, "bindgen_"@.len() as int)
        == "bindgen_"@
}

/// The attribute list with the translator's own annotations removed,
/// keeping the order of the rest.
pub open spec fn non_bindgen_attrs(attrs: Seq<AttrView>) -> Seq<AttrView>
    decreases attrs.len(),
{
    if attrs.len() == 0 {
        Seq::empty()
    } else {
        non_bindgen_attrs(attrs.drop_last()) + (if is_bindgen_attr(attrs.last()) {
            Seq::empty()
        } else {
            seq![attrs.last()]
        })
    }
}

/// Checks whether one attribute is a translator annotation.
fn check_bindgen_attr(a: &Attr) -> (r: bool)
    ensures
        r == is_bindgen_attr(a@),
{
    let prefix = String::from_str("bindgen_");
    proof {
        reveal_strlit("bindgen_");
    }
    if a.name.as_str().unicode_len() < 8 {
        return false;
    }
    let head = a.name.as_str().substring_char(0, 8);
    String::from_str(head) == prefix
}

/// Removes the translator's own annotations from an attribute list: they
/// correspond to no macro on the bridge's side, so leaving them in would
/// break the emitted code.
pub fn remove_bindgen_attrs(attrs: &mut Vec<Attr>)
    ensures
        final(attrs).deep_view() == non_bindgen_attrs(old(attrs).deep_view()),
{
    let mut kept: Vec<Attr> = Vec::new();
    let mut i: usize = 0;
    proof {
        assert(kept.deep_view() =~= Seq::<AttrView>::empty());
        assert(old(attrs).deep_view().subrange(0, 0) =~= Seq::<AttrView>::empty());
    }
    while i < attrs.len()
        invariant
            i <= attrs.len(),
            attrs.deep_view() == old(attrs).deep_view(),
            kept.deep_view() == non_bindgen_attrs(attrs.deep_view().subrange(0, i as int)),
        decreases attrs.len() - i,
    {
        let ghost pre = kept.deep_view();
        let ghost prefix_seq = attrs.deep_view().subrange(0, i as int);
        proof {
            assert(attrs.deep_view().subrange(0, i + 1 as int).drop_last() =~= prefix_seq);
            assert(attrs.deep_view().subrange(0, i + 1 as int).last() == attrs.deep_view()[
                i as int
            ]);
        }
        if !check_bindgen_attr(&attrs[i]) {
            kept.push(attrs[i].clone());
            proof {
                assert(kept.deep_view() =~= pre.push(attrs.deep_view()[i as int]));
                assert(pre + seq![attrs.deep_view()[i as int]] =~= kept.deep_view());
            }
        } else {
            proof {
                assert(pre + Seq::<AttrView>::empty() =~= pre);
            }
        }
        i += 1;
    }
    proof {
        assert(attrs.deep_view().subrange(0, attrs.deep_view().len() as int)
            =~= attrs.deep_view());
    }
    *attrs = kept;
}

} // verus!
