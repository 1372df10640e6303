use vstd::prelude::*;
use crate::types::{QualifiedName, QnView, clone_strings, vec_contains_string};

verus! {

/// A path to a declared pass-through type or function on the bridge's own
/// side: one or more `::`-separated segments, the last being the item name.
#[derive(Debug, PartialEq, Eq)]
pub struct RustPath {
    segments: Vec<String>,
}

impl View for RustPath {
    type V = Seq<Seq<char>>;

    closed spec fn view(&self) -> Seq<Seq<char>> {
        self.segments.deep_view()
    }
}

impl Clone for RustPath {
    fn clone(&self) -> (r: Self)
        ensures
            r@ == self@,
    {
        RustPath { segments: clone_strings(&self.segments) }
    }
}

impl RustPath {
    pub fn new(segments: Vec<String>) -> (r: Self)
        ensures
            r@ == segments.deep_view(),
    {
        RustPath { segments }
    }

    /// The final segment: the item's own name.
    pub fn get_final_ident(&self) -> (r: &String)
        requires
            self@.len() > 0,
        ensures
            r@ == self@.last(),
    {
        &self.segments[self.segments.len() - 1]
    }
}

/// One declared subclass: its name and the qualified name of its superclass.
#[derive(Debug, PartialEq, Eq)]
pub struct Subclass {
    pub subclass: String,
    pub superclass: QualifiedName,
}

/// Mathematical value of a [`Subclass`].
pub ghost struct SubclassView {
    pub subclass: Seq<char>,
    pub superclass: QnView,
}

impl View for Subclass {
    type V = SubclassView;

    open spec fn view(&self) -> SubclassView {
        SubclassView { subclass: self.subclass@, superclass: self.superclass@ }
    }
}

/// One declared extern function implemented on the bridge's own side.
#[derive(Debug, PartialEq, Eq)]
pub struct ExternRustFun {
    pub path: RustPath,
    pub sig_ident: String,
}

/// Mathematical value of an [`ExternRustFun`].
pub ghost struct ExternRustFunView {
    pub path: Seq<Seq<char>>,
    pub sig_ident: Seq<char>,
}

impl View for ExternRustFun {
    type V = ExternRustFunView;

    open spec fn view(&self) -> ExternRustFunView {
        ExternRustFunView { path: self.path@, sig_ident: self.sig_ident@ }
    }
}

/// The read-only configuration the caller supplies.
pub struct Config {
    /// External names never to emit.
    pub blocklist: Vec<String>,
    /// External names that must appear in the output, or the parse fails.
    pub must_generate: Vec<String>,
    pub subclasses: Vec<Subclass>,
    pub extern_rust_funs: Vec<ExternRustFun>,
    /// Declared pass-through types.
    pub rust_types: Vec<RustPath>,
    /// Suppresses the seeding of utility APIs.
    pub suppress_utilities: bool,
    /// The name of the seeded string-constructor utility.
    pub makestring_name: String,
}

/// Mathematical value of a [`Config`].
pub ghost struct ConfigView {
    pub blocklist: Seq<Seq<char>>,
    pub must_generate: Seq<Seq<char>>,
    pub subclasses: Seq<SubclassView>,
    pub extern_rust_funs: Seq<ExternRustFunView>,
    pub rust_types: Seq<Seq<Seq<char>>>,
    pub suppress_utilities: bool,
    pub makestring_name: Seq<char>,
}

impl View for Config {
    type V = ConfigView;

    open spec fn view(&self) -> ConfigView {
        ConfigView {
            blocklist: self.blocklist.deep_view(),
            must_generate: self.must_generate.deep_view(),
            subclasses: Seq::new(self.subclasses@.len(), |i: int| self.subclasses@[i]@),
            extern_rust_funs: Seq::new(
                self.extern_rust_funs@.len(),
                |i: int| self.extern_rust_funs@[i]@,
            ),
            rust_types: Seq::new(self.rust_types@.len(), |i: int| self.rust_types@[i]@),
            suppress_utilities: self.suppress_utilities,
            makestring_name: self.makestring_name@,
        }
    }
}

/// Whether a declared pass-through type has the given final identifier.
pub open spec fn spec_is_rust_type(c: ConfigView, id: Seq<char>) -> bool {
    exists|i: int|
        0 <= i < c.rust_types.len() && c.rust_types[i].len() > 0 && c.rust_types[i].last() == id
}

impl Config {
    pub fn exclude_utilities(&self) -> (r: bool)
        ensures
            r == self@.suppress_utilities,
    {
        self.suppress_utilities
    }

    /// Whether the given external name is blocked.
    pub fn is_on_blocklist(&self, name: &String) -> (r: bool)
        ensures
            r == self@.blocklist.contains(name@),
    {
        vec_contains_string(&self.blocklist, name)
    }

    /// Whether the identifier names a declared pass-through type.
    pub fn is_rust_type(&self, id: &String) -> (r: bool)
        ensures
            r == spec_is_rust_type(self@, id@),
    {
        let mut i: usize = 0;
        while i < self.rust_types.len()
            invariant
                i <= self.rust_types.len(),
                forall|j: int|
                    0 <= j < i ==> !(self@.rust_types[j].len() > 0 && self@.rust_types[j].last()
                        == id@),
            decreases self.rust_types.len() - i,
        {
            let p = &self.rust_types[i];
            if p.len_segments() > 0 {
                if *p.get_final_ident() == *id {
                    proof {
                        assert(self@.rust_types[i as int].len() > 0 && self@.rust_types[
                            i as int
                        ].last() == id@);
                    }
                    return true;
                }
            }
            i += 1;
        }
        false
    }
}

impl RustPath {
    pub fn len_segments(&self) -> (r: usize)
        ensures
            r == self@.len(),
    {
        self.segments.len()
    }
}

} // verus!
