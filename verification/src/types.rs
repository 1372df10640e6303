use vstd::prelude::*;
use vstd::string::StringExecFns;
use crate::convert_error::{ConvertError, ErrView};

verus! {

/// Mathematical identity of a qualified name: the namespace path (outer to
/// inner) plus the final identifier.  Two qualified names denote the same
/// entity exactly when their `QnView`s are equal.
#[verifier::ext_equal]
pub ghost struct QnView {
    pub ns: Seq<Seq<char>>,
    pub id: Seq<char>,
}

/// Clones a vector of strings, preserving its contents.
pub fn clone_strings(v: &Vec<String>) -> (r: Vec<String>)
    ensures
        r.deep_view() == v.deep_view(),
{
    let r = v.clone();
    proof {
        assert forall|i: int| 0 <= i < v@.len() implies r.deep_view()[i] == v.deep_view()[i] by {
            assert(cloned::<String>(v@[i], r@[i]));
            assert(r@[i] == v@[i]);
        }
        assert(r.deep_view() =~= v.deep_view());
    }
    r
}

/// Clones an optional string, preserving its contents.
pub fn clone_opt_string(o: &Option<String>) -> (r: Option<String>)
    ensures
        r.deep_view() == o.deep_view(),
{
    match o {
        Some(s) => Some(s.clone()),
        None => None,
    }
}

/// Compares two string vectors element by element.
pub fn vec_string_eq(a: &Vec<String>, b: &Vec<String>) -> (r: bool)
    ensures
        r == (a.deep_view() == b.deep_view()),
{
    if a.len() != b.len() {
        proof {
            assert(a.deep_view().len() == a@.len());
            assert(b.deep_view().len() == b@.len());
        }
        return false;
    }
    let mut i: usize = 0;
    while i < a.len()
        invariant
            i <= a.len(),
            a@.len() == b@.len(),
            forall|j: int| 0 <= j < i ==> a.deep_view()[j] == b.deep_view()[j],
        decreases a.len() - i,
    {
        if !(a[i] == b[i]) {
            proof {
                assert(a.deep_view()[i as int] != b.deep_view()[i as int]);
            }
            return false;
        }
        i += 1;
    }
    proof {
        assert(a.deep_view() =~= b.deep_view());
    }
    true
}

/// Looks a string up in a vector of strings.
pub fn vec_contains_string(v: &Vec<String>, s: &String) -> (r: bool)
    ensures
        r == v.deep_view().contains(s@),
{
    let mut i: usize = 0;
    while i < v.len()
        invariant
            i <= v.len(),
            forall|j: int| 0 <= j < i ==> v.deep_view()[j] != s@,
        decreases v.len() - i,
    {
        if v[i] == *s {
            proof {
                assert(v.deep_view()[i as int] == s@);
            }
            return true;
        }
        i += 1;
    }
    proof {
        assert(forall|j: int| 0 <= j < v.deep_view().len() ==> v.deep_view()[j] != s@);
    }
    false
}

/// A hierarchical namespace: an ordered sequence of scope names from the
/// outermost to the innermost.  The empty namespace is the root.
#[derive(Debug, PartialEq, Eq)]
pub struct Namespace {
    segments: Vec<String>,
}

impl View for Namespace {
    type V = Seq<Seq<char>>;

    closed spec fn view(&self) -> Seq<Seq<char>> {
        self.segments.deep_view()
    }
}

impl Clone for Namespace {
    fn clone(&self) -> (r: Self)
        ensures
            r@ == self@,
    {
        Namespace { segments: clone_strings(&self.segments) }
    }
}

impl Namespace {
    /// The root namespace.
    pub fn new() -> (r: Self)
        ensures
            r@ == Seq::<Seq<char>>::empty(),
    {
        let r = Namespace { segments: Vec::new() };
        proof {
            assert(r@ =~= Seq::<Seq<char>>::empty());
        }
        r
    }

    /// The namespace made of the given segments, outermost first.
    pub fn from_segments(segments: Vec<String>) -> (r: Self)
        ensures
            r@ == segments.deep_view(),
    {
        Namespace { segments }
    }

    /// The child namespace obtained by appending one more segment.
    pub fn push(&self, seg: String) -> (r: Self)
        ensures
            r@ == self@.push(seg@),
    {
        let mut segments = clone_strings(&self.segments);
        segments.push(seg);
        let r = Namespace { segments };
        proof {
            assert(r@ =~= self@.push(seg@));
        }
        r
    }

    pub fn is_empty(&self) -> (r: bool)
        ensures
            r == (self@.len() == 0),
    {
        self.segments.len() == 0
    }

    pub fn len(&self) -> (r: usize)
        ensures
            r == self@.len(),
    {
        self.segments.len()
    }

    pub fn same(&self, other: &Namespace) -> (r: bool)
        ensures
            r == (self@ == other@),
    {
        vec_string_eq(&self.segments, &other.segments)
    }
}

/// The canonical external spelling of a qualified name: the namespace
/// segments and the identifier joined by `::`.
pub open spec fn cpp_name_of(ns: Seq<Seq<char>>, id: Seq<char>) -> Seq<char>
    decreases ns.len(),
{
    if ns.len() == 0 {
        id
    } else {
        ns[0] + "::"@ + cpp_name_of(ns.subrange(1, ns.len() as int), id)
    }
}

/// A namespace plus a terminal identifier: the identity used for lookup,
/// deduplication and error messages.
#[derive(Debug, PartialEq, Eq)]
pub struct QualifiedName {
    ns: Namespace,
    id: String,
}

impl View for QualifiedName {
    type V = QnView;

    closed spec fn view(&self) -> QnView {
        QnView { ns: self.ns@, id: self.id@ }
    }
}

impl Clone for QualifiedName {
    fn clone(&self) -> (r: Self)
        ensures
            r@ == self@,
    {
        QualifiedName { ns: self.ns.clone(), id: self.id.clone() }
    }
}

impl QualifiedName {
    pub fn new(ns: &Namespace, id: String) -> (r: Self)
        ensures
            r@ == (QnView { ns: ns@, id: id@ }),
    {
        QualifiedName { ns: ns.clone(), id }
    }

    pub fn get_namespace(&self) -> (r: &Namespace)
        ensures
            r@ == self@.ns,
    {
        &self.ns
    }

    pub fn get_final_ident(&self) -> (r: &String)
        ensures
            r@ == self@.id,
    {
        &self.id
    }

    pub fn same(&self, other: &QualifiedName) -> (r: bool)
        ensures
            r == (self@ == other@),
    {
        let r = self.ns.same(&other.ns) && self.id == other.id;
        proof {
            if r {
                assert(self@ =~= other@);
            }
        }
        r
    }

    /// Joins the namespace segments and the identifier with `::`.
    pub fn to_cpp_name(&self) -> (r: String)
        ensures
            r@ == cpp_name_of(self@.ns, self@.id),
    {
        let mut s = String::new();
        let mut i: usize = 0;
        proof {
            assert(self@.ns.subrange(0, self@.ns.len() as int) =~= self@.ns);
            assert(Seq::<char>::empty() + cpp_name_of(self@.ns, self@.id) =~= cpp_name_of(
                self@.ns,
                self@.id,
            ));
        }
        while i < self.ns.segments.len()
            invariant
                i <= self.ns.segments.len(),
                self.ns.segments.deep_view() == self@.ns,
                cpp_name_of(self@.ns, self@.id) == s@ + cpp_name_of(
                    self@.ns.subrange(i as int, self@.ns.len() as int),
                    self@.id,
                ),
            decreases self.ns.segments.len() - i,
        {
            let ghost pre = s@;
            let ghost tail = self@.ns.subrange(i as int, self@.ns.len() as int);
            s.append(self.ns.segments[i].as_str());
            s.append("::");
            proof {
                assert(tail.subrange(1, tail.len() as int) =~= self@.ns.subrange(
                    i + 1 as int,
                    self@.ns.len() as int,
                ));
                assert(tail[0] == self@.ns[i as int]);
                let nexttail = cpp_name_of(self@.ns.subrange(i + 1 as int, self@.ns.len() as int), self@.id);
                assert(pre + (self@.ns[i as int] + "::"@ + nexttail) =~= (pre + self@.ns[i as int]
                    + "::"@) + nexttail);
                assert(s@ == pre + self@.ns[i as int] + "::"@);
            }
            i += 1;
        }
        proof {
            assert(self@.ns.subrange(self@.ns.len() as int, self@.ns.len() as int)
                =~= Seq::<Seq<char>>::empty());
        }
        s.append(self.id.as_str());
        s
    }
}

/// Identifiers the bridge's target naming rules reserve: an empty name, or
/// one of the wrapper type names the bridge itself uses.
pub open spec fn forbidden_ident(id: Seq<char>) -> bool {
    ||| id.len() == 0
    ||| id == "UniquePtr"@
    ||| id == "SharedPtr"@
    ||| id == "WeakPtr"@
    ||| id == "CxxString"@
    ||| id == "CxxVector"@
}

/// Checks that an identifier is usable under the bridge's target naming
/// rules; a reserved or empty identifier is a recoverable per-item error.
pub fn validate_ident_ok_for_cxx(id: &String) -> (r: Result<(), ConvertError>)
    ensures
        r is Ok <==> !forbidden_ident(id@),
        r is Err ==> r->Err_0@ == ErrView::ReservedName(id@),
{
    let empty = id.as_str().unicode_len() == 0;
    let reserved = *id == String::from_str("UniquePtr") || *id == String::from_str("SharedPtr")
        || *id == String::from_str("WeakPtr") || *id == String::from_str("CxxString") || *id
        == String::from_str("CxxVector");
    if empty || reserved {
        Err(ConvertError::ReservedName(id.clone()))
    } else {
        Ok(())
    }
}

} // verus!
