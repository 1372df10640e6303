use vstd::prelude::*;
use vstd::string::StringExecFns;
use vstd::string::StrSliceExecFns;
use crate::types::{
    Namespace, QualifiedName, QnView, cpp_name_of, forbidden_ident, validate_ident_ok_for_cxx,
    vec_contains_string,
};
use crate::convert_error::{
    ConvertError, ConvertErrorWithContext, ErrorContext, Diagnostic, DiagView, ErrView, CtxView,
    opt_ctx_view,
};
use crate::api::{
    Api, AView, AnalysisPhase, ApiName, ApiNameView, FnSig, FuncToConvert, NullPhase,
    StructDetails, StructDetailsView, SubclassName, TypedefKind, TypedefKindView, api_qname,
    spec_ignored_item,
};
use crate::apivec::{ApiVec, contains_name, dedup_push, dedup_extend, distinct_names};
use crate::ast::{
    AstFieldView, Attr, AttrView, Item, ItemView, StructItemView, EnumDeclView, UseTree,
    UseDeclView, UseTerminalView, item_view, items_view, lemma_items_view, attr_original_name,
    get_original_name, get_cpp_visibility, get_layout, any_field_rvalue_reference,
    fields_have_rvalue_reference, visibility_of, layout_of, AstField,
};
use crate::config::{Config, ConfigView, spec_is_rust_type};
use crate::parse_foreign_mod::{
    ParseForeignMod, MethodReceiverView, spec_finish_foreign,
};
use crate::ast::ForeignFnView;
use crate::utilities::{generate_utilities, utility_api};
use crate::ast::use_tree_view;
use crate::error_reporter::report_any_error;

verus! {

broadcast use vstd::seq::group_seq_axioms;

/// The API list and the diagnostics accumulated so far.
pub ghost struct PState {
    pub apis: Seq<AView>,
    pub diags: Seq<DiagView>,
}

/// The state one item's parsing reads and writes: the main output plus the
/// namespace's foreign-declaration accumulator.
pub ghost struct ItemState {
    pub st: PState,
    pub funs: Seq<ForeignFnView>,
    pub recvs: Seq<MethodReceiverView>,
}

/// The state of a whole namespace walk: the item state plus the ignored
/// items collected aside and appended after the walk.
pub ghost struct WalkState {
    pub st: PState,
    pub more: Seq<AView>,
    pub funs: Seq<ForeignFnView>,
    pub recvs: Seq<MethodReceiverView>,
}

/// The name an item gets: namespace, identifier, and any original-spelling
/// override among its annotations.
pub open spec fn spec_api_name(ns: Seq<Seq<char>>, id: Seq<char>, attrs: Seq<AttrView>)
    -> ApiNameView {
    ApiNameView { qn: QnView { ns, id }, cpp_name: attr_original_name(attrs) }
}

/// Whether an identifier names one of the translator's synthetic vtable
/// placeholder structs.
pub open spec fn is_vtable_ident(id: Seq<char>) -> bool {
    id.len() >= "__bindgen_vtable"@.len() && id.subrange(
        id.len() - "__bindgen_vtable"@.len(),
        id.len() as int,
    ) == "__bindgen_vtable"@
}

/// A struct is a forward declaration when a field carries the sentinel
/// name `_unused`.
pub open spec fn spec_spot_forward_declaration(fields: Seq<AstFieldView>) -> bool {
    exists|i: int| 0 <= i < fields.len() && fields[i].ident == Some("_unused"@)
}

/// The last of the leading path segments, if any.
pub open spec fn last_seg(segs: Seq<Seq<char>>) -> Option<Seq<char>> {
    if segs.len() == 0 {
        None
    } else {
        Some(segs.last())
    }
}

/// How one struct declaration is parsed: vtable placeholders are dropped;
/// a reserved identifier is a per-item error; a declared pass-through type
/// in the root namespace is dropped; a sentinel field makes a forward
/// declaration; anything else makes a full Struct entry; the result is
/// inserted unless blocklisted.
pub open spec fn spec_parse_struct(
    s: StructItemView,
    ns: Seq<Seq<char>>,
    cfg: ConfigView,
    m: ItemState,
) -> Result<ItemState, (ErrView, Option<CtxView>)> {
    if is_vtable_ident(s.ident) {
        Ok(m)
    } else if forbidden_ident(s.ident) {
        Err((ErrView::ReservedName(s.ident), Some(CtxView::Item(s.ident))))
    } else {
        let name = spec_api_name(ns, s.ident, s.attrs);
        let api: Option<AView> = if ns.len() == 0 && spec_is_rust_type(cfg, s.ident) {
            None
        } else if spec_spot_forward_declaration(s.fields) {
            Some(AView::ForwardDeclaration { name })
        } else {
            Some(
                AView::Struct {
                    name,
                    details: StructDetailsView {
                        vis: visibility_of(s.attrs),
                        layout: layout_of(s.attrs),
                        item: s,
                        has_rvalue_reference_fields: fields_have_rvalue_reference(s.fields),
                    },
                },
            )
        };
        match api {
            Some(api) => if !cfg.blocklist.contains(cpp_name_of(ns, s.ident)) {
                Ok(
                    ItemState {
                        st: PState { apis: dedup_push(m.st.apis, api), diags: m.st.diags },
                        funs: m.funs,
                        recvs: m.recvs,
                    },
                )
            } else {
                Ok(m)
            },
            None => Ok(m),
        }
    }
}

/// How one enum declaration is parsed: a reserved identifier is a per-item
/// error; otherwise the entry is inserted unless blocklisted.
pub open spec fn spec_parse_enum(
    e: EnumDeclView,
    ns: Seq<Seq<char>>,
    cfg: ConfigView,
    m: ItemState,
) -> Result<ItemState, (ErrView, Option<CtxView>)> {
    if forbidden_ident(e.ident) {
        Err((ErrView::ReservedName(e.ident), Some(CtxView::Item(e.ident))))
    } else {
        let api = AView::Enum { name: spec_api_name(ns, e.ident, e.attrs), item: e };
        if !cfg.blocklist.contains(cpp_name_of(ns, e.ident)) {
            Ok(
                ItemState {
                    st: PState { apis: dedup_push(m.st.apis, api), diags: m.st.diags },
                    funs: m.funs,
                    recvs: m.recvs,
                },
            )
        } else {
            Ok(m)
        }
    }
}

/// How one alias declaration is parsed.  A terminal plain use of the
/// translator's root marker is dropped.  A renaming whose path does not
/// follow the translator's `self::super` prefix convention, or any other
/// tree shape, is a per-item error.  A renaming whose reconstructed old
/// name equals its new name is the infinitely recursive alias error; any
/// other renaming becomes a Typedef entry.
pub open spec fn spec_parse_use(
    u: UseDeclView,
    ns: Seq<Seq<char>>,
    m: ItemState,
) -> Result<ItemState, (ErrView, Option<CtxView>)> {
    let t = u.tree;
    match t.terminal {
        UseTerminalView::Name(id) => if id == "root"@ {
            Ok(m)
        } else {
            Err((ErrView::UnexpectedUseStatement(last_seg(t.segs)), None))
        },
        UseTerminalView::Glob => Err((ErrView::UnexpectedUseStatement(last_seg(t.segs)), None)),
        UseTerminalView::Rename { ident, rename } => {
            if !(t.segs.len() >= 2 && t.segs[0] == "self"@ && t.segs[1] == "super"@) {
                Err((ErrView::UnexpectedUseStatement(last_seg(t.segs)), None))
            } else {
                let old_qn = QnView {
                    ns: t.segs.subrange(2, t.segs.len() as int),
                    id: ident,
                };
                let new_qn = QnView { ns, id: rename };
                if new_qn == old_qn {
                    Err(
                        (
                            ErrView::InfinitelyRecursiveTypedef(new_qn),
                            Some(CtxView::Item(rename)),
                        ),
                    )
                } else {
                    let api = AView::Typedef {
                        name: spec_api_name(ns, rename, u.attrs),
                        item: TypedefKindView::Use { old: old_qn, new_id: rename },
                        old_tyname: Some(old_qn),
                    };
                    Ok(
                        ItemState {
                            st: PState { apis: dedup_push(m.st.apis, api), diags: m.st.diags },
                            funs: m.funs,
                            recvs: m.recvs,
                        },
                    )
                }
            }
        },
    }
}

/// How one item is parsed, by kind.
pub open spec fn spec_parse_item(
    item: ItemView,
    ns: Seq<Seq<char>>,
    cfg: ConfigView,
    m: ItemState,
) -> Result<ItemState, (ErrView, Option<CtxView>)>
    decreases item, 0int,
{
    match item {
        ItemView::ForeignMod { funs } => Ok(
            ItemState { st: m.st, funs: m.funs + funs, recvs: m.recvs },
        ),
        ItemView::Struct(s) => spec_parse_struct(s, ns, cfg, m),
        ItemView::Enum(e) => spec_parse_enum(e, ns, cfg, m),
        ItemView::Impl(i) => Ok(
            ItemState {
                st: m.st,
                funs: m.funs,
                recvs: m.recvs + crate::parse_foreign_mod::recvs_of_impl(i),
            },
        ),
        ItemView::Mod { ident, content } => match content {
            Some(items) => Ok(
                ItemState {
                    st: spec_parse_mod_items(items, ns.push(ident), cfg, m.st),
                    funs: m.funs,
                    recvs: m.recvs,
                },
            ),
            None => Ok(m),
        },
        ItemView::Use(u) => spec_parse_use(u, ns, m),
        ItemView::Const(c) => Ok(
            ItemState {
                st: PState {
                    apis: dedup_push(
                        m.st.apis,
                        AView::Const {
                            name: spec_api_name(ns, c.ident, c.attrs),
                            const_item: c,
                        },
                    ),
                    diags: m.st.diags,
                },
                funs: m.funs,
                recvs: m.recvs,
            },
        ),
        ItemView::TypeAlias(t) => Ok(
            ItemState {
                st: PState {
                    apis: dedup_push(
                        m.st.apis,
                        AView::Typedef {
                            name: spec_api_name(ns, t.ident, t.attrs),
                            item: TypedefKindView::Type(t),
                            old_tyname: None,
                        },
                    ),
                    diags: m.st.diags,
                },
                funs: m.funs,
                recvs: m.recvs,
            },
        ),
        ItemView::Other => Err((ErrView::UnexpectedItemInMod, None)),
    }
}

/// One step of the namespace walk: parse the item; on failure, record a
/// diagnostic and, where the context recovers an identifier, an
/// ignored-item placeholder in the side list.
pub open spec fn walk_step(item: ItemView, ns: Seq<Seq<char>>, cfg: ConfigView, w: WalkState)
    -> WalkState
    decreases item, 1int,
{
    match spec_parse_item(item, ns, cfg, ItemState { st: w.st, funs: w.funs, recvs: w.recvs }) {
        Ok(m2) => WalkState { st: m2.st, more: w.more, funs: m2.funs, recvs: m2.recvs },
        Err((err, ctx)) => WalkState {
            st: PState {
                apis: w.st.apis,
                diags: w.st.diags.push(DiagView { name: None, err, ctx }),
            },
            more: match ctx {
                Some(c) => match spec_ignored_item(ns, c, err) {
                    Some(a) => dedup_push(w.more, a),
                    None => w.more,
                },
                None => w.more,
            },
            funs: w.funs,
            recvs: w.recvs,
        },
    }
}

/// The namespace walk from item `i` on.
pub open spec fn spec_walk_items(
    items: Seq<ItemView>,
    i: int,
    ns: Seq<Seq<char>>,
    cfg: ConfigView,
    w: WalkState,
) -> WalkState
    decreases items, items.len() - i + 1,
{
    if i < 0 || i >= items.len() {
        w
    } else {
        spec_walk_items(items, i + 1, ns, cfg, walk_step(items[i], ns, cfg, w))
    }
}

/// How one namespace's items are parsed: walk the items, then append the
/// ignored items collected aside, then finalize the namespace's foreign
/// declarations into Function entries.
pub open spec fn spec_parse_mod_items(
    items: Seq<ItemView>,
    ns: Seq<Seq<char>>,
    cfg: ConfigView,
    st: PState,
) -> PState
    decreases items, items.len() + 2,
{
    let w0 = WalkState { st, more: Seq::empty(), funs: Seq::empty(), recvs: Seq::empty() };
    let w1 = spec_walk_items(items, 0, ns, cfg, w0);
    let apis1 = dedup_extend(w1.st.apis, w1.more);
    PState { apis: spec_finish_foreign(ns, w1.funs, w1.recvs, apis1), diags: w1.st.diags }
}

/// Unwrapping the translator's root wrapper module: the first item must be
/// a module named `root`; its content is the real item list.  A bodyless
/// root module is skipped; no wrapper at all means no items.  Any other
/// top-level shape is the fatal structural error.
pub open spec fn spec_find_items_in_root(items: Seq<ItemView>) -> Result<Seq<ItemView>, ErrView>
    decreases items.len(),
{
    if items.len() == 0 {
        Ok(Seq::empty())
    } else {
        match items[0] {
            ItemView::Mod { ident, content } => if ident == "root"@ {
                match content {
                    Some(inner) => Ok(inner),
                    None => spec_find_items_in_root(items.drop_first()),
                }
            } else {
                Err(ErrView::UnexpectedOuterItem)
            },
            _ => Err(ErrView::UnexpectedOuterItem),
        }
    }
}

/// The Subclass entry injected for one declared subclass.
pub open spec fn subclass_api(sc: crate::config::SubclassView) -> AView {
    AView::Subclass {
        name: ApiNameView {
            qn: QnView { ns: Seq::<Seq<char>>::empty(), id: sc.subclass },
            cpp_name: None,
        },
        superclass: sc.superclass,
    }
}

/// The RustFn entry injected for one declared extern function.
pub open spec fn rust_fn_api(f: crate::config::ExternRustFunView) -> AView {
    AView::RustFn {
        name: ApiNameView {
            qn: QnView { ns: Seq::<Seq<char>>::empty(), id: f.sig_ident },
            cpp_name: None,
        },
        sig: f.sig_ident,
        path: f.path,
    }
}

/// The RustType entry injected for one declared pass-through type.
pub open spec fn rust_type_api(p: Seq<Seq<char>>) -> AView {
    AView::RustType {
        name: ApiNameView {
            qn: QnView { ns: Seq::<Seq<char>>::empty(), id: p.last() },
            cpp_name: None,
        },
        path: p,
    }
}

/// The synthetic entries injected from configuration, in order: one
/// Subclass per declared subclass, one RustFn per declared extern
/// function, one RustType per declared pass-through type.
pub open spec fn config_apis(cfg: ConfigView) -> Seq<AView> {
    Seq::new(cfg.subclasses.len(), |i: int| subclass_api(cfg.subclasses[i])) + Seq::new(
        cfg.extern_rust_funs.len(),
        |i: int| rust_fn_api(cfg.extern_rust_funs[i]),
    ) + Seq::new(cfg.rust_types.len(), |i: int| rust_type_api(cfg.rust_types[i]))
}

/// Everything the output list is seeded with before the walk: the utility
/// entries (unless suppressed) followed by the configuration's synthetic
/// entries.
pub open spec fn seeded_apis(cfg: ConfigView) -> Seq<AView> {
    (if cfg.suppress_utilities {
        Seq::<AView>::empty()
    } else {
        seq![utility_api(cfg)]
    }) + config_apis(cfg)
}

/// Internal consistency of the configuration, which the caller is assumed
/// to guarantee: the seeded entries carry pairwise distinct names, and
/// every declared pass-through path has at least one segment.
pub open spec fn config_wf(cfg: ConfigView) -> bool {
    &&& distinct_names(seeded_apis(cfg))
    &&& forall|i: int| 0 <= i < cfg.rust_types.len() ==> cfg.rust_types[i].len() > 0
}

/// Whether some entry's external spelling equals the directive.
pub open spec fn api_names_contain(apis: Seq<AView>, d: Seq<char>) -> bool {
    exists|i: int|
        0 <= i < apis.len() && cpp_name_of(api_qname(apis[i]).ns, api_qname(apis[i]).id) == d
}

/// The first must-generate directive not satisfied by the produced
/// entries, if any.
pub open spec fn spec_first_unmet_directive(
    apis: Seq<AView>,
    directives: Seq<Seq<char>>,
) -> Option<Seq<char>>
    decreases directives.len(),
{
    if directives.len() == 0 {
        None
    } else if !api_names_contain(apis, directives[0]) {
        Some(directives[0])
    } else {
        spec_first_unmet_directive(apis, directives.drop_first())
    }
}

/// The whole parse: unwrap the root wrapper, seed utilities and the
/// configuration's synthetic entries, walk the item tree from the root
/// namespace, then check every must-generate directive; an unsatisfied
/// directive fails the parse outright and yields no partial output.
pub open spec fn spec_parse_items(items: Seq<ItemView>, cfg: ConfigView) -> Result<
    (Seq<AView>, Seq<DiagView>),
    ErrView,
> {
    match spec_find_items_in_root(items) {
        Err(e) => Err(e),
        Ok(inner) => {
            let st = spec_parse_mod_items(
                inner,
                Seq::<Seq<char>>::empty(),
                cfg,
                PState { apis: seeded_apis(cfg), diags: Seq::empty() },
            );
            match spec_first_unmet_directive(st.apis, cfg.must_generate) {
                None => Ok((st.apis, st.diags)),
                Some(d) => Err(ErrView::DidNotGenerateAnything(d)),
            }
        },
    }
}

/// Checks an identifier for the translator's vtable-placeholder suffix.
fn check_vtable_ident(id: &String) -> (r: bool)
    ensures
        r == is_vtable_ident(id@),
{
    proof {
        reveal_strlit("__bindgen_vtable");
    }
    let n = id.as_str().unicode_len();
    if n < 16 {
        return false;
    }
    let tail = id.as_str().substring_char(n - 16, n);
    String::from_str(tail) == String::from_str("__bindgen_vtable")
}

/// The name an item gets, from its annotations.
pub fn api_name(ns: &Namespace, id: String, attrs: &Vec<Attr>) -> (r: ApiName)
    ensures
        r@ == spec_api_name(ns@, id@, attrs.deep_view()),
{
    let original_name = get_original_name(attrs);
    ApiName::new_with_cpp_name(ns, id, original_name)
}

/// The name an item gets, after checking the identifier against the
/// bridge's target naming rules; a reserved identifier is a recoverable
/// per-item error attributed to the item.
pub fn api_name_qualified(ns: &Namespace, id: String, attrs: &Vec<Attr>) -> (r: Result<
    ApiName,
    ConvertErrorWithContext,
>)
    ensures
        match r {
            Ok(n) => !forbidden_ident(id@) && n@ == spec_api_name(ns@, id@, attrs.deep_view()),
            Err(e) => forbidden_ident(id@) && e.0@ == ErrView::ReservedName(id@) && opt_ctx_view(
                e.1,
            ) == Some(CtxView::Item(id@)),
        },
{
    match validate_ident_ok_for_cxx(&id) {
        Err(e) => {
            let ctx = ErrorContext::Item(id);
            Err(ConvertErrorWithContext(e, Some(ctx)))
        },
        Ok(_) => Ok(api_name(ns, id, attrs)),
    }
}

/// The parse's result: the API list and the diagnostics describing each
/// skipped entity, for the caller to surface.
pub struct ParseOutput {
    pub apis: ApiVec<NullPhase>,
    pub diags: Vec<Diagnostic>,
}

/// Parses the translator's output tree into a flat list of APIs at the
/// unanalyzed phase.
pub struct ParseBindgen {
    config: Config,
    apis: ApiVec<NullPhase>,
    diags: Vec<Diagnostic>,
}

impl ParseBindgen {
    /// The configuration the parser was built with.
    pub closed spec fn spec_config(&self) -> ConfigView {
        self.config@
    }

    /// The entries accumulated so far.
    pub closed spec fn spec_apis(&self) -> Seq<AView> {
        self.apis@
    }

    /// The diagnostics accumulated so far.
    pub closed spec fn spec_diags(&self) -> Seq<DiagView> {
        self.diags.deep_view()
    }

    /// Whether the accumulated entries carry pairwise distinct names.
    pub closed spec fn apis_wf(&self) -> bool {
        self.apis.wf()
    }

    pub fn new(config: Config) -> (r: Self)
        ensures
            r.spec_config() == config@,
            r.spec_apis() == Seq::<AView>::empty(),
            r.spec_diags() == Seq::<DiagView>::empty(),
            r.apis_wf(),
    {
        let r = ParseBindgen { config, apis: ApiVec::new(), diags: Vec::new() };
        proof {
            assert(r.spec_diags() =~= Seq::<DiagView>::empty());
        }
        r
    }

    /// Unwraps the translator's root wrapper module; `None` stands for an
    /// empty item list.
    fn find_items_in_root<'a>(items: &'a Vec<Item>) -> (r: Result<
        Option<&'a Vec<Item>>,
        ConvertError,
    >)
        ensures
            match spec_find_items_in_root(items_view(items@)) {
                Ok(inner) => r is Ok && (match r->Ok_0 {
                    Some(v) => items_view(v@) == inner,
                    None => inner == Seq::<ItemView>::empty(),
                }),
                Err(e) => r is Err && r->Err_0@ == e,
            },
    {
        let ghost iv = items_view(items@);
        proof {
            lemma_items_view(items@);
        }
        let mut i: usize = 0;
        proof {
            assert(iv.subrange(0, iv.len() as int) =~= iv);
        }
        while i < items.len()
            invariant
                i <= items.len(),
                iv == items_view(items@),
                iv.len() == items@.len(),
                forall|j: int| 0 <= j < iv.len() ==> iv[j] == item_view(items@[j]),
                spec_find_items_in_root(iv) == spec_find_items_in_root(
                    iv.subrange(i as int, iv.len() as int),
                ),
            decreases items.len() - i,
        {
            let ghost tail = iv.subrange(i as int, iv.len() as int);
            proof {
                assert(tail[0] == iv[i as int]);
                assert(tail.drop_first() =~= iv.subrange(i + 1 as int, iv.len() as int));
            }
            match &items[i] {
                Item::Mod { ident, content } => {
                    if *ident == String::from_str("root") {
                        match content {
                            Some(inner) => {
                                return Ok(Some(inner));
                            },
                            None => {},
                        }
                    } else {
                        return Err(ConvertError::UnexpectedOuterItem);
                    }
                },
                _ => {
                    return Err(ConvertError::UnexpectedOuterItem);
                },
            }
            i += 1;
        }
        proof {
            assert(iv.subrange(iv.len() as int, iv.len() as int) =~= Seq::<ItemView>::empty());
        }
        Ok(None)
    }

    /// Injects the synthetic entries the configuration declares, with plain
    /// appends: the configuration is assumed internally consistent.
    fn add_apis_from_config(&mut self)
        requires
            config_wf(old(self).spec_config()),
            old(self).spec_apis() == (if old(self).spec_config().suppress_utilities {
                Seq::<AView>::empty()
            } else {
                seq![utility_api(old(self).spec_config())]
            }),
        ensures
            final(self).spec_apis() == seeded_apis(old(self).spec_config()),
            final(self).spec_config() == old(self).spec_config(),
            final(self).spec_diags() == old(self).spec_diags(),
            final(self).apis_wf(),
    {
        let ghost cfg = self.config@;
        let ghost seeded = seeded_apis(cfg);
        let ghost seed_len: int = if cfg.suppress_utilities { 0 } else { 1 };
        let ghost ca = config_apis(cfg);
        proof {
            assert(seeded =~= old(self).spec_apis() + ca);
            assert forall|k: int| 0 <= k < ca.len() implies seeded[seed_len + k] == ca[k] by {}
        }
        let mut i: usize = 0;
        while i < self.config.subclasses.len()
            invariant
                i <= self.config.subclasses.len(),
                cfg == self.config@,
                cfg == old(self).spec_config(),
                old(self).spec_apis() == (if cfg.suppress_utilities {
                    Seq::<AView>::empty()
                } else {
                    seq![utility_api(cfg)]
                }),
                config_wf(cfg),
                seeded == seeded_apis(cfg),
                ca == config_apis(cfg),
                seed_len == (if cfg.suppress_utilities { 0int } else { 1int }),
                self.spec_diags() == old(self).spec_diags(),
                self.spec_apis() == old(self).spec_apis() + ca.subrange(0, i as int),
                self.apis.wf(),
            decreases self.config.subclasses.len() - i,
        {
            let sc = &self.config.subclasses[i];
            let api = Api::<NullPhase>::Subclass {
                name: SubclassName::new(sc.subclass.clone()),
                superclass: sc.superclass.clone(),
            };
            proof {
                assert(api@ == ca[i as int]);
                assert(old(self).spec_apis() == (if cfg.suppress_utilities {
                    Seq::<AView>::empty()
                } else {
                    seq![utility_api(cfg)]
                }));
                assert(self.spec_apis() == (if cfg.suppress_utilities {
                    Seq::<AView>::empty()
                } else {
                    seq![utility_api(cfg)]
                }) + ca.subrange(0, i as int));
                self.lemma_fresh_config_push(i as int);
            }
            self.apis.push(api);
            proof {
                assert(self.spec_apis() =~= old(self).spec_apis() + ca.subrange(0, i + 1 as int));
            }
            i += 1;
        }
        let mut j: usize = 0;
        while j < self.config.extern_rust_funs.len()
            invariant
                j <= self.config.extern_rust_funs.len(),
                cfg == self.config@,
                cfg == old(self).spec_config(),
                old(self).spec_apis() == (if cfg.suppress_utilities {
                    Seq::<AView>::empty()
                } else {
                    seq![utility_api(cfg)]
                }),
                config_wf(cfg),
                seeded == seeded_apis(cfg),
                ca == config_apis(cfg),
                seed_len == (if cfg.suppress_utilities { 0int } else { 1int }),
                self.spec_diags() == old(self).spec_diags(),
                self.spec_apis() == old(self).spec_apis() + ca.subrange(
                    0,
                    cfg.subclasses.len() + j,
                ),
                self.apis.wf(),
            decreases self.config.extern_rust_funs.len() - j,
        {
            let f = &self.config.extern_rust_funs[j];
            let api = Api::<NullPhase>::RustFn {
                name: ApiName::new_in_root_namespace(f.sig_ident.clone()),
                sig: FnSig { ident: f.sig_ident.clone() },
                path: f.path.clone(),
            };
            proof {
                assert(api@ == ca[cfg.subclasses.len() + j]);
                assert(old(self).spec_apis() == (if cfg.suppress_utilities {
                    Seq::<AView>::empty()
                } else {
                    seq![utility_api(cfg)]
                }));
                assert(self.spec_apis() == (if cfg.suppress_utilities {
                    Seq::<AView>::empty()
                } else {
                    seq![utility_api(cfg)]
                }) + ca.subrange(0, cfg.subclasses.len() + j));
                self.lemma_fresh_config_push(cfg.subclasses.len() + j);
            }
            self.apis.push(api);
            proof {
                assert(self.spec_apis() =~= old(self).spec_apis() + ca.subrange(
                    0,
                    cfg.subclasses.len() + j + 1,
                ));
            }
            j += 1;
        }
        let mut k: usize = 0;
        while k < self.config.rust_types.len()
            invariant
                k <= self.config.rust_types.len(),
                cfg == self.config@,
                cfg == old(self).spec_config(),
                old(self).spec_apis() == (if cfg.suppress_utilities {
                    Seq::<AView>::empty()
                } else {
                    seq![utility_api(cfg)]
                }),
                config_wf(cfg),
                seeded == seeded_apis(cfg),
                ca == config_apis(cfg),
                seed_len == (if cfg.suppress_utilities { 0int } else { 1int }),
                self.spec_diags() == old(self).spec_diags(),
                self.spec_apis() == old(self).spec_apis() + ca.subrange(
                    0,
                    cfg.subclasses.len() + cfg.extern_rust_funs.len() + k,
                ),
                self.apis.wf(),
            decreases self.config.rust_types.len() - k,
        {
            let p = &self.config.rust_types[k];
            proof {
                assert(p@ == cfg.rust_types[k as int]);
            }
            let id = p.get_final_ident().clone();
            let api = Api::<NullPhase>::RustType {
                name: ApiName::new_in_root_namespace(id),
                path: p.clone(),
            };
            proof {
                assert(api@ == ca[cfg.subclasses.len() + cfg.extern_rust_funs.len() + k]);
                assert(old(self).spec_apis() == (if cfg.suppress_utilities {
                    Seq::<AView>::empty()
                } else {
                    seq![utility_api(cfg)]
                }));
                assert(self.spec_apis() == (if cfg.suppress_utilities {
                    Seq::<AView>::empty()
                } else {
                    seq![utility_api(cfg)]
                }) + ca.subrange(0, cfg.subclasses.len() + cfg.extern_rust_funs.len() + k));
                self.lemma_fresh_config_push(
                    cfg.subclasses.len() + cfg.extern_rust_funs.len() + k,
                );
            }
            self.apis.push(api);
            proof {
                assert(self.spec_apis() =~= old(self).spec_apis() + ca.subrange(
                    0,
                    cfg.subclasses.len() + cfg.extern_rust_funs.len() + k + 1,
                ));
            }
            k += 1;
        }
        proof {
            assert(ca.subrange(0, ca.len() as int) =~= ca);
            assert(final(self).spec_apis() == seeded);
        }
    }

    /// The next configuration entry's name is fresh with respect to what is
    /// already there.
    proof fn lemma_fresh_config_push(&self, k: int)
        requires
            config_wf(self.spec_config()),
            0 <= k < config_apis(self.spec_config()).len(),
            self.spec_apis() == (if self.spec_config().suppress_utilities {
                Seq::<AView>::empty()
            } else {
                seq![utility_api(self.spec_config())]
            }) + config_apis(self.spec_config()).subrange(0, k),
        ensures
            !contains_name(self.spec_apis(), api_qname(config_apis(self.spec_config())[k])),
    {
        let cfg = self.spec_config();
        let seeded = seeded_apis(cfg);
        let seed_len: int = if cfg.suppress_utilities { 0 } else { 1 };
        let ca = config_apis(cfg);
        assert(seeded =~= (if cfg.suppress_utilities {
            Seq::<AView>::empty()
        } else {
            seq![utility_api(cfg)]
        }) + ca);
        assert forall|m: int| 0 <= m < self.spec_apis().len() implies api_qname(
            self.spec_apis()[m],
        ) != api_qname(ca[k]) by {
            assert(self.spec_apis()[m] == seeded[m]);
            assert(ca[k] == seeded[seed_len + k]);
            assert(m < seed_len + k);
            assert(distinct_names(seeded));
        }
    }
    /// Whether some field carries the sentinel name marking a forward
    /// declaration.
    pub fn spot_forward_declaration(fields: &Vec<AstField>) -> (r: bool)
        ensures
            r == spec_spot_forward_declaration(fields.deep_view()),
    {
        let sentinel = String::from_str("_unused");
        let mut i: usize = 0;
        while i < fields.len()
            invariant
                i <= fields.len(),
                sentinel@ == "_unused"@,
                forall|j: int| 0 <= j < i ==> fields.deep_view()[j].ident != Some("_unused"@),
            decreases fields.len() - i,
        {
            let hit = match &fields[i].ident {
                Some(id) => *id == sentinel,
                None => false,
            };
            if hit {
                proof {
                    assert(fields.deep_view()[i as int].ident == Some("_unused"@));
                }
                return true;
            }
            i += 1;
        }
        false
    }

    /// Collects the leading path segments of a use-tree and returns its
    /// terminal.
    fn collect_use_segs<'a>(tree: &'a UseTree, segs: &mut Vec<String>) -> (r: &'a UseTree)
        ensures
            final(segs).deep_view() == old(segs).deep_view() + use_tree_view(*tree).segs,
            use_tree_view(*r).terminal == use_tree_view(*tree).terminal,
            use_tree_view(*r).segs == Seq::<Seq<char>>::empty(),
        decreases *tree,
    {
        match tree {
            UseTree::Path { segment, rest } => {
                let ghost pre = segs.deep_view();
                segs.push(segment.clone());
                proof {
                    assert(segs.deep_view() =~= pre.push(segment@));
                }
                let r = Self::collect_use_segs(rest, segs);
                proof {
                    assert(pre.push(segment@) + use_tree_view(**rest).segs =~= pre + (seq![
                        segment@
                    ] + use_tree_view(**rest).segs));
                }
                r
            },
            UseTree::Name { ident: _ } => {
                tree
            },
            UseTree::Rename { ident: _, rename: _ } => {
                tree
            },
            UseTree::Glob => {
                tree
            },
        }
    }

    /// The last collected segment, for the unexpected-alias error payload.
    fn last_collected(segs: &Vec<String>) -> (r: Option<String>)
        ensures
            r.deep_view() == last_seg(segs.deep_view()),
    {
        if segs.len() == 0 {
            None
        } else {
            Some(segs[segs.len() - 1].clone())
        }
    }

    /// Dispatches one item of a namespace by kind; a recoverable failure is
    /// returned for the caller's error isolation.
    fn parse_item(
        &mut self,
        item: &Item,
        mod_converter: &mut ParseForeignMod,
        ns: &Namespace,
    ) -> (r: Result<(), ConvertErrorWithContext>)
        ensures
            final(mod_converter)@.ns == old(mod_converter)@.ns,
            final(self).spec_config() == old(self).spec_config(),
            old(self).apis_wf() ==> final(self).apis_wf(),
            ({
                let m0 = ItemState {
                    st: PState { apis: old(self).spec_apis(), diags: old(self).spec_diags() },
                    funs: old(mod_converter)@.funs,
                    recvs: old(mod_converter)@.recvs,
                };
                match spec_parse_item(item_view(*item), ns@, old(self).spec_config(), m0) {
                    Ok(m1) => r is Ok && final(self).spec_apis() == m1.st.apis
                        && final(self).spec_diags() == m1.st.diags
                        && final(mod_converter)@.funs == m1.funs
                        && final(mod_converter)@.recvs == m1.recvs,
                    Err(ec) => r is Err && r->Err_0.0@ == ec.0 && opt_ctx_view(r->Err_0.1) == ec.1
                        && final(self).spec_apis() == old(self).spec_apis()
                        && final(self).spec_diags() == old(self).spec_diags()
                        && final(mod_converter)@.funs == old(mod_converter)@.funs
                        && final(mod_converter)@.recvs == old(mod_converter)@.recvs,
                }
            }),
        decreases item_view(*item), 0int,
    {
        match item {
            Item::ForeignMod { funs } => {
                mod_converter.convert_foreign_mod_items(funs);
                Ok(())
            },
            Item::Struct(s) => {
                if check_vtable_ident(&s.ident) {
                    return Ok(());
                }
                match api_name_qualified(ns, s.ident.clone(), &s.attrs) {
                    Err(e) => Err(e),
                    Ok(name) => {
                        let api: Option<Api<NullPhase>> = if ns.is_empty()
                            && self.config.is_rust_type(&s.ident) {
                            None
                        } else if Self::spot_forward_declaration(&s.fields) {
                            Some(Api::ForwardDeclaration { name })
                        } else {
                            let has_rvalue = any_field_rvalue_reference(&s.fields);
                            Some(
                                Api::Struct {
                                    name,
                                    details: StructDetails {
                                        vis: get_cpp_visibility(&s.attrs),
                                        layout: get_layout(&s.attrs),
                                        item: s.clone(),
                                        has_rvalue_reference_fields: has_rvalue,
                                    },
                                    analysis: (),
                                },
                            )
                        };
                        match api {
                            Some(api) => {
                                if !self.config.is_on_blocklist(&api.name().to_cpp_name()) {
                                    self.apis.push_eliminating_duplicates(api);
                                }
                                Ok(())
                            },
                            None => Ok(()),
                        }
                    },
                }
            },
            Item::Enum(e) => {
                match api_name_qualified(ns, e.ident.clone(), &e.attrs) {
                    Err(x) => Err(x),
                    Ok(name) => {
                        let api = Api::<NullPhase>::Enum { name, item: e.clone() };
                        if !self.config.is_on_blocklist(&api.name().to_cpp_name()) {
                            self.apis.push_eliminating_duplicates(api);
                        }
                        Ok(())
                    },
                }
            },
            Item::Impl(imp) => {
                mod_converter.convert_impl_items(imp);
                Ok(())
            },
            Item::Mod { ident, content } => {
                match content {
                    Some(items2) => {
                        let new_ns = ns.push(ident.clone());
                        proof {
                            let iv = item_view(*item);
                            let inner = items_view(items2@);
                            let c = Some(inner);
                            assert(iv == (ItemView::Mod { ident: ident@, content: c }));
                            assert(decreases_to!(iv => c));
                            assert(decreases_to!(c => inner));
                        }
                        self.parse_mod_items(items2, &new_ns);
                        Ok(())
                    },
                    None => Ok(()),
                }
            },
            Item::Use(u) => {
                let ghost full = use_tree_view(u.tree);
                let mut segs: Vec<String> = Vec::new();
                let terminal = Self::collect_use_segs(&u.tree, &mut segs);
                proof {
                    assert(Seq::<Seq<char>>::empty() + full.segs =~= full.segs);
                    assert(segs.deep_view() == full.segs);
                }
                match terminal {
                    UseTree::Name { ident } => {
                        if *ident == String::from_str("root") {
                            Ok(())
                        } else {
                            let last = Self::last_collected(&segs);
                            Err(
                                ConvertErrorWithContext(
                                    ConvertError::UnexpectedUseStatement(last),
                                    None,
                                ),
                            )
                        }
                    },
                    UseTree::Glob => {
                        let last = Self::last_collected(&segs);
                        Err(
                            ConvertErrorWithContext(
                                ConvertError::UnexpectedUseStatement(last),
                                None,
                            ),
                        )
                    },
                    UseTree::Rename { ident, rename } => {
                        let ok_prefix = segs.len() >= 2 && segs[0] == String::from_str("self")
                            && segs[1] == String::from_str("super");
                        if !ok_prefix {
                            let last = Self::last_collected(&segs);
                            Err(
                                ConvertErrorWithContext(
                                    ConvertError::UnexpectedUseStatement(last),
                                    None,
                                ),
                            )
                        } else {
                            let mut segs2 = segs;
                            let rest_v = segs2.split_off(2);
                            proof {
                                assert(rest_v.deep_view() =~= full.segs.subrange(
                                    2,
                                    full.segs.len() as int,
                                ));
                            }
                            let old_ns = Namespace::from_segments(rest_v);
                            let old_qn = QualifiedName::new(&old_ns, ident.clone());
                            let new_qn = QualifiedName::new(ns, rename.clone());
                            if new_qn.same(&old_qn) {
                                Err(
                                    ConvertErrorWithContext(
                                        ConvertError::InfinitelyRecursiveTypedef(new_qn),
                                        Some(ErrorContext::Item(rename.clone())),
                                    ),
                                )
                            } else {
                                let nm = api_name(ns, rename.clone(), &u.attrs);
                                self.apis.push_eliminating_duplicates(
                                    Api::Typedef {
                                        name: nm,
                                        item: TypedefKind::Use {
                                            old: old_qn.clone(),
                                            new_id: rename.clone(),
                                        },
                                        old_tyname: Some(old_qn),
                                        analysis: (),
                                    },
                                );
                                Ok(())
                            }
                        }
                    },
                    UseTree::Path { segment: _, rest: _ } => {
                        proof {
                            assert(use_tree_view(*terminal).segs.len() > 0);
                        }
                        Ok(())
                    },
                }
            },
            Item::Const(c) => {
                let nm = api_name(ns, c.ident.clone(), &c.attrs);
                self.apis.push_eliminating_duplicates(
                    Api::Const { name: nm, const_item: c.clone() },
                );
                Ok(())
            },
            Item::TypeAlias(t) => {
                let nm = api_name(ns, t.ident.clone(), &t.attrs);
                self.apis.push_eliminating_duplicates(
                    Api::Typedef {
                        name: nm,
                        item: TypedefKind::Type(t.clone()),
                        old_tyname: None,
                        analysis: (),
                    },
                );
                Ok(())
            },
            Item::Other => Err(
                ConvertErrorWithContext(ConvertError::UnexpectedItemInMod, None),
            ),
        }
    }

    /// Walks one namespace's items: parses each under error isolation,
    /// appends the ignored items collected aside, then finalizes the
    /// namespace's foreign declarations.
    fn parse_mod_items(&mut self, items: &Vec<Item>, ns: &Namespace)
        ensures
            final(self).spec_config() == old(self).spec_config(),
            old(self).apis_wf() ==> final(self).apis_wf(),
            ({
                let st1 = spec_parse_mod_items(
                    items_view(items@),
                    ns@,
                    old(self).spec_config(),
                    PState { apis: old(self).spec_apis(), diags: old(self).spec_diags() },
                );
                final(self).spec_apis() == st1.apis && final(self).spec_diags() == st1.diags
            }),
        decreases items_view(items@), items@.len() + 2int,
    {
        let ghost iv = items_view(items@);
        let ghost cfg = self.config@;
        let ghost w0 = WalkState {
            st: PState { apis: self.spec_apis(), diags: self.spec_diags() },
            more: Seq::<AView>::empty(),
            funs: Seq::<ForeignFnView>::empty(),
            recvs: Seq::<MethodReceiverView>::empty(),
        };
        proof {
            lemma_items_view(items@);
        }
        let mut mod_converter = ParseForeignMod::new(ns.clone());
        let mut more_apis = ApiVec::<NullPhase>::new();
        let mut i: usize = 0;
        while i < items.len()
            invariant
                i <= items.len(),
                iv == items_view(items@),
                iv.len() == items@.len(),
                forall|j: int| 0 <= j < iv.len() ==> iv[j] == item_view(items@[j]),
                cfg == self.config@,
                cfg == old(self).spec_config(),
                mod_converter@.ns == ns@,
                more_apis.wf(),
                old(self).apis_wf() ==> self.apis_wf(),
                spec_walk_items(iv, 0, ns@, cfg, w0) == spec_walk_items(
                    iv,
                    i as int,
                    ns@,
                    cfg,
                    WalkState {
                        st: PState { apis: self.spec_apis(), diags: self.spec_diags() },
                        more: more_apis@,
                        funs: mod_converter@.funs,
                        recvs: mod_converter@.recvs,
                    },
                ),
            decreases items.len() - i,
        {
            let ghost wcur = WalkState {
                st: PState { apis: self.spec_apis(), diags: self.spec_diags() },
                more: more_apis@,
                funs: mod_converter@.funs,
                recvs: mod_converter@.recvs,
            };
            proof {
                assert(iv[i as int] == item_view(items@[i as int]));
                assert(decreases_to!(iv => iv[i as int]));
            }
            let result = self.parse_item(&items[i], &mut mod_converter, ns);
            let ghost m0 = ItemState { st: wcur.st, funs: wcur.funs, recvs: wcur.recvs };
            let ghost sp = spec_parse_item(iv[i as int], ns@, cfg, m0);
            report_any_error(ns, &mut more_apis, &mut self.diags, result);
            proof {
                let wnext = WalkState {
                    st: PState { apis: self.spec_apis(), diags: self.spec_diags() },
                    more: more_apis@,
                    funs: mod_converter@.funs,
                    recvs: mod_converter@.recvs,
                };
                match sp {
                    Ok(m1) => {
                        assert(wnext == walk_step(iv[i as int], ns@, cfg, wcur));
                    },
                    Err(ec) => {
                        assert(wnext == walk_step(iv[i as int], ns@, cfg, wcur));
                    },
                }
            }
            i += 1;
        }
        let ghost w1 = spec_walk_items(iv, 0, ns@, cfg, w0);
        proof {
            assert(w1 == (WalkState {
                st: PState { apis: self.spec_apis(), diags: self.spec_diags() },
                more: more_apis@,
                funs: mod_converter@.funs,
                recvs: mod_converter@.recvs,
            }));
        }
        self.apis.append(more_apis);
        mod_converter.finished(&mut self.apis);
    }

    /// Checks that every must-generate directive is satisfied by some
    /// produced entry's external spelling.
    fn confirm_all_generate_directives_obeyed(&self) -> (r: Result<(), ConvertError>)
        ensures
            match spec_first_unmet_directive(
                self.spec_apis(),
                self.spec_config().must_generate,
            ) {
                None => r is Ok,
                Some(d) => r is Err && r->Err_0@ == ErrView::DidNotGenerateAnything(d),
            },
    {
        let ghost cfg = self.config@;
        let mut names: Vec<String> = Vec::new();
        let mut i: usize = 0;
        while i < self.apis.len()
            invariant
                i <= self.spec_apis().len(),
                names.deep_view().len() == i,
                forall|j: int|
                    0 <= j < i ==> names.deep_view()[j] == cpp_name_of(
                        api_qname(self.spec_apis()[j]).ns,
                        api_qname(self.spec_apis()[j]).id,
                    ),
            decreases self.spec_apis().len() - i,
        {
            let ghost pre = names.deep_view();
            let n = self.apis.get(i).name().to_cpp_name();
            names.push(n);
            proof {
                assert(names.deep_view() =~= pre.push(names@.last()@));
            }
            i += 1;
        }
        let ghost dirs = cfg.must_generate;
        let mut d: usize = 0;
        proof {
            assert(dirs.subrange(0, dirs.len() as int) =~= dirs);
        }
        while d < self.config.must_generate.len()
            invariant
                d <= dirs.len(),
                cfg == self.config@,
                dirs == cfg.must_generate,
                names.deep_view().len() == self.spec_apis().len(),
                forall|j: int|
                    0 <= j < names.deep_view().len() ==> names.deep_view()[j] == cpp_name_of(
                        api_qname(self.spec_apis()[j]).ns,
                        api_qname(self.spec_apis()[j]).id,
                    ),
                spec_first_unmet_directive(self.spec_apis(), dirs)
                    == spec_first_unmet_directive(
                    self.spec_apis(),
                    dirs.subrange(d as int, dirs.len() as int),
                ),
            decreases self.config.must_generate.len() - d,
        {
            let ghost tail = dirs.subrange(d as int, dirs.len() as int);
            proof {
                assert(tail[0] == dirs[d as int]);
                assert(tail.drop_first() =~= dirs.subrange(d + 1 as int, dirs.len() as int));
            }
            let dir = &self.config.must_generate[d];
            proof {
                assert(dir@ == dirs[d as int]);
            }
            let found = vec_contains_string(&names, dir);
            proof {
                if found {
                    let j = choose|j: int|
                        0 <= j < names.deep_view().len() && names.deep_view()[j] == dir@;
                    assert(cpp_name_of(
                        api_qname(self.spec_apis()[j]).ns,
                        api_qname(self.spec_apis()[j]).id,
                    ) == dir@);
                    assert(api_names_contain(self.spec_apis(), dir@));
                } else {
                    if api_names_contain(self.spec_apis(), dir@) {
                        let j = choose|j: int|
                            0 <= j < self.spec_apis().len() && cpp_name_of(
                                api_qname(self.spec_apis()[j]).ns,
                                api_qname(self.spec_apis()[j]).id,
                            ) == dir@;
                        assert(names.deep_view()[j] == dir@);
                        assert(names.deep_view().contains(dir@));
                        assert(false);
                    }
                }
            }
            if !found {
                return Err(ConvertError::DidNotGenerateAnything(dir.clone()));
            }
            d += 1;
        }
        proof {
            assert(dirs.subrange(dirs.len() as int, dirs.len() as int)
                =~= Seq::<Seq<char>>::empty());
        }
        Ok(())
    }

    /// Parses the translator's whole output: unwraps the root wrapper,
    /// seeds the utility and configuration entries, walks the item tree,
    /// and checks the must-generate directives.  A run with per-item
    /// errors still succeeds, its output documenting each skip; only a
    /// structural error or an unsatisfied directive fails the parse, and
    /// then no partial output is returned.
    ///
    /// The contract equates the result with a function of the input tree
    /// and the configuration alone, so the produced list — its content and
    /// its order: seeded entries first, then the namespace walk in
    /// pre-order, each namespace's ignored items and synthesized functions
    /// trailing its own items — is identical on every run.
    pub fn parse_items(self, items: &Vec<Item>) -> (r: Result<ParseOutput, ConvertError>)
        requires
            self.spec_apis() == Seq::<AView>::empty(),
            self.spec_diags() == Seq::<DiagView>::empty(),
            config_wf(self.spec_config()),
        ensures
            match spec_parse_items(items_view(items@), self.spec_config()) {
                Ok(out) => r is Ok && r->Ok_0.apis@ == out.0 && r->Ok_0.diags.deep_view()
                    == out.1 && r->Ok_0.apis.wf(),
                Err(e) => r is Err && r->Err_0@ == e,
            },
    {
        let ghost cfg = self.spec_config();
        let mut this = self;
        let found = Self::find_items_in_root(items);
        let inner_opt = match found {
            Err(e) => {
                return Err(e);
            },
            Ok(o) => o,
        };
        if !this.config.exclude_utilities() {
            generate_utilities(&mut this.apis, &this.config);
            proof {
                assert(this.spec_apis() =~= seq![utility_api(cfg)]);
            }
        }
        this.add_apis_from_config();
        let root_ns = Namespace::new();
        let ghost seeded_state = PState { apis: seeded_apis(cfg), diags: Seq::empty() };
        match inner_opt {
            Some(inner) => {
                this.parse_mod_items(inner, &root_ns);
            },
            None => {
                proof {
                    let st1 = spec_parse_mod_items(
                        Seq::<ItemView>::empty(),
                        root_ns@,
                        cfg,
                        seeded_state,
                    );
                    assert(st1.apis =~= seeded_state.apis);
                    assert(st1.diags =~= seeded_state.diags);
                }
            },
        }
        match this.confirm_all_generate_directives_obeyed() {
            Err(e) => Err(e),
            Ok(_) => Ok(ParseOutput { apis: this.apis, diags: this.diags }),
        }
    }

}

/// Law: a renaming alias whose reconstructed old name equals its new name
/// always yields the recoverable infinitely-recursive-alias error,
/// attributed to the new name, and changes nothing.
pub proof fn lemma_recursive_alias_rejected(u: UseDeclView, ns: Seq<Seq<char>>, m: ItemState)
    requires
        u.tree.terminal matches UseTerminalView::Rename { ident, rename },
        u.tree.segs.len() >= 2,
        u.tree.segs[0] == "self"@,
        u.tree.segs[1] == "super"@,
        (QnView { ns, id: u.tree.terminal->Rename_rename }) == (QnView {
            ns: u.tree.segs.subrange(2, u.tree.segs.len() as int),
            id: u.tree.terminal->Rename_ident,
        }),
    ensures
        spec_parse_use(u, ns, m) == Err::<ItemState, _>(
            (
                ErrView::InfinitelyRecursiveTypedef(
                    QnView { ns, id: u.tree.terminal->Rename_rename },
                ),
                Some(CtxView::Item(u.tree.terminal->Rename_rename)),
            ),
        ),
{
}

/// Law: a struct one of whose fields carries the `_unused` sentinel is
/// never recorded as a full Struct entry; where it is recorded at all, it
/// is recorded as a ForwardDeclaration.
pub proof fn lemma_sentinel_never_full_struct(
    s: StructItemView,
    ns: Seq<Seq<char>>,
    cfg: ConfigView,
    m: ItemState,
)
    requires
        spec_spot_forward_declaration(s.fields),
    ensures
        match spec_parse_struct(s, ns, cfg, m) {
            Ok(m1) => m1.st.apis == m.st.apis || m1.st.apis == dedup_push(
                m.st.apis,
                AView::ForwardDeclaration { name: spec_api_name(ns, s.ident, s.attrs) },
            ),
            Err(_) => true,
        },
{
}

/// Law: a struct named like a declared pass-through type, in the root
/// namespace, is dropped entirely: no entry of any kind is recorded for
/// it.
pub proof fn lemma_rust_type_struct_dropped(
    s: StructItemView,
    ns: Seq<Seq<char>>,
    cfg: ConfigView,
    m: ItemState,
)
    requires
        ns.len() == 0,
        spec_is_rust_type(cfg, s.ident),
        !is_vtable_ident(s.ident),
        !forbidden_ident(s.ident),
    ensures
        spec_parse_struct(s, ns, cfg, m) == Ok::<ItemState, (ErrView, Option<CtxView>)>(m),
{
}

/// Law: for every declared pass-through type the seeding injects a
/// RustType entry bearing that type's name.
pub proof fn lemma_rust_type_emitted(cfg: ConfigView, i: int)
    requires
        0 <= i < cfg.rust_types.len(),
    ensures
        config_apis(cfg)[cfg.subclasses.len() + cfg.extern_rust_funs.len() + i]
            == rust_type_api(cfg.rust_types[i]),
{
}

} // verus!
