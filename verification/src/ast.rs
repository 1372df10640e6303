use vstd::prelude::*;
use vstd::string::StringExecFns;
use crate::types::{clone_strings, clone_opt_string};

verus! {

/// One attribute the translator attached to a declaration.  The translator
/// prefixes its semantic annotations with `bindgen_`; an annotation may
/// carry one literal argument.
pub struct Attr {
    pub name: String,
    pub value: Option<String>,
}

/// Mathematical value of an [`Attr`].
pub ghost struct AttrView {
    pub name: Seq<char>,
    pub value: Option<Seq<char>>,
}

impl View for Attr {
    type V = AttrView;

    open spec fn view(&self) -> AttrView {
        AttrView { name: self.name@, value: self.value.deep_view() }
    }
}

impl DeepView for Attr {
    type V = AttrView;

    open spec fn deep_view(&self) -> AttrView {
        self@
    }
}

impl Clone for Attr {
    fn clone(&self) -> (r: Self)
        ensures
            r@ == self@,
    {
        Attr { name: self.name.clone(), value: clone_opt_string(&self.value) }
    }
}

/// Clones an attribute list, preserving its contents.
pub fn clone_attrs(v: &Vec<Attr>) -> (r: Vec<Attr>)
    ensures
        r.deep_view() == v.deep_view(),
{
    let r = v.clone();
    proof {
        assert forall|i: int| 0 <= i < v@.len() implies r.deep_view()[i] == v.deep_view()[i] by {
            assert(cloned::<Attr>(v@[i], r@[i]));
            assert(r@[i]@ == v@[i]@);
        }
        assert(r.deep_view() =~= v.deep_view());
    }
    r
}

/// One struct field: its identifier (tuple-struct fields have none) and its
/// attributes.
pub struct AstField {
    pub ident: Option<String>,
    pub attrs: Vec<Attr>,
}

/// Mathematical value of an [`AstField`].
pub ghost struct AstFieldView {
    pub ident: Option<Seq<char>>,
    pub attrs: Seq<AttrView>,
}

impl View for AstField {
    type V = AstFieldView;

    open spec fn view(&self) -> AstFieldView {
        AstFieldView { ident: self.ident.deep_view(), attrs: self.attrs.deep_view() }
    }
}

impl DeepView for AstField {
    type V = AstFieldView;

    open spec fn deep_view(&self) -> AstFieldView {
        self@
    }
}

impl Clone for AstField {
    fn clone(&self) -> (r: Self)
        ensures
            r@ == self@,
    {
        AstField { ident: clone_opt_string(&self.ident), attrs: clone_attrs(&self.attrs) }
    }
}

/// Clones a field list, preserving its contents.
pub fn clone_fields(v: &Vec<AstField>) -> (r: Vec<AstField>)
    ensures
        r.deep_view() == v.deep_view(),
{
    let r = v.clone();
    proof {
        assert forall|i: int| 0 <= i < v@.len() implies r.deep_view()[i] == v.deep_view()[i] by {
            assert(cloned::<AstField>(v@[i], r@[i]));
            assert(r@[i]@ == v@[i]@);
        }
        assert(r.deep_view() =~= v.deep_view());
    }
    r
}

/// A struct declaration.
pub struct StructItem {
    pub ident: String,
    pub fields: Vec<AstField>,
    pub attrs: Vec<Attr>,
}

/// Mathematical value of a [`StructItem`].
pub ghost struct StructItemView {
    pub ident: Seq<char>,
    pub fields: Seq<AstFieldView>,
    pub attrs: Seq<AttrView>,
}

impl View for StructItem {
    type V = StructItemView;

    open spec fn view(&self) -> StructItemView {
        StructItemView {
            ident: self.ident@,
            fields: self.fields.deep_view(),
            attrs: self.attrs.deep_view(),
        }
    }
}

impl Clone for StructItem {
    fn clone(&self) -> (r: Self)
        ensures
            r@ == self@,
    {
        StructItem {
            ident: self.ident.clone(),
            fields: clone_fields(&self.fields),
            attrs: clone_attrs(&self.attrs),
        }
    }
}

/// An enum declaration.
pub struct EnumDecl {
    pub ident: String,
    pub attrs: Vec<Attr>,
}

/// Mathematical value of an [`EnumDecl`].
pub ghost struct EnumDeclView {
    pub ident: Seq<char>,
    pub attrs: Seq<AttrView>,
}

impl View for EnumDecl {
    type V = EnumDeclView;

    open spec fn view(&self) -> EnumDeclView {
        EnumDeclView { ident: self.ident@, attrs: self.attrs.deep_view() }
    }
}

impl Clone for EnumDecl {
    fn clone(&self) -> (r: Self)
        ensures
            r@ == self@,
    {
        EnumDecl { ident: self.ident.clone(), attrs: clone_attrs(&self.attrs) }
    }
}

/// A constant declaration.
pub struct ConstDecl {
    pub ident: String,
    pub attrs: Vec<Attr>,
}

/// Mathematical value of a [`ConstDecl`].
pub ghost struct ConstDeclView {
    pub ident: Seq<char>,
    pub attrs: Seq<AttrView>,
}

impl View for ConstDecl {
    type V = ConstDeclView;

    open spec fn view(&self) -> ConstDeclView {
        ConstDeclView { ident: self.ident@, attrs: self.attrs.deep_view() }
    }
}

impl Clone for ConstDecl {
    fn clone(&self) -> (r: Self)
        ensures
            r@ == self@,
    {
        ConstDecl { ident: self.ident.clone(), attrs: clone_attrs(&self.attrs) }
    }
}

/// A plain type-alias declaration (not spelled with `use`).
pub struct TypeAliasDecl {
    pub ident: String,
    pub attrs: Vec<Attr>,
}

/// Mathematical value of a [`TypeAliasDecl`].
pub ghost struct TypeAliasDeclView {
    pub ident: Seq<char>,
    pub attrs: Seq<AttrView>,
}

impl View for TypeAliasDecl {
    type V = TypeAliasDeclView;

    open spec fn view(&self) -> TypeAliasDeclView {
        TypeAliasDeclView { ident: self.ident@, attrs: self.attrs.deep_view() }
    }
}

impl Clone for TypeAliasDecl {
    fn clone(&self) -> (r: Self)
        ensures
            r@ == self@,
    {
        TypeAliasDecl { ident: self.ident.clone(), attrs: clone_attrs(&self.attrs) }
    }
}

/// One function declaration inside a foreign block.
pub struct ForeignFn {
    pub ident: String,
    pub attrs: Vec<Attr>,
}

/// Mathematical value of a [`ForeignFn`].
pub ghost struct ForeignFnView {
    pub ident: Seq<char>,
    pub attrs: Seq<AttrView>,
}

impl View for ForeignFn {
    type V = ForeignFnView;

    open spec fn view(&self) -> ForeignFnView {
        ForeignFnView { ident: self.ident@, attrs: self.attrs.deep_view() }
    }
}

impl DeepView for ForeignFn {
    type V = ForeignFnView;

    open spec fn deep_view(&self) -> ForeignFnView {
        self@
    }
}

impl Clone for ForeignFn {
    fn clone(&self) -> (r: Self)
        ensures
            r@ == self@,
    {
        ForeignFn { ident: self.ident.clone(), attrs: clone_attrs(&self.attrs) }
    }
}

/// An impl block: the receiver type and the methods seen in it.
pub struct ImplBlock {
    pub self_ty: String,
    pub methods: Vec<String>,
}

/// Mathematical value of an [`ImplBlock`].
pub ghost struct ImplBlockView {
    pub self_ty: Seq<char>,
    pub methods: Seq<Seq<char>>,
}

impl View for ImplBlock {
    type V = ImplBlockView;

    open spec fn view(&self) -> ImplBlockView {
        ImplBlockView { self_ty: self.self_ty@, methods: self.methods.deep_view() }
    }
}

/// The shape of an alias (`use`) declaration's tree.
pub enum UseTree {
    /// A path segment followed by the rest of the tree.
    Path { segment: String, rest: Box<UseTree> },
    /// A terminal plain name.
    Name { ident: String },
    /// A terminal renaming, `ident as rename`.
    Rename { ident: String, rename: String },
    /// Any other terminal shape.
    Glob,
}

/// The terminal of a use-tree after its leading path segments.
pub ghost enum UseTerminalView {
    Name(Seq<char>),
    Rename { ident: Seq<char>, rename: Seq<char> },
    Glob,
}

/// Mathematical value of a [`UseTree`]: its leading path segments and its
/// terminal.
pub ghost struct UseTreeView {
    pub segs: Seq<Seq<char>>,
    pub terminal: UseTerminalView,
}

/// The path segments and terminal of a use-tree.
pub open spec fn use_tree_view(t: UseTree) -> UseTreeView
    decreases t,
{
    match t {
        UseTree::Path { segment, rest } => {
            let r = use_tree_view(*rest);
            UseTreeView { segs: seq![segment@] + r.segs, terminal: r.terminal }
        },
        UseTree::Name { ident } => UseTreeView {
            segs: Seq::empty(),
            terminal: UseTerminalView::Name(ident@),
        },
        UseTree::Rename { ident, rename } => UseTreeView {
            segs: Seq::empty(),
            terminal: UseTerminalView::Rename { ident: ident@, rename: rename@ },
        },
        UseTree::Glob => UseTreeView { segs: Seq::empty(), terminal: UseTerminalView::Glob },
    }
}

/// An alias declaration together with its attributes.
pub struct UseDecl {
    pub tree: UseTree,
    pub attrs: Vec<Attr>,
}

/// Mathematical value of a [`UseDecl`].
pub ghost struct UseDeclView {
    pub tree: UseTreeView,
    pub attrs: Seq<AttrView>,
}

impl View for UseDecl {
    type V = UseDeclView;

    open spec fn view(&self) -> UseDeclView {
        UseDeclView { tree: use_tree_view(self.tree), attrs: self.attrs.deep_view() }
    }
}

/// One declaration item in the translator's output tree.
pub enum Item {
    /// A nested module, i.e. a namespace; the translator may emit a module
    /// without a body.
    Mod { ident: String, content: Option<Vec<Item>> },
    /// A foreign-function block.
    ForeignMod { funs: Vec<ForeignFn> },
    Struct(StructItem),
    Enum(EnumDecl),
    Impl(ImplBlock),
    Use(UseDecl),
    Const(ConstDecl),
    TypeAlias(TypeAliasDecl),
    /// Any other kind of item.
    Other,
}

/// Mathematical value of an [`Item`].
pub ghost enum ItemView {
    Mod { ident: Seq<char>, content: Option<Seq<ItemView>> },
    ForeignMod { funs: Seq<ForeignFnView> },
    Struct(StructItemView),
    Enum(EnumDeclView),
    Impl(ImplBlockView),
    Use(UseDeclView),
    Const(ConstDeclView),
    TypeAlias(TypeAliasDeclView),
    Other,
}

/// The mathematical value of one item.
pub open spec fn item_view(item: Item) -> ItemView
    decreases item,
{
    match item {
        Item::Mod { ident, content } => ItemView::Mod {
            ident: ident@,
            content: match content {
                Some(v) => Some(items_view(v@)),
                None => None,
            },
        },
        Item::ForeignMod { funs } => ItemView::ForeignMod { funs: funs.deep_view() },
        Item::Struct(s) => ItemView::Struct(s@),
        Item::Enum(e) => ItemView::Enum(e@),
        Item::Impl(i) => ItemView::Impl(i@),
        Item::Use(u) => ItemView::Use(u@),
        Item::Const(c) => ItemView::Const(c@),
        Item::TypeAlias(t) => ItemView::TypeAlias(t@),
        Item::Other => ItemView::Other,
    }
}

/// The mathematical value of a sequence of items.
pub open spec fn items_view(items: Seq<Item>) -> Seq<ItemView>
    decreases items,
{
    if items.len() == 0 {
        Seq::empty()
    } else {
        seq![item_view(items[0])] + items_view(items.drop_first())
    }
}

/// `items_view` maps the sequence pointwise.
pub proof fn lemma_items_view(items: Seq<Item>)
    ensures
        items_view(items).len() == items.len(),
        forall|i: int| 0 <= i < items.len() ==> items_view(items)[i] == item_view(items[i]),
    decreases items,
{
    if items.len() > 0 {
        lemma_items_view(items.drop_first());
    }
}

/// The first attribute with the given name, and its argument.
pub open spec fn attr_value(attrs: Seq<AttrView>, name: Seq<char>) -> Option<Option<Seq<char>>>
    decreases attrs.len(),
{
    if attrs.len() == 0 {
        None
    } else if attrs[0].name == name {
        Some(attrs[0].value)
    } else {
        attr_value(attrs.drop_first(), name)
    }
}

/// Whether an attribute with the given name is present.
pub open spec fn has_attr(attrs: Seq<AttrView>, name: Seq<char>) -> bool {
    attr_value(attrs, name) is Some
}

/// The translator's original-spelling override, where one was attached.
pub open spec fn attr_original_name(attrs: Seq<AttrView>) -> Option<Seq<char>> {
    match attr_value(attrs, "bindgen_original_name"@) {
        Some(Some(v)) => Some(v),
        _ => None,
    }
}

/// Finds the first attribute with the given name and returns its argument.
pub fn find_attr_value(attrs: &Vec<Attr>, name: &String) -> (r: Option<Option<String>>)
    ensures
        r.deep_view() == attr_value(attrs.deep_view(), name@),
{
    let mut i: usize = 0;
    proof {
        assert(attrs.deep_view().subrange(0, attrs.deep_view().len() as int)
            =~= attrs.deep_view());
    }
    while i < attrs.len()
        invariant
            i <= attrs.len(),
            attr_value(attrs.deep_view(), name@) == attr_value(
                attrs.deep_view().subrange(i as int, attrs.deep_view().len() as int),
                name@,
            ),
        decreases attrs.len() - i,
    {
        let ghost tail = attrs.deep_view().subrange(i as int, attrs.deep_view().len() as int);
        proof {
            assert(tail[0] == attrs.deep_view()[i as int]);
            assert(tail.drop_first() =~= attrs.deep_view().subrange(
                i + 1 as int,
                attrs.deep_view().len() as int,
            ));
        }
        if attrs[i].name == *name {
            return match &attrs[i].value {
                Some(v) => Some(Some(v.clone())),
                None => Some(None),
            };
        }
        i += 1;
    }
    proof {
        assert(attrs.deep_view().subrange(
            attrs.deep_view().len() as int,
            attrs.deep_view().len() as int,
        ) =~= Seq::<AttrView>::empty());
    }
    None
}

/// The translator's original-spelling override, where one was attached.
pub fn get_original_name(attrs: &Vec<Attr>) -> (r: Option<String>)
    ensures
        r.deep_view() == attr_original_name(attrs.deep_view()),
{
    match find_attr_value(attrs, &String::from_str("bindgen_original_name")) {
        Some(Some(v)) => Some(v),
        _ => None,
    }
}

/// Declared visibility of a C++ entity.
#[derive(Debug, PartialEq, Eq, Structural, Clone, Copy)]
pub enum CppVisibility {
    Public,
    Protected,
    Private,
}

/// Declared memory layout of a struct.
#[derive(Debug, PartialEq, Eq, Structural, Clone, Copy)]
pub struct MemoryLayout {
    pub packed: bool,
}

/// The declared visibility, read from the translator's annotation.
pub open spec fn visibility_of(attrs: Seq<AttrView>) -> CppVisibility {
    match attr_value(attrs, "bindgen_cpp_visibility"@) {
        Some(Some(v)) => if v == "protected"@ {
            CppVisibility::Protected
        } else if v == "private"@ {
            CppVisibility::Private
        } else {
            CppVisibility::Public
        },
        _ => CppVisibility::Public,
    }
}

/// The declared layout, read from the translator's annotation.
pub open spec fn layout_of(attrs: Seq<AttrView>) -> Option<MemoryLayout> {
    match attr_value(attrs, "bindgen_layout"@) {
        Some(v) => Some(MemoryLayout { packed: v == Some("packed"@) }),
        None => None,
    }
}

/// Reads the declared visibility from the annotations.
pub fn get_cpp_visibility(attrs: &Vec<Attr>) -> (r: CppVisibility)
    ensures
        r == visibility_of(attrs.deep_view()),
{
    match find_attr_value(attrs, &String::from_str("bindgen_cpp_visibility")) {
        Some(Some(v)) => {
            if v == String::from_str("protected") {
                CppVisibility::Protected
            } else if v == String::from_str("private") {
                CppVisibility::Private
            } else {
                CppVisibility::Public
            }
        },
        _ => CppVisibility::Public,
    }
}

/// Reads the declared layout from the annotations.
pub fn get_layout(attrs: &Vec<Attr>) -> (r: Option<MemoryLayout>)
    ensures
        r == layout_of(attrs.deep_view()),
{
    match find_attr_value(attrs, &String::from_str("bindgen_layout")) {
        Some(v) => {
            let packed = match &v {
                Some(s) => *s == String::from_str("packed"),
                None => false,
            };
            proof {
                assert(packed == (v.deep_view() == Some("packed"@)));
            }
            Some(MemoryLayout { packed })
        },
        None => None,
    }
}

/// Whether any field carries the translator's move-only-reference hint.
pub open spec fn fields_have_rvalue_reference(fields: Seq<AstFieldView>) -> bool {
    exists|i: int| 0 <= i < fields.len() && has_attr(fields[i].attrs, "bindgen_rvalue_reference"@)
}

/// Checks the fields for the translator's move-only-reference hint.
pub fn any_field_rvalue_reference(fields: &Vec<AstField>) -> (r: bool)
    ensures
        r == fields_have_rvalue_reference(fields.deep_view()),
{
    let name = String::from_str("bindgen_rvalue_reference");
    let mut i: usize = 0;
    while i < fields.len()
        invariant
            i <= fields.len(),
            name@ == "bindgen_rvalue_reference"@,
            forall|j: int| 0 <= j < i ==> !has_attr(fields.deep_view()[j].attrs, name@),
        decreases fields.len() - i,
    {
        if find_attr_value(&fields[i].attrs, &name).is_some() {
            proof {
                assert(has_attr(fields.deep_view()[i as int].attrs, name@));
            }
            return true;
        }
        i += 1;
    }
    false
}

} // verus!
