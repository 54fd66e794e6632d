//! The shape of an attribute: its style, its payload grammar and literals,
//! each with a mathematical view and a decidable structural equality.

use vstd::prelude::*;

verus! {

/// Whether an attribute decorates the item that follows it or the item that
/// contains it.
#[derive(Clone, Copy, Debug, PartialEq, Eq, Structural)]
pub enum AttrStyle {
    Outer,
    Inner,
}

/// How a string literal was written.
#[derive(Clone, Copy, Debug, PartialEq, Eq, Structural)]
pub enum StrStyle {
    Cooked,
    /// A raw string, with the number of `#` symbols around it.
    Raw(usize),
}

/// The suffix of an integer literal.
#[derive(Clone, Copy, Debug, PartialEq, Eq, Structural)]
pub enum IntTy {
    Isize,
    I8,
    I16,
    I32,
    I64,
    Usize,
    U8,
    U16,
    U32,
    U64,
    Unsuffixed,
}

/// The suffix of a floating-point literal.
#[derive(Clone, Copy, Debug, PartialEq, Eq, Structural)]
pub enum FloatTy {
    F32,
    F64,
    Unsuffixed,
}

/// A literal value inside an attribute.
#[derive(Debug)]
pub enum Lit {
    Str(String, StrStyle),
    ByteStr(Vec<u8>, StrStyle),
    Byte(u8),
    Char(char),
    Int(u64, IntTy),
    /// The digits of a floating-point literal, kept as written.
    Float(String, FloatTy),
    Bool(bool),
}

/// The mathematical value of a [`Lit`].
pub ghost enum LitView {
    Str(Seq<char>, StrStyle),
    ByteStr(Seq<u8>, StrStyle),
    Byte(u8),
    Char(char),
    Int(u64, IntTy),
    Float(Seq<char>, FloatTy),
    Bool(bool),
}

impl View for Lit {
    type V = LitView;

    open spec fn view(&self) -> LitView {
        match *self {
            Lit::Str(s, style) => LitView::Str(s@, style),
            Lit::ByteStr(b, style) => LitView::ByteStr(b@, style),
            Lit::Byte(b) => LitView::Byte(b),
            Lit::Char(c) => LitView::Char(c),
            Lit::Int(n, ty) => LitView::Int(n, ty),
            Lit::Float(s, ty) => LitView::Float(s@, ty),
            Lit::Bool(b) => LitView::Bool(b),
        }
    }
}

/// The payload of an attribute: a bare word, a name with nested arguments, or
/// a name paired with a literal.
#[derive(Debug)]
pub enum MetaItem {
    Word(String),
    List(String, Vec<NestedMetaItem>),
    NameValue(String, Lit),
}

/// One argument of a list payload.
#[derive(Debug)]
pub enum NestedMetaItem {
    MetaItem(MetaItem),
    Literal(Lit),
}

/// The mathematical value of a [`MetaItem`].
pub ghost enum MetaItemView {
    Word(Seq<char>),
    List(Seq<char>, Seq<NestedMetaItemView>),
    NameValue(Seq<char>, LitView),
}

/// The mathematical value of a [`NestedMetaItem`].
pub ghost enum NestedMetaItemView {
    MetaItem(MetaItemView),
    Literal(LitView),
}

impl View for MetaItem {
    type V = MetaItemView;

    open spec fn view(&self) -> MetaItemView
        decreases self,
    {
        match self {
            MetaItem::Word(name) => MetaItemView::Word(name@),
            MetaItem::List(name, args) => MetaItemView::List(name@, args_view(*args)),
            MetaItem::NameValue(name, lit) => MetaItemView::NameValue(name@, lit@),
        }
    }
}

impl View for NestedMetaItem {
    type V = NestedMetaItemView;

    open spec fn view(&self) -> NestedMetaItemView
        decreases self,
    {
        match self {
            NestedMetaItem::MetaItem(m) => NestedMetaItemView::MetaItem(m@),
            NestedMetaItem::Literal(l) => NestedMetaItemView::Literal(l@),
        }
    }
}

/// The views of a list payload's arguments, in order. Every position that
/// the sequence has lies inside `args`; the test on `i` serves only to show
/// that the recursion through the arguments ends.
pub open spec fn args_view(args: Vec<NestedMetaItem>) -> Seq<NestedMetaItemView>
    decreases args,
{
    Seq::new(
        args.len() as nat,
        |i: int|
            if 0 <= i < args.len() {
                args[i]@
            } else {
                arbitrary()
            },
    )
}

/// Structural equality of two literals.
fn lit_eq(a: &Lit, b: &Lit) -> (r: bool)
    ensures
        r == (a@ == b@),
{
    match (a, b) {
        (Lit::Str(x, sx), Lit::Str(y, sy)) => *x == *y && *sx == *sy,
        (Lit::ByteStr(x, sx), Lit::ByteStr(y, sy)) => bytes_eq(x, y) && *sx == *sy,
        (Lit::Byte(x), Lit::Byte(y)) => *x == *y,
        (Lit::Char(x), Lit::Char(y)) => *x == *y,
        (Lit::Int(x, tx), Lit::Int(y, ty)) => *x == *y && *tx == *ty,
        (Lit::Float(x, tx), Lit::Float(y, ty)) => *x == *y && *tx == *ty,
        (Lit::Bool(x), Lit::Bool(y)) => *x == *y,
        _ => false,
    }
}

/// Whether two byte strings hold the same bytes.
fn bytes_eq(a: &Vec<u8>, b: &Vec<u8>) -> (r: bool)
    ensures
        r == (a@ == b@),
{
    if a.len() != b.len() {
        return false;
    }
    let mut i: usize = 0;
    while i < a.len()
        invariant
            a.len() == b.len(),
            i <= a.len(),
            forall|j: int| 0 <= j < i ==> a@[j] == b@[j],
        decreases a.len() - i,
    {
        if a[i] != b[i] {
            return false;
        }
        i += 1;
    }
    assert(a@ =~= b@);
    true
}

/// Structural equality of two payloads.
pub(crate) fn meta_eq(a: &MetaItem, b: &MetaItem) -> (r: bool)
    ensures
        r == (a@ == b@),
    decreases a, 1int,
{
    match (a, b) {
        (MetaItem::Word(x), MetaItem::Word(y)) => *x == *y,
        (MetaItem::List(x, xs), MetaItem::List(y, ys)) => *x == *y && args_eq(xs, ys),
        (MetaItem::NameValue(x, lx), MetaItem::NameValue(y, ly)) => *x == *y && lit_eq(lx, ly),
        _ => false,
    }
}

/// Structural equality of two nested arguments.
fn nested_eq(a: &NestedMetaItem, b: &NestedMetaItem) -> (r: bool)
    ensures
        r == (a@ == b@),
    decreases a, 1int,
{
    match (a, b) {
        (NestedMetaItem::MetaItem(x), NestedMetaItem::MetaItem(y)) => meta_eq(x, y),
        (NestedMetaItem::Literal(x), NestedMetaItem::Literal(y)) => lit_eq(x, y),
        _ => false,
    }
}

/// Whether two argument lists have the same length and equal arguments at
/// every position.
fn args_eq(xs: &Vec<NestedMetaItem>, ys: &Vec<NestedMetaItem>) -> (r: bool)
    ensures
        r == (args_view(*xs) == args_view(*ys)),
    decreases xs, 0int,
{
    if xs.len() != ys.len() {
        assert(args_view(*xs).len() != args_view(*ys).len());
        return false;
    }
    let mut i: usize = 0;
    while i < xs.len()
        invariant
            xs.len() == ys.len(),
            i <= xs.len(),
            forall|j: int| 0 <= j < i ==> xs[j]@ == ys[j]@,
        decreases xs.len() - i,
    {
        if !nested_eq(&xs[i], &ys[i]) {
            assert(args_view(*xs)[i as int] != args_view(*ys)[i as int]);
            return false;
        }
        i += 1;
    }
    assert(args_view(*xs) =~= args_view(*ys));
    true
}

/// A copy of a payload, part for part.
fn meta_clone(a: &MetaItem) -> (r: MetaItem)
    ensures
        r@ == a@,
    decreases a, 1int,
{
    match a {
        MetaItem::Word(name) => MetaItem::Word(name.clone()),
        MetaItem::List(name, args) => MetaItem::List(name.clone(), args_clone(args)),
        MetaItem::NameValue(name, lit) => MetaItem::NameValue(name.clone(), lit.clone()),
    }
}

/// A copy of a nested argument.
fn nested_clone(a: &NestedMetaItem) -> (r: NestedMetaItem)
    ensures
        r@ == a@,
    decreases a, 1int,
{
    match a {
        NestedMetaItem::MetaItem(m) => NestedMetaItem::MetaItem(meta_clone(m)),
        NestedMetaItem::Literal(l) => NestedMetaItem::Literal(l.clone()),
    }
}

/// A copy of an argument list, in the same order.
fn args_clone(xs: &Vec<NestedMetaItem>) -> (r: Vec<NestedMetaItem>)
    ensures
        args_view(r) == args_view(*xs),
    decreases xs, 0int,
{
    let mut r: Vec<NestedMetaItem> = Vec::new();
    let mut i: usize = 0;
    while i < xs.len()
        invariant
            i <= xs.len(),
            r.len() == i,
            forall|j: int| 0 <= j < i ==> r[j]@ == xs[j]@,
        decreases xs.len() - i,
    {
        r.push(nested_clone(&xs[i]));
        i += 1;
    }
    assert(args_view(r) =~= args_view(*xs));
    r
}

impl Clone for Lit {
    fn clone(&self) -> (r: Lit)
        ensures
            r@ == self@,
    {
        match self {
            Lit::Str(s, style) => Lit::Str(s.clone(), *style),
            Lit::ByteStr(b, style) => Lit::ByteStr(b.clone(), *style),
            Lit::Byte(b) => Lit::Byte(*b),
            Lit::Char(c) => Lit::Char(*c),
            Lit::Int(n, ty) => Lit::Int(*n, *ty),
            Lit::Float(s, ty) => Lit::Float(s.clone(), *ty),
            Lit::Bool(b) => Lit::Bool(*b),
        }
    }
}

impl Clone for MetaItem {
    fn clone(&self) -> (r: MetaItem)
        ensures
            r@ == self@,
    {
        meta_clone(self)
    }
}

impl Clone for NestedMetaItem {
    fn clone(&self) -> (r: NestedMetaItem)
        ensures
            r@ == self@,
    {
        nested_clone(self)
    }
}

impl PartialEq for Lit {
    fn eq(&self, other: &Lit) -> (r: bool) {
        lit_eq(self, other)
    }
}

impl vstd::std_specs::cmp::PartialEqSpecImpl for Lit {
    open spec fn obeys_eq_spec() -> bool {
        true
    }

    open spec fn eq_spec(&self, other: &Lit) -> bool {
        self@ == other@
    }
}

impl Eq for Lit {
}

impl PartialEq for MetaItem {
    fn eq(&self, other: &MetaItem) -> (r: bool) {
        meta_eq(self, other)
    }
}

impl vstd::std_specs::cmp::PartialEqSpecImpl for MetaItem {
    open spec fn obeys_eq_spec() -> bool {
        true
    }

    open spec fn eq_spec(&self, other: &MetaItem) -> bool {
        self@ == other@
    }
}

impl Eq for MetaItem {
}

impl PartialEq for NestedMetaItem {
    fn eq(&self, other: &NestedMetaItem) -> (r: bool) {
        nested_eq(self, other)
    }
}

impl vstd::std_specs::cmp::PartialEqSpecImpl for NestedMetaItem {
    open spec fn obeys_eq_spec() -> bool {
        true
    }

    open spec fn eq_spec(&self, other: &NestedMetaItem) -> bool {
        self@ == other@
    }
}

impl Eq for NestedMetaItem {
}

/// A structured annotation on a declaration.
#[derive(Debug)]
pub struct Attribute {
    pub style: AttrStyle,
    pub value: MetaItem,
    /// Set where the attribute was written as a documentation comment.
    pub is_sugared_doc: bool,
}

/// The mathematical value of an [`Attribute`].
pub ghost struct AttributeView {
    pub style: AttrStyle,
    pub value: MetaItemView,
    pub is_sugared_doc: bool,
}

impl View for Attribute {
    type V = AttributeView;

    open spec fn view(&self) -> AttributeView {
        AttributeView {
            style: self.style,
            value: self.value@,
            is_sugared_doc: self.is_sugared_doc,
        }
    }
}

impl Clone for Attribute {
    fn clone(&self) -> (r: Attribute)
        ensures
            r@ == self@,
    {
        Attribute {
            style: self.style,
            value: self.value.clone(),
            is_sugared_doc: self.is_sugared_doc,
        }
    }
}

impl PartialEq for Attribute {
    fn eq(&self, other: &Attribute) -> (r: bool) {
        self.style == other.style && meta_eq(&self.value, &other.value) && self.is_sugared_doc
            == other.is_sugared_doc
    }
}

impl vstd::std_specs::cmp::PartialEqSpecImpl for Attribute {
    open spec fn obeys_eq_spec() -> bool {
        true
    }

    open spec fn eq_spec(&self, other: &Attribute) -> bool {
        self@ == other@
    }
}

impl Eq for Attribute {
}

} // verus!
