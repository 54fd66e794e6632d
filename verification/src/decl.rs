//! Attribute queries on declarations: marker presence, layout representation
//! and documentation text, offered alike by every kind of declaration.

use vstd::prelude::*;
use vstd::string::StringExecFns;
use crate::meta::{
    args_view, meta_eq, AttrStyle, Attribute, AttributeView, Lit, LitView, MetaItem, MetaItemView,
    NestedMetaItem, NestedMetaItemView,
};
use crate::repr::Repr;

verus! {

/// The views of a sequence of attributes, in the same order.
pub open spec fn attr_views(attrs: Seq<Attribute>) -> Seq<AttributeView> {
    attrs.map_values(|a: Attribute| a@)
}

/// Whether some outer attribute among `attrs` has exactly the payload
/// `target`. Inner attributes never count.
pub open spec fn has_marker(attrs: Seq<AttributeView>, target: MetaItemView) -> bool {
    exists|i: int|
        0 <= i < attrs.len() && (#[trigger] attrs[i]).style == AttrStyle::Outer && attrs[i].value
            == target
}

/// The bare-word payload `name`.
pub open spec fn word_marker(name: Seq<char>) -> MetaItemView {
    MetaItemView::Word(name)
}

/// The payload `repr(layout)`.
pub open spec fn repr_marker(layout: Seq<char>) -> MetaItemView {
    MetaItemView::List("repr"@, seq![NestedMetaItemView::MetaItem(MetaItemView::Word(layout))])
}

/// The representation that `attrs` ask for: the first of C, u32, u16 and u8
/// whose marker is present, whatever the order of the attributes, and
/// `Repr::Unmarked` where none is.
pub open spec fn representation(attrs: Seq<AttributeView>) -> Repr {
    if has_marker(attrs, repr_marker("C"@)) {
        Repr::C
    } else if has_marker(attrs, repr_marker("u32"@)) {
        Repr::U32
    } else if has_marker(attrs, repr_marker("u16"@)) {
        Repr::U16
    } else if has_marker(attrs, repr_marker("u8"@)) {
        Repr::U8
    } else {
        Repr::Unmarked
    }
}

/// The text that one attribute adds to the documentation: its comment line
/// and a line feed where it is an outer documentation comment holding a
/// string, nothing otherwise.
pub open spec fn doc_line(a: AttributeView) -> Seq<char> {
    if a.style == AttrStyle::Outer && a.is_sugared_doc {
        match a.value {
            MetaItemView::NameValue(_, LitView::Str(text, _)) => text.push('\n'),
            _ => Seq::empty(),
        }
    } else {
        Seq::empty()
    }
}

/// The documentation of `attrs`: the lines of its attributes, concatenated in
/// declaration order.
pub open spec fn documentation(attrs: Seq<AttributeView>) -> Seq<char>
    decreases attrs.len(),
{
    if attrs.len() == 0 {
        Seq::empty()
    } else {
        documentation(attrs.drop_last()) + doc_line(attrs.last())
    }
}

/// A declaration without attributes asks for no representation and carries
/// no documentation.
pub proof fn lemma_no_attributes(attrs: Seq<AttributeView>)
    requires
        attrs.len() == 0,
    ensures
        representation(attrs) == Repr::Unmarked,
        documentation(attrs) == Seq::<char>::empty(),
        forall|target: MetaItemView| !has_marker(attrs, target),
{
}

/// An outer `repr(C)` attribute at any position makes the representation C,
/// whatever the other attributes are.
pub proof fn lemma_repr_c_among_others(attrs: Seq<AttributeView>, i: int)
    requires
        0 <= i < attrs.len(),
        attrs[i].style == AttrStyle::Outer,
        attrs[i].value == repr_marker("C"@),
    ensures
        representation(attrs) == Repr::C,
{
}

/// C has priority over u32: a declaration that carries both markers is C.
pub proof fn lemma_repr_c_beats_u32(attrs: Seq<AttributeView>)
    requires
        has_marker(attrs, repr_marker("C"@)),
        has_marker(attrs, repr_marker("u32"@)),
    ensures
        representation(attrs) == Repr::C,
{
}

/// A declaration that carries the u16 marker and neither the C nor the u32
/// marker is tagged with 16 bits.
pub proof fn lemma_repr_u16_alone(attrs: Seq<AttributeView>)
    requires
        has_marker(attrs, repr_marker("u16"@)),
        !has_marker(attrs, repr_marker("C"@)),
        !has_marker(attrs, repr_marker("u32"@)),
    ensures
        representation(attrs) == Repr::U16,
{
}

/// The four layout markers are different payloads, and none of them is the
/// `no_mangle` word.
pub proof fn lemma_markers_differ()
    ensures
        repr_marker("C"@) != repr_marker("u32"@),
        repr_marker("C"@) != repr_marker("u16"@),
        repr_marker("C"@) != repr_marker("u8"@),
        repr_marker("u32"@) != repr_marker("u16"@),
        repr_marker("u32"@) != repr_marker("u8"@),
        repr_marker("u16"@) != repr_marker("u8"@),
        forall|layout: Seq<char>| repr_marker(layout) != word_marker("no_mangle"@),
{
    reveal_strlit("C");
    reveal_strlit("u32");
    reveal_strlit("u16");
    reveal_strlit("u8");
    assert("C"@.len() == 1 && "u32"@.len() == 3 && "u16"@.len() == 3 && "u8"@.len() == 2);
    assert("u32"@[1] != "u16"@[1]);
    assert forall|a: Seq<char>, b: Seq<char>| a != b implies repr_marker(a) != repr_marker(b) by {
        assert(repr_marker(a)->List_1[0]->MetaItem_0->Word_0 == a);
        assert(repr_marker(b)->List_1[0]->MetaItem_0->Word_0 == b);
    }
}

/// An inner attribute never counts: adding one changes no marker query, and
/// so neither the representation, nor the documentation.
pub proof fn lemma_inner_is_ignored(
    attrs: Seq<AttributeView>,
    inner: AttributeView,
    target: MetaItemView,
)
    requires
        inner.style == AttrStyle::Inner,
    ensures
        has_marker(attrs.push(inner), target) == has_marker(attrs, target),
        documentation(attrs.push(inner)) == documentation(attrs),
{
    let more = attrs.push(inner);
    assert(more.drop_last() =~= attrs);
    if has_marker(attrs, target) {
        let i = choose|i: int|
            0 <= i < attrs.len() && (#[trigger] attrs[i]).style == AttrStyle::Outer
                && attrs[i].value == target;
        assert(more[i] == attrs[i]);
    }
    if has_marker(more, target) {
        let i = choose|i: int|
            0 <= i < more.len() && (#[trigger] more[i]).style == AttrStyle::Outer && more[i].value
                == target;
        assert(attrs[i] == more[i]);
    }
}

/// The representation does not depend on the order of the attributes: two
/// declarations that carry the same attributes, in whatever order and
/// however often, ask for the same representation.
pub proof fn lemma_order_is_irrelevant(a: Seq<AttributeView>, b: Seq<AttributeView>)
    requires
        forall|x: AttributeView| a.contains(x) <==> b.contains(x),
    ensures
        forall|target: MetaItemView| has_marker(a, target) == has_marker(b, target),
        representation(a) == representation(b),
{
    assert forall|target: MetaItemView| has_marker(a, target) == has_marker(b, target) by {
        lemma_marker_carried_over(a, b, target);
        lemma_marker_carried_over(b, a, target);
    }
}

/// A marker found in `a` is found in every `b` that holds all of `a`'s
/// attributes.
proof fn lemma_marker_carried_over(
    a: Seq<AttributeView>,
    b: Seq<AttributeView>,
    target: MetaItemView,
)
    requires
        forall|x: AttributeView| a.contains(x) ==> b.contains(x),
    ensures
        has_marker(a, target) ==> has_marker(b, target),
{
    if has_marker(a, target) {
        let i = choose|i: int|
            0 <= i < a.len() && (#[trigger] a[i]).style == AttrStyle::Outer && a[i].value
                == target;
        assert(a.contains(a[i]));
        let j = choose|j: int| 0 <= j < b.len() && b[j] == a[i];
        assert(b[j].style == AttrStyle::Outer && b[j].value == target);
    }
}

/// Documentation is read in declaration order: that of two runs of
/// attributes, one behind the other, is that of the first followed by that
/// of the second.
pub proof fn lemma_documentation_concat(a: Seq<AttributeView>, b: Seq<AttributeView>)
    ensures
        documentation(a + b) == documentation(a) + documentation(b),
    decreases b.len(),
{
    if b.len() == 0 {
        assert(a + b =~= a);
        assert(documentation(a) + documentation(b) =~= documentation(a));
    } else {
        assert((a + b).drop_last() =~= a + b.drop_last());
        assert((a + b).last() == b.last());
        lemma_documentation_concat(a, b.drop_last());
        assert(documentation(a + b) =~= documentation(a) + documentation(b));
    }
}

/// Whether some outer attribute of `attrs` equals `target`.
pub fn attrs_have(attrs: &Vec<Attribute>, target: &MetaItem) -> (found: bool)
    ensures
        found == has_marker(attr_views(attrs@), target@),
{
    let mut i: usize = 0;
    while i < attrs.len()
        invariant
            i <= attrs.len(),
            forall|j: int|
                0 <= j < i ==> !((#[trigger] attr_views(attrs@)[j]).style == AttrStyle::Outer
                    && attr_views(attrs@)[j].value == target@),
        decreases attrs.len() - i,
    {
        if attrs[i].style == AttrStyle::Outer && meta_eq(&attrs[i].value, target) {
            assert(attr_views(attrs@)[i as int] == attrs[i as int]@);
            return true;
        }
        i += 1;
    }
    false
}

/// The documentation text carried by `attrs`.
pub fn attrs_doc(attrs: &Vec<Attribute>) -> (doc: String)
    ensures
        doc@ == documentation(attr_views(attrs@)),
{
    let mut doc = String::new();
    let mut i: usize = 0;
    while i < attrs.len()
        invariant
            i <= attrs.len(),
            doc@ == documentation(attr_views(attrs@).take(i as int)),
        decreases attrs.len() - i,
    {
        let attr = &attrs[i];
        proof {
            let views = attr_views(attrs@);
            assert(views.take(i + 1).drop_last() =~= views.take(i as int));
            assert(views.take(i + 1).last() == attr@);
        }
        if attr.style == AttrStyle::Outer && attr.is_sugared_doc {
            if let MetaItem::NameValue(_, Lit::Str(comment, _)) = &attr.value {
                doc.append(comment.as_str());
                doc.append("\n");
                proof {
                    reveal_strlit("\n");
                    assert(doc@ =~= documentation(attr_views(attrs@).take(i as int))
                        + comment@.push('\n'));
                }
            }
        }
        i += 1;
    }
    assert(attr_views(attrs@).take(attrs.len() as int) =~= attr_views(attrs@));
    doc
}

/// Builds the payload `repr(layout)`.
fn repr_target(layout: &str) -> (target: MetaItem)
    ensures
        target@ == repr_marker(layout@),
{
    let args = vec![NestedMetaItem::MetaItem(MetaItem::Word(String::from_str(layout)))];
    let target = MetaItem::List(String::from_str("repr"), args);
    assert(args_view(args) =~= seq![NestedMetaItemView::MetaItem(MetaItemView::Word(layout@))]);
    target
}

/// The attribute queries that every kind of declaration answers.
pub trait SynItemHelpers {
    /// The declaration's attributes, in declaration order.
    spec fn attributes(&self) -> Seq<AttributeView>;

    /// Whether an outer attribute of the declaration equals `target`.
    fn has_attr(&self, target: MetaItem) -> (found: bool)
        ensures
            found == has_marker(self.attributes(), target@),
    ;

    /// The documentation text of the declaration.
    fn get_doc_attr(&self) -> (doc: String)
        ensures
            doc@ == documentation(self.attributes()),
    ;

    /// Whether the declaration is marked `no_mangle`.
    fn is_no_mangle(&self) -> (found: bool)
        ensures
            found == has_marker(self.attributes(), word_marker("no_mangle"@)),
    {
        self.has_attr(MetaItem::Word(String::from_str("no_mangle")))
    }

    /// Whether the declaration is marked `repr(C)`.
    fn is_repr_c(&self) -> (found: bool)
        ensures
            found == has_marker(self.attributes(), repr_marker("C"@)),
    {
        self.has_attr(repr_target("C"))
    }

    /// Whether the declaration is marked `repr(u32)`.
    fn is_repr_u32(&self) -> (found: bool)
        ensures
            found == has_marker(self.attributes(), repr_marker("u32"@)),
    {
        self.has_attr(repr_target("u32"))
    }

    /// Whether the declaration is marked `repr(u16)`.
    fn is_repr_u16(&self) -> (found: bool)
        ensures
            found == has_marker(self.attributes(), repr_marker("u16"@)),
    {
        self.has_attr(repr_target("u16"))
    }

    /// Whether the declaration is marked `repr(u8)`.
    fn is_repr_u8(&self) -> (found: bool)
        ensures
            found == has_marker(self.attributes(), repr_marker("u8"@)),
    {
        self.has_attr(repr_target("u8"))
    }

    /// The layout representation that the declaration asks for.
    fn get_repr(&self) -> (repr: Repr)
        ensures
            repr == representation(self.attributes()),
    {
        if self.is_repr_c() {
            Repr::C
        } else if self.is_repr_u32() {
            Repr::U32
        } else if self.is_repr_u16() {
            Repr::U16
        } else if self.is_repr_u8() {
            Repr::U8
        } else {
            Repr::Unmarked
        }
    }
}

/// A type-level item: a struct, an enum, a function and the like.
#[derive(Debug)]
pub struct Item {
    pub attrs: Vec<Attribute>,
}

/// An item declared inside a foreign block.
#[derive(Debug)]
pub struct ForeignItem {
    pub attrs: Vec<Attribute>,
}

/// A variant of an enum.
#[derive(Debug)]
pub struct Variant {
    pub attrs: Vec<Attribute>,
}

/// A field of a struct or of an enum variant.
#[derive(Debug)]
pub struct Field {
    pub attrs: Vec<Attribute>,
}

impl Clone for Item {
    fn clone(&self) -> (r: Item)
        ensures
            r.attributes() == self.attributes(),
    {
        let r = Item { attrs: self.attrs.clone() };
        assert(attr_views(r.attrs@) =~= attr_views(self.attrs@));
        r
    }
}

impl SynItemHelpers for Item {
    open spec fn attributes(&self) -> Seq<AttributeView> {
        attr_views(self.attrs@)
    }

    fn has_attr(&self, target: MetaItem) -> (found: bool) {
        attrs_have(&self.attrs, &target)
    }

    fn get_doc_attr(&self) -> (doc: String) {
        attrs_doc(&self.attrs)
    }
}

impl Clone for ForeignItem {
    fn clone(&self) -> (r: ForeignItem)
        ensures
            r.attributes() == self.attributes(),
    {
        let r = ForeignItem { attrs: self.attrs.clone() };
        assert(attr_views(r.attrs@) =~= attr_views(self.attrs@));
        r
    }
}

impl SynItemHelpers for ForeignItem {
    open spec fn attributes(&self) -> Seq<AttributeView> {
        attr_views(self.attrs@)
    }

    fn has_attr(&self, target: MetaItem) -> (found: bool) {
        attrs_have(&self.attrs, &target)
    }

    fn get_doc_attr(&self) -> (doc: String) {
        attrs_doc(&self.attrs)
    }
}

impl Clone for Variant {
    fn clone(&self) -> (r: Variant)
        ensures
            r.attributes() == self.attributes(),
    {
        let r = Variant { attrs: self.attrs.clone() };
        assert(attr_views(r.attrs@) =~= attr_views(self.attrs@));
        r
    }
}

impl SynItemHelpers for Variant {
    open spec fn attributes(&self) -> Seq<AttributeView> {
        attr_views(self.attrs@)
    }

    fn has_attr(&self, target: MetaItem) -> (found: bool) {
        attrs_have(&self.attrs, &target)
    }

    fn get_doc_attr(&self) -> (doc: String) {
        attrs_doc(&self.attrs)
    }
}

impl Clone for Field {
    fn clone(&self) -> (r: Field)
        ensures
            r.attributes() == self.attributes(),
    {
        let r = Field { attrs: self.attrs.clone() };
        assert(attr_views(r.attrs@) =~= attr_views(self.attrs@));
        r
    }
}

impl SynItemHelpers for Field {
    open spec fn attributes(&self) -> Seq<AttributeView> {
        attr_views(self.attrs@)
    }

    fn has_attr(&self, target: MetaItem) -> (found: bool) {
        attrs_have(&self.attrs, &target)
    }

    fn get_doc_attr(&self) -> (doc: String) {
        attrs_doc(&self.attrs)
    }
}

} // verus!
