use decl_attrs::{
    AttrStyle, Attribute, Field, ForeignItem, Item, Lit, MetaItem, NestedMetaItem, Repr, StrStyle,
    SynItemHelpers, Variant,
};

fn word(name: &str) -> MetaItem {
    MetaItem::Word(String::from(name))
}

fn repr(layout: &str) -> MetaItem {
    MetaItem::List(String::from("repr"), vec![NestedMetaItem::MetaItem(word(layout))])
}

fn outer(value: MetaItem) -> Attribute {
    Attribute { style: AttrStyle::Outer, value, is_sugared_doc: false }
}

fn inner(value: MetaItem) -> Attribute {
    Attribute { style: AttrStyle::Inner, value, is_sugared_doc: false }
}

fn doc(text: &str) -> Attribute {
    Attribute {
        style: AttrStyle::Outer,
        value: MetaItem::NameValue(
            String::from("doc"),
            Lit::Str(String::from(text), StrStyle::Cooked),
        ),
        is_sugared_doc: true,
    }
}

fn derive_debug() -> Attribute {
    outer(MetaItem::List(String::from("derive"), vec![NestedMetaItem::MetaItem(word("Debug"))]))
}

#[test]
fn no_attributes_give_no_representation_and_no_documentation() {
    let item = Item { attrs: vec![] };
    assert_eq!(item.get_repr(), Repr::Unmarked);
    assert_eq!(item.get_doc_attr(), "");
    assert!(!item.is_no_mangle());
    assert!(!item.is_repr_c());
    assert!(!item.is_repr_u32());
    assert!(!item.is_repr_u16());
    assert!(!item.is_repr_u8());
    assert!(!item.has_attr(word("test")));
}

#[test]
fn every_kind_of_declaration_is_empty_without_attributes() {
    let foreign = ForeignItem { attrs: vec![] };
    let variant = Variant { attrs: vec![] };
    let field = Field { attrs: vec![] };
    assert_eq!(foreign.get_repr(), Repr::Unmarked);
    assert_eq!(variant.get_repr(), Repr::Unmarked);
    assert_eq!(field.get_repr(), Repr::Unmarked);
    assert_eq!(foreign.get_doc_attr(), "");
    assert_eq!(variant.get_doc_attr(), "");
    assert_eq!(field.get_doc_attr(), "");
}

#[test]
fn repr_c_among_unrelated_attributes_is_c() {
    let item = Item { attrs: vec![derive_debug(), outer(repr("C")), outer(word("inline"))] };
    assert_eq!(item.get_repr(), Repr::C);
    assert!(item.is_repr_c());
    assert!(!item.is_repr_u32());
}

#[test]
fn c_beats_u32() {
    let item = Item { attrs: vec![outer(repr("C")), outer(repr("u32"))] };
    assert_eq!(item.get_repr(), Repr::C);
    assert!(item.is_repr_u32());
}

#[test]
fn c_beats_u32_in_either_order() {
    let item = Item { attrs: vec![outer(repr("u32")), outer(repr("C"))] };
    assert_eq!(item.get_repr(), Repr::C);
}

#[test]
fn u16_alone_is_u16() {
    let item = Item { attrs: vec![outer(repr("u16"))] };
    assert_eq!(item.get_repr(), Repr::U16);
}

#[test]
fn each_width_alone_is_its_own_representation() {
    assert_eq!(Item { attrs: vec![outer(repr("u32"))] }.get_repr(), Repr::U32);
    assert_eq!(Item { attrs: vec![outer(repr("u8"))] }.get_repr(), Repr::U8);
    assert_eq!(Variant { attrs: vec![outer(repr("u16"))] }.get_repr(), Repr::U16);
    assert_eq!(Field { attrs: vec![outer(repr("C"))] }.get_repr(), Repr::C);
    assert_eq!(ForeignItem { attrs: vec![outer(repr("u8"))] }.get_repr(), Repr::U8);
}

#[test]
fn wider_tags_have_priority() {
    let all_widths = Item { attrs: vec![outer(repr("u8")), outer(repr("u16")), outer(repr("u32"))] };
    assert_eq!(all_widths.get_repr(), Repr::U32);
    let two_widths = Item { attrs: vec![outer(repr("u8")), outer(repr("u16"))] };
    assert_eq!(two_widths.get_repr(), Repr::U16);
}

#[test]
fn an_unknown_layout_is_no_representation() {
    let item = Item { attrs: vec![outer(repr("u64")), outer(repr("c")), outer(repr("packed"))] };
    assert_eq!(item.get_repr(), Repr::Unmarked);
}

#[test]
fn a_marker_with_more_arguments_does_not_match() {
    let both = MetaItem::List(
        String::from("repr"),
        vec![NestedMetaItem::MetaItem(word("C")), NestedMetaItem::MetaItem(word("u8"))],
    );
    let item = Item { attrs: vec![outer(both)] };
    assert_eq!(item.get_repr(), Repr::Unmarked);
    assert!(!item.is_repr_c());
    assert!(!item.is_repr_u8());
}

#[test]
fn a_marker_under_another_name_does_not_match() {
    let other =
        MetaItem::List(String::from("representation"), vec![NestedMetaItem::MetaItem(word("C"))]);
    let literal = MetaItem::List(
        String::from("repr"),
        vec![NestedMetaItem::Literal(Lit::Str(String::from("C"), StrStyle::Cooked))],
    );
    let item = Item { attrs: vec![outer(other), outer(literal), outer(word("repr"))] };
    assert_eq!(item.get_repr(), Repr::Unmarked);
}

#[test]
fn an_inner_attribute_never_counts() {
    let item = Item { attrs: vec![inner(repr("C")), inner(word("no_mangle"))] };
    assert_eq!(item.get_repr(), Repr::Unmarked);
    assert!(!item.is_repr_c());
    assert!(!item.is_no_mangle());
    assert!(!item.has_attr(repr("C")));
}

#[test]
fn an_inner_marker_does_not_hide_an_outer_one() {
    let item = Item { attrs: vec![inner(repr("C")), outer(repr("u8"))] };
    assert_eq!(item.get_repr(), Repr::U8);
}

#[test]
fn no_mangle_is_found_on_every_kind() {
    assert!(Item { attrs: vec![outer(word("no_mangle"))] }.is_no_mangle());
    assert!(ForeignItem { attrs: vec![derive_debug(), outer(word("no_mangle"))] }.is_no_mangle());
    assert!(Variant { attrs: vec![outer(word("no_mangle"))] }.is_no_mangle());
    assert!(Field { attrs: vec![outer(word("no_mangle"))] }.is_no_mangle());
    assert!(!Item { attrs: vec![outer(word("no_mangles"))] }.is_no_mangle());
    assert!(!Item { attrs: vec![outer(word("No_Mangle"))] }.is_no_mangle());
}

#[test]
fn has_attr_compares_the_whole_payload() {
    let since = MetaItem::NameValue(
        String::from("since"),
        Lit::Str(String::from("1.0"), StrStyle::Cooked),
    );
    let item = Item { attrs: vec![outer(since.clone()), derive_debug()] };
    assert!(item.has_attr(since));
    assert!(!item.has_attr(MetaItem::NameValue(
        String::from("since"),
        Lit::Str(String::from("1.1"), StrStyle::Cooked),
    )));
    assert!(!item.has_attr(MetaItem::NameValue(
        String::from("since"),
        Lit::Str(String::from("1.0"), StrStyle::Raw(0)),
    )));
    assert!(!item.has_attr(word("since")));
    assert!(!item.has_attr(word("derive")));
}

#[test]
fn has_attr_does_not_look_at_the_documentation_flag() {
    let flagged = Attribute { style: AttrStyle::Outer, value: word("no_mangle"), is_sugared_doc: true };
    let item = Item { attrs: vec![flagged] };
    assert!(item.is_no_mangle());
}

#[test]
fn two_documentation_lines_are_joined_in_order() {
    let item = Item { attrs: vec![doc("a"), doc("b")] };
    assert_eq!(item.get_doc_attr(), "a\nb\n");
}

#[test]
fn documentation_is_read_alike_on_every_kind() {
    assert_eq!(ForeignItem { attrs: vec![doc("a"), doc("b")] }.get_doc_attr(), "a\nb\n");
    assert_eq!(Variant { attrs: vec![doc("a"), doc("b")] }.get_doc_attr(), "a\nb\n");
    assert_eq!(Field { attrs: vec![doc("a"), doc("b")] }.get_doc_attr(), "a\nb\n");
}

#[test]
fn documentation_keeps_the_text_as_written() {
    let item = Item { attrs: vec![doc("/// First line"), doc(""), doc("///  - caf\u{e9}")] };
    assert_eq!(item.get_doc_attr(), "/// First line\n\n///  - caf\u{e9}\n");
}

#[test]
fn other_attributes_add_nothing_to_the_documentation() {
    let item = Item {
        attrs: vec![derive_debug(), doc("a"), outer(repr("C")), doc("b"), outer(word("no_mangle"))],
    };
    assert_eq!(item.get_doc_attr(), "a\nb\n");
    assert_eq!(item.get_repr(), Repr::C);
}

#[test]
fn an_unflagged_doc_attribute_is_not_documentation() {
    let mut written_out = doc("a");
    written_out.is_sugared_doc = false;
    let item = Item { attrs: vec![written_out, doc("b")] };
    assert_eq!(item.get_doc_attr(), "b\n");
}

#[test]
fn an_inner_doc_comment_is_not_documentation() {
    let mut module_doc = doc("about the module");
    module_doc.style = AttrStyle::Inner;
    let item = Item { attrs: vec![module_doc, doc("about the item")] };
    assert_eq!(item.get_doc_attr(), "about the item\n");
}

#[test]
fn a_flagged_attribute_without_a_string_adds_nothing() {
    let flagged_word = Attribute { style: AttrStyle::Outer, value: word("doc"), is_sugared_doc: true };
    let flagged_number = Attribute {
        style: AttrStyle::Outer,
        value: MetaItem::NameValue(String::from("doc"), Lit::Bool(true)),
        is_sugared_doc: true,
    };
    let item = Item { attrs: vec![flagged_word, doc("a"), flagged_number] };
    assert_eq!(item.get_doc_attr(), "a\n");
}

#[test]
fn a_raw_string_is_documentation_too() {
    let raw = Attribute {
        style: AttrStyle::Outer,
        value: MetaItem::NameValue(String::from("doc"), Lit::Str(String::from("raw"), StrStyle::Raw(2))),
        is_sugared_doc: true,
    };
    assert_eq!(Item { attrs: vec![raw] }.get_doc_attr(), "raw\n");
}

#[test]
fn a_cloned_declaration_answers_alike() {
    let item = Item { attrs: vec![doc("a"), outer(repr("u32")), outer(word("no_mangle"))] };
    let copy = item.clone();
    assert_eq!(copy.attrs, item.attrs);
    assert_eq!(copy.get_repr(), Repr::U32);
    assert_eq!(copy.get_doc_attr(), "a\n");
    assert!(copy.is_no_mangle());
    assert_eq!(Variant { attrs: vec![doc("v")] }.clone().get_doc_attr(), "v\n");
    assert_eq!(Field { attrs: vec![doc("f")] }.clone().get_doc_attr(), "f\n");
    assert_eq!(ForeignItem { attrs: vec![doc("x")] }.clone().get_doc_attr(), "x\n");
}
