use decl_attrs::{Abi, SynAbiHelpers};

#[test]
fn a_marker_named_c_is_c() {
    assert!(Abi::Named(String::from("C")).is_c());
    assert!(Some(Abi::Named(String::from("C"))).is_c());
}

#[test]
fn an_absent_marker_is_not_c() {
    let marker: Option<Abi> = None;
    assert!(!marker.is_c());
}

#[test]
fn a_lower_case_name_is_not_c() {
    assert!(!Abi::Named(String::from("c")).is_c());
    assert!(!Some(Abi::Named(String::from("c"))).is_c());
}

#[test]
fn a_longer_or_empty_name_is_not_c() {
    assert!(!Abi::Named(String::from("C-unwind")).is_c());
    assert!(!Abi::Named(String::from(" C")).is_c());
    assert!(!Abi::Named(String::new()).is_c());
    assert!(!Some(Abi::Named(String::from("stdcall"))).is_c());
}

#[test]
fn an_unnamed_marker_is_not_c() {
    assert!(!Abi::Rust.is_c());
    assert!(!Some(Abi::Rust).is_c());
}

#[test]
fn a_cloned_marker_answers_alike() {
    let marker = Abi::Named(String::from("C"));
    assert!(marker.clone().is_c());
    assert!(!Abi::Rust.clone().is_c());
}
