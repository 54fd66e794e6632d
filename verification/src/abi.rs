//! Linkage markers and the test for C linkage.

use vstd::prelude::*;
use vstd::string::StringExecFns;

verus! {

/// A linkage marker on a function or a foreign block: a named calling
/// convention, or the marker written without a name.
#[derive(Debug)]
pub enum Abi {
    Named(String),
    Rust,
}

impl Clone for Abi {
    fn clone(&self) -> (r: Abi)
        ensures
            r == *self,
    {
        match self {
            Abi::Named(name) => Abi::Named(name.clone()),
            Abi::Rust => Abi::Rust,
        }
    }
}

/// The test for C linkage, on a marker and on a marker that may be absent.
pub trait SynAbiHelpers {
    /// The calling convention that the marker names, where it is present and
    /// names one.
    spec fn linkage_name(&self) -> Option<Seq<char>>;

    /// Whether the marker is present and names exactly `C`: no other case,
    /// no longer or shorter name.
    fn is_c(&self) -> (c: bool)
        ensures
            c == (self.linkage_name() == Some("C"@)),
    ;
}

impl SynAbiHelpers for Abi {
    open spec fn linkage_name(&self) -> Option<Seq<char>> {
        match self {
            Abi::Named(name) => Some(name@),
            Abi::Rust => None,
        }
    }

    fn is_c(&self) -> (c: bool) {
        match self {
            Abi::Named(name) => *name == String::from_str("C"),
            Abi::Rust => false,
        }
    }
}

impl SynAbiHelpers for Option<Abi> {
    open spec fn linkage_name(&self) -> Option<Seq<char>> {
        match self {
            Some(abi) => abi.linkage_name(),
            None => None,
        }
    }

    fn is_c(&self) -> (c: bool) {
        match self {
            Some(abi) => abi.is_c(),
            None => false,
        }
    }
}

} // verus!
