//! The layout representation that a declaration asks for.

use vstd::prelude::*;

verus! {

/// The binary layout that a declaration requests through a `repr` marker.
#[derive(Clone, Copy, Debug, PartialEq, Eq, Structural)]
pub enum Repr {
    /// No layout marker is present.
    Unmarked,
    /// Laid out as the C language would.
    C,
    /// Tagged with a 32-bit unsigned discriminant.
    U32,
    /// Tagged with a 16-bit unsigned discriminant.
    U16,
    /// Tagged with an 8-bit unsigned discriminant.
    U8,
}

} // verus!
