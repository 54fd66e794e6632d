//! Attribute queries over parsed declarations: which layout representation a
//! declaration asks for, what documentation it carries, and whether it is
//! marked for C linkage, together with two small sequence helpers.

pub mod abi;
pub mod decl;
pub mod first_some;
pub mod meta;
pub mod repr;
pub mod skip_map;

pub use abi::{Abi, SynAbiHelpers};
pub use decl::{Field, ForeignItem, Item, SynItemHelpers, Variant};
pub use first_some::find_first_some;
pub use meta::{AttrStyle, Attribute, FloatTy, IntTy, Lit, MetaItem, NestedMetaItem, StrStyle};
pub use repr::Repr;
pub use skip_map::IterHelpers;
