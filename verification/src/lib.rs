//! Layouts of compound types, derived from their structure, and the relation
//! that says when a value of one type may be read as a value of another.

use vstd::prelude::*;

pub mod num;
pub mod padding;
pub mod structure;
pub mod layout;
pub mod compatibility;
pub mod hlist;
pub mod highlevel;
pub mod transmute;

pub use layout::Layout;

verus! {

/// A generic representation of a type.
pub trait Type: transmute::Candidate {
    /// The padding mode of the type.
    type Padding: padding::Padding;

    /// An abstract representation of the type's structure.
    type Representation: hlist::Reflect;
}

} // verus!
