//! The padding mode of a compound type.

use vstd::prelude::*;

verus! {

/// Whether a compound type's fields are separated by alignment padding.
#[derive(Clone, Copy, PartialEq, Eq, Structural, Debug)]
pub enum Mode {
    /// Fields follow each other without gaps, and nothing follows the last.
    Packed,
    /// Each field starts at a multiple of its alignment, and the type ends at
    /// a multiple of its own.
    Padded,
}

/// A marker indicating that a compound type is laid out without padding.
pub struct Packed;

/// A marker indicating that a compound type is laid out with padding.
pub struct Padded;

/// The set of possible padding modes, as types.
pub trait Padding {
    /// The mode that the marker stands for.
    spec fn mode_of() -> Mode;

    fn mode() -> (m: Mode)
        ensures
            m == Self::mode_of(),
    ;
}

impl Padding for Packed {
    open spec fn mode_of() -> Mode {
        Mode::Packed
    }

    fn mode() -> (m: Mode) {
        Mode::Packed
    }
}

impl Padding for Padded {
    open spec fn mode_of() -> Mode {
        Mode::Padded
    }

    fn mode() -> (m: Mode) {
        Mode::Padded
    }
}

} // verus!
