//! Compute the byte-level layout from a representation of a type's structure.

use vstd::prelude::*;
use crate::layout::{
    agrees, derive_field, derive_primitive, derive_within, field_layout, field_valid, fields_valid,
    layout_of, lemma_field_extent, outcome, place, placed, primitive_layout, validate_field,
    Layout, LayoutError, LayoutView, Slot,
};
use crate::num::{is_power_of_two, power_of_two};
use crate::padding::Mode;
use crate::structure::{Field, FieldList, Primitive, Visibility};

verus! {

/// What can be laid out at an offset: a primitive, a field, the fields of a
/// compound type.
pub trait IntoByteLevel {
    /// Whether every alignment that `self` asks for is a power of two.
    spec fn resolvable(&self) -> bool;

    /// The byte-level representation of `self` from offset `offset`, with the
    /// offset behind it and its actual alignment.
    spec fn byte_level(
        &self,
        repr_align: nat,
        repr_packed: Mode,
        visibility: Visibility,
        offset: nat,
    ) -> LayoutView;

    /// Derives `byte_level`. Fails with `InvalidAlignment` where `repr_align`
    /// or an alignment inside `self` is no power of two, and otherwise with
    /// `TooLarge` where the layout would end behind `usize::MAX`.
    fn into_bytelevel(
        &self,
        repr_align: usize,
        repr_packed: Mode,
        visibility: Visibility,
        offset: usize,
    ) -> (r: Result<Layout, LayoutError>)
        ensures
            agrees(
                r,
                outcome(
                    is_power_of_two(repr_align as nat) && self.resolvable(),
                    self.byte_level(repr_align as nat, repr_packed, visibility, offset as nat),
                ),
            ),
    ;
}

/// A primitive is placed as a field of its type would be; `repr_align`
/// belongs to the type around it and leaves the primitive as it is.
impl IntoByteLevel for Primitive {
    open spec fn resolvable(&self) -> bool {
        true
    }

    open spec fn byte_level(
        &self,
        repr_align: nat,
        repr_packed: Mode,
        visibility: Visibility,
        offset: nat,
    ) -> LayoutView {
        placed(primitive_layout(*self, visibility), repr_packed, offset)
    }

    fn into_bytelevel(
        &self,
        repr_align: usize,
        repr_packed: Mode,
        visibility: Visibility,
        offset: usize,
    ) -> (r: Result<Layout, LayoutError>) {
        if !power_of_two(repr_align) {
            return Err(LayoutError::InvalidAlignment);
        }
        let own = derive_primitive(*self, visibility);
        let mut slots: Vec<Slot> = Vec::new();
        match place(own, repr_packed, offset, &mut slots) {
            Ok((end, align)) => {
                assert(slots@ =~= placed(primitive_layout(*self, visibility), repr_packed, offset as nat).slots);
                Ok(Layout { slots, end, align })
            },
            Err(e) => Err(e),
        }
    }
}

/// A field is placed at the first offset from `offset` that the mode allows;
/// `repr_align` belongs to the type around it and leaves the field as it is.
impl IntoByteLevel for Field {
    open spec fn resolvable(&self) -> bool {
        field_valid(*self)
    }

    open spec fn byte_level(
        &self,
        repr_align: nat,
        repr_packed: Mode,
        visibility: Visibility,
        offset: nat,
    ) -> LayoutView {
        placed(field_layout(*self, visibility), repr_packed, offset)
    }

    fn into_bytelevel(
        &self,
        repr_align: usize,
        repr_packed: Mode,
        visibility: Visibility,
        offset: usize,
    ) -> (r: Result<Layout, LayoutError>) {
        if !power_of_two(repr_align) || !validate_field(self) {
            return Err(LayoutError::InvalidAlignment);
        }
        proof {
            lemma_field_extent(*self, visibility);
        }
        let own = match derive_field(self, visibility) {
            Ok(own) => own,
            Err(e) => {
                return Err(e);
            },
        };
        let mut slots: Vec<Slot> = Vec::new();
        match place(own, repr_packed, offset, &mut slots) {
            Ok((end, align)) => {
                assert(slots@ =~= placed(field_layout(*self, visibility), repr_packed, offset as nat).slots);
                Ok(Layout { slots, end, align })
            },
            Err(e) => Err(e),
        }
    }
}

/// The fields of a compound type are laid out one behind the other and
/// closed as the type that asks for `repr_align`.
impl IntoByteLevel for FieldList {
    open spec fn resolvable(&self) -> bool {
        fields_valid(*self)
    }

    open spec fn byte_level(
        &self,
        repr_align: nat,
        repr_packed: Mode,
        visibility: Visibility,
        offset: nat,
    ) -> LayoutView {
        layout_of(*self, repr_align, repr_packed, visibility, offset)
    }

    fn into_bytelevel(
        &self,
        repr_align: usize,
        repr_packed: Mode,
        visibility: Visibility,
        offset: usize,
    ) -> (r: Result<Layout, LayoutError>) {
        derive_within(self, repr_align, repr_packed, visibility, offset)
    }
}

} // verus!
