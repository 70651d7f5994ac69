//! The declared form of a type: the alignment and packing it asks for, and
//! its structure.

use vstd::prelude::*;
use crate::hlist::Reflect;
use crate::layout::{agrees, outcome, shape_layout, shape_valid, Layout, LayoutError, LayoutView};
use crate::num::Unsigned;
use crate::padding::Padding;
use crate::structure::{Shape, Visibility};

verus! {

/// A type as it is declared: with the alignment it asks for, whether it is
/// packed, and its fields.
pub trait Type {
    /// `align(N)`
    type Align: Unsigned;

    /// `packed`, or not
    type Packed: Padding;

    /// An abstract representation of the type's structure.
    type HighLevel: Reflect;
}

/// The structure that `T` declares.
pub open spec fn shape_of<T: Type>() -> Shape {
    Shape {
        fields: <T::HighLevel as Reflect>::fields_of(),
        align: <T::Align as Unsigned>::value_of(),
        padding: <T::Packed as Padding>::mode_of(),
    }
}

/// The layout of `T`, where one is derived.
pub open spec fn layout_of_type<T: Type>() -> Result<LayoutView, LayoutError> {
    outcome(shape_valid(shape_of::<T>()), shape_layout(shape_of::<T>(), Visibility::Public))
}

/// Reads off the structure that `T` declares.
pub fn shape<T: Type>() -> (s: Shape)
    ensures
        s == shape_of::<T>(),
{
    Shape::new(
        <T::HighLevel as Reflect>::fields(),
        <T::Align as Unsigned>::value(),
        <T::Packed as Padding>::mode(),
    )
}

/// Derives the layout of `T`.
pub fn layout<T: Type>() -> (r: Result<Layout, LayoutError>)
    ensures
        agrees(r, layout_of_type::<T>()),
{
    shape::<T>().layout()
}

} // verus!
