//! Structures written as types: a list of fields is a nest of `HCons` that
//! ends in `HNil`, each entry a pair of a visibility marker and the field's
//! type. What such a type stands for is read off as a value.

use vstd::prelude::*;
use frunk_core::hlist::{HCons, HNil};

pub use frunk_core::hlist::{HCons as Fields, HNil as Empty};

use crate::layout::{agrees, outcome, shape_layout, shape_valid, Layout, LayoutError, LayoutView, Slot};
use crate::padding::Padding;
use crate::structure::{Field, FieldList, Kind, Primitive, Shape, Visibility};
use crate::Type;

verus! {

/// `frunk_core::hlist::HNil`, the list without entries. Only the type is used,
/// never a value of it.
#[verifier::external_type_specification]
#[verifier::external_body]
pub struct ExHNil(HNil);

/// `frunk_core::hlist::HCons`, a list of a first entry `H` and the entries
/// `T` after it. Only the type is used, never a value of it.
#[verifier::external_type_specification]
#[verifier::external_body]
#[verifier::reject_recursive_types(H)]
#[verifier::reject_recursive_types(T)]
pub struct ExHCons<H, T>(HCons<H, T>);

/// Marks a field that code outside the type's definition can name.
pub struct Public;

/// Marks a field that only the type's definition can name.
pub struct Private;

/// A visibility written as a type.
pub trait Marker {
    spec fn visibility_of() -> Visibility;

    fn visibility() -> (v: Visibility)
        ensures
            v == Self::visibility_of(),
    ;
}

impl Marker for Public {
    open spec fn visibility_of() -> Visibility {
        Visibility::Public
    }

    fn visibility() -> (v: Visibility) {
        Visibility::Public
    }
}

impl Marker for Private {
    open spec fn visibility_of() -> Visibility {
        Visibility::Private
    }

    fn visibility() -> (v: Visibility) {
        Visibility::Private
    }
}

/// A type that a field can have.
pub trait Described {
    spec fn kind_of() -> Kind;

    fn kind() -> (k: Kind)
        ensures
            k == Self::kind_of(),
    ;
}

impl Described for u8 {
    open spec fn kind_of() -> Kind {
        Kind::Primitive(Primitive::U8)
    }

    fn kind() -> (k: Kind) {
        Kind::Primitive(Primitive::U8)
    }
}

impl Described for u16 {
    open spec fn kind_of() -> Kind {
        Kind::Primitive(Primitive::U16)
    }

    fn kind() -> (k: Kind) {
        Kind::Primitive(Primitive::U16)
    }
}

impl Described for u32 {
    open spec fn kind_of() -> Kind {
        Kind::Primitive(Primitive::U32)
    }

    fn kind() -> (k: Kind) {
        Kind::Primitive(Primitive::U32)
    }
}

impl Described for u64 {
    open spec fn kind_of() -> Kind {
        Kind::Primitive(Primitive::U64)
    }

    fn kind() -> (k: Kind) {
        Kind::Primitive(Primitive::U64)
    }
}

impl Described for u128 {
    open spec fn kind_of() -> Kind {
        Kind::Primitive(Primitive::U128)
    }

    fn kind() -> (k: Kind) {
        Kind::Primitive(Primitive::U128)
    }
}

impl Described for i8 {
    open spec fn kind_of() -> Kind {
        Kind::Primitive(Primitive::I8)
    }

    fn kind() -> (k: Kind) {
        Kind::Primitive(Primitive::I8)
    }
}

impl Described for i16 {
    open spec fn kind_of() -> Kind {
        Kind::Primitive(Primitive::I16)
    }

    fn kind() -> (k: Kind) {
        Kind::Primitive(Primitive::I16)
    }
}

impl Described for i32 {
    open spec fn kind_of() -> Kind {
        Kind::Primitive(Primitive::I32)
    }

    fn kind() -> (k: Kind) {
        Kind::Primitive(Primitive::I32)
    }
}

impl Described for i64 {
    open spec fn kind_of() -> Kind {
        Kind::Primitive(Primitive::I64)
    }

    fn kind() -> (k: Kind) {
        Kind::Primitive(Primitive::I64)
    }
}

impl Described for i128 {
    open spec fn kind_of() -> Kind {
        Kind::Primitive(Primitive::I128)
    }

    fn kind() -> (k: Kind) {
        Kind::Primitive(Primitive::I128)
    }
}

impl Described for bool {
    open spec fn kind_of() -> Kind {
        Kind::Primitive(Primitive::Bool)
    }

    fn kind() -> (k: Kind) {
        Kind::Primitive(Primitive::Bool)
    }
}

/// The structure that `T` stands for: its fields and its padding mode. A
/// generic representation asks for no alignment of its own.
pub open spec fn shape_of<T: Type>() -> Shape {
    Shape {
        fields: <T::Representation as Reflect>::fields_of(),
        align: 1,
        padding: <T::Padding as Padding>::mode_of(),
    }
}

/// The layout of `T`, where one is derived.
pub open spec fn layout_of_type<T: Type>() -> Result<LayoutView, LayoutError> {
    outcome(shape_valid(shape_of::<T>()), shape_layout(shape_of::<T>(), Visibility::Public))
}

/// The slots of `T`.
pub open spec fn slots_of_type<T: Type>() -> Seq<Slot> {
    shape_layout(shape_of::<T>(), Visibility::Public).slots
}

/// Reads off the structure that `T` stands for.
pub fn shape<T: Type>() -> (s: Shape)
    ensures
        s == shape_of::<T>(),
{
    Shape::new(<T::Representation as Reflect>::fields(), 1, <T::Padding as Padding>::mode())
}

/// Derives the layout of `T`.
pub fn layout<T: Type>() -> (r: Result<Layout, LayoutError>)
    ensures
        agrees(r, layout_of_type::<T>()),
{
    shape::<T>().layout()
}

/// A compound type is a field type too: a field of it holds its structure.
impl<T: Type> Described for T {
    open spec fn kind_of() -> Kind {
        Kind::Compound(Box::new(shape_of::<T>()))
    }

    fn kind() -> (k: Kind) {
        Kind::Compound(Box::new(shape::<T>()))
    }
}

/// A list of fields written as a type.
pub trait Reflect {
    spec fn fields_of() -> FieldList;

    fn fields() -> (l: FieldList)
        ensures
            l == Self::fields_of(),
    ;
}

impl Reflect for HNil {
    open spec fn fields_of() -> FieldList {
        FieldList::Empty
    }

    fn fields() -> (l: FieldList) {
        FieldList::empty()
    }
}

impl<V: Marker, F: Described, R: Reflect> Reflect for HCons<(V, F), R> {
    open spec fn fields_of() -> FieldList {
        FieldList::Fields(
            Field { visibility: V::visibility_of(), kind: F::kind_of() },
            Box::new(R::fields_of()),
        )
    }

    fn fields() -> (l: FieldList) {
        R::fields().prepend(Field { visibility: V::visibility(), kind: F::kind() })
    }
}

} // verus!
