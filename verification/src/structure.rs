//! The structure of compound types: fields in declaration order, each with a
//! type and a visibility.

use vstd::prelude::*;
use crate::padding::Mode;

verus! {

/// Whether code outside a type's definition can name a field.
#[derive(Clone, Copy, PartialEq, Eq, Structural, Debug)]
pub enum Visibility {
    Public,
    Private,
}

impl Visibility {
    /// The visibility of something declared `inner` inside something that is
    /// itself `self`: public only if both are.
    pub open spec fn within(self, inner: Visibility) -> Visibility {
        match self {
            Visibility::Public => inner,
            Visibility::Private => Visibility::Private,
        }
    }

    pub fn restrict(self, inner: Visibility) -> (v: Visibility)
        ensures
            v == self.within(inner),
    {
        match self {
            Visibility::Public => inner,
            Visibility::Private => Visibility::Private,
        }
    }
}

/// The types whose layout is given rather than derived.
#[derive(Clone, Copy, PartialEq, Eq, Structural, Debug)]
pub enum Primitive {
    U8,
    U16,
    U32,
    U64,
    U128,
    I8,
    I16,
    I32,
    I64,
    I128,
    F32,
    F64,
    Bool,
}

impl Primitive {
    /// The number of bytes that a value occupies.
    pub open spec fn size_of(self) -> nat {
        match self {
            Primitive::U8 | Primitive::I8 | Primitive::Bool => 1,
            Primitive::U16 | Primitive::I16 => 2,
            Primitive::U32 | Primitive::I32 | Primitive::F32 => 4,
            Primitive::U64 | Primitive::I64 | Primitive::F64 => 8,
            Primitive::U128 | Primitive::I128 => 16,
        }
    }

    /// The alignment of a value: every primitive is aligned to its size.
    pub open spec fn align_of(self) -> nat {
        self.size_of()
    }

    /// Whether `byte` may stand at position `index` of a value of this type.
    /// A `Bool` holds 0 or 1; every other primitive takes any bit pattern.
    pub open spec fn admits(self, index: nat, byte: u8) -> bool {
        match self {
            Primitive::Bool => byte <= 1,
            _ => true,
        }
    }

    pub fn size(self) -> (n: usize)
        ensures
            n == self.size_of(),
    {
        match self {
            Primitive::U8 | Primitive::I8 | Primitive::Bool => 1,
            Primitive::U16 | Primitive::I16 => 2,
            Primitive::U32 | Primitive::I32 | Primitive::F32 => 4,
            Primitive::U64 | Primitive::I64 | Primitive::F64 => 8,
            Primitive::U128 | Primitive::I128 => 16,
        }
    }

    pub fn align(self) -> (n: usize)
        ensures
            n == self.align_of(),
    {
        self.size()
    }

    /// Decides `admits` for one byte.
    pub fn accepts(self, index: usize, byte: u8) -> (b: bool)
        ensures
            b == self.admits(index as nat, byte),
    {
        match self {
            Primitive::Bool => byte <= 1,
            _ => true,
        }
    }
}

/// What a field holds: a primitive, or a compound type of its own.
#[derive(Debug, PartialEq, Eq)]
pub enum Kind {
    Primitive(Primitive),
    Compound(Box<Shape>),
}

/// One entry of a compound type's structure.
#[derive(Debug, PartialEq, Eq)]
pub struct Field {
    pub visibility: Visibility,
    pub kind: Kind,
}

/// The fields of a compound type in declaration order: either no field, or a
/// first field and the fields after it.
#[derive(Debug, PartialEq, Eq)]
pub enum FieldList {
    Empty,
    Fields(Field, Box<FieldList>),
}

/// A compound type as declared: its fields, the alignment asked for, and its
/// padding mode.
#[derive(Debug, PartialEq, Eq)]
pub struct Shape {
    pub fields: FieldList,
    pub align: usize,
    pub padding: Mode,
}

/// The field with everything in it made public.
pub open spec fn exposed_field(field: Field) -> Field
    decreases field,
{
    Field {
        visibility: Visibility::Public,
        kind: match field.kind {
            Kind::Primitive(primitive) => Kind::Primitive(primitive),
            Kind::Compound(shape) => Kind::Compound(Box::new(exposed_shape(*shape))),
        },
    }
}

/// The fields with everything in them made public.
pub open spec fn exposed_fields(fields: FieldList) -> FieldList
    decreases fields,
{
    match fields {
        FieldList::Empty => FieldList::Empty,
        FieldList::Fields(head, rest) => FieldList::Fields(
            exposed_field(head),
            Box::new(exposed_fields(*rest)),
        ),
    }
}

/// The same type with all fields made public, at every depth.
pub open spec fn exposed_shape(shape: Shape) -> Shape
    decreases shape,
{
    Shape { fields: exposed_fields(shape.fields), align: shape.align, padding: shape.padding }
}

/// A copy of `field` with everything in it made public.
pub fn expose_field(field: &Field) -> (f: Field)
    ensures
        f == exposed_field(*field),
    decreases *field,
{
    let kind = match &field.kind {
        Kind::Primitive(primitive) => Kind::Primitive(*primitive),
        Kind::Compound(shape) => Kind::Compound(Box::new(expose_shape(shape))),
    };
    Field { visibility: Visibility::Public, kind }
}

/// A copy of `fields` with everything in them made public.
pub fn expose_fields(fields: &FieldList) -> (l: FieldList)
    ensures
        l == exposed_fields(*fields),
    decreases *fields,
{
    match fields {
        FieldList::Empty => FieldList::Empty,
        FieldList::Fields(head, rest) => FieldList::Fields(
            expose_field(head),
            Box::new(expose_fields(rest)),
        ),
    }
}

/// A copy of `shape` with all fields made public, at every depth.
pub fn expose_shape(shape: &Shape) -> (s: Shape)
    ensures
        s == exposed_shape(*shape),
    decreases *shape,
{
    Shape { fields: expose_fields(&shape.fields), align: shape.align, padding: shape.padding }
}

impl Field {
    /// A field of primitive type.
    pub fn primitive(visibility: Visibility, primitive: Primitive) -> (f: Field)
        ensures
            f == (Field { visibility, kind: Kind::Primitive(primitive) }),
    {
        Field { visibility, kind: Kind::Primitive(primitive) }
    }

    /// A field whose type is the compound type `shape`.
    pub fn compound(visibility: Visibility, shape: Shape) -> (f: Field)
        ensures
            f == (Field { visibility, kind: Kind::Compound(Box::new(shape)) }),
    {
        Field { visibility, kind: Kind::Compound(Box::new(shape)) }
    }
}

impl FieldList {
    /// The fields as a sequence, first declared first.
    pub open spec fn view(self) -> Seq<Field>
        decreases self,
    {
        match self {
            FieldList::Empty => Seq::empty(),
            FieldList::Fields(head, rest) => seq![head] + rest.view(),
        }
    }

    /// The list without fields.
    pub fn empty() -> (l: FieldList)
        ensures
            l == FieldList::Empty,
            l@ == Seq::<Field>::empty(),
    {
        FieldList::Empty
    }

    /// The fields of `self` followed by those of `more`.
    pub open spec fn followed_by(self, more: FieldList) -> FieldList
        decreases self,
    {
        match self {
            FieldList::Empty => more,
            FieldList::Fields(head, rest) => FieldList::Fields(
                head,
                Box::new(rest.followed_by(more)),
            ),
        }
    }

    /// The list of the fields of `self` and then those of `more`.
    pub fn append(self, more: FieldList) -> (l: FieldList)
        ensures
            l == self.followed_by(more),
        decreases self,
    {
        match self {
            FieldList::Empty => more,
            FieldList::Fields(head, rest) => FieldList::Fields(head, Box::new((*rest).append(more))),
        }
    }

    /// The list that starts with `field` and goes on with `self`.
    pub fn prepend(self, field: Field) -> (l: FieldList)
        ensures
            l == FieldList::Fields(field, Box::new(self)),
            l@ == seq![field] + self@,
    {
        FieldList::Fields(field, Box::new(self))
    }
}

impl Shape {
    pub fn new(fields: FieldList, align: usize, padding: Mode) -> (s: Shape)
        ensures
            s == (Shape { fields, align, padding }),
    {
        Shape { fields, align, padding }
    }
}

} // verus!
