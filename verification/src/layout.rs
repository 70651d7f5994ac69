//! The byte-level layout of compound types, and its derivation from their
//! structure.

use vstd::prelude::*;

pub mod into_bytelevel;
pub mod laws;

use crate::num::{align_up, checked_add, is_power_of_two, lemma_round_up, max, max_of, power_of_two, round_up};
use crate::padding::Mode;
use crate::structure::{Field, FieldList, Kind, Primitive, Shape, Visibility};

verus! {

/// One byte position of a layout.
#[derive(Clone, Copy, PartialEq, Eq, Structural, Debug)]
pub enum Slot {
    /// Byte `.1` of a public field of primitive type `.0`.
    Public(Primitive, usize),
    /// Byte `.0` of a private field.
    Private(usize),
    /// A byte that belongs to no field.
    Padding,
}

/// A derived layout as a mathematical value.
pub struct LayoutView {
    /// One slot per byte, in address order.
    pub slots: Seq<Slot>,
    /// The offset just behind the last slot.
    pub end: nat,
    /// The alignment.
    pub align: nat,
}

/// A derived layout.
#[derive(Debug, PartialEq, Eq)]
pub struct Layout {
    /// One slot per byte, in address order.
    pub slots: Vec<Slot>,
    /// The offset just behind the last slot; the size of a type that was laid
    /// out from offset 0.
    pub end: usize,
    /// The alignment.
    pub align: usize,
}

impl View for Layout {
    type V = LayoutView;

    open spec fn view(&self) -> LayoutView {
        LayoutView { slots: self.slots@, end: self.end as nat, align: self.align as nat }
    }
}

/// Why a layout could not be derived.
#[derive(Clone, Copy, PartialEq, Eq, Structural, Debug)]
pub enum LayoutError {
    /// An alignment that was asked for is not a power of two.
    InvalidAlignment,
    /// The layout ends behind the largest offset that the machine can address.
    TooLarge,
}

/// `n` padding slots.
pub open spec fn padding(n: nat) -> Seq<Slot> {
    Seq::new(n, |i: int| Slot::Padding)
}

/// The slots of a primitive: one per byte, numbered from 0, public or private
/// as the field is.
pub open spec fn primitive_slots(primitive: Primitive, visibility: Visibility) -> Seq<Slot> {
    Seq::new(
        primitive.size_of(),
        |i: int|
            match visibility {
                Visibility::Public => Slot::Public(primitive, i as usize),
                Visibility::Private => Slot::Private(i as usize),
            },
    )
}

/// The layout of a primitive taken by itself, from offset 0.
pub open spec fn primitive_layout(primitive: Primitive, visibility: Visibility) -> LayoutView {
    LayoutView {
        slots: primitive_slots(primitive, visibility),
        end: primitive.size_of(),
        align: primitive.align_of(),
    }
}

/// The layout of one field taken by itself, from offset 0. `outer` is the
/// visibility of what the field lies in: inside something private, nothing is
/// public.
pub open spec fn field_layout(field: Field, outer: Visibility) -> LayoutView
    decreases field,
{
    let visibility = outer.within(field.visibility);
    match field.kind {
        Kind::Primitive(primitive) => primitive_layout(primitive, visibility),
        Kind::Compound(shape) => shape_layout(*shape, visibility),
    }
}

/// The offset at which something of alignment `align` starts when the offset
/// `start` is free: the next multiple of `align` in the padded mode, `start`
/// itself in the packed mode.
pub open spec fn field_start(mode: Mode, start: nat, align: nat) -> nat {
    match mode {
        Mode::Padded => round_up(start, align),
        Mode::Packed => start,
    }
}

/// The layout `own` of a field, moved to the first offset from `start` that
/// the mode allows: the padding that leads there, then the field's slots. In
/// the packed mode the field's alignment counts as 1.
pub open spec fn placed(own: LayoutView, mode: Mode, start: nat) -> LayoutView {
    let at = field_start(mode, start, own.align);
    LayoutView {
        slots: padding((at - start) as nat) + own.slots,
        end: at + own.end,
        align: match mode {
            Mode::Padded => own.align,
            Mode::Packed => 1,
        },
    }
}

/// The layout of a run of fields from offset `start`, without what follows the
/// last field. Its alignment is the largest among the fields as placed, or 1
/// where there is no field.
pub open spec fn fields_layout(fields: FieldList, mode: Mode, outer: Visibility, start: nat) -> LayoutView
    decreases fields,
{
    match fields {
        FieldList::Empty => LayoutView { slots: Seq::empty(), end: start, align: 1 },
        FieldList::Fields(head, rest) => {
            let first = placed(field_layout(head, outer), mode, start);
            let tail = fields_layout(*rest, mode, outer, first.end);
            LayoutView {
                slots: first.slots + tail.slots,
                end: tail.end,
                align: max_of(first.align, tail.align),
            }
        },
    }
}

/// Completes the layout of a run of fields into that of a type: the alignment
/// is at least `container_align`, and a padded type is filled up to a multiple
/// of its alignment.
pub open spec fn close(inner: LayoutView, container_align: nat, mode: Mode) -> LayoutView {
    let align = max_of(container_align, inner.align);
    let end = field_start(mode, inner.end, align);
    LayoutView { slots: inner.slots + padding((end - inner.end) as nat), end, align }
}

/// The layout of a compound type, from offset 0.
pub open spec fn shape_layout(shape: Shape, outer: Visibility) -> LayoutView
    decreases shape,
{
    close(fields_layout(shape.fields, shape.padding, outer, 0), shape.align as nat, shape.padding)
}

/// The layout of the fields `fields` as those of a type that asks for
/// alignment `container_align`, from offset `start`, inside something of
/// visibility `outer`.
pub open spec fn layout_of(
    fields: FieldList,
    container_align: nat,
    mode: Mode,
    outer: Visibility,
    start: nat,
) -> LayoutView {
    close(fields_layout(fields, mode, outer, start), container_align, mode)
}

/// Whether every compound type among the fields asks for an alignment that is
/// a power of two.
pub open spec fn fields_valid(fields: FieldList) -> bool
    decreases fields,
{
    match fields {
        FieldList::Empty => true,
        FieldList::Fields(head, rest) => field_valid(head) && fields_valid(*rest),
    }
}

pub open spec fn field_valid(field: Field) -> bool
    decreases field,
{
    match field.kind {
        Kind::Primitive(_) => true,
        Kind::Compound(shape) => shape_valid(*shape),
    }
}

pub open spec fn shape_valid(shape: Shape) -> bool
    decreases shape,
{
    is_power_of_two(shape.align as nat) && fields_valid(shape.fields)
}

/// Whether a layout is derived at all: the alignment asked for, and that of
/// every compound type among the fields, is a power of two.
pub open spec fn derivable(fields: FieldList, container_align: nat) -> bool {
    is_power_of_two(container_align) && fields_valid(fields)
}

/// What a derivation returns for a layout `layout` whose alignments are
/// `valid` or not: the layout, unless an alignment is invalid or, failing
/// that, the layout ends behind the address range.
pub open spec fn outcome(valid: bool, layout: LayoutView) -> Result<LayoutView, LayoutError> {
    if !valid {
        Err(LayoutError::InvalidAlignment)
    } else if layout.end > usize::MAX {
        Err(LayoutError::TooLarge)
    } else {
        Ok(layout)
    }
}

/// Whether the result `r` of a derivation is the expected one.
pub open spec fn agrees(r: Result<Layout, LayoutError>, expected: Result<LayoutView, LayoutError>) -> bool {
    match r {
        Ok(layout) => expected == Ok::<LayoutView, LayoutError>(layout@),
        Err(e) => expected == Err::<LayoutView, LayoutError>(e),
    }
}

/// A field by itself has one slot for each of its bytes, and a positive
/// alignment.
pub proof fn lemma_field_extent(field: Field, outer: Visibility)
    ensures
        field_layout(field, outer).slots.len() == field_layout(field, outer).end,
        field_layout(field, outer).align >= 1,
    decreases field,
{
    match field.kind {
        Kind::Primitive(_) => {},
        Kind::Compound(shape) => {
            lemma_shape_extent(*shape, outer.within(field.visibility));
        },
    }
}

/// A placed field starts at or behind `start`, has one slot for each byte
/// from `start` to its end, and a positive alignment.
pub proof fn lemma_placed_extent(own: LayoutView, mode: Mode, start: nat)
    requires
        own.slots.len() == own.end,
        own.align >= 1,
    ensures
        placed(own, mode, start).end >= start + own.end,
        placed(own, mode, start).slots.len() == placed(own, mode, start).end - start,
        placed(own, mode, start).align >= 1,
{
    lemma_round_up(start, own.align);
}

/// A run of fields never ends before it starts, has one slot for each byte in
/// between, and a positive alignment.
pub proof fn lemma_fields_extent(fields: FieldList, mode: Mode, outer: Visibility, start: nat)
    ensures
        fields_layout(fields, mode, outer, start).end >= start,
        fields_layout(fields, mode, outer, start).slots.len() == fields_layout(
            fields,
            mode,
            outer,
            start,
        ).end - start,
        fields_layout(fields, mode, outer, start).align >= 1,
    decreases fields,
{
    match fields {
        FieldList::Empty => {},
        FieldList::Fields(head, rest) => {
            lemma_field_extent(head, outer);
            let own = field_layout(head, outer);
            lemma_placed_extent(own, mode, start);
            lemma_fields_extent(*rest, mode, outer, placed(own, mode, start).end);
        },
    }
}

/// A compound type has one slot for each of its bytes, and a positive
/// alignment.
pub proof fn lemma_shape_extent(shape: Shape, outer: Visibility)
    ensures
        shape_layout(shape, outer).slots.len() == shape_layout(shape, outer).end,
        shape_layout(shape, outer).align >= 1,
    decreases shape,
{
    lemma_fields_extent(shape.fields, shape.padding, outer, 0);
    lemma_close_extent(
        fields_layout(shape.fields, shape.padding, outer, 0),
        shape.align as nat,
        shape.padding,
        0,
    );
}

/// Closing a run of fields keeps its start and adds only padding.
pub proof fn lemma_close_extent(inner: LayoutView, container_align: nat, mode: Mode, start: nat)
    requires
        inner.end >= start,
        inner.slots.len() == inner.end - start,
        inner.align >= 1,
    ensures
        close(inner, container_align, mode).end >= inner.end,
        close(inner, container_align, mode).slots.len() == close(inner, container_align, mode).end
            - start,
        close(inner, container_align, mode).align >= 1,
{
    lemma_round_up(inner.end, max_of(container_align, inner.align));
}

/// Appends `n` padding slots.
fn push_padding(slots: &mut Vec<Slot>, n: usize)
    ensures
        final(slots)@ == old(slots)@ + padding(n as nat),
{
    let mut i: usize = 0;
    while i < n
        invariant
            i <= n,
            slots@ == old(slots)@ + padding(i as nat),
        decreases n - i,
    {
        slots.push(Slot::Padding);
        i = i + 1;
        assert(slots@ =~= old(slots)@ + padding(i as nat));
    }
    assert(slots@ =~= old(slots)@ + padding(n as nat));
}

/// The layout of a primitive by itself: one slot per byte, and the size and
/// alignment that the table of primitives gives.
pub fn derive_primitive(primitive: Primitive, visibility: Visibility) -> (layout: Layout)
    ensures
        layout@ == primitive_layout(primitive, visibility),
{
    let size: usize = primitive.size();
    let mut slots: Vec<Slot> = Vec::new();
    let mut i: usize = 0;
    while i < size
        invariant
            i <= size,
            size == primitive.size_of(),
            slots@.len() == i,
            forall|k: int| 0 <= k < i ==> slots@[k] == primitive_slots(primitive, visibility)[k],
        decreases size - i,
    {
        let slot = match visibility {
            Visibility::Public => Slot::Public(primitive, i),
            Visibility::Private => Slot::Private(i),
        };
        slots.push(slot);
        i = i + 1;
    }
    assert(slots@ =~= primitive_slots(primitive, visibility));
    Layout { slots, end: size, align: primitive.align() }
}

/// Decides `fields_valid`.
pub fn validate_fields(fields: &FieldList) -> (valid: bool)
    ensures
        valid == fields_valid(*fields),
    decreases *fields,
{
    match fields {
        FieldList::Empty => true,
        FieldList::Fields(head, rest) => validate_field(head) && validate_fields(rest),
    }
}

/// Decides `field_valid`.
pub fn validate_field(field: &Field) -> (valid: bool)
    ensures
        valid == field_valid(*field),
    decreases *field,
{
    match &field.kind {
        Kind::Primitive(_) => true,
        Kind::Compound(shape) => validate_shape(shape),
    }
}

/// Decides `shape_valid`.
pub fn validate_shape(shape: &Shape) -> (valid: bool)
    ensures
        valid == shape_valid(*shape),
    decreases *shape,
{
    power_of_two(shape.align) && validate_fields(&shape.fields)
}

/// The layout of one field by itself, where it fits the address range.
pub(crate) fn derive_field(field: &Field, outer: Visibility) -> (r: Result<Layout, LayoutError>)
    ensures
        match r {
            Ok(layout) => layout@ == field_layout(*field, outer),
            Err(e) => e == LayoutError::TooLarge && field_layout(*field, outer).end > usize::MAX,
        },
    decreases *field,
{
    let visibility = outer.restrict(field.visibility);
    match &field.kind {
        Kind::Primitive(primitive) => Ok(derive_primitive(*primitive, visibility)),
        Kind::Compound(shape) => derive_shape(shape, visibility),
    }
}

/// The layout of a compound type inside something of visibility `outer`,
/// where it fits the address range.
pub(crate) fn derive_shape(shape: &Shape, outer: Visibility) -> (r: Result<Layout, LayoutError>)
    ensures
        match r {
            Ok(layout) => layout@ == shape_layout(*shape, outer),
            Err(e) => e == LayoutError::TooLarge && shape_layout(*shape, outer).end > usize::MAX,
        },
    decreases *shape,
{
    let mut slots: Vec<Slot> = Vec::new();
    let ghost inner = fields_layout(shape.fields, shape.padding, outer, 0);
    proof {
        lemma_fields_extent(shape.fields, shape.padding, outer, 0);
        lemma_close_extent(inner, shape.align as nat, shape.padding, 0);
    }
    match derive_fields(&shape.fields, shape.padding, outer, 0, &mut slots) {
        Ok((end, align)) => {
            assert(slots@ =~= inner.slots);
            finish(slots, end, align, shape.align, shape.padding, Ghost(inner))
        },
        Err(e) => Err(e),
    }
}

/// Appends to `slots` the layout `own` of a field, placed at the first offset
/// from `start` that the mode allows, and returns where the field ends and the
/// alignment that it counts with.
pub(crate) fn place(own: Layout, mode: Mode, start: usize, slots: &mut Vec<Slot>) -> (r: Result<
    (usize, usize),
    LayoutError,
>)
    requires
        own@.slots.len() == own@.end,
        own@.align >= 1,
    ensures
        match r {
            Ok((end, align)) => {
                let first = placed(own@, mode, start as nat);
                &&& end == first.end
                &&& align == first.align
                &&& final(slots)@ == old(slots)@ + first.slots
            },
            Err(e) => e == LayoutError::TooLarge && placed(own@, mode, start as nat).end
                > usize::MAX,
        },
{
    let mut own = own;
    proof {
        lemma_round_up(start as nat, own.align as nat);
    }
    let at = match mode {
        Mode::Padded => match align_up(start, own.align) {
            Some(at) => at,
            None => {
                return Err(LayoutError::TooLarge);
            },
        },
        Mode::Packed => start,
    };
    let end = match checked_add(at, own.end) {
        Some(end) => end,
        None => {
            return Err(LayoutError::TooLarge);
        },
    };
    let align: usize = match mode {
        Mode::Padded => own.align,
        Mode::Packed => 1,
    };
    let ghost own_slots = own.slots@;
    push_padding(slots, at - start);
    slots.append(&mut own.slots);
    assert(slots@ =~= old(slots)@ + (padding((at - start) as nat) + own_slots));
    Ok((end, align))
}

/// Appends the layout of a run of fields from offset `start` to `slots`, and
/// returns where it ends and its alignment.
pub(crate) fn derive_fields(
    fields: &FieldList,
    mode: Mode,
    outer: Visibility,
    start: usize,
    slots: &mut Vec<Slot>,
) -> (r: Result<(usize, usize), LayoutError>)
    ensures
        match r {
            Ok((end, align)) => {
                let layout = fields_layout(*fields, mode, outer, start as nat);
                &&& end == layout.end
                &&& align == layout.align
                &&& final(slots)@ == old(slots)@ + layout.slots
            },
            Err(e) => e == LayoutError::TooLarge && fields_layout(
                *fields,
                mode,
                outer,
                start as nat,
            ).end > usize::MAX,
        },
    decreases *fields,
{
    match fields {
        FieldList::Empty => {
            assert(slots@ =~= old(slots)@ + Seq::<Slot>::empty());
            Ok((start, 1))
        },
        FieldList::Fields(head, rest) => {
            let ghost own_view = field_layout(*head, outer);
            let ghost first = placed(own_view, mode, start as nat);
            proof {
                lemma_field_extent(*head, outer);
                lemma_placed_extent(own_view, mode, start as nat);
                lemma_fields_extent(**rest, mode, outer, first.end);
            }
            let own = match derive_field(head, outer) {
                Ok(own) => own,
                Err(e) => {
                    return Err(e);
                },
            };
            let (after, head_align) = match place(own, mode, start, slots) {
                Ok(placed) => placed,
                Err(e) => {
                    return Err(e);
                },
            };
            match derive_fields(rest, mode, outer, after, slots) {
                Ok((end, tail_align)) => {
                    assert(slots@ =~= old(slots)@ + fields_layout(
                        *fields,
                        mode,
                        outer,
                        start as nat,
                    ).slots);
                    Ok((end, max(head_align, tail_align)))
                },
                Err(e) => Err(e),
            }
        },
    }
}

/// Completes a run of fields into the layout of a type.
pub(crate) fn finish(
    slots: Vec<Slot>,
    end: usize,
    align: usize,
    container_align: usize,
    mode: Mode,
    Ghost(inner): Ghost<LayoutView>,
) -> (r: Result<Layout, LayoutError>)
    requires
        slots@ == inner.slots,
        end == inner.end,
        align == inner.align,
        align >= 1,
    ensures
        match r {
            Ok(layout) => layout@ == close(inner, container_align as nat, mode),
            Err(e) => e == LayoutError::TooLarge && close(inner, container_align as nat, mode).end
                > usize::MAX,
        },
{
    let mut slots = slots;
    let align = max(container_align, align);
    let closed = match mode {
        Mode::Padded => match align_up(end, align) {
            Some(closed) => closed,
            None => {
                return Err(LayoutError::TooLarge);
            },
        },
        Mode::Packed => end,
    };
    proof {
        lemma_round_up(end as nat, align as nat);
    }
    push_padding(&mut slots, closed - end);
    Ok(Layout { slots, end: closed, align })
}

/// Derives the byte-level layout of the fields `fields` from offset `start`,
/// for a type that asks for alignment `container_align` and has padding mode
/// `mode`.
///
/// Each field is laid out in turn: in the padded mode behind as much padding
/// as brings it to a multiple of its alignment, in the packed mode directly
/// behind the field before it. Behind the last field a padded type is filled
/// up to a multiple of its alignment, which is the largest of
/// `container_align` and the fields' alignments; a packed type ends with its
/// last field.
///
/// Fails with `InvalidAlignment` where an alignment asked for is no power of
/// two, and otherwise with `TooLarge` where the layout would end behind
/// `usize::MAX`.
pub fn derive_layout(fields: &FieldList, container_align: usize, mode: Mode, start: usize) -> (r:
    Result<Layout, LayoutError>)
    ensures
        agrees(
            r,
            outcome(
                derivable(*fields, container_align as nat),
                layout_of(*fields, container_align as nat, mode, Visibility::Public, start as nat),
            ),
        ),
{
    derive_within(fields, container_align, mode, Visibility::Public, start)
}

/// As `derive_layout`, for fields that lie inside something of visibility
/// `outer`: inside something private every field counts as private.
pub fn derive_within(
    fields: &FieldList,
    container_align: usize,
    mode: Mode,
    outer: Visibility,
    start: usize,
) -> (r: Result<Layout, LayoutError>)
    ensures
        agrees(
            r,
            outcome(
                derivable(*fields, container_align as nat),
                layout_of(*fields, container_align as nat, mode, outer, start as nat),
            ),
        ),
{
    if !power_of_two(container_align) || !validate_fields(fields) {
        return Err(LayoutError::InvalidAlignment);
    }
    let mut slots: Vec<Slot> = Vec::new();
    let ghost inner = fields_layout(*fields, mode, outer, start as nat);
    proof {
        lemma_fields_extent(*fields, mode, outer, start as nat);
        lemma_close_extent(inner, container_align as nat, mode, start as nat);
    }
    match derive_fields(fields, mode, outer, start, &mut slots) {
        Ok((end, align)) => {
            assert(slots@ =~= inner.slots);
            finish(slots, end, align, container_align, mode, Ghost(inner))
        },
        Err(e) => Err(e),
    }
}

impl Shape {
    /// The layout of this type, from offset 0.
    pub fn layout(&self) -> (r: Result<Layout, LayoutError>)
        ensures
            agrees(r, outcome(shape_valid(*self), shape_layout(*self, Visibility::Public))),
    {
        if !validate_shape(self) {
            return Err(LayoutError::InvalidAlignment);
        }
        derive_shape(self, Visibility::Public)
    }
}

} // verus!
