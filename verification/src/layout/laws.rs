//! What holds of every derived layout.

use vstd::prelude::*;
use crate::layout::{
    close, derivable, field_layout, field_valid, fields_layout, fields_valid, layout_of,
    lemma_fields_extent, placed, shape_layout, shape_valid, Slot,
};
use crate::num::{is_power_of_two, lemma_round_up, max_of};
use crate::padding::Mode;
use crate::structure::{Field, FieldList, Kind, Shape, Visibility};

verus! {

/// The size of a field's type.
pub open spec fn field_size(field: Field) -> nat {
    field_layout(field, Visibility::Public).end
}

/// The alignment of a field's type.
pub open spec fn field_align(field: Field) -> nat {
    field_layout(field, Visibility::Public).align
}

/// The sum of the sizes of the fields.
pub open spec fn fields_size(fields: FieldList) -> nat
    decreases fields,
{
    match fields {
        FieldList::Empty => 0,
        FieldList::Fields(head, rest) => field_size(head) + fields_size(*rest),
    }
}

/// The largest alignment among the fields, 1 where there is none.
pub open spec fn max_field_align(fields: FieldList) -> nat
    decreases fields,
{
    match fields {
        FieldList::Empty => 1,
        FieldList::Fields(head, rest) => max_of(field_align(head), max_field_align(*rest)),
    }
}

/// The slots of the fields one behind the other, with nothing in between.
pub open spec fn fields_slots(fields: FieldList, outer: Visibility) -> Seq<Slot>
    decreases fields,
{
    match fields {
        FieldList::Empty => Seq::empty(),
        FieldList::Fields(head, rest) => field_layout(head, outer).slots + fields_slots(
            *rest,
            outer,
        ),
    }
}

/// Deriving is a function of its inputs: the same fields, alignment, mode,
/// visibility and offset give the same slots, end and alignment.
pub proof fn lemma_derivation_deterministic(
    fields: FieldList,
    other_fields: FieldList,
    container_align: nat,
    other_align: nat,
    mode: Mode,
    other_mode: Mode,
    outer: Visibility,
    other_outer: Visibility,
    start: nat,
    other_start: nat,
)
    requires
        fields == other_fields,
        container_align == other_align,
        mode == other_mode,
        outer == other_outer,
        start == other_start,
    ensures
        layout_of(fields, container_align, mode, outer, start) == layout_of(
            other_fields,
            other_align,
            other_mode,
            other_outer,
            other_start,
        ),
{
}

/// Whether a field is public or private changes neither its size nor its
/// alignment.
pub proof fn lemma_field_extent_ignores_visibility(field: Field, one: Visibility, other: Visibility)
    ensures
        field_layout(field, one).end == field_layout(field, other).end,
        field_layout(field, one).align == field_layout(field, other).align,
    decreases field,
{
    match field.kind {
        Kind::Primitive(_) => {},
        Kind::Compound(shape) => {
            lemma_shape_extent_ignores_visibility(
                *shape,
                one.within(field.visibility),
                other.within(field.visibility),
            );
        },
    }
}

/// Visibility changes neither where a run of fields ends nor its alignment.
pub proof fn lemma_fields_extent_ignores_visibility(
    fields: FieldList,
    mode: Mode,
    one: Visibility,
    other: Visibility,
    start: nat,
)
    ensures
        fields_layout(fields, mode, one, start).end == fields_layout(fields, mode, other, start).end,
        fields_layout(fields, mode, one, start).align == fields_layout(
            fields,
            mode,
            other,
            start,
        ).align,
    decreases fields,
{
    match fields {
        FieldList::Empty => {},
        FieldList::Fields(head, rest) => {
            lemma_field_extent_ignores_visibility(head, one, other);
            let first = placed(field_layout(head, one), mode, start);
            lemma_fields_extent_ignores_visibility(*rest, mode, one, other, first.end);
        },
    }
}

/// Visibility changes neither the size of a compound type nor its alignment.
pub proof fn lemma_shape_extent_ignores_visibility(shape: Shape, one: Visibility, other: Visibility)
    ensures
        shape_layout(shape, one).end == shape_layout(shape, other).end,
        shape_layout(shape, one).align == shape_layout(shape, other).align,
    decreases shape,
{
    lemma_fields_extent_ignores_visibility(shape.fields, shape.padding, one, other, 0);
}

/// In the padded mode the alignment of a run of fields is the largest
/// alignment among them.
pub proof fn lemma_padded_alignment(fields: FieldList, outer: Visibility, start: nat)
    ensures
        fields_layout(fields, Mode::Padded, outer, start).align == max_field_align(fields),
    decreases fields,
{
    match fields {
        FieldList::Empty => {},
        FieldList::Fields(head, rest) => {
            lemma_field_extent_ignores_visibility(head, outer, Visibility::Public);
            let first = placed(field_layout(head, outer), Mode::Padded, start);
            lemma_padded_alignment(*rest, outer, first.end);
        },
    }
}

/// The size of a padded type is a multiple of its alignment, and its
/// alignment is the largest of the alignment asked for and the alignments of
/// its fields.
pub proof fn lemma_padded_size_is_aligned(
    fields: FieldList,
    container_align: nat,
    outer: Visibility,
    start: nat,
)
    ensures
        layout_of(fields, container_align, Mode::Padded, outer, start).align == max_of(
            container_align,
            max_field_align(fields),
        ),
        layout_of(fields, container_align, Mode::Padded, outer, start).end % max_of(
            container_align,
            max_field_align(fields),
        ) == 0,
{
    lemma_padded_alignment(fields, outer, start);
    lemma_fields_extent(fields, Mode::Padded, outer, start);
    let inner = fields_layout(fields, Mode::Padded, outer, start);
    lemma_round_up(inner.end, max_of(container_align, inner.align));
}

/// A run of packed fields is the fields' slots one behind the other: it ends
/// after the sum of their sizes, and its alignment is 1.
pub proof fn lemma_packed_fields(fields: FieldList, outer: Visibility, start: nat)
    ensures
        fields_layout(fields, Mode::Packed, outer, start).end == start + fields_size(fields),
        fields_layout(fields, Mode::Packed, outer, start).slots == fields_slots(fields, outer),
        fields_layout(fields, Mode::Packed, outer, start).align == 1,
    decreases fields,
{
    match fields {
        FieldList::Empty => {},
        FieldList::Fields(head, rest) => {
            lemma_field_extent_ignores_visibility(head, outer, Visibility::Public);
            let own = field_layout(head, outer);
            let first = placed(own, Mode::Packed, start);
            assert(first.slots =~= own.slots);
            lemma_packed_fields(*rest, outer, first.end);
        },
    }
}

/// The size of a packed type is the sum of the sizes of its fields: no
/// padding stands between the fields or behind the last, whatever alignment
/// was asked for.
pub proof fn lemma_packed_size_is_sum(
    fields: FieldList,
    container_align: nat,
    outer: Visibility,
    start: nat,
)
    ensures
        layout_of(fields, container_align, Mode::Packed, outer, start).end == start + fields_size(
            fields,
        ),
        layout_of(fields, container_align, Mode::Packed, outer, start).slots == fields_slots(
            fields,
            outer,
        ),
        layout_of(fields, container_align, Mode::Packed, outer, start).align == max_of(
            container_align,
            1,
        ),
{
    lemma_packed_fields(fields, outer, start);
    let inner = fields_layout(fields, Mode::Packed, outer, start);
    assert(close(inner, container_align, Mode::Packed).slots =~= inner.slots);
}

/// Laying out a list of fields in two parts, the second from where the first
/// ends, gives what laying it out in one go gives: the slots of the parts one
/// behind the other, the end of the second part, and the larger alignment.
pub proof fn lemma_fields_layout_splits(
    fields: FieldList,
    more: FieldList,
    mode: Mode,
    outer: Visibility,
    start: nat,
)
    ensures
        fields_layout(fields.followed_by(more), mode, outer, start).slots == fields_layout(
            fields,
            mode,
            outer,
            start,
        ).slots + fields_layout(
            more,
            mode,
            outer,
            fields_layout(fields, mode, outer, start).end,
        ).slots,
        fields_layout(fields.followed_by(more), mode, outer, start).end == fields_layout(
            more,
            mode,
            outer,
            fields_layout(fields, mode, outer, start).end,
        ).end,
        fields_layout(fields.followed_by(more), mode, outer, start).align == max_of(
            fields_layout(fields, mode, outer, start).align,
            fields_layout(more, mode, outer, fields_layout(fields, mode, outer, start).end).align,
        ),
    decreases fields,
{
    let part = fields_layout(fields, mode, outer, start);
    let other = fields_layout(more, mode, outer, part.end);
    let whole = fields_layout(fields.followed_by(more), mode, outer, start);
    match fields {
        FieldList::Empty => {
            lemma_fields_extent(more, mode, outer, start);
            assert(whole.slots =~= part.slots + other.slots);
        },
        FieldList::Fields(head, rest) => {
            let first = placed(field_layout(head, outer), mode, start);
            lemma_fields_layout_splits(*rest, more, mode, outer, first.end);
            let tail = fields_layout(*rest, mode, outer, first.end);
            assert(whole.slots =~= (first.slots + tail.slots) + other.slots);
        },
    }
}

/// The alignment of a field is a power of two where every alignment asked for
/// inside it is one.
pub proof fn lemma_field_alignment_is_power_of_two(field: Field, outer: Visibility)
    requires
        field_valid(field),
    ensures
        is_power_of_two(field_layout(field, outer).align),
    decreases field,
{
    match field.kind {
        Kind::Primitive(primitive) => {
            reveal_with_fuel(is_power_of_two, 5);
        },
        Kind::Compound(shape) => {
            lemma_shape_alignment_is_power_of_two(*shape, outer.within(field.visibility));
        },
    }
}

/// The alignment of a run of fields is a power of two where every alignment
/// asked for inside it is one.
pub proof fn lemma_fields_alignment_is_power_of_two(
    fields: FieldList,
    mode: Mode,
    outer: Visibility,
    start: nat,
)
    requires
        fields_valid(fields),
    ensures
        is_power_of_two(fields_layout(fields, mode, outer, start).align),
    decreases fields,
{
    match fields {
        FieldList::Empty => {},
        FieldList::Fields(head, rest) => {
            lemma_field_alignment_is_power_of_two(head, outer);
            let first = placed(field_layout(head, outer), mode, start);
            lemma_fields_alignment_is_power_of_two(*rest, mode, outer, first.end);
        },
    }
}

/// The alignment of a compound type is a power of two where every alignment
/// asked for, by it and inside it, is one.
pub proof fn lemma_shape_alignment_is_power_of_two(shape: Shape, outer: Visibility)
    requires
        shape_valid(shape),
    ensures
        is_power_of_two(shape_layout(shape, outer).align),
    decreases shape,
{
    lemma_fields_alignment_is_power_of_two(shape.fields, shape.padding, outer, 0);
}

/// Wherever a layout is derived, its alignment is a power of two again, so
/// that the type can in turn be a field.
pub proof fn lemma_alignment_is_power_of_two(
    fields: FieldList,
    container_align: nat,
    mode: Mode,
    outer: Visibility,
    start: nat,
)
    requires
        derivable(fields, container_align),
    ensures
        is_power_of_two(layout_of(fields, container_align, mode, outer, start).align),
{
    lemma_fields_alignment_is_power_of_two(fields, mode, outer, start);
}

/// A derived layout has exactly one slot for each byte between the offset it
/// starts at and the offset it ends at, and a positive alignment.
pub proof fn lemma_layout_extent(
    fields: FieldList,
    container_align: nat,
    mode: Mode,
    outer: Visibility,
    start: nat,
)
    ensures
        layout_of(fields, container_align, mode, outer, start).end >= start,
        layout_of(fields, container_align, mode, outer, start).slots.len() == layout_of(
            fields,
            container_align,
            mode,
            outer,
            start,
        ).end - start,
        layout_of(fields, container_align, mode, outer, start).align >= 1,
{
    lemma_fields_extent(fields, mode, outer, start);
    let inner = fields_layout(fields, mode, outer, start);
    lemma_round_up(inner.end, max_of(container_align, inner.align));
}

} // verus!
