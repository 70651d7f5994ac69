//! What holds of the compatibility relation.

use vstd::prelude::*;
use crate::compatibility::{byte_compatible, compatible, slot_compatible};
use crate::layout::{
    close, field_layout, fields_layout, layout_of, padding, placed, primitive_slots,
    shape_layout, Slot,
};
use crate::padding::Mode;
use crate::structure::{
    exposed_field, exposed_fields, exposed_shape, Field, FieldList, Kind, Primitive, Shape,
    Visibility,
};

verus! {

/// Every layout is compatible with itself: a type can be read as an identical
/// copy of itself, whether all its fields are public or not.
pub proof fn lemma_compatible_reflexive(slots: Seq<Slot>)
    ensures
        compatible(slots, slots),
{
}

/// What can be read as a second layout can be read as whatever the second can
/// be read as.
pub proof fn lemma_compatible_transitive(first: Seq<Slot>, second: Seq<Slot>, third: Seq<Slot>)
    requires
        compatible(first, second),
        compatible(second, third),
    ensures
        compatible(first, third),
{
    assert forall|i: int| 0 <= i < third.len() implies slot_compatible(
        #[trigger] first[i],
        third[i],
    ) by {
        assert(slot_compatible(first[i], second[i]));
        assert(slot_compatible(second[i], third[i]));
        if let Slot::Public(last_type, last_index) = third[i] {
            let mid_type = second[i]->Public_0;
            let mid_index = second[i]->Public_1;
            let first_type = first[i]->Public_0;
            let first_index = first[i]->Public_1;
            assert forall|byte: u8| #[trigger]
                first_type.admits(first_index as nat, byte) implies last_type.admits(
                last_index as nat,
                byte,
            ) by {
                assert(mid_type.admits(mid_index as nat, byte));
            }
        }
    }
}

/// The relation is not symmetric: there are layouts of which the first can be
/// read as the second and the second cannot be read as the first. A public
/// `Bool` read as a public `U8` is one such pair, a public byte read as a
/// private one another.
pub proof fn lemma_compatible_not_symmetric()
    ensures
        exists|source: Seq<Slot>, target: Seq<Slot>|
            compatible(source, target) && !compatible(target, source),
        compatible(seq![Slot::Public(Primitive::U8, 0)], seq![Slot::Private(0)]),
        !compatible(seq![Slot::Private(0)], seq![Slot::Public(Primitive::U8, 0)]),
{
    let source = seq![Slot::Public(Primitive::Bool, 0)];
    let target = seq![Slot::Public(Primitive::U8, 0)];
    assert(compatible(source, target));
    assert(!compatible(target, source)) by {
        assert(Primitive::U8.admits(0, 2u8));
        assert(!Primitive::Bool.admits(0, 2u8));
        assert(!slot_compatible(target[0], source[0]));
    }
    let open = seq![Slot::Public(Primitive::U8, 0)];
    let opaque = seq![Slot::Private(0)];
    assert(compatible(open, opaque));
    assert(!slot_compatible(opaque[0], open[0]));
}

/// Layouts of different sizes are never compatible.
pub proof fn lemma_size_mismatch_incompatible(source: Seq<Slot>, target: Seq<Slot>)
    requires
        source.len() != target.len(),
    ensures
        !compatible(source, target),
{
}

/// A private byte of the target takes the byte of any field of the source,
/// public or private.
pub proof fn lemma_private_slot_absorbs(source: Slot, index: usize)
    requires
        source !is Padding,
    ensures
        slot_compatible(source, Slot::Private(index)),
{
}

/// A target that shows no public byte can be read from every source of its
/// size that has a field's byte wherever the target has one.
pub proof fn lemma_opaque_target_absorbs(source: Seq<Slot>, target: Seq<Slot>)
    requires
        source.len() == target.len(),
        forall|i: int| 0 <= i < target.len() ==> #[trigger] target[i] !is Public,
        forall|i: int| 0 <= i < target.len() && target[i] is Private ==> #[trigger] source[i] !is Padding,
    ensures
        compatible(source, target),
{
    assert forall|i: int| 0 <= i < target.len() implies slot_compatible(
        #[trigger] source[i],
        target[i],
    ) by {
        assert(target[i] !is Public);
    }
}

/// Where the target has a public byte, a compatible source has a public byte
/// at the same offset, and one whose values the target's byte can all hold.
pub proof fn lemma_public_slot_demands(source: Seq<Slot>, target: Seq<Slot>, at: int)
    requires
        compatible(source, target),
        0 <= at < target.len(),
        target[at] is Public,
    ensures
        source[at] is Public,
        byte_compatible(
            source[at]->Public_0,
            source[at]->Public_1 as nat,
            target[at]->Public_0,
            target[at]->Public_1 as nat,
        ),
{
    assert(slot_compatible(source[at], target[at]));
}

/// Layouts written one behind the other are compatible where their parts
/// are.
pub proof fn lemma_compatible_concat(
    source: Seq<Slot>,
    target: Seq<Slot>,
    more_source: Seq<Slot>,
    more_target: Seq<Slot>,
)
    requires
        compatible(source, target),
        compatible(more_source, more_target),
    ensures
        compatible(source + more_source, target + more_target),
{
    let s = source + more_source;
    let t = target + more_target;
    assert forall|i: int| 0 <= i < t.len() implies slot_compatible(#[trigger] s[i], t[i]) by {
        if i < target.len() {
            assert(slot_compatible(source[i], target[i]));
        } else {
            assert(slot_compatible(more_source[i - source.len()], more_target[i - target.len()]));
        }
    }
}

/// A public primitive can be read as the same primitive, public or private.
pub proof fn lemma_public_primitive_reads_as_any(primitive: Primitive, visibility: Visibility)
    ensures
        compatible(
            primitive_slots(primitive, Visibility::Public),
            primitive_slots(primitive, visibility),
        ),
{
}

/// A field with everything in it made public has the size and alignment of
/// the field itself, and can be read as the field.
pub proof fn lemma_exposed_field(field: Field, outer: Visibility)
    ensures
        field_layout(exposed_field(field), Visibility::Public).end == field_layout(
            field,
            outer,
        ).end,
        field_layout(exposed_field(field), Visibility::Public).align == field_layout(
            field,
            outer,
        ).align,
        compatible(
            field_layout(exposed_field(field), Visibility::Public).slots,
            field_layout(field, outer).slots,
        ),
    decreases field,
{
    match field.kind {
        Kind::Primitive(primitive) => {
            lemma_public_primitive_reads_as_any(primitive, outer.within(field.visibility));
        },
        Kind::Compound(shape) => {
            lemma_exposed_shape(*shape, outer.within(field.visibility));
        },
    }
}

/// A run of fields with everything made public ends where the run itself
/// ends, has its alignment, and can be read as the run.
pub proof fn lemma_exposed_fields(fields: FieldList, mode: Mode, outer: Visibility, start: nat)
    ensures
        fields_layout(exposed_fields(fields), mode, Visibility::Public, start).end
            == fields_layout(fields, mode, outer, start).end,
        fields_layout(exposed_fields(fields), mode, Visibility::Public, start).align
            == fields_layout(fields, mode, outer, start).align,
        compatible(
            fields_layout(exposed_fields(fields), mode, Visibility::Public, start).slots,
            fields_layout(fields, mode, outer, start).slots,
        ),
    decreases fields,
{
    match fields {
        FieldList::Empty => {},
        FieldList::Fields(head, rest) => {
            lemma_exposed_field(head, outer);
            let own = field_layout(head, outer);
            let open_own = field_layout(exposed_field(head), Visibility::Public);
            let first = placed(own, mode, start);
            let open_first = placed(open_own, mode, start);
            lemma_compatible_reflexive(padding((first.end - own.end - start) as nat));
            lemma_compatible_concat(
                padding((first.end - own.end - start) as nat),
                padding((first.end - own.end - start) as nat),
                open_own.slots,
                own.slots,
            );
            lemma_exposed_fields(*rest, mode, outer, first.end);
            let tail = fields_layout(*rest, mode, outer, first.end);
            let open_tail = fields_layout(
                exposed_fields(*rest),
                mode,
                Visibility::Public,
                first.end,
            );
            lemma_compatible_concat(open_first.slots, first.slots, open_tail.slots, tail.slots);
        },
    }
}

/// A type with all fields made public has the size and alignment of the type
/// itself, and can be read as the type.
pub proof fn lemma_exposed_shape(shape: Shape, outer: Visibility)
    ensures
        shape_layout(exposed_shape(shape), Visibility::Public).end == shape_layout(
            shape,
            outer,
        ).end,
        shape_layout(exposed_shape(shape), Visibility::Public).align == shape_layout(
            shape,
            outer,
        ).align,
        compatible(
            shape_layout(exposed_shape(shape), Visibility::Public).slots,
            shape_layout(shape, outer).slots,
        ),
    decreases shape,
{
    lemma_exposed_fields(shape.fields, shape.padding, outer, 0);
    let inner = fields_layout(shape.fields, shape.padding, outer, 0);
    let open_inner = fields_layout(exposed_fields(shape.fields), shape.padding, Visibility::Public, 0);
    let closed = close(inner, shape.align as nat, shape.padding);
    lemma_compatible_reflexive(padding((closed.end - inner.end) as nat));
    lemma_compatible_concat(
        open_inner.slots,
        inner.slots,
        padding((closed.end - inner.end) as nat),
        padding((closed.end - inner.end) as nat),
    );
}

/// An identical copy of a type with all fields made public can be read as the
/// type, and as itself.
pub proof fn lemma_public_copy_is_compatible(
    fields: FieldList,
    container_align: nat,
    mode: Mode,
    outer: Visibility,
    start: nat,
)
    ensures
        compatible(
            layout_of(exposed_fields(fields), container_align, mode, Visibility::Public, start).slots,
            layout_of(fields, container_align, mode, outer, start).slots,
        ),
        compatible(
            layout_of(exposed_fields(fields), container_align, mode, Visibility::Public, start).slots,
            layout_of(exposed_fields(fields), container_align, mode, Visibility::Public, start).slots,
        ),
{
    lemma_exposed_fields(fields, mode, outer, start);
    let inner = fields_layout(fields, mode, outer, start);
    let open_inner = fields_layout(exposed_fields(fields), mode, Visibility::Public, start);
    let closed = close(inner, container_align, mode);
    lemma_compatible_reflexive(padding((closed.end - inner.end) as nat));
    lemma_compatible_concat(
        open_inner.slots,
        inner.slots,
        padding((closed.end - inner.end) as nat),
        padding((closed.end - inner.end) as nat),
    );
    lemma_compatible_reflexive(
        layout_of(exposed_fields(fields), container_align, mode, Visibility::Public, start).slots,
    );
}

} // verus!
