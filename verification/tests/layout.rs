use typic::layout::{derive_layout, Layout, LayoutError, Slot};
use typic::padding::Mode;
use typic::structure::{Field, FieldList, Primitive, Shape, Visibility};

fn list(fields: Vec<Field>) -> FieldList {
    let mut l = FieldList::empty();
    for f in fields.into_iter().rev() {
        l = l.prepend(f);
    }
    l
}

fn public(p: Primitive) -> Field {
    Field::primitive(Visibility::Public, p)
}

fn private(p: Primitive) -> Field {
    Field::primitive(Visibility::Private, p)
}

#[test]
fn empty_type_has_no_slots() {
    let l = derive_layout(&FieldList::empty(), 1, Mode::Padded, 0).unwrap();
    assert_eq!(l, Layout { slots: vec![], end: 0, align: 1 });
}

#[test]
fn padded_fields_are_aligned() {
    let fields = list(vec![public(Primitive::U8), public(Primitive::U32), private(Primitive::U16)]);
    let l = derive_layout(&fields, 1, Mode::Padded, 0).unwrap();
    assert_eq!(
        l.slots,
        vec![
            Slot::Public(Primitive::U8, 0),
            Slot::Padding,
            Slot::Padding,
            Slot::Padding,
            Slot::Public(Primitive::U32, 0),
            Slot::Public(Primitive::U32, 1),
            Slot::Public(Primitive::U32, 2),
            Slot::Public(Primitive::U32, 3),
            Slot::Private(0),
            Slot::Private(1),
            Slot::Padding,
            Slot::Padding,
        ]
    );
    assert_eq!(l.end, 12);
    assert_eq!(l.align, 4);
}

#[test]
fn packed_fields_follow_each_other() {
    let fields = list(vec![public(Primitive::U8), public(Primitive::U32), private(Primitive::U16)]);
    let l = derive_layout(&fields, 4, Mode::Packed, 0).unwrap();
    assert_eq!(l.slots.len(), 7);
    assert!(l.slots.iter().all(|s| *s != Slot::Padding));
    assert_eq!(l.end, 7);
    assert_eq!(l.align, 4);
}

#[test]
fn container_alignment_is_a_minimum() {
    let fields = list(vec![public(Primitive::U16)]);
    let l = derive_layout(&fields, 8, Mode::Padded, 0).unwrap();
    assert_eq!(l.end, 8);
    assert_eq!(l.align, 8);
    let l = derive_layout(&fields, 1, Mode::Padded, 0).unwrap();
    assert_eq!(l.end, 2);
    assert_eq!(l.align, 2);
}

#[test]
fn nested_type_keeps_its_padding() {
    let inner = Shape::new(list(vec![public(Primitive::U8), public(Primitive::U16)]), 1, Mode::Padded);
    let fields = list(vec![public(Primitive::U8), Field::compound(Visibility::Private, inner)]);
    let l = derive_layout(&fields, 1, Mode::Padded, 0).unwrap();
    assert_eq!(
        l.slots,
        vec![
            Slot::Public(Primitive::U8, 0),
            Slot::Padding,
            Slot::Private(0),
            Slot::Padding,
            Slot::Private(0),
            Slot::Private(1),
        ]
    );
    assert_eq!((l.end, l.align), (6, 2));
}

#[test]
fn start_offset_shifts_the_padding() {
    let fields = list(vec![public(Primitive::U32)]);
    let l = derive_layout(&fields, 1, Mode::Padded, 2).unwrap();
    assert_eq!(l.slots.len(), 6);
    assert_eq!(l.slots[0], Slot::Padding);
    assert_eq!(l.slots[1], Slot::Padding);
    assert_eq!(l.slots[2], Slot::Public(Primitive::U32, 0));
    assert_eq!(l.end, 8);
}

#[test]
fn invalid_alignment_is_rejected() {
    let fields = list(vec![public(Primitive::U8)]);
    assert_eq!(derive_layout(&fields, 3, Mode::Padded, 0), Err(LayoutError::InvalidAlignment));
    assert_eq!(derive_layout(&fields, 0, Mode::Packed, 0), Err(LayoutError::InvalidAlignment));
    let inner = Shape::new(FieldList::empty(), 6, Mode::Padded);
    let fields = list(vec![Field::compound(Visibility::Public, inner)]);
    assert_eq!(derive_layout(&fields, 1, Mode::Padded, 0), Err(LayoutError::InvalidAlignment));
}

#[test]
fn layout_behind_the_address_range_is_rejected() {
    let fields = list(vec![public(Primitive::U64)]);
    assert_eq!(derive_layout(&fields, 1, Mode::Packed, usize::MAX - 3), Err(LayoutError::TooLarge));
    assert_eq!(derive_layout(&fields, 1, Mode::Padded, usize::MAX - 3), Err(LayoutError::TooLarge));
    let l = derive_layout(&FieldList::empty(), 1, Mode::Packed, usize::MAX).unwrap();
    assert_eq!(l.end, usize::MAX);
}

#[test]
fn deriving_twice_gives_the_same_layout() {
    let fields = list(vec![private(Primitive::Bool), public(Primitive::U64), public(Primitive::I16)]);
    let first = derive_layout(&fields, 2, Mode::Padded, 0);
    let second = derive_layout(&fields, 2, Mode::Padded, 0);
    assert_eq!(first, second);
    assert_eq!(first.unwrap().end, 24);
}

#[test]
fn layout_in_two_parts_agrees_with_layout_in_one() {
    let first = || list(vec![public(Primitive::U8), public(Primitive::U32)]);
    let second = || list(vec![private(Primitive::U16), public(Primitive::U64)]);
    let joined = first().append(second());
    assert_eq!(
        joined,
        list(vec![
            public(Primitive::U8),
            public(Primitive::U32),
            private(Primitive::U16),
            public(Primitive::U64)
        ])
    );
    let whole = derive_layout(&joined, 1, Mode::Packed, 0).unwrap();
    let head = derive_layout(&first(), 1, Mode::Packed, 0).unwrap();
    let tail = derive_layout(&second(), 1, Mode::Packed, head.end).unwrap();
    let mut slots = head.slots.clone();
    slots.extend(tail.slots.iter().copied());
    assert_eq!(whole.slots, slots);
    assert_eq!(whole.end, tail.end);
    assert_eq!(whole.end, 15);
    assert_eq!(FieldList::empty().append(first()), first());
}

#[test]
fn padded_size_is_a_multiple_of_the_alignment() {
    let fields = list(vec![public(Primitive::U8), public(Primitive::U64), public(Primitive::U8)]);
    let l = derive_layout(&fields, 1, Mode::Padded, 0).unwrap();
    assert_eq!((l.end, l.align), (24, 8));
    let l = derive_layout(&fields, 16, Mode::Padded, 0).unwrap();
    assert_eq!((l.end, l.align), (32, 16));
    assert_eq!(l.slots.len(), 32);
    let l = derive_layout(&fields, 16, Mode::Packed, 0).unwrap();
    assert_eq!((l.end, l.align), (10, 16));
}
