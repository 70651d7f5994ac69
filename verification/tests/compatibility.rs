use typic::compatibility::{bytes_compatible, is_compatible, slots_compatible};
use typic::layout::{derive_layout, Slot};
use typic::padding::Mode;
use typic::structure::{Field, FieldList, Primitive, Visibility};

fn layout_slots(fields: Vec<(Visibility, Primitive)>, mode: Mode) -> Vec<Slot> {
    let mut l = FieldList::empty();
    for (v, p) in fields.into_iter().rev() {
        l = l.prepend(Field::primitive(v, p));
    }
    derive_layout(&l, 1, mode, 0).unwrap().slots
}

const PUB: Visibility = Visibility::Public;
const PRIV: Visibility = Visibility::Private;

#[test]
fn two_words_read_as_word_and_two_bytes() {
    let s = layout_slots(vec![(PUB, Primitive::U16), (PUB, Primitive::U16)], Mode::Padded);
    let t = layout_slots(vec![(PUB, Primitive::U16), (PUB, Primitive::U8), (PUB, Primitive::U8)], Mode::Padded);
    assert_eq!(s.len(), 4);
    assert_eq!(t.len(), 4);
    assert!(is_compatible(&s, &t));
    // the other direction is decided byte by byte as well: every byte of an
    // unsigned integer takes any value
    assert!(is_compatible(&t, &s));
}

#[test]
fn compatibility_is_not_symmetric() {
    let flag = layout_slots(vec![(PUB, Primitive::Bool)], Mode::Padded);
    let byte = layout_slots(vec![(PUB, Primitive::U8)], Mode::Padded);
    assert!(is_compatible(&flag, &byte));
    assert!(!is_compatible(&byte, &flag));

    let open = layout_slots(vec![(PUB, Primitive::U16)], Mode::Padded);
    let opaque = layout_slots(vec![(PRIV, Primitive::U16)], Mode::Padded);
    assert!(is_compatible(&open, &opaque));
    assert!(!is_compatible(&opaque, &open));
}

#[test]
fn mismatched_sizes_are_incompatible() {
    let four = layout_slots(vec![(PUB, Primitive::U32)], Mode::Padded);
    let three = layout_slots(vec![(PUB, Primitive::U8), (PUB, Primitive::U8), (PUB, Primitive::U8)], Mode::Padded);
    assert_eq!(four.len(), 4);
    assert_eq!(three.len(), 3);
    assert!(!is_compatible(&four, &three));
    assert!(!is_compatible(&three, &four));
    assert!(!is_compatible(&four, &[]));
}

#[test]
fn every_layout_is_compatible_with_itself() {
    let mixed = layout_slots(vec![(PUB, Primitive::U8), (PRIV, Primitive::U32), (PUB, Primitive::Bool)], Mode::Padded);
    assert!(is_compatible(&mixed, &mixed));
    let all_public = layout_slots(vec![(PUB, Primitive::U8), (PUB, Primitive::U32), (PUB, Primitive::Bool)], Mode::Padded);
    assert!(is_compatible(&all_public, &all_public));
    assert!(is_compatible(&[], &[]));
}

#[test]
fn private_target_takes_public_and_private_fields() {
    let target = layout_slots(vec![(PRIV, Primitive::U32)], Mode::Padded);
    let public = layout_slots(vec![(PUB, Primitive::U16), (PUB, Primitive::Bool), (PUB, Primitive::I8)], Mode::Padded);
    let private = layout_slots(vec![(PRIV, Primitive::U8), (PRIV, Primitive::U8), (PRIV, Primitive::U16)], Mode::Padded);
    assert!(is_compatible(&public, &target));
    assert!(is_compatible(&private, &target));
}

#[test]
fn private_target_does_not_take_padding() {
    let target = layout_slots(vec![(PRIV, Primitive::U32)], Mode::Padded);
    let gap = layout_slots(vec![(PUB, Primitive::U8), (PUB, Primitive::U16)], Mode::Padded);
    assert_eq!(gap[1], Slot::Padding);
    assert!(!is_compatible(&gap, &target));
    assert!(!slots_compatible(Slot::Padding, Slot::Private(0)));
}

#[test]
fn public_target_demands_a_public_source() {
    let target = layout_slots(vec![(PUB, Primitive::U8), (PUB, Primitive::Bool)], Mode::Padded);
    let hidden = layout_slots(vec![(PUB, Primitive::U8), (PRIV, Primitive::Bool)], Mode::Padded);
    let wider = layout_slots(vec![(PUB, Primitive::U8), (PUB, Primitive::U8)], Mode::Padded);
    let exact = layout_slots(vec![(PUB, Primitive::I8), (PUB, Primitive::Bool)], Mode::Padded);
    assert!(!is_compatible(&hidden, &target));
    assert!(!is_compatible(&wider, &target));
    assert!(is_compatible(&exact, &target));
}

#[test]
fn padding_in_the_target_takes_anything() {
    assert!(slots_compatible(Slot::Padding, Slot::Padding));
    assert!(slots_compatible(Slot::Private(3), Slot::Padding));
    assert!(slots_compatible(Slot::Public(Primitive::Bool, 0), Slot::Padding));
    let gap = layout_slots(vec![(PUB, Primitive::U8), (PUB, Primitive::U16)], Mode::Padded);
    let full = layout_slots(vec![(PUB, Primitive::U16), (PUB, Primitive::U16)], Mode::Padded);
    assert!(is_compatible(&full, &gap));
    assert!(!is_compatible(&gap, &full));
}

#[test]
fn only_a_flag_reads_as_a_flag() {
    assert!(bytes_compatible(Primitive::Bool, 0, Primitive::Bool, 0));
    assert!(!bytes_compatible(Primitive::U8, 0, Primitive::Bool, 0));
    assert!(!bytes_compatible(Primitive::U64, 7, Primitive::Bool, 0));
    assert!(bytes_compatible(Primitive::Bool, 0, Primitive::U32, 3));
    assert!(bytes_compatible(Primitive::U16, 1, Primitive::U8, 0));
    assert!(bytes_compatible(Primitive::F32, 0, Primitive::I32, 0));
}
