use typic::highlevel;
use typic::hlist::{layout, shape, Described, Empty, Fields, Marker, Private, Public, Reflect};
use typic::layout::into_bytelevel::IntoByteLevel;
use typic::layout::{derive_layout, derive_primitive, Layout, LayoutError, Slot};
use typic::num::U;
use typic::padding::{Mode, Packed, Padded, Padding};
use typic::structure::{expose_fields, expose_shape, Field, FieldList, Kind, Primitive, Shape, Visibility};
use typic::transmute::Candidate;
use typic::Type;

struct Inner;

impl Candidate for Inner {
    type Candidate = ();
}

impl Type for Inner {
    type Padding = Padded;
    type Representation = Fields<(Public, u8), Fields<(Private, u16), Empty>>;
}

struct Outer;

impl Candidate for Outer {
    type Candidate = ();
}

impl Type for Outer {
    type Padding = Packed;
    type Representation = Fields<(Public, bool), Fields<(Private, Inner), Fields<(Public, i64), Empty>>>;
}

struct Aligned;

impl highlevel::Type for Aligned {
    type Align = U<8>;
    type Packed = Padded;
    type HighLevel = Fields<(Public, u16), Empty>;
}

struct Odd;

impl highlevel::Type for Odd {
    type Align = U<6>;
    type Packed = Padded;
    type HighLevel = Empty;
}

struct Tight;

impl highlevel::Type for Tight {
    type Align = U<4>;
    type Packed = Packed;
    type HighLevel = Fields<(Public, u8), Fields<(Public, u32), Empty>>;
}

#[test]
fn markers_stand_for_modes_and_visibilities() {
    assert_eq!(<Packed as Padding>::mode(), Mode::Packed);
    assert_eq!(<Padded as Padding>::mode(), Mode::Padded);
    assert_eq!(<Public as Marker>::visibility(), Visibility::Public);
    assert_eq!(<Private as Marker>::visibility(), Visibility::Private);
}

#[test]
fn primitive_types_are_described() {
    assert_eq!(<u8 as Described>::kind(), Kind::Primitive(Primitive::U8));
    assert_eq!(<u16 as Described>::kind(), Kind::Primitive(Primitive::U16));
    assert_eq!(<u32 as Described>::kind(), Kind::Primitive(Primitive::U32));
    assert_eq!(<u64 as Described>::kind(), Kind::Primitive(Primitive::U64));
    assert_eq!(<u128 as Described>::kind(), Kind::Primitive(Primitive::U128));
    assert_eq!(<i8 as Described>::kind(), Kind::Primitive(Primitive::I8));
    assert_eq!(<i16 as Described>::kind(), Kind::Primitive(Primitive::I16));
    assert_eq!(<i32 as Described>::kind(), Kind::Primitive(Primitive::I32));
    assert_eq!(<i64 as Described>::kind(), Kind::Primitive(Primitive::I64));
    assert_eq!(<i128 as Described>::kind(), Kind::Primitive(Primitive::I128));
    assert_eq!(<bool as Described>::kind(), Kind::Primitive(Primitive::Bool));
}

#[test]
fn field_list_is_read_off_in_declaration_order() {
    let fields = <<Inner as Type>::Representation as Reflect>::fields();
    let expected = FieldList::empty()
        .prepend(Field::primitive(Visibility::Private, Primitive::U16))
        .prepend(Field::primitive(Visibility::Public, Primitive::U8));
    assert_eq!(fields, expected);
    assert_eq!(<Empty as Reflect>::fields(), FieldList::Empty);
}

#[test]
fn compound_field_holds_its_structure() {
    let s = shape::<Outer>();
    assert_eq!(s.align, 1);
    assert_eq!(s.padding, Mode::Packed);
    match &s.fields {
        FieldList::Fields(_, rest) => match &**rest {
            FieldList::Fields(second, _) => {
                assert_eq!(second.visibility, Visibility::Private);
                assert_eq!(second.kind, Kind::Compound(Box::new(shape::<Inner>())));
            }
            FieldList::Empty => panic!("one field only"),
        },
        FieldList::Empty => panic!("no field"),
    }
}

#[test]
fn layout_of_a_nested_packed_type() {
    let l = layout::<Outer>().unwrap();
    assert_eq!(
        l.slots,
        vec![
            Slot::Public(Primitive::Bool, 0),
            Slot::Private(0),
            Slot::Padding,
            Slot::Private(0),
            Slot::Private(1),
            Slot::Public(Primitive::I64, 0),
            Slot::Public(Primitive::I64, 1),
            Slot::Public(Primitive::I64, 2),
            Slot::Public(Primitive::I64, 3),
            Slot::Public(Primitive::I64, 4),
            Slot::Public(Primitive::I64, 5),
            Slot::Public(Primitive::I64, 6),
            Slot::Public(Primitive::I64, 7),
        ]
    );
    assert_eq!((l.end, l.align), (13, 1));
}

#[test]
fn declared_alignment_is_used() {
    let l = highlevel::layout::<Aligned>().unwrap();
    assert_eq!((l.end, l.align), (8, 8));
    assert_eq!(l.slots[1], Slot::Public(Primitive::U16, 1));
    assert_eq!(l.slots[2], Slot::Padding);
    assert_eq!(highlevel::shape::<Aligned>().align, 8);
    assert_eq!(highlevel::layout::<Odd>(), Err(LayoutError::InvalidAlignment));
    let l = highlevel::layout::<Tight>().unwrap();
    assert_eq!((l.end, l.align), (5, 4));
}

#[test]
fn shape_layout_agrees_with_derive_layout() {
    let s = shape::<Inner>();
    let l = s.layout().unwrap();
    assert_eq!(Ok(l), derive_layout(&s.fields, s.align, s.padding, 0));
    let bad = Shape::new(FieldList::empty(), 0, Mode::Padded);
    assert_eq!(bad.layout(), Err(LayoutError::InvalidAlignment));
}

#[test]
fn primitive_by_itself() {
    let l = derive_primitive(Primitive::U32, Visibility::Private);
    assert_eq!(
        l,
        Layout {
            slots: vec![Slot::Private(0), Slot::Private(1), Slot::Private(2), Slot::Private(3)],
            end: 4,
            align: 4
        }
    );
    assert_eq!(derive_primitive(Primitive::F64, Visibility::Public).end, 8);
    assert_eq!(derive_primitive(Primitive::U128, Visibility::Public).align, 16);
    assert_eq!(Primitive::Bool.size(), 1);
    assert_eq!(Primitive::I16.align(), 2);
    assert!(Primitive::Bool.accepts(0, 1));
    assert!(!Primitive::Bool.accepts(0, 2));
    assert!(Primitive::U8.accepts(0, 255));
}

#[test]
fn primitive_placed_at_an_offset() {
    let l = Primitive::U16.into_bytelevel(1, Mode::Padded, Visibility::Public, 3).unwrap();
    assert_eq!(
        l,
        Layout {
            slots: vec![Slot::Padding, Slot::Public(Primitive::U16, 0), Slot::Public(Primitive::U16, 1)],
            end: 6,
            align: 2
        }
    );
    let l = Primitive::U16.into_bytelevel(1, Mode::Packed, Visibility::Private, 3).unwrap();
    assert_eq!(l, Layout { slots: vec![Slot::Private(0), Slot::Private(1)], end: 5, align: 1 });
    assert_eq!(
        Primitive::U16.into_bytelevel(5, Mode::Packed, Visibility::Private, 3),
        Err(LayoutError::InvalidAlignment)
    );
    assert_eq!(
        Primitive::U16.into_bytelevel(1, Mode::Packed, Visibility::Private, usize::MAX),
        Err(LayoutError::TooLarge)
    );
}

#[test]
fn field_placed_at_an_offset() {
    let f = Field::compound(Visibility::Public, shape::<Inner>());
    let l = f.into_bytelevel(1, Mode::Padded, Visibility::Public, 1).unwrap();
    assert_eq!(
        l.slots,
        vec![Slot::Padding, Slot::Public(Primitive::U8, 0), Slot::Padding, Slot::Private(0), Slot::Private(1)]
    );
    assert_eq!((l.end, l.align), (6, 2));
    let l = f.into_bytelevel(1, Mode::Padded, Visibility::Private, 0).unwrap();
    assert_eq!(l.slots, vec![Slot::Private(0), Slot::Padding, Slot::Private(0), Slot::Private(1)]);
}

#[test]
fn fields_laid_out_through_the_trait() {
    let s = shape::<Inner>();
    let l = s.fields.into_bytelevel(4, Mode::Padded, Visibility::Public, 0).unwrap();
    assert_eq!(Ok(l), derive_layout(&s.fields, 4, Mode::Padded, 0));
    let l = s.fields.into_bytelevel(1, Mode::Packed, Visibility::Private, 0).unwrap();
    assert_eq!(l.slots, vec![Slot::Private(0), Slot::Private(0), Slot::Private(1)]);
}

#[test]
fn exposing_makes_every_field_public() {
    let s = shape::<Outer>();
    let open = expose_shape(&s);
    let l = open.layout().unwrap();
    assert!(l.slots.iter().all(|slot| !matches!(slot, Slot::Private(_))));
    assert_eq!(l.slots[1], Slot::Public(Primitive::U8, 0));
    assert_eq!(l.slots[2], Slot::Padding);
    assert_eq!((l.end, l.align), (13, 1));
    assert_eq!(expose_fields(&FieldList::empty()), FieldList::Empty);
}

#[test]
fn public_copy_reads_as_the_type() {
    let s = shape::<Outer>();
    let hidden = s.layout().unwrap();
    let open = expose_shape(&s).layout().unwrap();
    assert!(typic::compatibility::is_compatible(&open.slots, &hidden.slots));
    assert!(typic::compatibility::is_compatible(&open.slots, &open.slots));
    assert!(!typic::compatibility::is_compatible(&hidden.slots, &open.slots));
}
