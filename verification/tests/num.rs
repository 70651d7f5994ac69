use typic::num::{align_up, checked_add, compare, max, min, power_of_two, succ, zero, Order, Unsigned, U};

#[test]
fn zero_and_successor() {
    assert_eq!(zero(), 0);
    assert_eq!(succ(zero()), Some(1));
    assert_eq!(succ(41), Some(42));
    assert_eq!(succ(usize::MAX), None);
}

#[test]
fn addition_reports_overflow() {
    assert_eq!(checked_add(2, 3), Some(5));
    assert_eq!(checked_add(usize::MAX - 1, 1), Some(usize::MAX));
    assert_eq!(checked_add(usize::MAX, 1), None);
}

#[test]
fn addition_does_not_depend_on_order_or_grouping() {
    let (a, b, c) = (1200usize, 34usize, 4000usize);
    assert_eq!(checked_add(a, b), checked_add(b, a));
    let left = checked_add(a, b).and_then(|s| checked_add(s, c));
    let right = checked_add(b, c).and_then(|s| checked_add(s, a));
    assert_eq!(left, Some(5234));
    assert_eq!(left, right);
    let left = checked_add(usize::MAX, 1).and_then(|s| checked_add(s, 0));
    let right = checked_add(1, 0).and_then(|s| checked_add(s, usize::MAX));
    assert_eq!(left, None);
    assert_eq!(right, None);
}

#[test]
fn ordering() {
    assert_eq!(max(3, 8), 8);
    assert_eq!(max(8, 3), 8);
    assert_eq!(min(3, 8), 3);
    assert_eq!(min(8, 3), 3);
    assert_eq!(max(5, 5), 5);
    assert_eq!(compare(1, 2), Order::Less);
    assert_eq!(compare(2, 2), Order::Equal);
    assert_eq!(compare(3, 2), Order::Greater);
}

#[test]
fn rounding_up_to_a_multiple() {
    assert_eq!(align_up(0, 4), Some(0));
    assert_eq!(align_up(1, 4), Some(4));
    assert_eq!(align_up(4, 4), Some(4));
    assert_eq!(align_up(5, 4), Some(8));
    assert_eq!(align_up(13, 1), Some(13));
    assert_eq!(align_up(10, 3), Some(12));
    assert_eq!(align_up(usize::MAX, 2), None);
    assert_eq!(align_up(usize::MAX, 1), Some(usize::MAX));
}

#[test]
fn powers_of_two() {
    assert!(!power_of_two(0));
    assert!(power_of_two(1));
    assert!(power_of_two(2));
    assert!(!power_of_two(3));
    assert!(power_of_two(4096));
    assert!(!power_of_two(4097));
    assert!(!power_of_two(12));
    assert!(power_of_two(1 << (usize::BITS - 1)));
    assert!(!power_of_two(usize::MAX));
}

#[test]
fn numbers_as_types() {
    assert_eq!(<U<0> as Unsigned>::value(), 0);
    assert_eq!(<U<16> as Unsigned>::value(), 16);
    assert_eq!(<U<4096> as Unsigned>::value(), 4096);
}
