//! Unsigned arithmetic on offsets, sizes and alignments.
//!
//! Specifications speak of natural numbers; the executable operations work on
//! `usize` and report when a result leaves its range.

use vstd::prelude::*;
use vstd::arithmetic::div_mod::{lemma_fundamental_div_mod, lemma_mod_multiples_basic};

verus! {

/// The larger of two naturals.
pub open spec fn max_of(a: nat, b: nat) -> nat {
    if a >= b {
        a
    } else {
        b
    }
}

/// The smaller of two naturals.
pub open spec fn min_of(a: nat, b: nat) -> nat {
    if a <= b {
        a
    } else {
        b
    }
}

/// The sum of two machine integers, where it is one.
pub open spec fn sum_of(a: usize, b: usize) -> Option<usize> {
    if a + b <= usize::MAX {
        Some((a + b) as usize)
    } else {
        None
    }
}

/// The least multiple of `align` that is not below `offset`.
pub open spec fn round_up(offset: nat, align: nat) -> nat
    recommends
        align > 0,
{
    if offset % align == 0 {
        offset
    } else {
        (offset + align - offset % align) as nat
    }
}

/// Whether `n` is one of 1, 2, 4, 8, ...
pub open spec fn is_power_of_two(n: nat) -> bool
    decreases n,
{
    n == 1 || (n > 1 && n % 2 == 0 && is_power_of_two(n / 2))
}

/// How two numbers stand to each other.
#[derive(Clone, Copy, PartialEq, Eq, Structural, Debug)]
pub enum Order {
    Less,
    Equal,
    Greater,
}

/// The order of `a` relative to `b`.
pub open spec fn order_of(a: nat, b: nat) -> Order {
    if a < b {
        Order::Less
    } else if a == b {
        Order::Equal
    } else {
        Order::Greater
    }
}

/// The number zero.
pub fn zero() -> (n: usize)
    ensures
        n == 0,
{
    0
}

/// The number after `n`, unless `n` is the largest.
pub fn succ(n: usize) -> (r: Option<usize>)
    ensures
        r == sum_of(n, 1),
{
    n.checked_add(1)
}

/// Adds without wrapping: `None` exactly when the sum does not fit.
pub fn checked_add(a: usize, b: usize) -> (r: Option<usize>)
    ensures
        r == sum_of(a, b),
{
    a.checked_add(b)
}

pub fn max(a: usize, b: usize) -> (m: usize)
    ensures
        m == max_of(a as nat, b as nat),
{
    if a >= b {
        a
    } else {
        b
    }
}

pub fn min(a: usize, b: usize) -> (m: usize)
    ensures
        m == min_of(a as nat, b as nat),
{
    if a <= b {
        a
    } else {
        b
    }
}

pub fn compare(a: usize, b: usize) -> (o: Order)
    ensures
        o == order_of(a as nat, b as nat),
{
    if a < b {
        Order::Less
    } else if a == b {
        Order::Equal
    } else {
        Order::Greater
    }
}

/// Rounds `offset` up to the next multiple of `align`; `None` exactly when
/// that multiple does not fit.
pub fn align_up(offset: usize, align: usize) -> (r: Option<usize>)
    requires
        align > 0,
    ensures
        round_up(offset as nat, align as nat) <= usize::MAX ==> r == Some(
            round_up(offset as nat, align as nat) as usize,
        ),
        round_up(offset as nat, align as nat) > usize::MAX ==> r is None,
{
    let rem: usize = offset % align;
    if rem == 0 {
        Some(offset)
    } else {
        offset.checked_add(align - rem)
    }
}

/// Decides whether `n` is a power of two.
pub fn power_of_two(n: usize) -> (b: bool)
    ensures
        b == is_power_of_two(n as nat),
{
    if n == 0 {
        return false;
    }
    let mut m: usize = n;
    while m % 2 == 0
        invariant
            m > 0,
            is_power_of_two(m as nat) == is_power_of_two(n as nat),
        decreases m,
    {
        m = m / 2;
    }
    m == 1
}

/// A number written as a type.
pub trait Unsigned {
    spec fn value_of() -> usize;

    fn value() -> (n: usize)
        ensures
            n == Self::value_of(),
    ;
}

/// The number `N` as a type.
pub struct U<const N: usize>;

impl<const N: usize> Unsigned for U<N> {
    open spec fn value_of() -> usize {
        N
    }

    fn value() -> (n: usize) {
        N
    }
}

/// Addition gives the same result whichever operand comes first.
pub proof fn lemma_sum_commutative(a: usize, b: usize)
    ensures
        sum_of(a, b) == sum_of(b, a),
{
}

/// Three numbers add up to the same result however they are grouped: either
/// both groupings fit and agree, or neither fits.
pub proof fn lemma_sum_associative(a: usize, b: usize, c: usize)
    ensures
        sum_chain(sum_of(a, b), c) == sum_chain(sum_of(b, c), a),
        sum_chain(sum_of(a, b), c) == if a + b + c <= usize::MAX {
            Some((a + b + c) as usize)
        } else {
            None
        },
{
}

/// Adds `c` to a sum that may already have left the range.
pub open spec fn sum_chain(partial: Option<usize>, c: usize) -> Option<usize> {
    match partial {
        Some(s) => sum_of(s, c),
        None => None,
    }
}

/// `max_of` and `min_of` do not depend on the order of their operands, and
/// each returns one of them.
pub proof fn lemma_max_min(a: nat, b: nat)
    ensures
        max_of(a, b) == max_of(b, a),
        min_of(a, b) == min_of(b, a),
        max_of(a, b) >= a && max_of(a, b) >= b,
        min_of(a, b) <= a && min_of(a, b) <= b,
        max_of(a, b) == a || max_of(a, b) == b,
        min_of(a, b) == a || min_of(a, b) == b,
        max_of(a, b) + min_of(a, b) == a + b,
{
}

/// `max_of` is associative, so a maximum over several fields does not depend
/// on the order in which they are visited.
pub proof fn lemma_max_associative(a: nat, b: nat, c: nat)
    ensures
        max_of(max_of(a, b), c) == max_of(a, max_of(b, c)),
{
}

/// `round_up(offset, align)` is a multiple of `align`, not below `offset` and
/// less than `align` above it.
pub proof fn lemma_round_up(offset: nat, align: nat)
    requires
        align > 0,
    ensures
        round_up(offset, align) >= offset,
        round_up(offset, align) < offset + align,
        round_up(offset, align) % align == 0,
{
    let o = offset as int;
    let a = align as int;
    let rem = o % a;
    lemma_fundamental_div_mod(o, a);
    if rem != 0 {
        let q = o / a;
        assert(o + a - rem == a * (q + 1)) by (nonlinear_arith)
            requires
                o == a * q + rem,
        ;
        lemma_mod_multiples_basic(q + 1, a);
        assert((q + 1) * a == a * (q + 1)) by (nonlinear_arith);
    }
}

/// No multiple of `align` lies between `offset` and `round_up(offset, align)`.
pub proof fn lemma_round_up_least(offset: nat, align: nat, m: nat)
    requires
        align > 0,
        m >= offset,
        m % align == 0,
    ensures
        m >= round_up(offset, align),
{
    let o = offset as int;
    let a = align as int;
    let rem = o % a;
    lemma_fundamental_div_mod(o, a);
    if rem != 0 {
        let mi = m as int;
        lemma_fundamental_div_mod(mi, a);
        let q = o / a;
        let k = mi / a;
        assert(mi == a * k);
        assert(k > q) by (nonlinear_arith)
            requires
                a * k >= a * q + rem,
                rem > 0,
                a > 0,
        ;
        assert(a * k >= a * (q + 1)) by (nonlinear_arith)
            requires
                k >= q + 1,
                a > 0,
        ;
        assert(a * (q + 1) == o + a - rem) by (nonlinear_arith)
            requires
                o == a * q + rem,
        ;
    }
}

} // verus!
