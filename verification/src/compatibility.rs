//! When the bytes of one layout may be read as another.
//!
//! The relation compares two layouts slot by slot. It asks more of the source
//! the more the target shows: padding takes anything, a private byte takes any
//! byte that a field holds, and a public byte takes only a public byte whose
//! every value is one of its own.

use vstd::prelude::*;

pub mod laws;

use crate::layout::Slot;
use crate::structure::Primitive;

verus! {

/// Whether every value that byte `source_index` of a `source` can hold is one
/// that byte `target_index` of a `target` can hold.
pub open spec fn byte_compatible(
    source: Primitive,
    source_index: nat,
    target: Primitive,
    target_index: nat,
) -> bool {
    forall|byte: u8| #[trigger]
        source.admits(source_index, byte) ==> target.admits(target_index, byte)
}

/// The rule for one byte position.
pub open spec fn slot_compatible(source: Slot, target: Slot) -> bool {
    match target {
        Slot::Padding => true,
        Slot::Private(_) => source !is Padding,
        Slot::Public(target_type, target_index) => match source {
            Slot::Public(source_type, source_index) => byte_compatible(
                source_type,
                source_index as nat,
                target_type,
                target_index as nat,
            ),
            _ => false,
        },
    }
}

/// Whether a value laid out as `source` may be read as one laid out as
/// `target`: the two are equally long, and the rule holds at every position.
pub open spec fn compatible(source: Seq<Slot>, target: Seq<Slot>) -> bool {
    &&& source.len() == target.len()
    &&& forall|i: int| 0 <= i < target.len() ==> slot_compatible(#[trigger] source[i], target[i])
}

/// Decides `byte_compatible`. Of the primitives only `Bool` restricts its
/// byte, so only a `Bool` can be read as a `Bool`.
pub fn bytes_compatible(
    source: Primitive,
    source_index: usize,
    target: Primitive,
    target_index: usize,
) -> (b: bool)
    ensures
        b == byte_compatible(source, source_index as nat, target, target_index as nat),
{
    match target {
        Primitive::Bool => match source {
            Primitive::Bool => true,
            _ => {
                assert(source.admits(source_index as nat, 2u8));
                assert(!target.admits(target_index as nat, 2u8));
                false
            },
        },
        _ => true,
    }
}

/// Decides `slot_compatible`.
pub fn slots_compatible(source: Slot, target: Slot) -> (b: bool)
    ensures
        b == slot_compatible(source, target),
{
    match target {
        Slot::Padding => true,
        Slot::Private(_) => match source {
            Slot::Padding => false,
            _ => true,
        },
        Slot::Public(target_type, target_index) => match source {
            Slot::Public(source_type, source_index) => bytes_compatible(
                source_type,
                source_index,
                target_type,
                target_index,
            ),
            _ => false,
        },
    }
}

/// Decides whether a value laid out as `source` may be read as one laid out
/// as `target`. Layouts of different sizes are never compatible.
pub fn is_compatible(source: &[Slot], target: &[Slot]) -> (b: bool)
    ensures
        b == compatible(source@, target@),
{
    if source.len() != target.len() {
        return false;
    }
    let mut i: usize = 0;
    while i < target.len()
        invariant
            i <= target.len(),
            source@.len() == target@.len(),
            forall|k: int| 0 <= k < i ==> slot_compatible(#[trigger] source@[k], target@[k]),
        decreases target.len() - i,
    {
        if !slots_compatible(source[i], target[i]) {
            return false;
        }
        i = i + 1;
    }
    true
}

} // verus!
