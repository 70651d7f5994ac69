//! Reading a value of one type as a value of another.
//!
//! A value is handled as its bytes. Reading it as another type leaves the
//! bytes as they are and only changes the layout that they are read by, so it
//! is offered where the two layouts are compatible and nowhere else. A target
//! that asks more of its values than its layout says has its check run on the
//! bytes first.

use vstd::prelude::*;
use crate::compatibility::{compatible, is_compatible, slot_compatible};
use crate::hlist::{layout, layout_of_type, slots_of_type};
use crate::layout::{Layout, Slot};
use crate::Type;

verus! {

/// Whether `byte` may stand in `slot`: a public byte holds a value of its
/// primitive, any other byte holds anything.
pub open spec fn slot_admits(slot: Slot, byte: u8) -> bool {
    match slot {
        Slot::Public(primitive, index) => primitive.admits(index as nat, byte),
        _ => true,
    }
}

/// Whether `bytes` can be the bytes of a value laid out as `slots`.
pub open spec fn admissible(slots: Seq<Slot>, bytes: Seq<u8>) -> bool {
    &&& bytes.len() == slots.len()
    &&& forall|i: int| 0 <= i < slots.len() ==> slot_admits(#[trigger] slots[i], bytes[i])
}

/// Bytes that can be read by a compatible layout can be read by the layout
/// they are compatible with.
pub proof fn lemma_compatible_preserves_admissible(
    source: Seq<Slot>,
    target: Seq<Slot>,
    bytes: Seq<u8>,
)
    requires
        compatible(source, target),
        admissible(source, bytes),
    ensures
        admissible(target, bytes),
{
    assert forall|i: int| 0 <= i < target.len() implies slot_admits(
        #[trigger] target[i],
        bytes[i],
    ) by {
        assert(slot_compatible(source[i], target[i]));
        assert(slot_admits(source[i], bytes[i]));
    }
}

/// The bytes of a value together with the layout they are read by.
pub struct Image {
    bytes: Vec<u8>,
    slots: Ghost<Seq<Slot>>,
}

impl Image {
    /// The bytes, in address order.
    pub closed spec fn bytes_of(&self) -> Seq<u8> {
        self.bytes@
    }

    /// The layout that the bytes are read by.
    pub closed spec fn slots_of(&self) -> Seq<Slot> {
        self.slots@
    }

    /// Whether the bytes fit the layout.
    pub open spec fn wf(&self) -> bool {
        admissible(self.slots_of(), self.bytes_of())
    }

    /// The same bytes read by `slots`.
    pub closed spec fn read_as(self, slots: Seq<Slot>) -> Image {
        Image { bytes: self.bytes, slots: Ghost(slots) }
    }

    /// Reading by another layout changes the layout and nothing else.
    pub proof fn lemma_read_as(self, slots: Seq<Slot>)
        ensures
            self.read_as(slots).bytes_of() == self.bytes_of(),
            self.read_as(slots).slots_of() == slots,
            self.read_as(self.slots_of()) == self,
    {
    }

    /// The image of `bytes` read by `layout`, where the bytes fit it: there
    /// is one byte for each slot, and each public byte holds a value of its
    /// primitive.
    pub fn new(layout: &Layout, bytes: Vec<u8>) -> (r: Option<Image>)
        ensures
            r is Some <==> admissible(layout@.slots, bytes@),
            r matches Some(image) ==> image.bytes_of() == bytes@ && image.slots_of()
                == layout@.slots && image.wf(),
    {
        if bytes.len() != layout.slots.len() {
            return None;
        }
        let mut i: usize = 0;
        while i < bytes.len()
            invariant
                i <= bytes.len(),
                bytes@.len() == layout.slots@.len(),
                forall|k: int| 0 <= k < i ==> slot_admits(#[trigger] layout.slots@[k], bytes@[k]),
            decreases bytes.len() - i,
        {
            let fits = match layout.slots[i] {
                Slot::Public(primitive, index) => primitive.accepts(index, bytes[i]),
                _ => true,
            };
            if !fits {
                assert(!slot_admits(layout.slots@[i as int], bytes@[i as int]));
                return None;
            }
            i = i + 1;
        }
        Some(Image { bytes, slots: Ghost(layout.slots@) })
    }

    /// The bytes.
    pub fn bytes(&self) -> (b: &Vec<u8>)
        ensures
            b@ == self.bytes_of(),
    {
        &self.bytes
    }

    /// Gives the bytes back.
    pub fn into_bytes(self) -> (b: Vec<u8>)
        ensures
            b@ == self.bytes_of(),
    {
        self.bytes
    }

    /// Reads the value by the layout `target`. The bytes stay as they are;
    /// that they fit `target` follows from the two layouts being compatible.
    pub fn reinterpret(self, target: &Layout) -> (to: Image)
        requires
            self.wf(),
            compatible(self.slots_of(), target@.slots),
        ensures
            to == self.read_as(target@.slots),
            to.bytes_of() == self.bytes_of(),
            to.slots_of() == target@.slots,
            to.wf(),
    {
        proof {
            lemma_compatible_preserves_admissible(self.slots@, target@.slots, self.bytes@);
        }
        Image { bytes: self.bytes, slots: Ghost(target.slots@) }
    }

    /// As `reinterpret`, where nothing is known of the two layouts: `None`
    /// where they are not compatible.
    pub fn try_reinterpret(self, source: &Layout, target: &Layout) -> (r: Option<Image>)
        requires
            self.wf(),
            self.slots_of() == source@.slots,
        ensures
            r is Some <==> compatible(source@.slots, target@.slots),
            r matches Some(to) ==> to == self.read_as(target@.slots) && to.wf(),
    {
        if is_compatible(source.slots.as_slice(), target.slots.as_slice()) {
            Some(self.reinterpret(target))
        } else {
            None
        }
    }
}

/// What a check returns for a candidate that meets the invariant.
#[derive(Clone, Copy, PartialEq, Eq, Structural, Debug)]
pub struct Valid;

/// A candidate of a type is a doppelganger sharing that type's structure, but
/// not its methods or invariants.
pub trait Candidate {
    type Candidate;
}

/// What a type asks of its values beyond their layout.
pub trait Invariants: Candidate {
    type Error;

    /// What `check` returns for `candidate`. A type that declares nothing
    /// else accepts every candidate.
    open spec fn verdict(candidate: &Self::Candidate) -> Result<Valid, Self::Error> {
        Ok(Valid)
    }

    /// Decides whether `candidate` is a value of the type. It looks at the
    /// candidate and leaves it as it is.
    fn check(candidate: &Self::Candidate) -> (r: Result<Valid, Self::Error>)
        ensures
            r == Self::verdict(candidate),
    ;
}

/// Marks a type that asks nothing of its values beyond their layout. Such a
/// type has the check that accepts every candidate, and cannot declare
/// another.
pub trait Unrestricted: Candidate {

}

impl<T: Unrestricted> Invariants for T {
    type Error = core::convert::Infallible;

    fn check(candidate: &Self::Candidate) -> (r: Result<Valid, Self::Error>) {
        Ok(Valid)
    }
}

/// A type that is marked as asking nothing beyond its layout accepts every
/// candidate. Transmutation without a check is offered for such types alone,
/// so it never passes over a check that could have failed.
pub proof fn lemma_unrestricted_accepts_all<T: Unrestricted>(candidate: T::Candidate)
    ensures
        <T as Invariants>::verdict(&candidate) == Ok::<Valid, <T as Invariants>::Error>(Valid),
{
}

/// Whether a `U` may be read as a `T`: a layout is derived for each, and that
/// of `U` is compatible with that of `T`.
pub open spec fn transmutable<T: Type, U: Type>() -> bool {
    &&& layout_of_type::<U>() is Ok
    &&& layout_of_type::<T>() is Ok
    &&& compatible(slots_of_type::<U>(), slots_of_type::<T>())
}

/// The image of `bytes` read as a `U`, where a layout is derived for `U` and
/// the bytes fit it.
pub fn image_of<U: Type>(bytes: Vec<u8>) -> (r: Option<Image>)
    ensures
        r is Some <==> layout_of_type::<U>() is Ok && admissible(slots_of_type::<U>(), bytes@),
        r matches Some(image) ==> image.bytes_of() == bytes@ && image.slots_of()
            == slots_of_type::<U>() && image.wf(),
{
    match layout::<U>() {
        Ok(layout) => Image::new(&layout, bytes),
        Err(_) => None,
    }
}

/// Decides `transmutable`.
pub fn is_transmutable<T: Type, U: Type>() -> (b: bool)
    ensures
        b == transmutable::<T, U>(),
{
    let source = match layout::<U>() {
        Ok(source) => source,
        Err(_) => {
            return false;
        },
    };
    let target = match layout::<T>() {
        Ok(target) => target,
        Err(_) => {
            return false;
        },
    };
    is_compatible(source.slots.as_slice(), target.slots.as_slice())
}

/// What a fallible transmutation returns once the target's check has given
/// `verdict` on `candidate`: the candidate where it is valid, the check's
/// error where it is not.
pub open spec fn judged<E>(verdict: Result<Valid, E>, candidate: Image) -> Result<Image, E> {
    match verdict {
        Ok(_) => Ok(candidate),
        Err(e) => Err(e),
    }
}

/// Turns the verdict of a check into the result of the transmutation. On
/// failure the candidate is dropped and only the error is handed on.
pub fn judge<E>(verdict: Result<Valid, E>, candidate: Image) -> (r: Result<Image, E>)
    ensures
        r == judged(verdict, candidate),
{
    match verdict {
        Ok(_) => Ok(candidate),
        Err(e) => Err(e),
    }
}

/// Reads a `U` as a `T` without a check. Offered for targets that ask nothing
/// beyond their layout.
pub fn transmute_from<T: Type + Unrestricted, U: Type>(from: Image) -> (to: Image)
    requires
        from.wf(),
        from.slots_of() == slots_of_type::<U>(),
        transmutable::<T, U>(),
    ensures
        to == from.read_as(slots_of_type::<T>()),
        to.bytes_of() == from.bytes_of(),
        to.slots_of() == slots_of_type::<T>(),
        to.wf(),
{
    proof {
        lemma_compatible_preserves_admissible(from.slots@, slots_of_type::<T>(), from.bytes@);
    }
    Image { bytes: from.bytes, slots: Ghost(slots_of_type::<T>()) }
}

/// Reads a `U` as a `T` and runs the check of `T` on the result: the value
/// where the check accepts it, the check's error where it does not. The
/// candidate that the check looks at is the image itself, read by the layout
/// of `T`.
pub fn try_transmute_from<T: Type + Invariants<Candidate = Image>, U: Type>(from: Image) -> (r:
    Result<Image, T::Error>)
    requires
        from.wf(),
        from.slots_of() == slots_of_type::<U>(),
        transmutable::<T, U>(),
    ensures
        r == judged(
            T::verdict(&from.read_as(slots_of_type::<T>())),
            from.read_as(slots_of_type::<T>()),
        ),
        from.read_as(slots_of_type::<T>()).wf(),
{
    proof {
        lemma_compatible_preserves_admissible(from.slots@, slots_of_type::<T>(), from.bytes@);
    }
    let candidate = Image { bytes: from.bytes, slots: Ghost(slots_of_type::<T>()) };
    let verdict = T::check(&candidate);
    judge(verdict, candidate)
}

} // verus!
