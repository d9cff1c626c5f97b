//! Replacing the value held in a slot with a value computed from it,
//! without a placeholder of the value's own type.
use vstd::prelude::*;

verus! {

/// A single exclusively owned storage location.
///
/// Between operations a slot is `Valid` and holds exactly one live value.
/// `Empty` is the state of a slot whose value has been moved out and not yet
/// replaced: it owns nothing, so tearing it down destroys nothing.
#[derive(Debug, PartialEq, Eq)]
pub enum Slot<T> {
    Valid(T),
    Empty,
}

/// Replaces the value held in `src` with the value that `prod` makes from it.
///
/// The old value is moved out of the slot, which is left `Empty`, and handed
/// to `prod` by value; what `prod` returns is moved back into the slot.
/// `prod` is called exactly once: it is an `FnOnce`, consumed by the call.
///
/// If `prod` aborts, the abort propagates to the caller and the slot stays
/// `Empty`. The old value then belongs to `prod` alone and is destroyed once
/// as the abort unwinds; the empty slot holds no copy of it, so tearing the
/// slot down afterwards destroys nothing a second time.
pub fn replace_map<T, F>(src: &mut Slot<T>, prod: F)
    where
        F: FnOnce(T) -> T,
    requires
        *old(src) is Valid,
        prod.requires((old(src)->Valid_0,)),
    ensures
        *final(src) is Valid,
        prod.ensures((old(src)->Valid_0,), final(src)->Valid_0),
{
    let mut taken: Slot<T> = Slot::Empty;
    std::mem::swap(src, &mut taken);
    match taken {
        Slot::Valid(value) => {
            *src = Slot::Valid(prod(value));
        },
        Slot::Empty => {},
    }
}

} // verus!
