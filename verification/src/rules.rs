//! The decisions that every access to a controllable value rests on.
use vstd::laws_eq::obeys_concrete_eq;
use vstd::prelude::*;

verus! {

/// `T::clone` returns a value equal to the one it was given.
pub open spec fn exact_clone<T: Clone>() -> bool {
    forall|a: T, b: T| #[trigger] cloned(a, b) ==> a == b
}

/// What deduplication asks of the payload type: `==` on `T` decides equality, and
/// a clone is equal to the value it was cloned from.
pub open spec fn lawful<T: Clone + PartialEq>() -> bool {
    obeys_concrete_eq::<T>() && exact_clone::<T>()
}

/// The caller owns the value exactly while the controlled input holds one.
pub open spec fn controlled<T>(input: Option<T>) -> bool {
    input is Some
}

/// The value a read returns: the controlled input while it holds a value, the
/// stored value otherwise.
pub open spec fn unified<T>(input: Option<T>, stored: Option<T>) -> Option<T> {
    if controlled(input) {
        input
    } else {
        stored
    }
}

/// What the store's observer makes of the value it finds in the cell.
#[derive(Clone, Copy, PartialEq, Eq, Debug)]
pub enum Observation {
    /// The cell holds what was seen last: nothing to do.
    Unchanged,
    /// The cell was emptied: remember that, report nothing.
    Cleared,
    /// The cell holds a new concrete value: report it, then remember it.
    Changed,
}

pub open spec fn observation<T>(previous: Option<T>, current: Option<T>) -> Observation {
    if previous == current {
        Observation::Unchanged
    } else if current is Some {
        Observation::Changed
    } else {
        Observation::Cleared
    }
}

/// The value that the observer reports for `current` when it saw `previous`
/// last, if it reports one.
pub open spec fn notification<T>(previous: Option<T>, current: Option<T>) -> Option<T> {
    if observation(previous, current) == Observation::Changed {
        current
    } else {
        None
    }
}

/// Decides from the controlled input's present value who owns the value now.
pub fn is_controlled<T>(input: &Option<T>) -> (b: bool)
    ensures
        b == controlled(*input),
{
    input.is_some()
}

/// Picks the source of a read: see [`unified`].
pub fn select<'a, T>(input: &'a Option<T>, stored: &'a Option<T>) -> (value: &'a Option<T>)
    ensures
        *value == unified(*input, *stored),
{
    if is_controlled(input) {
        input
    } else {
        stored
    }
}

/// Compares the cell's value with the one seen last: see [`observation`].
pub fn observe<T: PartialEq>(previous: &Option<T>, current: &Option<T>) -> (seen: Observation)
    requires
        obeys_concrete_eq::<T>(),
    ensures
        seen == observation(*previous, *current),
{
    proof {
        reveal(obeys_concrete_eq);
    }
    if previous == current {
        Observation::Unchanged
    } else if current.is_some() {
        Observation::Changed
    } else {
        Observation::Cleared
    }
}

} // verus!
