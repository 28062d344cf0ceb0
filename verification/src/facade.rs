//! The controllable value on plain values: one read and one write handle over
//! a controlled input and an uncontrolled store.
//!
//! The facade keeps no record of who owns the value. Every access is handed
//! the controlled input's value of that moment and decides from it alone.
use crate::rules::{controlled, is_controlled, lawful, notification, select, unified};
use crate::store::UncontrolledValue;
use vstd::prelude::*;

verus! {

/// What a write through the facade handed on, and by which way.
#[derive(Debug, PartialEq, Eq)]
pub enum Notice<T> {
    /// The store took the value, and its observer had nothing to report.
    Silent,
    /// The caller owns the value: the written value went straight to the
    /// change channel, empty or not, and the store was left alone.
    Forwarded(Option<T>),
    /// The store took the value, and its observer reported it as new.
    Observed(T),
}

/// The value that reaches the change callback, which takes concrete values
/// only.
pub open spec fn delivery<T>(notice: Notice<T>) -> Option<T> {
    match notice {
        Notice::Silent => None,
        Notice::Forwarded(value) => value,
        Notice::Observed(value) => Some(value),
    }
}

/// Whether the write went to the store: it did unless it was forwarded. A
/// write that went to the store is one that readers of the stored value have
/// to be told of.
pub open spec fn reached_store<T>(notice: Notice<T>) -> bool {
    !(notice is Forwarded)
}

impl<T> Notice<T> {
    /// Whether the write went to the store.
    pub fn stored(&self) -> (stored: bool)
        ensures
            stored == reached_store(*self),
    {
        match self {
            Notice::Forwarded(_) => false,
            _ => true,
        }
    }

    /// The value with which the change callback is called, if it is called.
    pub fn delivered(self) -> (value: Option<T>)
        ensures
            value == delivery(self),
    {
        match self {
            Notice::Silent => None,
            Notice::Forwarded(value) => value,
            Notice::Observed(value) => Some(value),
        }
    }
}

/// The stored value after `written` was written while the controlled input
/// held `input`: a write reaches the store only while nobody controls.
pub open spec fn stored_after_write<T>(
    input: Option<T>,
    stored: Option<T>,
    written: Option<T>,
) -> Option<T> {
    if controlled(input) {
        stored
    } else {
        written
    }
}

/// What a write of `written` hands on while the controlled input holds `input`
/// and the store holds `stored`.
pub open spec fn notice_of_write<T>(
    input: Option<T>,
    stored: Option<T>,
    written: Option<T>,
) -> Notice<T> {
    if controlled(input) {
        Notice::Forwarded(written)
    } else {
        match notification(stored, written) {
            Some(value) => Notice::Observed(value),
            None => Notice::Silent,
        }
    }
}

/// A value that is either kept in an internal store or supplied by the caller.
pub struct ControllableValue<T> {
    store: UncontrolledValue<T>,
}

impl<T> View for ControllableValue<T> {
    type V = Option<T>;

    /// The value in the internal store.
    closed spec fn view(&self) -> Option<T> {
        self.store@
    }
}

impl<T: Clone + PartialEq> ControllableValue<T> {
    /// The value that the store's observer saw last.
    pub closed spec fn seen(&self) -> Option<T> {
        self.store.seen()
    }

    /// The store's observer has seen the value that the store holds.
    pub open spec fn wf(&self) -> bool {
        self.seen() == self@
    }

    /// A controllable value whose store is seeded with `default_value`.
    pub fn new(default_value: Option<T>) -> (value: Self)
        requires
            lawful::<T>(),
        ensures
            value.wf(),
            value@ == default_value,
    {
        ControllableValue { store: UncontrolledValue::new(default_value) }
    }

    /// The present value, given the controlled input's present value: the
    /// input while it holds a value, the stored value otherwise.
    pub fn get<'a>(&'a self, input: &'a Option<T>) -> (value: &'a Option<T>)
        ensures
            *value == unified(*input, self@),
    {
        select(input, self.store.get())
    }

    /// Writes `value`. While the caller controls, the value is forwarded and
    /// the store keeps what it has. Otherwise the store takes the value, and
    /// its observer reports it if it differs from the value stored before.
    pub fn set(&mut self, input: &Option<T>, value: T) -> (notice: Notice<T>)
        requires
            lawful::<T>(),
            old(self).wf(),
        ensures
            final(self).wf(),
            final(self)@ == stored_after_write(*input, old(self)@, Some(value)),
            notice == notice_of_write(*input, old(self)@, Some(value)),
    {
        if is_controlled(input) {
            Notice::Forwarded(Some(value))
        } else {
            match self.store.write(Some(value)) {
                Some(fired) => Notice::Observed(fired),
                None => Notice::Silent,
            }
        }
    }

    /// Writes what `mutator` makes of the present value. While the caller
    /// controls, the mutator works on a copy of the caller's value and the
    /// outcome is forwarded, even if it is empty; the store keeps what it has.
    /// Otherwise the mutator works on the stored value in place, and the
    /// store's observer reports the outcome if it is concrete and new.
    /// Either way the mutator is called once, and nothing is asked of it but
    /// that it can be called on the present value.
    pub fn update<F: FnOnce(&mut Option<T>)>(&mut self, input: &Option<T>, mutator: F) -> (notice:
        Notice<T>)
        requires
            lawful::<T>(),
            old(self).wf(),
            forall|cell: &mut Option<T>|
                *cell == unified(*input, old(self)@) ==> call_requires(mutator, (cell,)),
        ensures
            final(self).wf(),
            exists|cell: &mut Option<T>|
                {
                    &&& *cell == unified(*input, old(self)@)
                    &&& #[trigger] call_ensures(mutator, (cell,), ())
                    &&& final(self)@ == stored_after_write(*input, old(self)@, *final(cell))
                    &&& notice == notice_of_write(*input, old(self)@, *final(cell))
                },
    {
        if is_controlled(input) {
            let mut copy = input.clone();
            mutator(&mut copy);
            Notice::Forwarded(copy)
        } else {
            match self.store.update(mutator) {
                Some(fired) => Notice::Observed(fired),
                None => Notice::Silent,
            }
        }
    }
}

/// One access to the facade.
pub enum Access<T> {
    /// A read of the unified value.
    Read,
    /// A write: `set(v)` writes `Some(v)`, `update` writes what its mutator
    /// made of the present value.
    Write(Option<T>),
}

/// An access together with the value that the controlled input held when the
/// access was made.
pub struct Event<T> {
    pub input: Option<T>,
    pub access: Access<T>,
}

/// The stored value after one access.
pub open spec fn stored_after_event<T>(stored: Option<T>, event: Event<T>) -> Option<T> {
    match event.access {
        Access::Read => stored,
        Access::Write(written) => stored_after_write(event.input, stored, written),
    }
}

/// The stored value after the accesses of `history`, made in turn on a facade
/// whose store was seeded with `seed`.
pub open spec fn stored_after<T>(seed: Option<T>, history: Seq<Event<T>>) -> Option<T>
    decreases history.len(),
{
    if history.len() == 0 {
        seed
    } else {
        stored_after_event(stored_after(seed, history.drop_last()), history.last())
    }
}

/// What a read returns that follows `history` while the controlled input holds
/// `input`.
pub open spec fn read_after<T>(seed: Option<T>, history: Seq<Event<T>>, input: Option<T>) -> Option<
    T,
> {
    unified(input, stored_after(seed, history))
}

/// Every access of `history` was a read.
pub open spec fn only_reads<T>(history: Seq<Event<T>>) -> bool {
    forall|i: int| 0 <= i < history.len() ==> (#[trigger] history[i]).access is Read
}

/// Every access of `history` was made while the caller controlled.
pub open spec fn all_controlled<T>(history: Seq<Event<T>>) -> bool {
    forall|i: int| 0 <= i < history.len() ==> controlled((#[trigger] history[i]).input)
}

/// Mode purity: a read returns what the controlled input of its own moment
/// decides, whatever the input held at earlier accesses. After any number of
/// reads, made while the input came and went in any way, that is the input's
/// value if it holds one and the seed otherwise: no earlier mode is remembered.
pub proof fn law_mode_purity<T>(seed: Option<T>, history: Seq<Event<T>>, input: Option<T>)
    ensures
        controlled(input) ==> read_after(seed, history, input) == input,
        !controlled(input) ==> read_after(seed, history, input) == stored_after(seed, history),
        only_reads(history) ==> read_after(seed, history, input) == unified(input, seed),
    decreases history.len(),
{
    if history.len() > 0 && only_reads(history) {
        let earlier = history.drop_last();
        assert forall|i: int| 0 <= i < earlier.len() implies (#[trigger] earlier[i]).access is Read by {
            assert(earlier[i] == history[i]);
        }
        law_mode_purity(seed, earlier, input);
        assert(history.last() == history[history.len() - 1]);
    }
}

/// No cross-contamination: whatever was done before, accesses made while the
/// caller controls leave the store as they found it. Once control reverts, a
/// read returns the value that the store held when control was taken.
pub proof fn law_no_cross_contamination<T>(
    seed: Option<T>,
    before: Seq<Event<T>>,
    during: Seq<Event<T>>,
)
    requires
        all_controlled(during),
    ensures
        stored_after(seed, before + during) == stored_after(seed, before),
        read_after(seed, before + during, None) == stored_after(seed, before),
    decreases during.len(),
{
    if during.len() == 0 {
        assert(before + during =~= before);
    } else {
        let earlier = during.drop_last();
        assert forall|i: int| 0 <= i < earlier.len() implies controlled(
            (#[trigger] earlier[i]).input,
        ) by {
            assert(earlier[i] == during[i]);
        }
        law_no_cross_contamination(seed, before, earlier);
        assert((before + during).drop_last() =~= before + earlier);
        assert((before + during).last() == during[during.len() - 1]);
    }
}

/// A notice tells where its write went: to the store exactly if nobody
/// controlled when it was made.
pub proof fn law_notice_names_the_target<T>(input: Option<T>, stored: Option<T>, written: Option<T>)
    ensures
        reached_store(notice_of_write(input, stored, written)) == !controlled(input),
        !reached_store(notice_of_write(input, stored, written)) ==> stored_after_write(
            input,
            stored,
            written,
        ) == stored,
{
}

/// Callback arity: a `set(v)` made while nobody controls calls the change
/// callback exactly once, with `v`, if `v` differs from the stored value, and
/// not at all if the store holds `v` already. Either way the store holds `v`
/// afterwards.
pub proof fn law_callback_arity<T>(stored: Option<T>, v: T)
    ensures
        stored != Some(v) ==> notice_of_write(None, stored, Some(v)) == Notice::Observed(v),
        stored == Some(v) ==> notice_of_write(None, stored, Some(v)) == Notice::<T>::Silent,
        delivery(notice_of_write(None, stored, Some(v))) == (if stored == Some(v) {
            None
        } else {
            Some(v)
        }),
        stored_after_write(None, stored, Some(v)) == Some(v),
{
}

} // verus!
