//! The uncontrolled store on plain values: a cell, the value its observer saw
//! last, and the rule by which the observer reports changes.
use crate::rules::{lawful, notification, observe, Observation};
use vstd::prelude::*;

verus! {

/// A store for a value that nobody outside controls.
///
/// Every write is followed at once by a run of the observer, so between two
/// calls the value seen last is the value in the cell.
pub struct UncontrolledValue<T> {
    value: Option<T>,
    previous: Option<T>,
}

impl<T> View for UncontrolledValue<T> {
    type V = Option<T>;

    /// The value in the cell.
    closed spec fn view(&self) -> Option<T> {
        self.value
    }
}

impl<T: Clone + PartialEq> UncontrolledValue<T> {
    /// The value that the observer saw last.
    pub closed spec fn seen(&self) -> Option<T> {
        self.previous
    }

    /// The observer has seen the value that the cell holds.
    pub open spec fn wf(&self) -> bool {
        self.seen() == self@
    }

    /// A store seeded with `default_value`. The seed counts as seen: the
    /// observer does not report it.
    pub fn new(default_value: Option<T>) -> (store: Self)
        requires
            lawful::<T>(),
        ensures
            store.wf(),
            store@ == default_value,
    {
        let previous = default_value.clone();
        UncontrolledValue { value: default_value, previous }
    }

    /// The value in the cell.
    pub fn get(&self) -> (value: &Option<T>)
        ensures
            *value == self@,
    {
        &self.value
    }

    /// Lets the observer look at the cell. Returns the value it reports.
    fn run_observer(&mut self) -> (fired: Option<T>)
        requires
            lawful::<T>(),
        ensures
            final(self).wf(),
            final(self)@ == old(self)@,
            fired == notification(old(self).previous, old(self).value),
    {
        match observe(&self.previous, &self.value) {
            Observation::Unchanged => None,
            Observation::Cleared => {
                self.previous = None;
                None
            },
            Observation::Changed => {
                self.previous = self.value.clone();
                self.value.clone()
            },
        }
    }

    /// Puts `value` in the cell. Returns the value that the observer reports
    /// for this write: `value` itself if it is concrete and differs from what
    /// the cell held, and nothing otherwise.
    pub fn write(&mut self, value: Option<T>) -> (fired: Option<T>)
        requires
            lawful::<T>(),
            old(self).wf(),
        ensures
            final(self).wf(),
            final(self)@ == value,
            fired == notification(old(self)@, value),
    {
        self.value = value;
        self.run_observer()
    }

    /// Lets `mutator` change the cell's value in place. Returns the value that
    /// the observer reports for the outcome, as [`write`](Self::write) does.
    /// The mutator is called once, on the cell as it is: nothing is asked of
    /// it but that it can be called on the value that the cell holds.
    pub fn update<F: FnOnce(&mut Option<T>)>(&mut self, mutator: F) -> (fired: Option<T>)
        requires
            lawful::<T>(),
            old(self).wf(),
            forall|cell: &mut Option<T>| *cell == old(self)@ ==> call_requires(mutator, (cell,)),
        ensures
            final(self).wf(),
            exists|cell: &mut Option<T>|
                {
                    &&& *cell == old(self)@
                    &&& #[trigger] call_ensures(mutator, (cell,), ())
                    &&& final(self)@ == *final(cell)
                    &&& fired == notification(old(self)@, *final(cell))
                },
    {
        mutator(&mut self.value);
        self.run_observer()
    }
}

/// The value in the cell of a store that was seeded with `seed` and then
/// written with each value of `writes` in turn.
pub open spec fn value_after<T>(seed: Option<T>, writes: Seq<Option<T>>) -> Option<T> {
    if writes.len() == 0 {
        seed
    } else {
        writes.last()
    }
}

/// What the observer reports for the write at position `i` of `writes`.
pub open spec fn fired_at<T>(seed: Option<T>, writes: Seq<Option<T>>, i: int) -> Option<T> {
    notification(value_after(seed, writes.take(i)), writes[i])
}

/// How many of the writes at positions `lo..hi` the observer reports.
pub open spec fn reports_in<T>(seed: Option<T>, writes: Seq<Option<T>>, lo: int, hi: int) -> nat
    decreases hi - lo,
{
    if lo >= hi {
        0
    } else if fired_at(seed, writes, hi - 1) is Some {
        reports_in(seed, writes, lo, hi - 1) + 1
    } else {
        reports_in(seed, writes, lo, hi - 1)
    }
}

/// The writes at positions `lo..hi` are a maximal run of one concrete value:
/// they are equal, and the writes next to them, where there are any, differ.
pub open spec fn is_run<T>(writes: Seq<Option<T>>, lo: int, hi: int) -> bool {
    &&& 0 <= lo < hi <= writes.len()
    &&& writes[lo] is Some
    &&& forall|k: int| lo <= k < hi ==> writes[k] == writes[lo]
    &&& lo > 0 ==> writes[lo - 1] != writes[lo]
    &&& hi < writes.len() ==> writes[hi] != writes[lo]
}

/// The run at `lo..hi` repeats the seed: it starts with the first write, and
/// its value is the one the store was seeded with.
pub open spec fn repeats_seed<T>(seed: Option<T>, writes: Seq<Option<T>>, lo: int) -> bool {
    lo == 0 && seed == writes[0]
}

proof fn lemma_later_writes_are_silent<T>(
    seed: Option<T>,
    writes: Seq<Option<T>>,
    lo: int,
    hi: int,
)
    requires
        0 <= lo < hi <= writes.len(),
        forall|k: int| lo <= k < hi ==> writes[k] == writes[lo],
    ensures
        reports_in(seed, writes, lo + 1, hi) == 0,
    decreases hi - lo,
{
    if lo + 1 < hi {
        lemma_later_writes_are_silent(seed, writes, lo, hi - 1);
        assert(writes.take(hi - 1).last() == writes[hi - 2]);
    }
}

proof fn lemma_count_from_first<T>(seed: Option<T>, writes: Seq<Option<T>>, lo: int, hi: int)
    requires
        0 <= lo < hi <= writes.len(),
    ensures
        reports_in(seed, writes, lo, hi) == reports_in(seed, writes, lo, lo + 1) + reports_in(
            seed,
            writes,
            lo + 1,
            hi,
        ),
    decreases hi - lo,
{
    if lo + 1 < hi {
        lemma_count_from_first(seed, writes, lo, hi - 1);
    } else {
        assert(reports_in(seed, writes, lo + 1, hi) == 0);
    }
}

/// Deduplication: of the writes of a maximal run of one concrete value, the
/// observer reports exactly one, the first, and it reports the run's value.
/// The one run left out is a run that repeats the seed, which the observer has
/// seen already: see [`law_seed_is_not_reported`].
pub proof fn law_dedup<T>(seed: Option<T>, writes: Seq<Option<T>>, lo: int, hi: int)
    requires
        is_run(writes, lo, hi),
        !repeats_seed(seed, writes, lo),
    ensures
        reports_in(seed, writes, lo, hi) == 1,
        fired_at(seed, writes, lo) == writes[lo],
        forall|k: int| lo < k < hi ==> fired_at(seed, writes, k) is None,
{
    lemma_count_from_first(seed, writes, lo, hi);
    lemma_later_writes_are_silent(seed, writes, lo, hi);
    if lo > 0 {
        assert(writes.take(lo).last() == writes[lo - 1]);
    }
    assert(reports_in(seed, writes, lo, lo) == 0);
    assert forall|k: int| lo < k < hi implies fired_at(seed, writes, k) is None by {
        assert(writes.take(k).last() == writes[k - 1]);
    }
}

/// A run that repeats the seed is not reported at all.
pub proof fn law_seed_is_not_reported<T>(seed: Option<T>, writes: Seq<Option<T>>, hi: int)
    requires
        is_run(writes, 0, hi),
        repeats_seed(seed, writes, 0),
    ensures
        reports_in(seed, writes, 0, hi) == 0,
{
    lemma_count_from_first(seed, writes, 0, hi);
    lemma_later_writes_are_silent(seed, writes, 0, hi);
    assert(reports_in(seed, writes, 0, 0) == 0);
}

/// The value written just before position `i`: the seed before the first
/// write.
pub open spec fn written_before<T>(seed: Option<T>, writes: Seq<Option<T>>, i: int) -> Option<T> {
    if i == 0 {
        seed
    } else {
        writes[i - 1]
    }
}

/// The observer reports a write exactly if it is concrete and differs from
/// the value written just before it, and then it reports the written value.
pub proof fn law_report_at<T>(seed: Option<T>, writes: Seq<Option<T>>, i: int)
    requires
        0 <= i < writes.len(),
    ensures
        value_after(seed, writes.take(i)) == written_before(seed, writes, i),
        fired_at(seed, writes, i) == (if writes[i] is Some && writes[i] != written_before(
            seed,
            writes,
            i,
        ) {
            writes[i]
        } else {
            None
        }),
{
    if i > 0 {
        assert(writes.take(i).last() == writes[i - 1]);
    }
}

/// A write of the value that the cell holds already is not reported: of two
/// writes of equal values in a row, the observer never reports both.
pub proof fn law_repeat_is_not_reported<T>(seed: Option<T>, writes: Seq<Option<T>>, i: int)
    requires
        0 <= i < writes.len(),
        writes[i] == written_before(seed, writes, i),
    ensures
        fired_at(seed, writes, i) is None,
{
    law_report_at(seed, writes, i);
}

/// The observer never reports a write of the empty value.
pub proof fn law_empty_is_not_reported<T>(seed: Option<T>, writes: Seq<Option<T>>, i: int)
    requires
        0 <= i < writes.len(),
        writes[i] is None,
    ensures
        fired_at(seed, writes, i) is None,
{
}

} // verus!
