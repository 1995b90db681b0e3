//! Things tried in turn until one of them works.

use vstd::prelude::*;

use crate::lists::first_index;

verus! {

/// Things tried in turn until one of them works.
#[derive(Debug, PartialEq, Eq)]
pub struct Trials<T> {
    pub items: Vec<T>,
    /// Number of items which did not work.
    pub failed: usize,
    /// Whether the item after them worked.
    pub worked: bool,
}

impl<T> Trials<T> {
    /// Item which is tried next.
    pub open spec fn upcoming(&self) -> Option<T> {
        if !self.worked && self.failed < self.items.len() {
            Some(self.items[self.failed as int])
        } else {
            None
        }
    }

    /// Item which worked.
    pub open spec fn success(&self) -> Option<T> {
        if self.worked && self.failed < self.items.len() {
            Some(self.items[self.failed as int])
        } else {
            None
        }
    }

    /// Trials after the outcome of the next one.
    pub open spec fn with_outcome(self, worked: bool) -> Trials<T> {
        if worked {
            Trials { worked: true, ..self }
        } else {
            Trials { failed: (self.failed + 1) as usize, ..self }
        }
    }

    /// Trials after all outcomes, given what works.
    pub open spec fn settled(self, works: spec_fn(T) -> bool) -> Trials<T>
        decreases self.items.len() - self.failed,
    {
        match self.upcoming() {
            Some(item) => if works(item) {
                self.with_outcome(true)
            } else {
                self.with_outcome(false).settled(works)
            },
            None => self,
        }
    }

    /// Start to try items.
    pub fn new(items: Vec<T>) -> (r: Trials<T>)
        ensures
            r == (Trials { items: items, failed: 0, worked: false }),
    {
        Trials { items, failed: 0, worked: false }
    }

    /// Note the outcome of the next trial. The first success ends the trials.
    pub fn outcome(&mut self, worked: bool)
        requires
            old(self).upcoming() is Some,
        ensures
            *final(self) == old(self).with_outcome(worked),
    {
        if worked {
            self.worked = true;
        } else {
            self.failed = self.failed + 1;
        }
    }
}

impl<T: Copy> Trials<T> {
    /// Get the item which is tried next, until one has worked or all have failed.
    pub fn next(&self) -> (r: Option<T>)
        ensures
            r == self.upcoming(),
    {
        if !self.worked && self.failed < self.items.len() {
            Some(self.items[self.failed])
        } else {
            None
        }
    }

    /// Get the item which worked.
    pub fn result(&self) -> (r: Option<T>)
        ensures
            r == self.success(),
    {
        if self.worked && self.failed < self.items.len() {
            Some(self.items[self.failed])
        } else {
            None
        }
    }
}

/// The trials end, with the first item that works. If none does, all were tried.
pub proof fn law_first_success_wins<T>(trials: Trials<T>, works: spec_fn(T) -> bool)
    requires
        !trials.worked,
    ensures
        ({
            let end = trials.settled(works);
            &&& end.upcoming() is None
            &&& end.items == trials.items
            &&& match first_index(trials.items@, works, trials.failed as int) {
                Some(i) => end.success() == Some(trials.items[i]) && end.failed == i,
                None => end.success() is None && !end.worked && end.failed >= trials.items.len(),
            }
        }),
    decreases trials.items.len() - trials.failed,
{
    if let Some(item) = trials.upcoming() {
        if !works(item) {
            law_first_success_wins(trials.with_outcome(false), works);
        }
    }
}

/// Items are tried in their order, one failure at a time, and nothing is tried after a success.
pub proof fn law_trials_go_in_order<T>(trials: Trials<T>)
    requires
        trials.failed < trials.items.len(),
        !trials.worked,
    ensures
        trials.upcoming() == Some(trials.items[trials.failed as int]),
        trials.success() is None,
        trials.with_outcome(true).upcoming() is None,
        trials.with_outcome(true).success() == Some(trials.items[trials.failed as int]),
        trials.with_outcome(false).success() is None,
        trials.failed + 1 < trials.items.len() ==> trials.with_outcome(false).upcoming() == Some(
            trials.items[trials.failed + 1],
        ),
        trials.failed + 1 == trials.items.len() ==> trials.with_outcome(false).upcoming() is None,
        trials.with_outcome(false).items == trials.items,
{
}

/// Nothing is left to try once every item has failed, and nothing has worked then.
pub proof fn law_trials_run_out<T>(trials: Trials<T>)
    requires
        trials.failed >= trials.items.len(),
    ensures
        trials.upcoming() is None,
        trials.success() is None,
{
}

} // verus!
