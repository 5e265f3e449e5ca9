//! Previous/current snapshot pairs and the edge detection built on them.

use vstd::prelude::*;
use vstd::std_specs::cmp::PartialEqSpec;

verus! {

/// The last two values that were observed of some quantity.
///
/// `current` is the newest value and `old` the one before it. Both are `None`
/// until the first update, and `old` stays `None` until the second.
#[derive(Clone, Debug, PartialEq, Eq)]
pub struct WatcherPair<T> {
    pub old: Option<T>,
    pub current: Option<T>,
}

impl<T> WatcherPair<T> {
    /// A previous value is only ever present next to a current one.
    pub open spec fn wf(self) -> bool {
        self.current is None ==> self.old is None
    }

    /// The pair before anything was observed.
    pub open spec fn spec_new() -> Self {
        WatcherPair { old: None, current: None }
    }

    /// The pair after `value` was observed: what was current becomes old.
    pub open spec fn spec_update(self, value: T) -> Self {
        WatcherPair { old: self.current, current: Some(value) }
    }

    /// The pair after every element of `values` was observed in order,
    /// starting from a pair that has seen nothing.
    pub open spec fn after_updates(values: Seq<T>) -> Self
        decreases values.len(),
    {
        if values.len() == 0 {
            Self::spec_new()
        } else {
            Self::after_updates(values.drop_last()).spec_update(values.last())
        }
    }

    pub fn new() -> (pair: Self)
        ensures
            pair == Self::spec_new(),
            pair.wf(),
    {
        WatcherPair { old: None, current: None }
    }

    /// Records a new observation.
    pub fn update(&mut self, new_value: T)
        ensures
            *final(self) == old(self).spec_update(new_value),
            final(self).wf(),
    {
        let previous = self.current.take();
        self.old = previous;
        self.current = Some(new_value);
    }

    /// Records the outcome of a read that may have failed. A failed read is
    /// recorded as `fallback`, so the pair itself never holds a failure.
    pub fn update_infallible(&mut self, reading: Option<T>, fallback: T)
        ensures
            *final(self) == old(self).spec_update(
                match reading {
                    Some(value) => value,
                    None => fallback,
                },
            ),
            final(self).wf(),
    {
        match reading {
            Some(value) => self.update(value),
            None => self.update(fallback),
        }
    }
}

impl<T: PartialEq> WatcherPair<T> {
    /// Whether the last update moved the value onto `target` from something
    /// else. A pair that has no previous value has not moved.
    pub open spec fn spec_changed_to(self, target: T) -> bool {
        &&& self.current is Some
        &&& self.current->0.eq_spec(&target)
        &&& self.old is Some
        &&& !self.old->0.eq_spec(&target)
    }

    /// Whether the current value is `target`.
    pub open spec fn spec_holds(self, target: T) -> bool {
        &&& self.current is Some
        &&& self.current->0.eq_spec(&target)
    }

    pub fn changed_to(&self, target: &T) -> (changed: bool)
        ensures
            T::obeys_eq_spec() ==> changed == self.spec_changed_to(*target),
    {
        match (&self.old, &self.current) {
            (Some(old), Some(current)) => *current == *target && *old != *target,
            _ => false,
        }
    }

    pub fn holds(&self, target: &T) -> (held: bool)
        ensures
            T::obeys_eq_spec() ==> held == self.spec_holds(*target),
    {
        match &self.current {
            Some(current) => *current == *target,
            None => false,
        }
    }
}

/// The very first observation never counts as a change, whatever was
/// observed and whatever is asked for.
pub proof fn lemma_first_update_is_no_change<T: PartialEq>(value: T, target: T)
    ensures
        !WatcherPair::<T>::spec_new().spec_update(value).spec_changed_to(target),
{
}

/// After observing `values` one by one, the pair reports a change to `target`
/// exactly when the last value is `target` and the one before it exists and is
/// not.
pub proof fn lemma_changed_to_is_an_edge<T: PartialEq>(values: Seq<T>, target: T)
    requires
        values.len() > 0,
    ensures
        WatcherPair::<T>::after_updates(values).spec_changed_to(target) <==> {
            &&& values.len() >= 2
            &&& values[values.len() - 1].eq_spec(&target)
            &&& !values[values.len() - 2].eq_spec(&target)
        },
        WatcherPair::<T>::after_updates(values).wf(),
{
    let init = values.drop_last();
    if init.len() > 0 {
        assert(WatcherPair::<T>::after_updates(init).current == Some(init.last())) by {
            reveal_with_fuel(WatcherPair::after_updates, 2);
        }
        assert(init.last() == values[values.len() - 2]);
    } else {
        assert(WatcherPair::<T>::after_updates(init) == WatcherPair::<T>::spec_new());
    }
}

/// While `values` are observed one by one, a change to `target` is reported
/// after the observation at index `at` exactly when that value is `target`
/// and the value before it exists and is not. At index 0 there is no value
/// before, and no change is reported.
pub proof fn lemma_changed_to_at_index<T: PartialEq>(values: Seq<T>, at: int, target: T)
    requires
        0 <= at < values.len(),
    ensures
        WatcherPair::<T>::after_updates(values.take(at + 1)).spec_changed_to(target) <==> {
            &&& at >= 1
            &&& values[at].eq_spec(&target)
            &&& !values[at - 1].eq_spec(&target)
        },
{
    lemma_changed_to_is_an_edge(values.take(at + 1), target);
}

} // verus!
