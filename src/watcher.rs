//! Edge detection over the last two successful samples of one location.
use vstd::prelude::*;

verus! {

/// The two most recent successfully sampled values of one memory location.
#[derive(Debug)]
pub struct Watcher<T> {
    pub current: T,
    pub old: T,
}

impl<T: Copy> Watcher<T> {
    /// A watcher whose both samples are `initial`.
    pub fn new(initial: T) -> (r: Watcher<T>)
        ensures
            r.current == initial,
            r.old == initial,
    {
        Watcher { current: initial, old: initial }
    }

    /// The watcher after one successful sample `value`.
    pub open spec fn updated(self, value: T) -> Watcher<T> {
        Watcher { current: value, old: self.current }
    }

    /// The watcher after a sample that may have failed: a failure leaves it
    /// as it was.
    pub open spec fn try_updated(self, sample: Result<T, ()>) -> Watcher<T> {
        match sample {
            Ok(v) => self.updated(v),
            Err(_) => self,
        }
    }

    /// Shifts the current sample into `old` and records `value` as current.
    pub fn update(&mut self, value: T)
        ensures
            *final(self) == old(self).updated(value),
    {
        self.old = self.current;
        self.current = value;
    }

    /// Records a sample that may have failed. On failure nothing changes and
    /// the failure is handed back.
    pub fn try_update(&mut self, sample: Result<T, ()>) -> (r: Result<(), ()>)
        ensures
            *final(self) == old(self).try_updated(sample),
            r is Ok <==> sample is Ok,
    {
        match sample {
            Ok(v) => {
                self.update(v);
                Ok(())
            },
            Err(e) => Err(e),
        }
    }
}

} // verus!
