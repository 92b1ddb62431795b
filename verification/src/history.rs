//! Bounded history of recent CPU samples, most-recent-first, with a capacity
//! tied to the current terminal width. The length never exceeds the last-set
//! capacity, whatever sequence of inserts and resizes runs — including a
//! resize to 0.

use vstd::prelude::*;

verus! {

/// Default capacity used before the first terminal width is known.
pub const DEFAULT_HISTORY_CAPACITY: usize = 200;

/// An ordered sequence of recent CPU-usage samples (integer percent,
/// most-recent-first). Capacity only shrinks the stored samples; growth
/// happens one prepend at a time through normal sampling.
pub struct CpuHistory {
    samples: Vec<u64>,
    capacity: usize,
}

impl CpuHistory {
    /// The stored samples, newest first.
    pub closed spec fn view(&self) -> Seq<u64> {
        self.samples@
    }

    /// The bound last set on the history's length.
    pub closed spec fn capacity(&self) -> int {
        self.capacity as int
    }

    /// The history invariant: never more samples than the capacity allows.
    pub open spec fn wf(&self) -> bool {
        self@.len() <= self.capacity()
    }

    /// A history seeded with `capacity` zero-valued samples, already full to
    /// its bound.
    pub fn new(capacity: usize) -> (h: CpuHistory)
        ensures
            h.wf(),
            h.capacity() == capacity,
            h@ =~= Seq::new(capacity as nat, |i: int| 0u64),
    {
        let samples: Vec<u64> = vec![0u64; capacity];
        proof {
            assert(samples@ =~= Seq::new(capacity as nat, |i: int| 0u64));
        }
        CpuHistory { samples, capacity }
    }

    /// How many samples are stored.
    pub fn len(&self) -> (n: usize)
        ensures
            n == self@.len(),
    {
        self.samples.len()
    }

    /// Read access to the stored samples, newest first.
    pub fn samples(&self) -> (s: &Vec<u64>)
        ensures
            s@ == self@,
    {
        &self.samples
    }

    /// What a history holds after a sample is prepended under a capacity
    /// bound: the new sample at the head, then as much of the old contents as
    /// still fits.
    pub open spec fn recorded(old_samples: Seq<u64>, sample: u64, capacity: int) -> Seq<u64> {
        let grown = old_samples.insert(0, sample);
        if grown.len() <= capacity {
            grown
        } else if capacity < 0 {
            grown.take(0)
        } else {
            grown.take(capacity)
        }
    }

    /// Prepends the newest sample and evicts from the tail whatever no longer
    /// fits. With capacity 0 the history simply stays empty.
    pub fn record(&mut self, sample: u64)
        requires
            old(self).wf(),
        ensures
            final(self).wf(),
            final(self).capacity() == old(self).capacity(),
            final(self)@ =~= Self::recorded(old(self)@, sample, old(self).capacity()),
            final(self)@.len() <= old(self)@.len() + 1,
    {
        self.samples.insert(0, sample);
        if self.samples.len() > self.capacity {
            self.samples.truncate(self.capacity);
        }
    }

    /// Re-bounds the history to a new capacity, truncating stored samples
    /// from the tail; the stored prefix is untouched and the history never
    /// grows here.
    pub fn resize(&mut self, new_capacity: usize)
        ensures
            final(self).wf(),
            final(self).capacity() == new_capacity,
            final(self)@ =~= if old(self)@.len() <= new_capacity {
                old(self)@
            } else {
                old(self)@.take(new_capacity as int)
            },
    {
        self.capacity = new_capacity;
        if self.samples.len() > new_capacity {
            self.samples.truncate(new_capacity);
        }
    }
}

/// The history bound, stated over the model: a record step from any state
/// within the capacity lands within the capacity again. With `new`, `record`
/// and `resize` each re-establishing `wf`, no sequence of inserts and
/// resizes — including a resize to 0 — can push the length past the last-set
/// capacity.
pub proof fn lemma_record_respects_capacity(samples: Seq<u64>, sample: u64, capacity: int)
    requires
        capacity >= 0,
        samples.len() <= capacity,
    ensures
        CpuHistory::recorded(samples, sample, capacity).len() <= capacity,
{
}

} // verus!
