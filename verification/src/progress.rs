//! Progress reporting: the counts that a worker batches, and the
//! milestones that the running total crosses.
use vstd::prelude::*;

verus! {

/// The number of files between two reports of the running total.
pub const MILESTONE: u64 = 10000;

/// The completions that one worker has counted and not sent yet.
#[derive(Clone, Copy, Debug, PartialEq, Eq)]
pub struct ProgressBatch {
    pending: u64,
    threshold: u64,
}

/// The size of a worker's batch: the milestone divided by the number of
/// workers, and at least one.
pub open spec fn batch_threshold(milestone: u64, workers: u64) -> u64 {
    if workers == 0 || milestone / workers == 0 {
        1
    } else {
        milestone / workers
    }
}

impl ProgressBatch {
    /// The completions counted and not sent yet.
    pub closed spec fn pending(&self) -> u64 {
        self.pending
    }

    /// The size of a full batch.
    pub closed spec fn threshold(&self) -> u64 {
        self.threshold
    }

    /// The batch holds fewer completions than its threshold.
    #[verifier::type_invariant]
    spec fn below_threshold(self) -> bool {
        self.pending < self.threshold
    }

    /// An empty batch for one of `workers` workers.
    pub fn new(milestone: u64, workers: u64) -> (r: Self)
        ensures
            r.pending() == 0,
            r.threshold() == batch_threshold(milestone, workers),
    {
        let threshold = if workers == 0 || milestone / workers == 0 {
            1
        } else {
            milestone / workers
        };
        ProgressBatch { pending: 0, threshold }
    }

    /// Counts one completion.  Returns the count to send once the batch is
    /// full, and starts a new batch.
    pub fn tick(&mut self) -> (r: Option<u64>)
        ensures
            final(self).threshold() == old(self).threshold(),
            old(self).pending() + 1 < old(self).threshold() ==> {
                &&& r.is_none()
                &&& final(self).pending() == old(self).pending() + 1
            },
            old(self).pending() + 1 >= old(self).threshold() ==> {
                &&& r == Some(old(self).threshold())
                &&& final(self).pending() == 0
            },
    {
        proof {
            use_type_invariant(&*self);
        }
        if self.pending + 1 >= self.threshold {
            self.pending = 0;
            Some(self.threshold)
        } else {
            self.pending = self.pending + 1;
            None
        }
    }

    /// Returns the count that is left to send when the worker ends, if
    /// there is one, and leaves the batch empty.
    pub fn flush(&mut self) -> (r: Option<u64>)
        ensures
            final(self).threshold() == old(self).threshold(),
            final(self).pending() == 0,
            old(self).pending() == 0 ==> r.is_none(),
            old(self).pending() > 0 ==> r == Some(old(self).pending()),
    {
        proof {
            use_type_invariant(&*self);
        }
        if self.pending == 0 {
            None
        } else {
            let left = self.pending;
            self.pending = 0;
            Some(left)
        }
    }
}

/// The running total of completions over all workers.
#[derive(Clone, Copy, Debug, PartialEq, Eq)]
pub struct ProgressTotal {
    total: u64,
    milestone: u64,
}

impl ProgressTotal {
    /// The number of files counted so far.
    pub closed spec fn total(&self) -> u64 {
        self.total
    }

    /// The number of files between two reports.
    pub closed spec fn milestone(&self) -> u64 {
        self.milestone
    }

    /// A total of zero that reports every `milestone` files.
    pub fn new(milestone: u64) -> (r: Self)
        ensures
            r.total() == 0,
            r.milestone() == milestone,
    {
        ProgressTotal { total: 0, milestone }
    }

    /// The number of files counted so far.
    pub fn files(&self) -> (r: u64)
        ensures
            r == self.total(),
    {
        self.total
    }

    /// Adds one batch to the total, which stops at the greatest number that
    /// it can hold.  Returns the milestone to report where the total has
    /// crossed one: the greatest multiple of the milestone size that the
    /// total has reached.
    pub fn add(&mut self, count: u64) -> (r: Option<u64>)
        ensures
            final(self).milestone() == old(self).milestone(),
            final(self).total() == if old(self).total() + count > u64::MAX {
                u64::MAX
            } else {
                (old(self).total() + count) as u64
            },
            r == crossed(old(self).total(), final(self).total(), old(self).milestone()),
    {
        let before = self.total;
        self.total = if count > u64::MAX - before {
            u64::MAX
        } else {
            before + count
        };
        if self.milestone == 0 {
            return None;
        }
        let reached = self.total / self.milestone;
        if before / self.milestone < reached {
            assert(reached * self.milestone <= self.total) by (nonlinear_arith)
                requires
                    reached == self.total / self.milestone,
                    self.milestone > 0,
            ;
            Some(reached * self.milestone)
        } else {
            None
        }
    }
}

/// The milestone that a total crosses on its way from `before` to `after`:
/// the greatest multiple of the milestone size up to `after`, where
/// `before` is below it.
pub open spec fn crossed(before: u64, after: u64, milestone: u64) -> Option<u64> {
    if milestone > 0 && before / milestone < after / milestone {
        Some(((after / milestone) * milestone) as u64)
    } else {
        None
    }
}

} // verus!
