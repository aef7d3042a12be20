use vstd::prelude::*;
use crate::outcome::CompressionResult;

verus! {

/// One notification per completed file: how many files of the batch are
/// done once this one is counted, the batch size, and the file's outcome.
pub struct ProgressEvent {
    pub done: usize,
    pub total: usize,
    pub result: CompressionResult,
}

/// The one piece of state shared by a batch's workers: a completion
/// counter. Each completed file increments it exactly once and reads the
/// new value back in the same step, so the values carried by successive
/// events are `1, 2, …, total` with no gap or repeat (callers running
/// workers in parallel keep the increment-and-read step mutually
/// exclusive, e.g. behind a mutex).
pub struct ProgressTracker {
    done: usize,
    total: usize,
}

impl ProgressTracker {
    pub closed spec fn spec_done(self) -> int {
        self.done as int
    }

    pub closed spec fn spec_total(self) -> int {
        self.total as int
    }

    pub open spec fn wf(self) -> bool {
        self.spec_done() <= self.spec_total()
    }

    pub fn new(total: usize) -> (t: Self)
        ensures
            t.wf(),
            t.spec_done() == 0,
            t.spec_total() == total,
    {
        ProgressTracker { done: 0, total }
    }

    /// How many files have completed so far.
    pub fn done(&self) -> (d: usize)
        ensures
            d == self.spec_done(),
    {
        self.done
    }

    /// The batch size this tracker was created for.
    pub fn total(&self) -> (t: usize)
        ensures
            t == self.spec_total(),
    {
        self.total
    }

    /// The indivisible increment-and-read step: counts one completed file
    /// and builds its progress event from the value just read back.
    pub fn record(&mut self, result: CompressionResult) -> (e: ProgressEvent)
        requires
            old(self).wf(),
            old(self).spec_done() < old(self).spec_total(),
        ensures
            final(self).wf(),
            final(self).spec_total() == old(self).spec_total(),
            final(self).spec_done() == old(self).spec_done() + 1,
            e.done == final(self).spec_done(),
            e.total == final(self).spec_total(),
            e.result == result,
    {
        self.done = self.done + 1;
        ProgressEvent { done: self.done, total: self.total, result }
    }
}

/// The sequential reference orchestrator: one event per outcome, in order,
/// with completion counts running `1..=N`, no gap and no repeat, and every
/// event carrying the batch size `N`. A failed file does not stop the
/// batch: every outcome, error or success, yields exactly one event.
pub fn report_all(outcomes: Vec<CompressionResult>) -> (events: Vec<ProgressEvent>)
    ensures
        events@.len() == outcomes@.len(),
        forall|i: int|
            0 <= i < events@.len() ==> {
                &&& (#[trigger] events@[i]).done == i + 1
                &&& events@[i].total == outcomes@.len()
                &&& events@[i].result == outcomes@[i]
            },
{
    let total = outcomes.len();
    let ghost all = outcomes@;
    let mut rest = outcomes;
    let mut tracker = ProgressTracker::new(total);
    let mut events: Vec<ProgressEvent> = Vec::new();
    let mut i: usize = 0;
    while i < total
        invariant
            i <= total,
            total == all.len(),
            rest@ == all.subrange(i as int, total as int),
            events@.len() == i,
            tracker.wf(),
            tracker.spec_done() == i,
            tracker.spec_total() == total,
            forall|k: int|
                0 <= k < i ==> {
                    &&& (#[trigger] events@[k]).done == k + 1
                    &&& events@[k].total == total
                    &&& events@[k].result == all[k]
                },
        decreases total - i,
    {
        let outcome = rest.remove(0);
        let e = tracker.record(outcome);
        events.push(e);
        proof {
            assert(rest@ =~= all.subrange(i + 1, total as int));
        }
        i = i + 1;
    }
    events
}

} // verus!
