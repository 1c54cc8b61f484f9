//! Bounded scheduling of the targets' pipelines. The scheduler decides which
//! target may start and keeps the outcomes by target; running a pipeline is
//! left to the caller, who reports back when one is over.
use crate::migration::MigrationStatus;
use vstd::prelude::*;

verus! {

/// How many pipelines of a campaign run at the same time.
pub const WORKERS: usize = 3;

/// What the caller has to do next.
#[derive(Debug, Clone, Copy, PartialEq, Eq, Structural)]
pub enum Dispatch {
    /// Start the pipeline of the target at this position, then ask again.
    Start(usize),
    /// Wait until one of the running pipelines is over, report it, then ask
    /// again.
    Wait,
    /// Every target has its outcome.
    Done,
}

/// The state of a campaign's run: which targets were started, which of them
/// are still running, and how the others ended.
#[derive(Debug)]
pub struct Scheduler {
    /// Largest number of pipelines that may run at once.
    pub limit: usize,
    /// Number of targets.
    pub total: usize,
    /// The targets before this position were started.
    pub next: usize,
    /// The targets whose pipeline is running.
    pub running: Vec<usize>,
    /// The outcome of each target whose pipeline is over.
    pub results: Vec<Option<MigrationStatus>>,
}

impl Scheduler {
    /// The invariant of a run. Never more than `limit` pipelines are running;
    /// a target is running at most once; a target that was started is either
    /// running or has its outcome, never both; a target that was not started
    /// has none.
    pub open spec fn wf(&self) -> bool {
        &&& self.limit > 0
        &&& self.next <= self.total
        &&& self.results@.len() == self.total
        &&& self.running@.len() <= self.limit
        &&& self.running@.no_duplicates()
        &&& forall|k: int|
            0 <= k < self.running@.len() ==> (#[trigger] self.running@[k]) < self.next
        &&& forall|i: int|
            0 <= i < self.total ==> ((#[trigger] self.results@[i]) is None <==> (i >= self.next
                || self.running@.contains(i as usize)))
    }

    /// Every target has its outcome.
    pub open spec fn finished(&self) -> bool {
        self.next == self.total && self.running@.len() == 0
    }

    /// A run of `total` targets, none of them started, with at most `limit`
    /// pipelines at a time.
    pub fn new(total: usize, limit: usize) -> (out: Self)
        requires
            limit > 0,
        ensures
            out.wf(),
            out.total == total,
            out.limit == limit,
            out.next == 0,
            out.running@.len() == 0,
    {
        let mut results: Vec<Option<MigrationStatus>> = Vec::new();
        let mut i: usize = 0;
        while i < total
            invariant
                i <= total,
                results@.len() == i,
                forall|j: int| 0 <= j < i ==> (#[trigger] results@[j]) is None,
            decreases total - i,
        {
            results.push(None);
            i += 1;
        }
        Scheduler { limit, total, next: 0, running: Vec::new(), results }
    }

    /// Decides what happens next. A target is started exactly when fewer
    /// than `limit` pipelines are running and a target is left to start: the
    /// targets start in their order, each once.
    pub fn next_action(&mut self) -> (out: Dispatch)
        requires
            old(self).wf(),
        ensures
            final(self).wf(),
            final(self).limit == old(self).limit,
            final(self).total == old(self).total,
            final(self).results@ == old(self).results@,
            final(self).running@.len() <= final(self).limit,
            if old(self).running@.len() < old(self).limit && old(self).next < old(self).total {
                out == Dispatch::Start(old(self).next) && final(self).next == old(self).next + 1
                    && final(self).running@ == old(self).running@.push(old(self).next)
            } else {
                final(self).next == old(self).next && final(self).running@ == old(self).running@
                    && out == (if old(self).running@.len() > 0 {
                    Dispatch::Wait
                } else {
                    Dispatch::Done
                })
            },
            out == Dispatch::Done <==> old(self).finished(),
    {
        if self.running.len() < self.limit && self.next < self.total {
            let index = self.next;
            let ghost before = self.running@;
            self.running.push(index);
            self.next = index + 1;
            proof {
                assert forall|i: int| 0 <= i < self.total implies ((#[trigger] self.results@[i])
                    is None <==> (i >= self.next || self.running@.contains(i as usize))) by {
                    if before.contains(i as usize) {
                        let k = choose|k: int| 0 <= k < before.len() && before[k] == i as usize;
                        assert(self.running@[k] == i as usize);
                    }
                    if i == index {
                        assert(self.running@[before.len() as int] == index);
                    }
                }
            }
            Dispatch::Start(index)
        } else if self.running.len() > 0 {
            Dispatch::Wait
        } else {
            Dispatch::Done
        }
    }

    /// Records that the pipeline of the target at `index` is over. A report
    /// for a target that is not running changes nothing and is answered with
    /// `false`.
    pub fn complete(&mut self, index: usize, status: MigrationStatus) -> (out: bool)
        requires
            old(self).wf(),
        ensures
            final(self).wf(),
            final(self).limit == old(self).limit,
            final(self).total == old(self).total,
            final(self).next == old(self).next,
            out == old(self).running@.contains(index),
            !out ==> final(self).running@ == old(self).running@ && final(self).results@ == old(
                self,
            ).results@,
            out ==> final(self).running@.len() == old(self).running@.len() - 1
                && !final(self).running@.contains(index) && final(self).results@ == old(
                self,
            ).results@.update(index as int, Some(status)) && forall|other: usize|
                other != index ==> final(self).running@.contains(other) == old(
                    self,
                ).running@.contains(other),
    {
        let mut k: usize = 0;
        while k < self.running.len() && self.running[k] != index
            invariant
                k <= self.running@.len(),
                forall|j: int| 0 <= j < k ==> self.running@[j] != index,
            decreases self.running@.len() - k,
        {
            k += 1;
        }
        if k >= self.running.len() {
            return false;
        }
        let ghost before = self.running@;
        self.running.remove(k);
        let ghost after = self.running@;
        self.results[index] = Some(status);
        proof {
            assert forall|other: usize| other != index implies after.contains(other)
                == before.contains(other) by {
                if before.contains(other) {
                    let j = choose|j: int| 0 <= j < before.len() && before[j] == other;
                    if j < k {
                        assert(after[j] == other);
                    } else {
                        assert(after[j - 1] == other);
                    }
                }
            }
        }
        true
    }

    /// Whether every target has its outcome.
    pub fn is_finished(&self) -> (out: bool)
        ensures
            out == self.finished(),
    {
        self.next == self.total && self.running.len() == 0
    }

    /// Number of pipelines that are running.
    pub fn active(&self) -> (out: usize)
        ensures
            out == self.running@.len(),
    {
        self.running.len()
    }

    /// The outcomes by target.
    pub fn into_results(self) -> (out: Vec<Option<MigrationStatus>>)
        ensures
            out@ == self.results@,
    {
        self.results
    }
}

/// In every state of a run, no more pipelines are running than the limit
/// allows, and no target is running twice.
pub proof fn running_stays_within_limit(s: Scheduler)
    requires
        s.wf(),
    ensures
        s.running@.len() <= s.limit,
        s.running@.no_duplicates(),
{
}

/// Once a run is finished, every target has an outcome.
pub proof fn finished_run_is_complete(s: Scheduler, i: int)
    requires
        s.wf(),
        s.finished(),
        0 <= i < s.total,
    ensures
        s.results@[i] is Some,
{
}

} // verus!
