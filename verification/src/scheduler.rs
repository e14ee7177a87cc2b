//! The concurrency budget of a multi-host operation: which task may start
//! next, and when the operation has to wait or is over.
//!
//! The scheduler decides; the caller starts the tasks and reports each one
//! that ended. At most `batch_size` tasks run at any time.

use vstd::prelude::*;

verus! {

/// What the caller has to do next.
#[derive(Clone, Copy, Debug, PartialEq, Eq, Structural)]
pub enum Step {
    /// Start the task with this index, then ask again.
    Spawn(usize),
    /// Wait until a running task ends, report it, then ask again.
    Wait,
    /// Every task that was started has ended and none is left to start.
    Done,
}

/// The state of a scheduler as mathematical values.
pub struct SchedulerView {
    /// The number of tasks of the operation.
    pub total: nat,
    /// The most tasks that may run at once.
    pub batch_size: nat,
    /// Tasks `0..started` have been started, in this order.
    pub started: nat,
    /// The tasks that run now, in the order in which they started.
    pub running: Seq<usize>,
    /// No further task is to be started.
    pub halted: bool,
}

/// The state is consistent and within its budget.
pub open spec fn within_budget(v: SchedulerView) -> bool {
    &&& v.batch_size >= 1
    &&& v.started <= v.total
    &&& v.running.len() <= v.batch_size
    &&& v.running.no_duplicates()
    &&& forall|k: int| 0 <= k < v.running.len() ==> (#[trigger] v.running[k]) < v.started
}

/// Task `index` has been started and has ended.
pub open spec fn has_ended(v: SchedulerView, index: int) -> bool {
    0 <= index < v.started && !v.running.contains(index as usize)
}

/// Nothing runs and nothing is left to start.
pub open spec fn is_over(v: SchedulerView) -> bool {
    v.running.len() == 0 && (v.halted || v.started == v.total)
}

/// The step that a state calls for.
pub open spec fn next_step(v: SchedulerView) -> Step {
    if !v.halted && v.started < v.total && v.running.len() < v.batch_size {
        Step::Spawn(v.started as usize)
    } else if v.running.len() > 0 {
        Step::Wait
    } else {
        Step::Done
    }
}

/// The state after the step that `v` calls for has been granted.
pub open spec fn after_step(v: SchedulerView) -> SchedulerView {
    match next_step(v) {
        Step::Spawn(i) => SchedulerView {
            started: v.started + 1,
            running: v.running.push(i),
            ..v
        },
        _ => v,
    }
}

/// Granting a step keeps the state within its budget: starting a task never
/// takes the number of running tasks above `batch_size`.
pub proof fn lemma_step_within_budget(v: SchedulerView)
    requires
        within_budget(v),
        v.total <= usize::MAX,
    ensures
        within_budget(after_step(v)),
        after_step(v).running.len() <= v.batch_size,
{
    let w = after_step(v);
    match next_step(v) {
        Step::Spawn(i) => {
            assert forall|a: int, b: int|
                0 <= a < w.running.len() && 0 <= b < w.running.len() && a != b implies w.running[a]
                != w.running[b] by {
                if a < v.running.len() {
                    assert(v.running[a] < v.started);
                }
                if b < v.running.len() {
                    assert(v.running[b] < v.started);
                }
            }
            assert forall|k: int| 0 <= k < w.running.len() implies (#[trigger] w.running[k])
                < w.started by {
                if k < v.running.len() {
                    assert(v.running[k] < v.started);
                }
            }
        },
        _ => {},
    }
}

/// Removing the entry at `k` from a list without duplicates removes exactly
/// its value.
pub proof fn lemma_remove_running(running: Seq<usize>, k: int)
    requires
        running.no_duplicates(),
        0 <= k < running.len(),
    ensures
        running.remove(k).no_duplicates(),
        running.remove(k).len() == running.len() - 1,
        forall|j: usize| #[trigger]
            running.remove(k).contains(j) <==> running.contains(j) && j != running[k],
{
    let rest = running.remove(k);
    assert forall|j: usize| #[trigger] rest.contains(j) <==> running.contains(j) && j
        != running[k] by {
        if rest.contains(j) {
            let a = choose|a: int| 0 <= a < rest.len() && rest[a] == j;
            if a < k {
                assert(running[a] == j);
            } else {
                assert(running[a + 1] == j);
            }
        }
        if running.contains(j) && j != running[k] {
            let b = choose|b: int| 0 <= b < running.len() && running[b] == j;
            if b < k {
                assert(rest[b] == j);
            } else {
                assert(rest[b - 1] == j);
            }
        }
    }
}

/// Hands out the tasks of one operation, never more than `batch_size` at once.
pub struct Scheduler {
    total: usize,
    batch_size: usize,
    started: usize,
    running: Vec<usize>,
    halted: bool,
}

impl View for Scheduler {
    type V = SchedulerView;

    closed spec fn view(&self) -> SchedulerView {
        SchedulerView {
            total: self.total as nat,
            batch_size: self.batch_size as nat,
            started: self.started as nat,
            running: self.running@,
            halted: self.halted,
        }
    }
}

impl Scheduler {
    /// The state is within its budget.
    pub open spec fn wf(&self) -> bool {
        within_budget(self@) && self@.total <= usize::MAX
    }

    /// A scheduler for `total` tasks of which none has started.
    pub fn new(total: usize, batch_size: usize) -> (s: Scheduler)
        requires
            batch_size >= 1,
        ensures
            s.wf(),
            s@ == (SchedulerView {
                total: total as nat,
                batch_size: batch_size as nat,
                started: 0,
                running: Seq::empty(),
                halted: false,
            }),
    {
        Scheduler { total, batch_size, started: 0, running: Vec::new(), halted: false }
    }

    /// Decides the next step and, where it is to start a task, counts that
    /// task as running.
    pub fn poll(&mut self) -> (step: Step)
        requires
            old(self).wf(),
        ensures
            final(self).wf(),
            step == next_step(old(self)@),
            final(self)@ == after_step(old(self)@),
            final(self)@.running.len() <= final(self)@.batch_size,
    {
        proof {
            lemma_step_within_budget(self@);
        }
        if !self.halted && self.started < self.total && self.running.len() < self.batch_size {
            let index = self.started;
            self.running.push(index);
            self.started = index + 1;
            Step::Spawn(index)
        } else if self.running.len() > 0 {
            Step::Wait
        } else {
            Step::Done
        }
    }

    /// Records that task `index` has ended. Returns whether it was running;
    /// where it was not, nothing changes.
    pub fn complete(&mut self, index: usize) -> (accepted: bool)
        requires
            old(self).wf(),
        ensures
            final(self).wf(),
            accepted == old(self)@.running.contains(index),
            !accepted ==> final(self)@ == old(self)@,
            accepted ==> exists|k: int|
                0 <= k < old(self)@.running.len() && old(self)@.running[k] == index
                    && final(self)@ == (SchedulerView {
                    running: old(self)@.running.remove(k),
                    ..old(self)@
                }),
            accepted ==> final(self)@.running.len() == old(self)@.running.len() - 1,
            forall|j: usize| #[trigger]
                final(self)@.running.contains(j) <==> old(self)@.running.contains(j) && j != index,
    {
        let mut k: usize = 0;
        while k < self.running.len()
            invariant
                k <= self.running.len(),
                *self == *old(self),
                self.wf(),
                forall|a: int| 0 <= a < k ==> self.running@[a] != index,
            decreases self.running.len() - k,
        {
            if self.running[k] == index {
                proof {
                    lemma_remove_running(self.running@, k as int);
                }
                let ghost before = self@;
                self.running.remove(k);
                assert(before.running[k as int] == index);
                assert(before.running.contains(index));
                assert forall|a: int| 0 <= a < self@.running.len() implies (
                #[trigger] self@.running[a]) < self@.started by {
                    if a < k {
                        assert(before.running[a] < before.started);
                    } else {
                        assert(before.running[a + 1] < before.started);
                    }
                }
                assert(self@ == (SchedulerView {
                    running: before.running.remove(k as int),
                    ..before
                }));
                return true;
            }
            k += 1;
        }
        false
    }

    /// Stops starting tasks; those that run are still waited for.
    pub fn halt(&mut self)
        requires
            old(self).wf(),
        ensures
            final(self).wf(),
            final(self)@ == (SchedulerView { halted: true, ..old(self)@ }),
    {
        self.halted = true;
    }

    /// The number of tasks that run now.
    pub fn active(&self) -> (n: usize)
        requires
            self.wf(),
        ensures
            n == self@.running.len(),
            n <= self@.batch_size,
    {
        self.running.len()
    }

    /// Whether nothing runs and nothing is left to start.
    pub fn is_done(&self) -> (done: bool)
        ensures
            done == is_over(self@),
    {
        self.running.len() == 0 && (self.halted || self.started == self.total)
    }

    /// The most tasks that may run at once.
    pub fn batch_size(&self) -> (n: usize)
        ensures
            n == self@.batch_size,
    {
        self.batch_size
    }

    /// The number of tasks of the operation.
    pub fn total(&self) -> (n: usize)
        ensures
            n == self@.total,
    {
        self.total
    }
}

} // verus!
