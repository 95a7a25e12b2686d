//! The pool that runs one task per target with a bounded number of tasks in
//! flight, and collects exactly one outcome per target.
//!
//! The executor decides which task starts and records what each one ended
//! with; its caller runs the tasks it starts on its workers.

use vstd::prelude::*;
use crate::protocol::UploadTarget;
use crate::task::{TaskOutcome, UploadTask};

verus! {

/// The number of tasks in flight at most, unless configured otherwise.
pub const DEFAULT_WORKERS: usize = 4;

/// Where the task of one target stands, as the executor sees it.
pub enum Slot {
    /// Not started yet.
    Waiting,
    /// Handed to a worker and not ended yet.
    Running,
    /// Ended, with this outcome.
    Done(TaskOutcome),
}

/// The number of tasks in flight.
pub open spec fn running_count(slots: Seq<Slot>) -> nat
    decreases slots.len(),
{
    if slots.len() == 0 {
        0
    } else {
        running_count(slots.drop_last()) + if slots.last() is Running {
            1nat
        } else {
            0nat
        }
    }
}

/// What is left to do for one slot: starting it and ending it, or only ending it.
pub open spec fn slot_work(slot: Slot) -> nat {
    match slot {
        Slot::Waiting => 2,
        Slot::Running => 1,
        Slot::Done(_) => 0,
    }
}

/// What is left to do for all slots: each start and each recorded outcome
/// takes one unit off.
pub open spec fn work_left(slots: Seq<Slot>) -> nat
    decreases slots.len(),
{
    if slots.len() == 0 {
        0
    } else {
        work_left(slots.drop_last()) + slot_work(slots.last())
    }
}

/// Setting one slot changes the work left by that slot alone.
proof fn lemma_work_left_update(slots: Seq<Slot>, i: int, v: Slot)
    requires
        0 <= i < slots.len(),
    ensures
        work_left(slots.update(i, v)) + slot_work(slots[i]) == work_left(slots) + slot_work(v),
    decreases slots.len(),
{
    let u = slots.update(i, v);
    if i == slots.len() - 1 {
        assert(u.drop_last() =~= slots.drop_last());
    } else {
        assert(u.drop_last() =~= slots.drop_last().update(i, v));
        lemma_work_left_update(slots.drop_last(), i, v);
    }
}

/// No work is left exactly when every slot is done.
proof fn lemma_work_left_zero(slots: Seq<Slot>)
    ensures
        work_left(slots) == 0 <==> forall|i: int| 0 <= i < slots.len() ==> #[trigger] slots[i] is Done,
    decreases slots.len(),
{
    if slots.len() > 0 {
        lemma_work_left_zero(slots.drop_last());
        if work_left(slots) == 0 {
            assert forall|i: int| 0 <= i < slots.len() implies #[trigger] slots[i] is Done by {
                if i < slots.len() - 1 {
                    assert(slots[i] == slots.drop_last()[i]);
                }
            }
        }
        if forall|i: int| 0 <= i < slots.len() ==> #[trigger] slots[i] is Done {
            assert forall|i: int| 0 <= i < slots.drop_last().len() implies #[trigger] slots.drop_last()[i] is Done by {
                assert(slots.drop_last()[i] == slots[i]);
            }
            assert(slots[slots.len() - 1] is Done);
        }
    }
}

/// Setting one slot changes the number of tasks in flight by that slot alone.
proof fn lemma_running_count_update(slots: Seq<Slot>, i: int, v: Slot)
    requires
        0 <= i < slots.len(),
    ensures
        running_count(slots.update(i, v)) + (if slots[i] is Running {
            1int
        } else {
            0int
        }) == running_count(slots) + (if v is Running {
            1int
        } else {
            0int
        }),
    decreases slots.len(),
{
    let u = slots.update(i, v);
    if i == slots.len() - 1 {
        assert(u.drop_last() =~= slots.drop_last());
    } else {
        assert(u.drop_last() =~= slots.drop_last().update(i, v));
        lemma_running_count_update(slots.drop_last(), i, v);
    }
}

/// No task is in flight exactly when no slot is running.
proof fn lemma_running_count_zero(slots: Seq<Slot>)
    ensures
        running_count(slots) == 0 <==> forall|i: int| 0 <= i < slots.len() ==> !(slots[i] is Running),
    decreases slots.len(),
{
    if slots.len() > 0 {
        lemma_running_count_zero(slots.drop_last());
        if running_count(slots) == 0 {
            assert forall|i: int| 0 <= i < slots.len() implies !(slots[i] is Running) by {
                if i < slots.len() - 1 {
                    assert(slots[i] == slots.drop_last()[i]);
                }
            }
        }
        if forall|i: int| 0 <= i < slots.len() ==> !(slots[i] is Running) {
            assert forall|i: int| 0 <= i < slots.drop_last().len() implies !(
            slots.drop_last()[i] is Running) by {
                assert(slots.drop_last()[i] == slots[i]);
            }
        }
    }
}

/// Runs one task per target, at most `budget` of them at a time.
pub struct Executor {
    targets: Vec<UploadTarget>,
    tags: String,
    budget: usize,
    next: usize,
    in_flight: usize,
    slots: Vec<Slot>,
}

impl Executor {
    pub closed spec fn targets_spec(&self) -> Seq<UploadTarget> {
        self.targets@
    }

    pub closed spec fn tags_spec(&self) -> String {
        self.tags
    }

    pub closed spec fn budget_spec(&self) -> nat {
        self.budget as nat
    }

    pub closed spec fn slots_spec(&self) -> Seq<Slot> {
        self.slots@
    }

    /// Slots are handed out in order: those before `next` have started, the
    /// others wait; the counter of tasks in flight is exact and within the
    /// budget; an outcome belongs to the target of its slot.
    pub closed spec fn wf(&self) -> bool {
        &&& self.slots@.len() == self.targets@.len()
        &&& self.next <= self.targets@.len()
        &&& self.budget >= 1
        &&& self.in_flight == running_count(self.slots@)
        &&& self.in_flight <= self.budget
        &&& forall|i: int| 0 <= i < self.slots@.len() ==> (#[trigger] self.slots@[i] is Waiting
            <==> i >= self.next)
        &&& forall|i: int|
            0 <= i < self.slots@.len() && #[trigger] self.slots@[i] is Done ==> self.slots@[i]->Done_0.path_spec()@
                == self.targets@[i].path@
    }

    /// Whether a task can start now: a target waits and the budget has room.
    pub open spec fn can_start(&self) -> bool {
        &&& running_count(self.slots_spec()) < self.budget_spec()
        &&& exists|i: int| 0 <= i < self.slots_spec().len() && self.slots_spec()[i] is Waiting
    }

    /// Whether every target has its outcome.
    pub open spec fn finished(&self) -> bool {
        forall|i: int| 0 <= i < self.slots_spec().len() ==> #[trigger] self.slots_spec()[i] is Done
    }

    /// An executor with the given budget over the targets; no task has started.
    pub fn with_budget(targets: Vec<UploadTarget>, tags: String, budget: usize) -> (r: Executor)
        requires
            budget >= 1,
        ensures
            r.wf(),
            r.targets_spec() == targets@,
            r.tags_spec() == tags,
            r.budget_spec() == budget,
            forall|i: int| 0 <= i < targets@.len() ==> #[trigger] r.slots_spec()[i] is Waiting,
            work_left(r.slots_spec()) == 2 * targets@.len(),
    {
        let mut slots: Vec<Slot> = Vec::new();
        let mut i: usize = 0;
        while i < targets.len()
            invariant
                0 <= i <= targets@.len(),
                slots@.len() == i,
                running_count(slots@) == 0,
                work_left(slots@) == 2 * i,
                forall|j: int| 0 <= j < i ==> #[trigger] slots@[j] is Waiting,
            decreases targets@.len() - i,
        {
            proof {
                assert(slots@.push(Slot::Waiting).drop_last() =~= slots@);
            }
            slots.push(Slot::Waiting);
            i = i + 1;
        }
        Executor { targets, tags, budget, next: 0, in_flight: 0, slots }
    }

    /// An executor with the default budget over the targets.
    pub fn new(targets: Vec<UploadTarget>, tags: String) -> (r: Executor)
        ensures
            r.wf(),
            r.targets_spec() == targets@,
            r.tags_spec() == tags,
            r.budget_spec() == DEFAULT_WORKERS,
            forall|i: int| 0 <= i < targets@.len() ==> #[trigger] r.slots_spec()[i] is Waiting,
            work_left(r.slots_spec()) == 2 * targets@.len(),
    {
        Executor::with_budget(targets, tags, DEFAULT_WORKERS)
    }

    /// Whether there is nothing to upload.
    pub fn nothing_to_do(&self) -> (r: bool)
        ensures
            r == (self.targets_spec().len() == 0),
    {
        self.targets.len() == 0
    }

    /// Whether every target has its outcome.
    pub fn is_finished(&self) -> (r: bool)
        requires
            self.wf(),
        ensures
            r == self.finished(),
    {
        proof {
            lemma_running_count_zero(self.slots@);
        }
        let r = self.next == self.targets.len() && self.in_flight == 0;
        if !r {
            if self.next < self.targets.len() {
                assert(self.slots@[self.next as int] is Waiting);
            } else {
                assert(!self.finished());
            }
        }
        r
    }

    /// Starts the task of the next waiting target, if the budget has room:
    /// returns its index and the task, and marks it in flight.
    pub fn start_next(&mut self) -> (r: Option<(usize, UploadTask)>)
        requires
            old(self).wf(),
        ensures
            final(self).wf(),
            final(self).targets_spec() == old(self).targets_spec(),
            final(self).budget_spec() == old(self).budget_spec(),
            final(self).tags_spec() == old(self).tags_spec(),
            r is None <==> !old(self).can_start(),
            r is None ==> final(self).slots_spec() == old(self).slots_spec(),
            r matches Some((i, task)) ==> {
                &&& i < old(self).slots_spec().len()
                &&& old(self).slots_spec()[i as int] is Waiting
                &&& forall|j: int| 0 <= j < i ==> !(#[trigger] old(self).slots_spec()[j] is Waiting)
                &&& final(self).slots_spec() == old(self).slots_spec().update(i as int, Slot::Running)
                &&& task.target == old(self).targets_spec()[i as int]
                &&& task.tags == old(self).tags_spec()
                &&& task.state is Pending
            },
            r is Some ==> work_left(final(self).slots_spec()) + 1 == work_left(old(self).slots_spec()),
    {
        if self.in_flight >= self.budget || self.next >= self.targets.len() {
            proof {
                if self.next >= self.targets.len() {
                    assert forall|i: int| 0 <= i < self.slots@.len() implies !(
                    self.slots@[i] is Waiting) by {}
                }
            }
            return None;
        }
        let i = self.next;
        assert(self.slots@[i as int] is Waiting);
        proof {
            lemma_running_count_update(self.slots@, i as int, Slot::Running);
            lemma_work_left_update(self.slots@, i as int, Slot::Running);
        }
        let task = UploadTask::new(self.targets[i].duplicate(), self.tags.clone());
        self.slots.set(i, Slot::Running);
        self.next = i + 1;
        self.in_flight = self.in_flight + 1;
        Some((i, task))
    }

    /// Records the outcome of the task in flight at `index`. It is taken only
    /// where that task is in flight and the outcome is about its target; the
    /// result says whether it was taken.
    pub fn complete(&mut self, index: usize, outcome: TaskOutcome) -> (r: bool)
        requires
            old(self).wf(),
        ensures
            final(self).wf(),
            final(self).targets_spec() == old(self).targets_spec(),
            final(self).budget_spec() == old(self).budget_spec(),
            final(self).tags_spec() == old(self).tags_spec(),
            r == (index < old(self).slots_spec().len() && old(self).slots_spec()[index as int] is Running
                && outcome.path_spec()@ == old(self).targets_spec()[index as int].path@),
            r ==> final(self).slots_spec() == old(self).slots_spec().update(index as int, Slot::Done(outcome)),
            !r ==> final(self).slots_spec() == old(self).slots_spec(),
            r ==> work_left(final(self).slots_spec()) + 1 == work_left(old(self).slots_spec()),
    {
        if index >= self.slots.len() {
            return false;
        }
        let running = match &self.slots[index] {
            Slot::Running => true,
            _ => false,
        };
        if !running {
            return false;
        }
        let same_target = outcome.path().eq(&self.targets[index].path);
        if !same_target {
            return false;
        }
        proof {
            lemma_running_count_update(self.slots@, index as int, Slot::Done(outcome));
            lemma_work_left_update(self.slots@, index as int, Slot::Done(outcome));
        }
        self.slots.set(index, Slot::Done(outcome));
        self.in_flight = self.in_flight - 1;
        proof {
            assert forall|i: int| 0 <= i < self.slots@.len() && #[trigger] self.slots@[i] is Done implies self.slots@[i]->Done_0.path_spec()@
                == self.targets@[i].path@ by {
                if i != index {
                    assert(self.slots@[i] == old(self).slots@[i]);
                }
            }
        }
        true
    }

    /// The outcomes of all targets, in the order of the targets.
    pub fn outcomes(&self) -> (r: Vec<TaskOutcome>)
        requires
            self.wf(),
            self.finished(),
        ensures
            r@.len() == self.targets_spec().len(),
            forall|i: int| 0 <= i < r@.len() ==> self.slots_spec()[i] == Slot::Done(#[trigger] r@[i]),
            forall|i: int| 0 <= i < r@.len() ==> (#[trigger] r@[i]).path_spec()@ == self.targets_spec()[i].path@,
    {
        let mut r: Vec<TaskOutcome> = Vec::new();
        let mut i: usize = 0;
        while i < self.slots.len()
            invariant
                self.wf(),
                self.finished(),
                0 <= i <= self.slots@.len(),
                r@.len() == i,
                forall|j: int| 0 <= j < i ==> self.slots@[j] == Slot::Done(#[trigger] r@[j]),
            decreases self.slots@.len() - i,
        {
            assert(self.slots@[i as int] is Done);
            match &self.slots[i] {
                Slot::Done(o) => r.push(o.duplicate()),
                _ => {},
            }
            i = i + 1;
        }
        proof {
            assert forall|j: int| 0 <= j < r@.len() implies (#[trigger] r@[j]).path_spec()@ == self.targets@[j].path@ by {
                assert(self.slots@[j] is Done);
            }
        }
        r
    }

    /// The process's exit status once the pool has run: a failure only where
    /// there was nothing to upload, whatever the outcomes of single files.
    pub fn exit_code(&self) -> (r: i32)
        ensures
            r == (if self.targets_spec().len() == 0 {
                1i32
            } else {
                0i32
            }),
    {
        if self.targets.len() == 0 {
            1
        } else {
            0
        }
    }
}

/// At every moment no more tasks are in flight than the budget allows.
pub proof fn lemma_in_flight_within_budget(e: &Executor)
    requires
        e.wf(),
    ensures
        running_count(e.slots_spec()) <= e.budget_spec(),
{
}

/// A pool that has not finished is never stuck: either a task can start, or
/// one is in flight and its outcome is awaited.
pub proof fn lemma_unfinished_pool_progresses(e: &Executor)
    requires
        e.wf(),
        !e.finished(),
    ensures
        e.can_start() || exists|i: int| 0 <= i < e.slots_spec().len() && #[trigger] e.slots_spec()[i] is Running,
{
    let i = choose|i: int| 0 <= i < e.slots_spec().len() && !(#[trigger] e.slots_spec()[i] is Done);
    if !(e.slots_spec()[i] is Running) {
        lemma_running_count_zero(e.slots_spec());
        if running_count(e.slots_spec()) > 0 {
            let k = choose|k: int| 0 <= k < e.slots_spec().len() && #[trigger] e.slots_spec()[k] is Running;
            assert(e.slots_spec()[k] is Running);
        } else {
            assert(e.slots_spec()[i] is Waiting);
        }
    }
}

/// A pool over N targets starts with 2N units of work, each start and each
/// recorded outcome takes exactly one off, and it has finished exactly when
/// none is left: every pool finishes after N starts and N outcomes, neither
/// sooner nor later.
pub proof fn lemma_pool_finishes_when_no_work_left(e: &Executor)
    requires
        e.wf(),
    ensures
        e.finished() <==> work_left(e.slots_spec()) == 0,
        work_left(e.slots_spec()) <= 2 * e.targets_spec().len(),
{
    lemma_work_left_zero(e.slots_spec());
    lemma_work_left_bound(e.slots_spec());
}

proof fn lemma_work_left_bound(slots: Seq<Slot>)
    ensures
        work_left(slots) <= 2 * slots.len(),
    decreases slots.len(),
{
    if slots.len() > 0 {
        lemma_work_left_bound(slots.drop_last());
    }
}

/// A finished pool holds exactly one outcome per target, each about the path
/// of its own target; so distinct targets give outcomes about distinct paths.
pub proof fn lemma_one_outcome_per_target(e: &Executor)
    requires
        e.wf(),
        e.finished(),
    ensures
        forall|i: int| 0 <= i < e.targets_spec().len() ==> {
            &&& #[trigger] e.slots_spec()[i] is Done
            &&& e.slots_spec()[i]->Done_0.path_spec()@ == e.targets_spec()[i].path@
        },
        e.slots_spec().len() == e.targets_spec().len(),
        (forall|i: int, j: int|
            0 <= i < j < e.targets_spec().len() ==> #[trigger] e.targets_spec()[i].path@
                != #[trigger] e.targets_spec()[j].path@) ==> forall|i: int, j: int|
            0 <= i < j < e.targets_spec().len() ==> #[trigger] e.slots_spec()[i]->Done_0.path_spec()@
                != #[trigger] e.slots_spec()[j]->Done_0.path_spec()@,
{
    assert forall|i: int| 0 <= i < e.targets_spec().len() implies {
        &&& #[trigger] e.slots_spec()[i] is Done
        &&& e.slots_spec()[i]->Done_0.path_spec()@ == e.targets_spec()[i].path@
    } by {
        assert(e.slots_spec()[i] is Done);
    }
}

/// With no targets there is no work: the pool has finished from the start
/// and never starts a task, so no call is made.
pub proof fn lemma_empty_pool_does_nothing(e: &Executor)
    requires
        e.wf(),
        e.targets_spec().len() == 0,
    ensures
        e.finished(),
        !e.can_start(),
{
}

} // verus!
