//! The decisions of the compilation scheduler.
//!
//! One worker owns the code generator and lowers one unit at a time. Callers
//! hand their units in through a bounded queue. This module decides who is
//! admitted, who is next and whose result is due; waiting, waking and the
//! lowering itself are the embedder's part.

use vstd::prelude::*;

verus! {

/// How many units may wait in the queue of a default scheduler.
pub const MAX_COMPILATION_TASKS: usize = 5;

/// Where a submitted unit stands.
#[derive(Clone, Copy, Debug, PartialEq, Eq, Structural)]
pub enum TaskState {
    /// No unit was admitted under this ticket.
    Unknown,
    /// Admitted, waiting for the worker.
    Queued,
    /// The worker is lowering it.
    Lowering,
    /// Its one result has been handed out.
    Done,
}

/// The answer to a submission.
#[derive(Clone, Copy, Debug, PartialEq, Eq, Structural)]
pub enum Admission {
    /// Admitted under this ticket; the result will come under the same one.
    Queued(u64),
    /// The queue is full: the submitter waits until the worker takes a unit,
    /// then asks again.
    Full,
    /// No ticket is left to give out.
    Exhausted,
}

/// The scheduler as a mathematical value.
pub struct SchedulerState {
    /// Whether the worker has been started.
    pub started: bool,
    /// The bound of the queue.
    pub capacity: nat,
    /// The tickets that wait, oldest first.
    pub queue: Seq<u64>,
    /// The ticket that the worker is lowering.
    pub lowering: Option<u64>,
    /// How many tickets have been given out; the next ticket is this number.
    pub issued: nat,
}

impl SchedulerState {
    /// The queue is bounded, tickets wait in the order in which they were
    /// given out, and the worker's ticket is older than all that wait.
    pub open spec fn wf(self) -> bool {
        &&& self.capacity > 0
        &&& self.queue.len() <= self.capacity
        &&& self.issued <= u64::MAX
        &&& forall|i: int| 0 <= i < self.queue.len() ==> #[trigger] self.queue[i] < self.issued
        &&& forall|i: int, j: int|
            0 <= i < j < self.queue.len() ==> #[trigger] self.queue[i] < #[trigger] self.queue[j]
        &&& self.lowering matches Some(t) ==> {
            &&& t < self.issued
            &&& forall|i: int| 0 <= i < self.queue.len() ==> t < #[trigger] self.queue[i]
        }
    }

    /// A scheduler that has seen nothing yet.
    pub open spec fn initial(capacity: nat) -> SchedulerState {
        SchedulerState {
            started: false,
            capacity,
            queue: Seq::empty(),
            lowering: None,
            issued: 0,
        }
    }

    /// Whether the queue has a free place.
    pub open spec fn has_room(self) -> bool {
        self.queue.len() < self.capacity
    }

    /// Whether a submission is admitted now.
    pub open spec fn can_admit(self) -> bool {
        self.has_room() && self.issued < u64::MAX
    }

    /// The state after the worker has been asked to start.
    pub open spec fn with_worker(self) -> SchedulerState {
        SchedulerState { started: true, ..self }
    }

    /// The state after a submission: admitted at the end of the queue where
    /// there is room, unchanged where there is none.
    pub open spec fn admitted(self) -> SchedulerState {
        if self.can_admit() {
            SchedulerState {
                queue: self.queue.push(self.issued as u64),
                issued: self.issued + 1,
                ..self
            }
        } else {
            self
        }
    }

    /// Whether the worker can take a unit now.
    pub open spec fn can_take(self) -> bool {
        self.lowering is None && self.queue.len() > 0
    }

    /// The state after the worker has asked for its next unit: the oldest
    /// that waits, if the worker is free and one waits.
    pub open spec fn taken(self) -> SchedulerState {
        if self.can_take() {
            SchedulerState {
                queue: self.queue.drop_first(),
                lowering: Some(self.queue[0]),
                ..self
            }
        } else {
            self
        }
    }

    /// The state after the worker has finished the unit it was lowering.
    pub open spec fn completed(self) -> SchedulerState {
        SchedulerState { lowering: None, ..self }
    }

    /// One round of the worker: it finishes what it was lowering and takes
    /// the next unit.
    pub open spec fn round(self) -> SchedulerState {
        self.completed().taken()
    }

    /// The state after `n` rounds of the worker.
    pub open spec fn rounds(self, n: nat) -> SchedulerState
        decreases n,
    {
        if n == 0 {
            self
        } else {
            self.round().rounds((n - 1) as nat)
        }
    }

    /// Where the unit of ticket `t` stands.
    pub open spec fn state_of(self, t: u64) -> TaskState {
        if t >= self.issued {
            TaskState::Unknown
        } else if self.queue.contains(t) {
            TaskState::Queued
        } else if self.lowering == Some(t) {
            TaskState::Lowering
        } else {
            TaskState::Done
        }
    }
}

/// Every step keeps the scheduler well formed.
pub proof fn lemma_steps_keep_wf(s: SchedulerState)
    requires
        s.wf(),
    ensures
        s.with_worker().wf(),
        s.admitted().wf(),
        s.taken().wf(),
        s.completed().wf(),
{
    if s.can_take() {
        let t = s.taken();
        assert forall|i: int| 0 <= i < t.queue.len() implies s.queue[0] < #[trigger] t.queue[i] by {
            assert(t.queue[i] == s.queue[i + 1]);
        }
        assert forall|i: int, j: int| 0 <= i < j < t.queue.len() implies #[trigger] t.queue[i]
            < #[trigger] t.queue[j] by {
            assert(t.queue[i] == s.queue[i + 1]);
            assert(t.queue[j] == s.queue[j + 1]);
        }
        assert forall|i: int| 0 <= i < t.queue.len() implies #[trigger] t.queue[i] < t.issued by {
            assert(t.queue[i] == s.queue[i + 1]);
        }
    }
}

/// Backpressure. A submission to a full queue is refused and changes
/// nothing; as soon as a free worker has taken a unit, there is room again.
pub proof fn lemma_backpressure(s: SchedulerState)
    requires
        s.wf(),
        s.queue.len() == s.capacity,
    ensures
        !s.can_admit(),
        s.admitted() == s,
        s.lowering is None ==> s.taken().has_room(),
{
}

/// Admission order is service order. A newcomer goes behind all that wait,
/// the worker takes the oldest, and a ticket that waits behind another is
/// still waiting after the worker's next step.
pub proof fn lemma_oldest_first(s: SchedulerState, i: int, j: int)
    requires
        s.wf(),
        0 <= i < j < s.queue.len(),
    ensures
        s.admitted().queue.len() >= s.queue.len(),
        s.admitted().queue.subrange(0, s.queue.len() as int) == s.queue,
        s.taken().lowering != Some(s.queue[j]),
        s.taken().state_of(s.queue[j]) == TaskState::Queued,
        s.lowering is None ==> s.taken().lowering == Some(s.queue[0]),
{
    assert(s.admitted().queue.subrange(0, s.queue.len() as int) =~= s.queue);
    assert(s.queue[0] < s.queue[j]);
    if s.can_take() {
        assert(s.taken().queue[j - 1] == s.queue[j]);
    }
}

/// Two units submitted one after the other to an idle scheduler are lowered
/// and answered in that order.
pub proof fn lemma_two_in_order(s: SchedulerState)
    requires
        s.wf(),
        s.queue.len() == 0,
        s.lowering is None,
        s.capacity >= 2,
        s.issued + 2 <= u64::MAX,
    ensures
        ({
            let first = s.issued as u64;
            let second = (s.issued + 1) as u64;
            let both = s.admitted().admitted();
            let one_taken = both.taken();
            let one_done = one_taken.completed();
            let two_taken = one_done.taken();
            let two_done = two_taken.completed();
            &&& both.queue == seq![first, second]
            &&& one_taken.lowering == Some(first)
            &&& one_taken.state_of(second) == TaskState::Queued
            &&& one_done.state_of(first) == TaskState::Done
            &&& one_done.state_of(second) == TaskState::Queued
            &&& two_taken.lowering == Some(second)
            &&& two_done.state_of(second) == TaskState::Done
            &&& two_done.state_of(first) == TaskState::Done
        }),
{
    let first = s.issued as u64;
    let second = (s.issued + 1) as u64;
    let both = s.admitted().admitted();
    assert(both.queue =~= seq![first, second]);
    let one_taken = both.taken();
    assert(one_taken.queue =~= seq![second]);
    assert(one_taken.queue[0] == second);
    let one_done = one_taken.completed();
    let two_taken = one_done.taken();
    assert(two_taken.queue =~= Seq::<u64>::empty());
}

/// One result for one unit. When the worker finishes, the ticket it was
/// lowering is done; and a ticket that is done stays done whatever happens
/// next, so no second result is ever due for it.
pub proof fn lemma_one_result(s: SchedulerState, t: u64)
    requires
        s.wf(),
    ensures
        s.lowering == Some(t) ==> s.completed().state_of(t) == TaskState::Done,
        s.state_of(t) == TaskState::Done ==> {
            &&& s.with_worker().state_of(t) == TaskState::Done
            &&& s.admitted().state_of(t) == TaskState::Done
            &&& s.taken().state_of(t) == TaskState::Done
            &&& s.completed().state_of(t) == TaskState::Done
        },
{
    if s.state_of(t) == TaskState::Done {
        if s.can_admit() {
            let a = s.admitted();
            if a.queue.contains(t) {
                let k = choose|k: int| 0 <= k < a.queue.len() && a.queue[k] == t;
                if k < s.queue.len() {
                    assert(s.queue[k] == t);
                }
            }
        }
        if s.can_take() {
            let a = s.taken();
            if a.queue.contains(t) {
                let k = choose|k: int| 0 <= k < a.queue.len() && a.queue[k] == t;
                assert(s.queue[k + 1] == t);
            }
            assert(s.queue[0] == s.queue[0]);
            assert(s.queue.contains(s.queue[0]));
        }
    }
    if s.lowering == Some(t) {
        if s.queue.contains(t) {
            let k = choose|k: int| 0 <= k < s.queue.len() && s.queue[k] == t;
            assert(t < s.queue[k]);
        }
    }
}

/// A ticket only moves forward: from waiting to being lowered to done.
pub proof fn lemma_forward_only(s: SchedulerState, t: u64)
    requires
        s.wf(),
    ensures
        s.state_of(t) == TaskState::Queued ==> {
            &&& s.admitted().state_of(t) == TaskState::Queued
            &&& s.completed().state_of(t) == TaskState::Queued
            &&& s.taken().state_of(t) == TaskState::Queued || s.taken().state_of(t)
                == TaskState::Lowering
        },
        s.state_of(t) == TaskState::Lowering ==> {
            &&& s.admitted().state_of(t) == TaskState::Lowering
            &&& s.taken().state_of(t) == TaskState::Lowering
            &&& s.completed().state_of(t) == TaskState::Done
        },
{
    lemma_one_result(s, t);
    if s.queue.contains(t) {
        let k = choose|k: int| 0 <= k < s.queue.len() && s.queue[k] == t;
        if s.can_admit() {
            assert(s.admitted().queue[k] == t);
        }
        if s.can_take() && k > 0 {
            assert(s.taken().queue[k - 1] == t);
        }
        if s.can_take() && k == 0 {
            let a = s.taken();
            if a.queue.contains(t) {
                let m = choose|m: int| 0 <= m < a.queue.len() && a.queue[m] == t;
                assert(s.queue[m + 1] == t);
                assert(s.queue[0] < s.queue[m + 1]);
            }
        }
    } else if s.lowering == Some(t) {
        if s.can_admit() {
            let a = s.admitted();
            if a.queue.contains(t) {
                let m = choose|m: int| 0 <= m < a.queue.len() && a.queue[m] == t;
                if m < s.queue.len() {
                    assert(s.queue[m] == t);
                }
            }
        }
    }
}

/// Every unit that waits is served. The ticket at place `k` of the queue is
/// being lowered after `k + 1` rounds of the worker and done after one more.
pub proof fn lemma_served_in_turn(s: SchedulerState, k: int)
    requires
        s.wf(),
        0 <= k < s.queue.len(),
    ensures
        s.rounds((k + 1) as nat).wf(),
        s.rounds((k + 1) as nat).lowering == Some(s.queue[k]),
        s.rounds((k + 1) as nat).state_of(s.queue[k]) == TaskState::Lowering,
        s.rounds((k + 2) as nat).state_of(s.queue[k]) == TaskState::Done,
    decreases k,
{
    let t = s.queue[k];
    let r = s.round();
    lemma_steps_keep_wf(s);
    lemma_steps_keep_wf(s.completed());
    assert(r.queue =~= s.queue.drop_first());
    assert(r.lowering == Some(s.queue[0]));
    assert(s.rounds((k + 1) as nat) == r.rounds(k as nat));
    assert(s.rounds((k + 2) as nat) == r.rounds((k + 1) as nat));
    if k == 0 {
        assert(r.rounds(0) == r);
        assert(r.rounds(1) == r.round().rounds(0));
        assert(r.round().rounds(0) == r.round());
        if r.queue.contains(t) {
            let m = choose|m: int| 0 <= m < r.queue.len() && r.queue[m] == t;
            assert(s.queue[m + 1] == t);
            assert(s.queue[0] < s.queue[m + 1]);
        }
        lemma_forward_only(r, t);
        lemma_steps_keep_wf(r);
        lemma_one_result(r.completed(), t);
    } else {
        assert(r.queue[k - 1] == t);
        lemma_served_in_turn(r, k - 1);
    }
}

/// The scheduler's bookkeeping.
pub struct Scheduler {
    started: bool,
    capacity: usize,
    queue: Vec<u64>,
    lowering: Option<u64>,
    issued: u64,
}

impl View for Scheduler {
    type V = SchedulerState;

    closed spec fn view(&self) -> SchedulerState {
        SchedulerState {
            started: self.started,
            capacity: self.capacity as nat,
            queue: self.queue@,
            lowering: self.lowering,
            issued: self.issued as nat,
        }
    }
}

impl Scheduler {
    /// A scheduler whose queue holds up to `capacity` units. A queue of no
    /// capacity could admit nothing, so `capacity` is positive.
    pub fn new(capacity: usize) -> (s: Scheduler)
        requires
            capacity > 0,
        ensures
            s@ == SchedulerState::initial(capacity as nat),
            s@.wf(),
    {
        Scheduler { started: false, capacity, queue: Vec::new(), lowering: None, issued: 0 }
    }

    /// How many units wait.
    pub fn pending(&self) -> (n: usize)
        ensures
            n == self@.queue.len(),
    {
        self.queue.len()
    }

    /// The worker asks for its next unit. It gets the oldest ticket that
    /// waits, unless it is still lowering one or none waits.
    pub fn next_task(&mut self) -> (r: Option<u64>)
        requires
            old(self)@.wf(),
        ensures
            final(self)@.wf(),
            final(self)@ == old(self)@.taken(),
            old(self)@.can_take() ==> r == Some(old(self)@.queue[0]),
            !old(self)@.can_take() ==> r is None,
    {
        if self.lowering.is_some() || self.queue.len() == 0 {
            return None;
        }
        let t: u64 = self.queue.remove(0);
        self.lowering = Some(t);
        proof {
            assert(self.queue@ =~= old(self).queue@.drop_first());
        }
        Some(t)
    }

    /// The worker has finished the unit it was lowering. The answer is the
    /// ticket whose result is now due, once; `None` if it was lowering
    /// nothing.
    pub fn complete(&mut self) -> (r: Option<u64>)
        requires
            old(self)@.wf(),
        ensures
            final(self)@.wf(),
            final(self)@ == old(self)@.completed(),
            r == old(self)@.lowering,
    {
        let r: Option<u64> = self.lowering;
        self.lowering = None;
        r
    }

    /// Where the unit of `ticket` stands.
    pub fn state(&self, ticket: u64) -> (r: TaskState)
        requires
            self@.wf(),
        ensures
            r == self@.state_of(ticket),
    {
        if ticket >= self.issued {
            return TaskState::Unknown;
        }
        let mut i: usize = 0;
        while i < self.queue.len()
            invariant
                i <= self.queue@.len(),
                ticket < self.issued,
                forall|j: int| 0 <= j < i ==> self.queue@[j] != ticket,
            decreases self.queue.len() - i,
        {
            if self.queue[i] == ticket {
                proof {
                    assert(self@.queue[i as int] == ticket);
                }
                return TaskState::Queued;
            }
            i += 1;
        }
        if self.lowering == Some(ticket) {
            TaskState::Lowering
        } else {
            TaskState::Done
        }
    }
}

impl Default for Scheduler {
    /// A scheduler with the default bound on its queue.
    fn default() -> (s: Scheduler)
        ensures
            s@ == SchedulerState::initial(MAX_COMPILATION_TASKS as nat),
            s@.wf(),
    {
        Scheduler::new(MAX_COMPILATION_TASKS)
    }
}

/// Asks for the worker to be started. The answer is `true` the first time,
/// when the caller has to start it, and `false` ever after.
pub fn init_compiler(sched: &mut Scheduler) -> (start: bool)
    ensures
        start == !old(sched)@.started,
        final(sched)@ == old(sched)@.with_worker(),
{
    let start: bool = !sched.started;
    sched.started = true;
    start
}

/// Submits one unit. With room in the queue it is admitted behind all that
/// wait and gets the next ticket; with a full queue nothing changes and the
/// submitter has to wait.
pub fn compile_cps(sched: &mut Scheduler) -> (r: Admission)
    requires
        old(sched)@.wf(),
    ensures
        final(sched)@.wf(),
        final(sched)@ == old(sched)@.admitted(),
        old(sched)@.can_admit() ==> r == Admission::Queued(old(sched)@.issued as u64),
        !old(sched)@.has_room() ==> r == Admission::Full,
        old(sched)@.has_room() && !old(sched)@.can_admit() ==> r == Admission::Exhausted,
{
    if sched.queue.len() >= sched.capacity {
        return Admission::Full;
    }
    if sched.issued == u64::MAX {
        return Admission::Exhausted;
    }
    let t: u64 = sched.issued;
    sched.queue.push(t);
    sched.issued = t + 1;
    Admission::Queued(t)
}

} // verus!
