//! A cooperative cycle scheduler. Tasks are resumable computations that
//! tell the scheduler, each time they are resumed, how many cycles to wait
//! before they are resumed again.

use vstd::prelude::*;

verus! {

/// A request to be resumed `cycles` cycles from now.
#[derive(Copy, Clone, Debug, PartialEq, Eq, Structural)]
pub struct WaitCycles {
    pub cycles: u64,
}

#[inline(always)]
pub fn wait_cycles(cycles: u64) -> (r: WaitCycles)
    ensures
        r.cycles == cycles,
{
    WaitCycles { cycles }
}

/// What a resumed computation hands back: a value it yields on suspending,
/// or the value it completes with.
#[derive(Debug, PartialEq, Eq)]
pub enum GeneratorState<Y, R> {
    Yielded(Y),
    Complete(R),
}

/// A resumable computation that runs against a context of type `C`, the
/// state it shares with the other tasks of the same scheduler.
pub trait Task<C> {
    /// What has to hold of the task for it to be resumed. It holds again
    /// whenever the task suspends. Unless a task says otherwise, nothing
    /// has to hold.
    open spec fn resumable(&self) -> bool {
        true
    }

    /// Runs the task up to its next suspension point.
    fn step(&mut self, ctx: &mut C) -> (r: GeneratorState<WaitCycles, ()>)
        requires
            old(self).resumable(),
        ensures
            final(self).resumable(),
    ;
}

/// A task made of a function that is called once per resumption. All that
/// the task remembers between resumptions lives in the context.
pub struct GeneratorTask<G> {
    pub generator: G,
}

impl<G> GeneratorTask<G> {
    /// Wraps `generator` in a task.
    pub fn new(generator: G) -> (r: GeneratorTask<G>)
        ensures
            r.generator == generator,
    {
        GeneratorTask { generator }
    }
}

impl<C, G: Fn(&mut C) -> GeneratorState<WaitCycles, ()>> Task<C> for GeneratorTask<G> {
    /// The function can be called on every context.
    open spec fn resumable(&self) -> bool {
        forall|c: &mut C| call_requires(self.generator, (c,))
    }

    /// Calls the function on the context and hands on what it returns: the
    /// context ends up as the function left it.
    fn step(&mut self, ctx: &mut C) -> (r: GeneratorState<WaitCycles, ()>)
        ensures
            final(self).generator == old(self).generator,
            exists|c: &mut C|
                *c == *old(ctx) && *final(c) == *final(ctx) && call_ensures(old(self).generator, (c,), r),
    {
        (self.generator)(ctx)
    }
}

/// A queue entry: task `task_id` is to be resumed at cycle `scheduled_at`.
/// Among entries due at the same cycle the lower `scheduling_id` goes first.
#[derive(Copy, Clone, Debug, PartialEq, Eq, Structural)]
pub struct ScheduledTask {
    pub scheduled_at: u64,
    pub scheduling_id: u64,
    pub task_id: usize,
}

impl ScheduledTask {
    /// Whether `self` is resumed before `other`: it is due earlier, or due
    /// at the same cycle and was enqueued earlier.
    pub open spec fn before(self, other: ScheduledTask) -> bool {
        self.scheduled_at < other.scheduled_at || (self.scheduled_at == other.scheduled_at
            && self.scheduling_id < other.scheduling_id)
    }

    pub fn runs_before(&self, other: &ScheduledTask) -> (r: bool)
        ensures
            r == self.before(*other),
    {
        self.scheduled_at < other.scheduled_at || (self.scheduled_at == other.scheduled_at
            && self.scheduling_id < other.scheduling_id)
    }
}

/// Whether every entry of `queue` is resumed before the entries behind it.
pub open spec fn queue_sorted(queue: Seq<ScheduledTask>) -> bool {
    forall|i: int, j: int| 0 <= i < j < queue.len() ==> (#[trigger] queue[i]).before(#[trigger] queue[j])
}

/// Where `entry` goes into `queue`: behind the last entry that is resumed
/// before it.
pub open spec fn insertion_point(queue: Seq<ScheduledTask>, entry: ScheduledTask) -> nat
    decreases queue.len(),
{
    if queue.len() == 0 {
        0
    } else if queue.last().before(entry) {
        queue.len()
    } else {
        insertion_point(queue.drop_last(), entry)
    }
}

/// `queue` with `entry` put in at its place.
pub open spec fn queue_insert(queue: Seq<ScheduledTask>, entry: ScheduledTask) -> Seq<ScheduledTask> {
    queue.insert(insertion_point(queue, entry) as int, entry)
}

/// The cycle at which a task that yields `cycles` at cycle `at` is due
/// again. Times past the end of the counter are held at its last value,
/// which no run ever reaches.
pub open spec fn due_after(at: u64, cycles: u64) -> u64 {
    if at + cycles > u64::MAX {
        u64::MAX
    } else {
        (at + cycles) as u64
    }
}

/// In a sorted queue whose scheduling ids all lie below that of `entry`,
/// `entry` goes behind every entry that is due no later than it and in
/// front of every entry that is due later; the queue stays sorted.
pub proof fn lemma_queue_insert(queue: Seq<ScheduledTask>, entry: ScheduledTask)
    requires
        queue_sorted(queue),
        forall|i: int| 0 <= i < queue.len() ==> (#[trigger] queue[i]).scheduling_id < entry.scheduling_id,
    ensures
        insertion_point(queue, entry) <= queue.len(),
        forall|i: int| 0 <= i < insertion_point(queue, entry) ==> (#[trigger] queue[i]).before(entry),
        forall|i: int| insertion_point(queue, entry) <= i < queue.len() ==> entry.before(#[trigger] queue[i]),
        queue_sorted(queue_insert(queue, entry)),
    decreases queue.len(),
{
    if queue.len() > 0 && !queue.last().before(entry) {
        let shorter = queue.drop_last();
        assert forall|i: int| 0 <= i < shorter.len() implies (#[trigger] shorter[i]).scheduling_id
            < entry.scheduling_id by {
            assert(shorter[i] == queue[i]);
        }
        assert forall|i: int, j: int| 0 <= i < j < shorter.len() implies (#[trigger] shorter[i]).before(
            #[trigger] shorter[j],
        ) by {
            assert(shorter[i] == queue[i] && shorter[j] == queue[j]);
        }
        lemma_queue_insert(shorter, entry);
        let p = insertion_point(queue, entry) as int;
        assert forall|i: int| 0 <= i < p implies (#[trigger] queue[i]).before(entry) by {
            assert(shorter[i] == queue[i]);
        }
        assert forall|i: int| p <= i < queue.len() implies entry.before(#[trigger] queue[i]) by {
            if i < shorter.len() {
                assert(shorter[i] == queue[i]);
            }
        }
    }
    let p = insertion_point(queue, entry) as int;
    let after = queue_insert(queue, entry);
    assert forall|i: int, j: int| 0 <= i < j < after.len() implies (#[trigger] after[i]).before(
        #[trigger] after[j],
    ) by {
        if j < p {
            assert(after[i] == queue[i] && after[j] == queue[j]);
        } else if j == p {
            assert(after[i] == queue[i]);
        } else if i < p {
            assert(after[i] == queue[i] && after[j] == queue[j - 1]);
        } else if i == p {
            assert(after[j] == queue[j - 1]);
        } else {
            assert(after[i] == queue[i - 1] && after[j] == queue[j - 1]);
        }
    }
}

/// Of two entries put into a queue for the same cycle, the one enqueued
/// first is resumed first: it stands in front of the other in the queue,
/// whatever else the queue holds.
pub proof fn lemma_same_cycle_runs_in_insertion_order(
    queue: Seq<ScheduledTask>,
    first: ScheduledTask,
    second: ScheduledTask,
)
    requires
        queue_sorted(queue),
        forall|i: int| 0 <= i < queue.len() ==> (#[trigger] queue[i]).scheduling_id < first.scheduling_id,
        first.scheduling_id < second.scheduling_id,
        first.scheduled_at == second.scheduled_at,
    ensures
        ({
            let after = queue_insert(queue_insert(queue, first), second);
            let i = insertion_point(queue, first) as int;
            let j = insertion_point(queue_insert(queue, first), second) as int;
            &&& i < j < after.len()
            &&& after[i] == first
            &&& after[j] == second
            &&& queue_sorted(after)
        }),
{
    lemma_queue_insert(queue, first);
    let mid = queue_insert(queue, first);
    let i = insertion_point(queue, first) as int;
    assert(mid[i] == first);
    assert forall|k: int| 0 <= k < mid.len() implies (#[trigger] mid[k]).scheduling_id < second.scheduling_id by {
        if k < i {
            assert(mid[k] == queue[k]);
        } else if k > i {
            assert(mid[k] == queue[k - 1]);
        }
    }
    lemma_queue_insert(mid, second);
    let j = insertion_point(mid, second) as int;
    if j <= i {
        assert(second.before(mid[i]));
    }
}

/// A boxed task is a task: it runs what is in the box. This lets one
/// scheduler hold tasks of different types.
impl<C> Task<C> for Box<dyn Task<C>> {
    open spec fn resumable(&self) -> bool {
        (**self).resumable()
    }
    /// One resumption of the task in the box, with all that it brings about.
    fn step(&mut self, ctx: &mut C) -> (r: GeneratorState<WaitCycles, ()>)
        ensures
            exists|task: &mut dyn Task<C>, c: &mut C|
                &*task == &**old(self) && &*final(task) == &**final(self) && *c == *old(ctx)
                    && *final(c) == *final(ctx) && step_ensures(task, c, r),
    {
        step_task(&mut **self, ctx)
    }
}

/// What a scheduler holds, as plain values: the clock, the scheduling id
/// that goes out next, the queue with the entry to resume next in front,
/// and the tasks by task id.
pub struct SchedulerState<T> {
    pub now: u64,
    pub next_id: u64,
    pub queue: Seq<ScheduledTask>,
    pub tasks: Seq<Option<T>>,
}

impl<T> SchedulerState<T> {
    /// Whether there is a turn to take in a run that ends at `stop_time`:
    /// the entry at the head of the queue is due before then, and a
    /// scheduling id is left to enqueue its task again.
    pub open spec fn due(self, stop_time: u64) -> bool {
        self.next_id < u64::MAX && self.queue.len() > 0 && self.queue[0].scheduled_at < stop_time
    }

    /// The entry whose turn it is.
    pub open spec fn head(self) -> ScheduledTask {
        self.queue[0]
    }

    /// Whether `after` is what a turn leaves of `self` when the task of the
    /// head entry is gone: the entry has left the queue and the clock stands
    /// at its cycle.
    pub open spec fn passed_over(self, after: SchedulerState<T>) -> bool {
        after == (SchedulerState { now: self.head().scheduled_at, queue: self.queue.remove(0), ..self })
    }

    /// Whether `after` is what a turn leaves of `self` when the task of the
    /// head entry was resumed, was left as `task_after` and handed back `r`.
    /// The entry has left the queue and the clock stands at its cycle. A
    /// task that yielded is back in its place and enqueued that many cycles
    /// later, behind everything already waiting for that cycle. The place
    /// of a task that completed is empty.
    pub open spec fn filed(self, after: SchedulerState<T>, task_after: T, r: GeneratorState<WaitCycles, ()>) -> bool {
        let entry = self.head();
        let rest = self.queue.remove(0);
        match r {
            GeneratorState::Yielded(wait) => after == (SchedulerState {
                now: entry.scheduled_at,
                next_id: (self.next_id + 1) as u64,
                queue: queue_insert(
                    rest,
                    ScheduledTask {
                        scheduled_at: due_after(entry.scheduled_at, wait.cycles),
                        scheduling_id: self.next_id,
                        task_id: entry.task_id,
                    },
                ),
                tasks: self.tasks.update(entry.task_id as int, Some(task_after)),
            }),
            GeneratorState::Complete(_) => after == (SchedulerState {
                now: entry.scheduled_at,
                next_id: self.next_id,
                queue: rest,
                tasks: self.tasks.update(entry.task_id as int, None),
            }),
        }
    }
}

/// Whether `states` and `ctxs` can be the schedulers and contexts that a
/// chain of turns goes through: one of each before the first turn and one
/// of each after every turn.
pub open spec fn chain<C, T>(states: Seq<SchedulerState<T>>, ctxs: Seq<C>) -> bool {
    states.len() == ctxs.len() && states.len() >= 1
}

/// Names turn `i` of a chain of turns, the one that leads from state `i`
/// to state `i + 1`. It holds of every `i`.
pub open spec fn turn(i: int) -> bool {
    true
}

/// The scheduler: a cycle counter, the queue of tasks waiting for their
/// cycle, and the tasks themselves, which are of type `T` and run against
/// a context of type `C`.
pub struct TaskScheduler<C, T> {
    current_time: u64,
    next_scheduling_id: u64,
    // Sorted, the entry to resume next in front.
    scheduled_tasks: Vec<ScheduledTask>,
    // A task's id is its index. The slot of a task that is gone is empty.
    active_tasks: Vec<Option<T>>,
    _context: core::marker::PhantomData<C>,
}

impl<C, T> View for TaskScheduler<C, T> {
    type V = SchedulerState<T>;

    closed spec fn view(&self) -> SchedulerState<T> {
        SchedulerState {
            now: self.current_time,
            next_id: self.next_scheduling_id,
            queue: self.scheduled_tasks@,
            tasks: self.active_tasks@,
        }
    }
}

impl<C, T: Task<C>> TaskScheduler<C, T> {
    /// The current cycle.
    pub open spec fn now(&self) -> u64 {
        self@.now
    }

    /// The waiting entries, the one to resume next in front.
    pub open spec fn queue(&self) -> Seq<ScheduledTask> {
        self@.queue
    }

    /// The scheduling id that the next enqueued entry gets.
    pub open spec fn next_id(&self) -> u64 {
        self@.next_id
    }

    /// The tasks by task id. The place of a task that completed or was
    /// cancelled is empty.
    pub open spec fn tasks(&self) -> Seq<Option<T>> {
        self@.tasks
    }

    /// How many task ids have been given out.
    pub open spec fn task_count(&self) -> nat {
        self.tasks().len()
    }

    /// Whether task `task_id` is still there: added, not completed, not cancelled.
    pub open spec fn has_task(&self, task_id: int) -> bool {
        0 <= task_id < self.tasks().len() && self.tasks()[task_id] is Some
    }

    /// The queue is sorted, every entry in it names a task id that was
    /// given out and carries a scheduling id that was given out, nothing in
    /// it is overdue while scheduling ids are left, and every task is fit to
    /// be resumed.
    pub closed spec fn wf(&self) -> bool {
        &&& queue_sorted(self.scheduled_tasks@)
        &&& self.next_scheduling_id < u64::MAX ==> forall|i: int|
            0 <= i < self.scheduled_tasks@.len() ==> (#[trigger] self.scheduled_tasks@[i]).scheduled_at
                >= self.current_time
        &&& forall|i: int|
            0 <= i < self.scheduled_tasks@.len() ==> {
                &&& (#[trigger] self.scheduled_tasks@[i]).scheduling_id < self.next_scheduling_id
                &&& self.scheduled_tasks@[i].task_id < self.active_tasks@.len()
            }
        &&& forall|i: int|
            0 <= i < self.active_tasks@.len() ==> (#[trigger] self.active_tasks@[i] matches Some(t)
                ==> t.resumable())
    }

    /// What `wf` says of the queue.
    pub proof fn lemma_wf_queue(&self)
        requires
            self.wf(),
        ensures
            queue_sorted(self.queue()),
            forall|i: int|
                0 <= i < self.queue().len() ==> {
                    &&& (#[trigger] self.queue()[i]).scheduling_id < self.next_id()
                    &&& self.queue()[i].task_id < self.task_count()
                    &&& self.next_id() < u64::MAX ==> self.queue()[i].scheduled_at >= self.now()
                },
            forall|i: int| 0 <= i < self.tasks().len() ==> (#[trigger] self.tasks()[i] matches Some(t) ==> t.resumable()),
    {
    }

    /// An empty scheduler at cycle 0.
    pub fn new() -> (r: TaskScheduler<C, T>)
        ensures
            r.wf(),
            r.now() == 0,
            r.next_id() == 0,
            r.queue() == Seq::<ScheduledTask>::empty(),
            r.tasks() == Seq::<Option<T>>::empty(),
    {
        TaskScheduler {
            current_time: 0,
            next_scheduling_id: 0,
            scheduled_tasks: Vec::new(),
            active_tasks: Vec::new(),
            _context: core::marker::PhantomData,
        }
    }

    pub fn current_time(&self) -> (r: u64)
        ensures
            r == self.now(),
    {
        self.current_time
    }

    /// Whether a scheduling id is left to give out. There are 2^64 - 1 of them.
    pub fn can_schedule(&self) -> (r: bool)
        ensures
            r == (self.next_id() < u64::MAX),
    {
        self.next_scheduling_id < u64::MAX
    }

    /// Puts `entry` into the queue at its place.
    fn enqueue(&mut self, entry: ScheduledTask)
        requires
            old(self).wf(),
            entry.scheduling_id == old(self).next_scheduling_id,
            entry.scheduling_id < u64::MAX,
            entry.task_id < old(self).active_tasks@.len(),
            entry.scheduled_at >= old(self).current_time,
        ensures
            final(self).wf(),
            final(self).scheduled_tasks@ == queue_insert(old(self).scheduled_tasks@, entry),
            final(self).scheduled_tasks@.len() == old(self).scheduled_tasks@.len() + 1,
            final(self).next_scheduling_id == old(self).next_scheduling_id + 1,
            final(self).current_time == old(self).current_time,
            final(self).active_tasks == old(self).active_tasks,
    {
        let ghost queue = self.scheduled_tasks@;
        let mut i: usize = self.scheduled_tasks.len();
        assert(queue.take(queue.len() as int) == queue);
        while i > 0 && !self.scheduled_tasks[i - 1].runs_before(&entry)
            invariant
                i <= queue.len(),
                self.scheduled_tasks@ == queue,
                insertion_point(queue, entry) == insertion_point(queue.take(i as int), entry),
            decreases i,
        {
            assert(queue.take(i as int).drop_last() == queue.take(i - 1));
            i = i - 1;
        }
        proof {
            assert(queue.take(queue.len() as int) == queue);
            lemma_queue_insert(queue, entry);
            if i > 0 {
                assert(queue.take(i as int).last() == queue[i - 1]);
            }
            assert(insertion_point(queue, entry) == i);
        }
        self.scheduled_tasks.insert(i, entry);
        self.next_scheduling_id = self.next_scheduling_id + 1;
        proof {
            let after = self.scheduled_tasks@;
            assert forall|k: int| 0 <= k < after.len() implies {
                &&& (#[trigger] after[k]).scheduling_id < self.next_scheduling_id
                &&& after[k].task_id < self.active_tasks@.len()
                &&& old(self).next_scheduling_id < u64::MAX ==> after[k].scheduled_at >= self.current_time
            } by {
                if k < i {
                    assert(after[k] == queue[k]);
                } else if k > i {
                    assert(after[k] == queue[k - 1]);
                }
            }
        }
    }

    /// Takes `task` in under a fresh task id, the number of tasks taken in
    /// before it, and enqueues it for the current cycle, behind everything
    /// already waiting for that cycle.
    pub fn add_new_task(&mut self, task: T)
        requires
            old(self).wf(),
            old(self).next_id() < u64::MAX,
            task.resumable(),
        ensures
            final(self).wf(),
            final(self).tasks() == old(self).tasks().push(Some(task)),
            final(self).queue() == queue_insert(
                old(self).queue(),
                ScheduledTask {
                    scheduled_at: old(self).now(),
                    scheduling_id: old(self).next_id(),
                    task_id: old(self).task_count() as usize,
                },
            ),
            final(self).next_id() == old(self).next_id() + 1,
            final(self).now() == old(self).now(),
    {
        let task_id: usize = self.active_tasks.len();
        self.active_tasks.push(Some(task));
        proof {
            assert forall|i: int| 0 <= i < self.active_tasks@.len() implies (
            #[trigger] self.active_tasks@[i] matches Some(t) ==> t.resumable()) by {
                if i < task_id {
                    assert(self.active_tasks@[i] == old(self).active_tasks@[i]);
                }
            }
        }
        let entry = ScheduledTask { scheduled_at: self.current_time, scheduling_id: self.next_scheduling_id, task_id };
        self.enqueue(entry);
    }

    /// Takes task `task_id` out of the scheduler and returns it, or `None`
    /// if it is not there. Its queue entry stays behind and is passed over
    /// when its turn comes.
    pub fn cancel_task(&mut self, task_id: usize) -> (r: Option<T>)
        requires
            old(self).wf(),
        ensures
            final(self).wf(),
            r == if task_id < old(self).task_count() {
                old(self).tasks()[task_id as int]
            } else {
                None::<T>
            },
            final(self).tasks() == if task_id < old(self).task_count() {
                old(self).tasks().update(task_id as int, None)
            } else {
                old(self).tasks()
            },
            final(self).queue() == old(self).queue(),
            final(self).next_id() == old(self).next_id(),
            final(self).now() == old(self).now(),
    {
        if task_id < self.active_tasks.len() {
            let mut taken: Option<T> = None;
            core::mem::swap(&mut taken, &mut self.active_tasks[task_id]);
            taken
        } else {
            None
        }
    }

    /// Task `task_id`, if it is still there.
    pub fn task(&self, task_id: usize) -> (r: Option<&T>)
        ensures
            r is Some == self.has_task(task_id as int),
            r matches Some(t) ==> self.tasks()[task_id as int] == Some(*t),
    {
        if task_id < self.active_tasks.len() {
            self.active_tasks[task_id].as_ref()
        } else {
            None
        }
    }

    /// The entry at the head of the queue if it is due before `stop_time`.
    pub fn next_due(&self, stop_time: u64) -> (r: Option<ScheduledTask>)
        ensures
            r == if self.queue().len() > 0 && self.queue()[0].scheduled_at < stop_time {
                Some(self.queue()[0])
            } else {
                None::<ScheduledTask>
            },
    {
        if self.scheduled_tasks.len() > 0 && self.scheduled_tasks[0].scheduled_at < stop_time {
            Some(self.scheduled_tasks[0])
        } else {
            None
        }
    }

    /// Files what task `task_id`, resumed in the current cycle, handed back.
    /// A task that yields is enqueued again, that many cycles from now and
    /// behind everything already waiting for that cycle. A task that
    /// completes leaves the scheduler.
    pub fn reschedule(&mut self, task_id: usize, result: GeneratorState<WaitCycles, ()>)
        requires
            old(self).wf(),
            old(self).next_id() < u64::MAX,
            task_id < old(self).task_count(),
        ensures
            final(self).wf(),
            final(self).now() == old(self).now(),
            match result {
                GeneratorState::Yielded(wait) => {
                    &&& final(self).queue() == queue_insert(
                        old(self).queue(),
                        ScheduledTask {
                            scheduled_at: due_after(old(self).now(), wait.cycles),
                            scheduling_id: old(self).next_id(),
                            task_id,
                        },
                    )
                    &&& final(self).next_id() == old(self).next_id() + 1
                    &&& final(self).tasks() == old(self).tasks()
                },
                GeneratorState::Complete(_) => {
                    &&& final(self).queue() == old(self).queue()
                    &&& final(self).next_id() == old(self).next_id()
                    &&& final(self).tasks() == old(self).tasks().update(task_id as int, None)
                },
            },
    {
        match result {
            GeneratorState::Yielded(wait) => {
                let due: u64 = match self.current_time.checked_add(wait.cycles) {
                    Some(t) => t,
                    None => u64::MAX,
                };
                let entry = ScheduledTask { scheduled_at: due, scheduling_id: self.next_scheduling_id, task_id };
                self.enqueue(entry);
            },
            GeneratorState::Complete(_) => {
                self.active_tasks[task_id] = None;
            },
        }
    }

    /// Resumes task `task_id`, whose entry has just left the queue, once, and files
    /// what it hands back as `reschedule` does. A task that is gone is passed over.
    fn resume(&mut self, task_id: usize, ctx: &mut C)
        requires
            old(self).wf(),
            old(self).next_scheduling_id < u64::MAX,
            task_id < old(self).active_tasks@.len(),
        ensures
            final(self).wf(),
            final(self).current_time == old(self).current_time,
            final(self).active_tasks@.len() == old(self).active_tasks@.len(),
            old(self).next_scheduling_id <= final(self).next_scheduling_id <= old(self).next_scheduling_id + 1,
            final(self).scheduled_tasks@.len() - old(self).scheduled_tasks@.len() == final(self).next_scheduling_id
                - old(self).next_scheduling_id,
            match old(self).active_tasks@[task_id as int] {
                None => {
                    &&& final(self).active_tasks@ == old(self).active_tasks@
                    &&& final(self).scheduled_tasks@ == old(self).scheduled_tasks@
                    &&& final(self).next_scheduling_id == old(self).next_scheduling_id
                    &&& *final(ctx) == *old(ctx)
                },
                Some(before) => exists|task: &mut T, c: &mut C, r: GeneratorState<WaitCycles, ()>|
                    {
                        &&& *task == before
                        &&& *c == *old(ctx)
                        &&& *final(c) == *final(ctx)
                        &&& #[trigger] step_ensures(task, c, r)
                        &&& match r {
                            GeneratorState::Yielded(wait) => {
                                &&& final(self).active_tasks@ == old(self).active_tasks@.update(
                                    task_id as int,
                                    Some(*final(task)),
                                )
                                &&& final(self).scheduled_tasks@ == queue_insert(
                                    old(self).scheduled_tasks@,
                                    ScheduledTask {
                                        scheduled_at: due_after(old(self).current_time, wait.cycles),
                                        scheduling_id: old(self).next_scheduling_id,
                                        task_id,
                                    },
                                )
                                &&& final(self).next_scheduling_id == old(self).next_scheduling_id + 1
                            },
                            GeneratorState::Complete(_) => {
                                &&& final(self).active_tasks@ == old(self).active_tasks@.update(task_id as int, None)
                                &&& final(self).scheduled_tasks@ == old(self).scheduled_tasks@
                                &&& final(self).next_scheduling_id == old(self).next_scheduling_id
                            },
                        }
                    },
            },
    {
        let slot = &mut self.active_tasks[task_id];
        let result = match slot {
            Some(task) => Some(step_task(task, ctx)),
            None => None,
        };
        match result {
            Some(result) => {
                proof {
                    lemma_queue_insert(
                        self.scheduled_tasks@,
                        ScheduledTask {
                            scheduled_at: due_after(
                                self.current_time,
                                if let GeneratorState::Yielded(wait) = result {
                                    wait.cycles
                                } else {
                                    0
                                },
                            ),
                            scheduling_id: self.next_scheduling_id,
                            task_id,
                        },
                    );
                }
                self.reschedule(task_id, result);
            },
            None => {},
        }
    }

    /// Removes the entry at the head of the queue, moves the clock to the
    /// cycle it is due at and returns it.
    fn pop(&mut self) -> (entry: ScheduledTask)
        requires
            old(self).wf(),
            old(self).scheduled_tasks@.len() > 0,
            old(self).next_scheduling_id < u64::MAX,
        ensures
            final(self).wf(),
            entry == old(self).scheduled_tasks@[0],
            entry.task_id < old(self).active_tasks@.len(),
            final(self).scheduled_tasks@ == old(self).scheduled_tasks@.remove(0),
            final(self).current_time == entry.scheduled_at,
            final(self).current_time >= old(self).current_time,
            final(self).next_scheduling_id == old(self).next_scheduling_id,
            final(self).active_tasks == old(self).active_tasks,
    {
        let ghost queue = self.scheduled_tasks@;
        let entry = self.scheduled_tasks.remove(0);
        self.current_time = entry.scheduled_at;
        proof {
            let after = self.scheduled_tasks@;
            assert forall|i: int| 0 <= i < after.len() implies {
                &&& (#[trigger] after[i]).scheduling_id < self.next_scheduling_id
                &&& after[i].task_id < self.active_tasks@.len()
                &&& after[i].scheduled_at >= self.current_time
            } by {
                assert(after[i] == queue[i + 1]);
                assert(queue[0].before(queue[i + 1]));
            }
            assert forall|i: int, j: int| 0 <= i < j < after.len() implies (#[trigger] after[i]).before(
                #[trigger] after[j],
            ) by {
                assert(after[i] == queue[i + 1] && after[j] == queue[j + 1]);
            }
        }
        entry
    }

    /// Takes one turn of a run that ends at `stop_time`, if there is one to
    /// take, and says whether it did: it takes the entry at the head of the
    /// queue out, moves the clock to its cycle, resumes its task once
    /// against the context and files what the task hands back. A task that
    /// is gone is passed over.
    pub fn run_next(&mut self, stop_time: u64, ctx: &mut C) -> (ran: bool)
        requires
            old(self).wf(),
        ensures
            final(self).wf(),
            ran == old(self)@.due(stop_time),
            !ran ==> final(self)@ == old(self)@ && *final(ctx) == *old(ctx),
            ran ==> match old(self)@.tasks[old(self)@.head().task_id as int] {
                None => old(self)@.passed_over(final(self)@) && *final(ctx) == *old(ctx),
                Some(before) => exists|task: &mut T, c: &mut C, r: GeneratorState<WaitCycles, ()>|
                    *task == before && *c == *old(ctx) && *final(c) == *final(ctx) && #[trigger] step_ensures(
                        task,
                        c,
                        r,
                    ) && old(self)@.filed(final(self)@, *final(task), r),
            },
            ran ==> (u64::MAX - final(self)@.next_id) + final(self)@.queue.len() < (u64::MAX - old(self)@.next_id)
                + old(self)@.queue.len(),
    {
        if self.next_scheduling_id == u64::MAX || self.next_due(stop_time).is_none() {
            return false;
        }
        let entry = self.pop();
        self.resume(entry.task_id, ctx);
        true
    }

    /// Runs the system for `cycles` cycles: takes turns with `run_next`
    /// until there is none left to take before the end of the run, then
    /// sets the clock to the end of the run.
    ///
    /// What the tasks do decides how many turns there are and what they
    /// leave behind. Whatever they do, scheduler and context are what that
    /// chain of turns makes of them, each turn on the head of the queue as
    /// the turn before left it.
    pub fn run_for(&mut self, cycles: u64, ctx: &mut C)
        requires
            old(self).wf(),
            old(self).now() + cycles <= u64::MAX,
        ensures
            final(self).wf(),
            final(self).now() == old(self).now() + cycles,
            final(self).task_count() == old(self).task_count(),
            final(self).next_id() >= old(self).next_id(),
            final(self).next_id() < u64::MAX ==> forall|i: int|
                0 <= i < final(self).queue().len() ==> (#[trigger] final(self).queue()[i]).scheduled_at
                    >= final(self).now(),
            !old(self)@.due((old(self).now() + cycles) as u64) ==> {
                &&& final(self).queue() == old(self).queue()
                &&& final(self).next_id() == old(self).next_id()
                &&& final(self).tasks() == old(self).tasks()
                &&& *final(ctx) == *old(ctx)
            },
            exists|states: Seq<SchedulerState<T>>, ctxs: Seq<C>|
                {
                    &&& #[trigger] chain(states, ctxs)
                    &&& states[0] == old(self)@ && ctxs[0] == *old(ctx)
                    &&& final(self)@ == (SchedulerState { now: (old(self).now() + cycles) as u64, ..states.last() })
                    &&& *final(ctx) == ctxs.last()
                    &&& !states.last().due((old(self).now() + cycles) as u64)
                    &&& forall|i: int|
                        0 <= i < states.len() - 1 && #[trigger] turn(i) ==> states[i].due(
                            (old(self).now() + cycles) as u64,
                        ) && match states[i].tasks[states[i].head().task_id as int] {
                            None => states[i].passed_over(states[i + 1]) && ctxs[i + 1] == ctxs[i],
                            Some(before) => exists|task: &mut T, c: &mut C, r: GeneratorState<WaitCycles, ()>|
                                *task == before && *c == ctxs[i] && *final(c) == ctxs[i + 1]
                                    && #[trigger] step_ensures(task, c, r) && states[i].filed(
                                    states[i + 1],
                                    *final(task),
                                    r,
                                ),
                        }
                },
    {
        let ghost mut states: Seq<SchedulerState<T>> = seq![self@];
        let ghost mut ctxs: Seq<C> = seq![*ctx];
        if cycles == 0 {
            proof {
                self.lemma_wf_queue();
                assert(chain(states, ctxs));
            }
            return ;
        }
        let stop_time: u64 = self.current_time + cycles;
        loop
            invariant
                self.wf(),
                old(self).current_time <= self.current_time < stop_time,
                stop_time == old(self).current_time + cycles,
                self.active_tasks@.len() == old(self).active_tasks@.len(),
                self.next_scheduling_id >= old(self).next_scheduling_id,
                chain(states, ctxs),
                states[0] == old(self)@ && ctxs[0] == *old(ctx),
                states.last() == self@ && ctxs.last() == *ctx,
                states.len() > 1 ==> old(self)@.due(stop_time),
                forall|i: int|
                    0 <= i < states.len() - 1 && #[trigger] turn(i) ==> states[i].due(stop_time) && match states[i].tasks[states[i].head().task_id as int] {
                        None => states[i].passed_over(states[i + 1]) && ctxs[i + 1] == ctxs[i],
                        Some(before) => exists|task: &mut T, c: &mut C, r: GeneratorState<WaitCycles, ()>|
                            *task == before && *c == ctxs[i] && *final(c) == ctxs[i + 1] && #[trigger] step_ensures(
                                task,
                                c,
                                r,
                            ) && states[i].filed(states[i + 1], *final(task), r),
                    },
            ensures
                self.wf(),
                old(self).current_time <= self.current_time < stop_time,
                self.active_tasks@.len() == old(self).active_tasks@.len(),
                self.next_scheduling_id >= old(self).next_scheduling_id,
                chain(states, ctxs),
                states[0] == old(self)@ && ctxs[0] == *old(ctx),
                states.last() == self@ && ctxs.last() == *ctx,
                states.len() > 1 ==> old(self)@.due(stop_time),
                !self@.due(stop_time),
                forall|i: int|
                    0 <= i < states.len() - 1 && #[trigger] turn(i) ==> states[i].due(stop_time) && match states[i].tasks[states[i].head().task_id as int] {
                        None => states[i].passed_over(states[i + 1]) && ctxs[i + 1] == ctxs[i],
                        Some(before) => exists|task: &mut T, c: &mut C, r: GeneratorState<WaitCycles, ()>|
                            *task == before && *c == ctxs[i] && *final(c) == ctxs[i + 1] && #[trigger] step_ensures(
                                task,
                                c,
                                r,
                            ) && states[i].filed(states[i + 1], *final(task), r),
                    },
            decreases (u64::MAX - self.next_scheduling_id) + self.scheduled_tasks@.len(),
        {
            let ghost before = self@;
            let ghost ctx_before = *ctx;
            let ran = self.run_next(stop_time, ctx);
            if !ran {
                break ;
            }
            proof {
                let longer = states.push(self@);
                let more = ctxs.push(*ctx);
                assert forall|i: int| 0 <= i < longer.len() - 1 && #[trigger] turn(i) implies longer[i].due(stop_time) && match longer[i].tasks[longer[i].head().task_id as int] {
                    None => longer[i].passed_over(longer[i + 1]) && more[i + 1] == more[i],
                    Some(before) => exists|task: &mut T, c: &mut C, r: GeneratorState<WaitCycles, ()>|
                        *task == before && *c == more[i] && *final(c) == more[i + 1] && #[trigger] step_ensures(
                            task,
                            c,
                            r,
                        ) && longer[i].filed(longer[i + 1], *final(task), r),
                } by {
                    if i < states.len() - 1 {
                        assert(longer[i] == states[i] && longer[i + 1] == states[i + 1]);
                        assert(more[i] == ctxs[i] && more[i + 1] == ctxs[i + 1]);
                    } else {
                        assert(longer[i] == before && more[i] == ctx_before);
                        assert(longer[i + 1] == self@ && more[i + 1] == *ctx);
                    }
                }
                assert(turn(0));
                states = longer;
                ctxs = more;
            }
        }
        proof {
            let queue = self.scheduled_tasks@;
            if self.next_scheduling_id < u64::MAX {
                assert forall|i: int| 0 <= i < queue.len() implies (#[trigger] queue[i]).scheduled_at
                    >= stop_time by {
                    if i > 0 {
                        assert(queue[0].before(queue[i]));
                    }
                }
            }
        }
        self.current_time = stop_time;
        proof {
            assert(chain(states, ctxs));
        }
    }
}

/// Whether a resumption of the task behind `task` against the context
/// behind `ctx` may hand back `r`: what the `ensures` of the task's own
/// `step` says of the task and the context before and after, and of `r`.
#[verifier::inline]
pub open spec fn step_ensures<C, T: Task<C> + ?Sized>(
    task: &mut T,
    ctx: &mut C,
    r: GeneratorState<WaitCycles, ()>,
) -> bool {
    call_ensures(T::step, (task, ctx), r)
}

/// Resumes `task` once, whatever its type; for a task whose type is known
/// this is one call of its `step`.
fn step_task<C, T: Task<C> + ?Sized>(task: &mut T, ctx: &mut C) -> (r: GeneratorState<WaitCycles, ()>)
    requires
        old(task).resumable(),
    ensures
        final(task).resumable(),
        exists|t: &mut T, c: &mut C|
            &*t == &*old(task) && &*final(t) == &*final(task) && *c == *old(ctx) && *final(c) == *final(ctx)
                && step_ensures(t, c, r),
{
    task.step(ctx)
}

} // verus!
