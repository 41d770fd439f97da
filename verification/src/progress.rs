//! Background tasks and the loading view they drive.
//!
//! A task simulates multi-step asynchronous work: ten progress updates and
//! one completion update, each re-marshalled onto the single-threaded
//! update path by [`TaskPool::run_step`]. The task reaches its view only
//! through a weak handle: when the view is gone the update is a silent
//! no-op. Cancellation is ownership-based: handing the [`TaskHandle`] back
//! to [`TaskPool::cancel`] (dropping it) stops the task for good, and no
//! later step mutates anything.

use vstd::prelude::*;

use crate::store::{Slot, Store, WeakHandle};

verus! {

/// How many progress updates a loading task performs before it completes.
pub const LOAD_STEPS: u8 = 10;

/// How a finished load ended.
#[derive(Clone, Copy, Debug, PartialEq, Eq, Structural)]
pub enum LoadOutcome {
    /// All steps ran; the load completed.
    Done,
    /// The loading view cancelled the task.
    Cancelled,
}

/// An owning handle to one spawned task. It cannot be copied; giving it to
/// [`TaskPool::cancel`] models dropping the last handle, which cancels the
/// task.
pub struct TaskHandle {
    idx: usize,
}

/// Where one task stands.
#[derive(Clone, Copy, Debug, PartialEq, Eq, Structural)]
pub enum TaskStatus {
    /// Steps remain and the handle is still held.
    Running,
    /// Every step ran.
    Finished,
    /// The handle was dropped before completion.
    Cancelled,
}

/// One spawned task: its status, the weak back-reference to the view it
/// updates, and the next step it would run, counted from 1.
#[derive(Clone, Copy)]
pub struct TaskSlot {
    /// Where the task stands.
    pub status: TaskStatus,
    /// Weak back-reference to the originating view; never an owning one.
    pub view: WeakHandle,
    /// The next step, between 1 and `LOAD_STEPS + 1`; the last step is the
    /// completion update.
    pub next_step: u8,
}

/// The executor's record of spawned tasks.
pub struct TaskPool {
    tasks: Vec<TaskSlot>,
}

/// The loading view: its flag, its progress in percent, the outcome of the
/// last load, and the handle of the running task, held so the task is not
/// cancelled.
pub struct AsyncDemo {
    /// Whether a load is under way.
    pub loading: bool,
    /// Progress in percent, 0 to 100.
    pub progress: i32,
    /// How the last load ended, if one ended.
    pub result: Option<LoadOutcome>,
    /// The running task's handle; dropping it cancels the task.
    pub task: Option<TaskHandle>,
}

impl View for TaskHandle {
    type V = int;

    closed spec fn view(&self) -> int {
        self.idx as int
    }
}

impl View for TaskPool {
    type V = Seq<TaskSlot>;

    closed spec fn view(&self) -> Seq<TaskSlot> {
        self.tasks@
    }
}

impl TaskHandle {
    /// The pool position this handle owns.
    pub fn index(&self) -> (i: usize)
        ensures
            i == self@,
    {
        self.idx
    }
}

/// Whether a slot sequence holds a live value at `id`.
pub open spec fn view_live(store: Seq<Slot<AsyncDemo>>, id: int) -> bool {
    &&& 0 <= id < store.len()
    &&& store[id].value is Some
}

/// What one step does to the view it reaches: steps 1 to `LOAD_STEPS` set
/// the progress to ten percent a step; the step after that marks the load
/// done.
pub open spec fn apply_step(v: AsyncDemo, step: u8) -> AsyncDemo {
    if step <= LOAD_STEPS {
        AsyncDemo { loading: v.loading, progress: (step * 10) as i32, result: v.result, task: v.task }
    } else {
        AsyncDemo { loading: false, progress: v.progress, result: Some(LoadOutcome::Done), task: v.task }
    }
}

/// What one step does to the task's own slot: a running task advances, and
/// finishes after the completion update; any other task is untouched.
pub open spec fn advance(t: TaskSlot) -> TaskSlot {
    if t.status is Running {
        if t.next_step > LOAD_STEPS {
            TaskSlot { status: TaskStatus::Finished, view: t.view, next_step: t.next_step }
        } else {
            TaskSlot { status: TaskStatus::Running, view: t.view, next_step: (t.next_step + 1) as u8 }
        }
    } else {
        t
    }
}

/// What one call of [`TaskPool::run_step`] does to the pool and the store:
/// only a running task does anything, and it mutates its view only while
/// the weak back-reference still resolves.
pub open spec fn step_tr(
    pool: Seq<TaskSlot>,
    store: Seq<Slot<AsyncDemo>>,
    i: int,
) -> (Seq<TaskSlot>, Seq<Slot<AsyncDemo>>) {
    let t = pool[i];
    if t.status is Running {
        let pool2 = pool.update(i, advance(t));
        if view_live(store, t.view@) {
            let store2 = store.update(
                t.view@,
                Slot {
                    refs: store[t.view@].refs,
                    value: Some(apply_step(store[t.view@].value->0, t.next_step)),
                },
            );
            (pool2, store2)
        } else {
            (pool2, store)
        }
    } else {
        (pool, store)
    }
}

/// What any number of consecutive steps of the same task do.
pub open spec fn run_steps_tr(
    pool: Seq<TaskSlot>,
    store: Seq<Slot<AsyncDemo>>,
    i: int,
    n: nat,
) -> (Seq<TaskSlot>, Seq<Slot<AsyncDemo>>)
    decreases n,
{
    if n == 0 {
        (pool, store)
    } else {
        let (pool2, store2) = step_tr(pool, store, i);
        run_steps_tr(pool2, store2, i, (n - 1) as nat)
    }
}

impl TaskPool {
    /// Every running task has a next step between 1 and the completion
    /// step.
    pub open spec fn wf(&self) -> bool {
        forall|i: int| 0 <= i < self@.len() && (#[trigger] self@[i]).status is Running
            ==> 1 <= self@[i].next_step <= LOAD_STEPS + 1
    }

    /// A pool with no tasks.
    pub fn new() -> (p: Self)
        ensures
            p@ == Seq::<TaskSlot>::empty(),
            p.wf(),
    {
        TaskPool { tasks: Vec::new() }
    }

    /// Number of tasks ever spawned.
    pub fn task_count(&self) -> (n: usize)
        ensures
            n == self@.len(),
    {
        self.tasks.len()
    }

    /// The status of a task.
    pub fn status(&self, idx: usize) -> (s: TaskStatus)
        requires
            idx < self@.len(),
        ensures
            s == self@[idx as int].status,
    {
        self.tasks[idx].status
    }

    /// Spawns the multi-step load task against the view behind `view`, and
    /// returns the owning handle.
    pub fn spawn(&mut self, view: WeakHandle) -> (h: TaskHandle)
        requires
            old(self).wf(),
        ensures
            final(self).wf(),
            h@ == old(self)@.len(),
            final(self)@ == old(self)@.push(
                TaskSlot { status: TaskStatus::Running, view, next_step: 1u8 },
            ),
    {
        let idx = self.tasks.len();
        self.tasks.push(TaskSlot { status: TaskStatus::Running, view, next_step: 1 });
        TaskHandle { idx }
    }

    /// Cancels a task by consuming its handle, as dropping the last handle
    /// does. The task keeps its place but will never run another step.
    pub fn cancel(&mut self, h: TaskHandle)
        requires
            old(self).wf(),
            0 <= h@ < old(self)@.len(),
        ensures
            final(self).wf(),
            final(self)@ == old(self)@.update(
                h@,
                TaskSlot {
                    status: TaskStatus::Cancelled,
                    view: old(self)@[h@].view,
                    next_step: old(self)@[h@].next_step,
                },
            ),
    {
        self.tasks[h.idx].status = TaskStatus::Cancelled;
    }

    /// Runs one step of task `i` on the executor: a cancelled or finished
    /// task does nothing; a running task advances and, if its view is still
    /// there, updates it; a running task whose view is gone advances
    /// silently.
    pub fn run_step(&mut self, i: usize, store: &mut Store<AsyncDemo>)
        requires
            old(self).wf(),
            i < old(self)@.len(),
            old(store).wf(),
        ensures
            final(self).wf(),
            final(store).wf(),
            final(self)@ == step_tr(old(self)@, old(store)@, i as int).0,
            final(store)@ == step_tr(old(self)@, old(store)@, i as int).1,
    {
        let status = self.tasks[i].status;
        match status {
            TaskStatus::Running => {
                let step = self.tasks[i].next_step;
                let w = self.tasks[i].view;
                if step > LOAD_STEPS {
                    self.tasks[i].status = TaskStatus::Finished;
                } else {
                    self.tasks[i].next_step = step + 1;
                }
                if store.is_live(&w) {
                    let v = store.get_weak_mut(&w);
                    if step <= LOAD_STEPS {
                        v.progress = (step as i32) * 10;
                    } else {
                        v.loading = false;
                        v.result = Some(LoadOutcome::Done);
                    }
                }
            },
            TaskStatus::Finished => {},
            TaskStatus::Cancelled => {},
        }
    }
}

impl AsyncDemo {
    /// When this view holds a task handle, the handle points into the pool.
    pub open spec fn wf(&self, pool: TaskPool) -> bool {
        self.task is Some ==> 0 <= self.task->0@ < pool@.len()
    }

    /// A fresh loading view: idle, nothing loaded.
    pub fn new() -> (d: Self)
        ensures
            !d.loading,
            d.progress == 0,
            d.result is None,
            d.task is None,
    {
        AsyncDemo { loading: false, progress: 0, result: None, task: None }
    }

    /// Begins a simulated load: clears progress and outcome, spawns the
    /// background task against this view's own weak handle, and keeps the
    /// task handle so the task is not cancelled.
    pub fn start_loading(&mut self, this: WeakHandle, pool: &mut TaskPool)
        requires
            old(pool).wf(),
        ensures
            final(pool).wf(),
            final(self).wf(*final(pool)),
            final(self).loading,
            final(self).progress == 0,
            final(self).result is None,
            final(self).task is Some,
            final(self).task->0@ == old(pool)@.len(),
            final(pool)@ == old(pool)@.push(
                TaskSlot { status: TaskStatus::Running, view: this, next_step: 1u8 },
            ),
    {
        self.loading = true;
        self.progress = 0;
        self.result = None;
        let handle = pool.spawn(this);
        self.task = Some(handle);
    }

    /// Cancels the load: drops the task handle (which cancels the task in
    /// the pool), stops the spinner and records the cancellation.
    pub fn cancel_loading(&mut self, pool: &mut TaskPool)
        requires
            old(pool).wf(),
            old(self).wf(*old(pool)),
        ensures
            final(pool).wf(),
            final(self).wf(*final(pool)),
            !final(self).loading,
            final(self).progress == 0,
            final(self).result == Some(LoadOutcome::Cancelled),
            final(self).task is None,
            old(self).task is Some ==> final(pool)@ == old(pool)@.update(
                old(self).task->0@,
                TaskSlot {
                    status: TaskStatus::Cancelled,
                    view: old(pool)@[old(self).task->0@].view,
                    next_step: old(pool)@[old(self).task->0@].next_step,
                },
            ),
            old(self).task is None ==> final(pool)@ == old(pool)@,
    {
        let mut taken: Option<TaskHandle> = None;
        core::mem::swap(&mut self.task, &mut taken);
        match taken {
            Some(handle) => pool.cancel(handle),
            None => {},
        }
        self.loading = false;
        self.progress = 0;
        self.result = Some(LoadOutcome::Cancelled);
    }
}

/// A cancelled task is inert: however many of its remaining steps the
/// executor would still run, neither the pool nor any view state changes.
/// Cancelling before completion therefore prevents every further state
/// mutation attributable to that task.
pub proof fn lemma_cancelled_task_is_inert(
    pool: Seq<TaskSlot>,
    store: Seq<Slot<AsyncDemo>>,
    i: int,
    n: nat,
)
    requires
        0 <= i < pool.len(),
        pool[i].status is Cancelled,
    ensures
        run_steps_tr(pool, store, i, n) == (pool, store),
    decreases n,
{
    if n > 0 {
        lemma_cancelled_task_is_inert(pool, store, i, (n - 1) as nat);
    }
}

/// A running task whose view is gone never mutates the store: the weak
/// back-reference resolves to absence and the update is a silent no-op.
pub proof fn lemma_dead_view_is_not_mutated(
    pool: Seq<TaskSlot>,
    store: Seq<Slot<AsyncDemo>>,
    i: int,
)
    requires
        0 <= i < pool.len(),
        !view_live(store, pool[i].view@),
    ensures
        step_tr(pool, store, i).1 == store,
{
}

} // verus!
