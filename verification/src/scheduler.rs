//! The scheduler that decides where a task of the engine runs: on a thread
//! of the background pool, or on the render thread, which alone may touch
//! the graphics context.
//!
//! The scheduler never runs a task. A background task is handed back to the
//! caller, who gives it to the pool; a graphics task is queued until the
//! render thread drains the queue.

use std::collections::VecDeque;
use vstd::prelude::*;

verus! {

/// The limits of the background pool.
#[derive(Clone, Copy, Debug, PartialEq, Eq, Structural)]
pub struct PoolConfig {
    /// The number of worker threads.
    pub worker_threads: usize,
    /// The largest number of threads that run blocking tasks at a time.
    pub max_blocking_threads: usize,
    /// The number of seconds an idle thread is kept.
    pub thread_keep_alive_secs: u64,
}

/// The limits a scheduler has unless it is told otherwise: one worker, five
/// blocking threads, five seconds of keep-alive.
pub open spec fn default_pool_config() -> PoolConfig {
    PoolConfig { worker_threads: 1, max_blocking_threads: 5, thread_keep_alive_secs: 5 }
}

/// What became of a task that was submitted.
#[derive(Debug)]
pub enum Dispatch<T> {
    /// The task is for the background pool: the caller hands it to the pool
    /// and does not wait for it.
    Background(T),
    /// The task waits in the queue of the render thread.
    Queued,
    /// The task is for the render thread, which has stopped listening. The
    /// task will not run.
    Undeliverable(T),
}

/// What a scheduler stands for.
pub struct SchedulerState<T> {
    /// The graphics tasks that wait for the render thread, oldest first.
    pub queue: Seq<T>,
    /// Whether the render thread still listens.
    pub receiver_open: bool,
}

/// A scheduler to which nothing was submitted yet.
pub open spec fn idle_scheduler<T>() -> SchedulerState<T> {
    SchedulerState { queue: Seq::empty(), receiver_open: true }
}

/// The scheduler after `task` was submitted, and what became of the task. A
/// background task leaves the scheduler as it was. A graphics task joins the
/// end of the queue while the render thread listens, and is turned away
/// afterwards.
pub open spec fn submit_spec<T>(state: SchedulerState<T>, task: T, graphics: bool) -> (
    SchedulerState<T>,
    Dispatch<T>,
) {
    if !graphics {
        (state, Dispatch::Background(task))
    } else if state.receiver_open {
        (SchedulerState { queue: state.queue.push(task), ..state }, Dispatch::Queued)
    } else {
        (state, Dispatch::Undeliverable(task))
    }
}

/// The scheduler after the render thread has taken every task that waited.
pub open spec fn drained<T>(state: SchedulerState<T>) -> SchedulerState<T> {
    SchedulerState { queue: Seq::empty(), ..state }
}

/// The scheduler of the engine's tasks. `T` is the task as the engine hands
/// it over; the scheduler passes it on and never looks inside.
pub struct SchedulerInterfaceRust<T> {
    config: PoolConfig,
    queue: VecDeque<T>,
    receiver_open: bool,
}

impl<T> View for SchedulerInterfaceRust<T> {
    type V = SchedulerState<T>;

    closed spec fn view(&self) -> SchedulerState<T> {
        SchedulerState { queue: self.queue@, receiver_open: self.receiver_open }
    }
}

impl<T> SchedulerInterfaceRust<T> {
    /// The limits of the background pool.
    pub closed spec fn config(&self) -> PoolConfig {
        self.config
    }

    /// A scheduler with the default limits and an empty queue.
    pub fn new() -> (scheduler: Self)
        ensures
            scheduler@ == idle_scheduler::<T>(),
            scheduler.config() == default_pool_config(),
    {
        SchedulerInterfaceRust {
            config: PoolConfig {
                worker_threads: 1,
                max_blocking_threads: 5,
                thread_keep_alive_secs: 5,
            },
            queue: VecDeque::new(),
            receiver_open: true,
        }
    }

    /// A scheduler with the limits `config` and an empty queue.
    pub fn with_config(config: PoolConfig) -> (scheduler: Self)
        ensures
            scheduler@ == idle_scheduler::<T>(),
            scheduler.config() == config,
    {
        SchedulerInterfaceRust { config, queue: VecDeque::new(), receiver_open: true }
    }

    /// The limits with which the background pool is to be built.
    pub fn pool_config(&self) -> (config: PoolConfig)
        ensures
            config == self.config(),
    {
        self.config
    }

    /// Submits a task. `graphics` is the engine's answer to whether the task
    /// has to run on the render thread.
    pub fn addTaskRust(&mut self, task: T, graphics: bool) -> (dispatch: Dispatch<T>)
        ensures
            (final(self)@, dispatch) == submit_spec(old(self)@, task, graphics),
            final(self).config() == old(self).config(),
    {
        if !graphics {
            Dispatch::Background(task)
        } else if self.receiver_open {
            self.queue.push_back(task);
            Dispatch::Queued
        } else {
            Dispatch::Undeliverable(task)
        }
    }

    /// Takes note that the engine wants the task `id` removed. Nothing is
    /// removed: the task runs if it was going to.
    pub fn removeTaskRust(&mut self, id: &str)
        ensures
            final(self)@ == old(self)@,
            final(self).config() == old(self).config(),
    {
    }

    /// Takes note that the engine wants all tasks dropped. Nothing is
    /// dropped.
    pub fn clearRust(&mut self)
        ensures
            final(self)@ == old(self)@,
            final(self).config() == old(self).config(),
    {
    }

    /// Takes note that the engine wants scheduling suspended. Nothing is
    /// suspended.
    pub fn pauseRust(&mut self)
        ensures
            final(self)@ == old(self)@,
            final(self).config() == old(self).config(),
    {
    }

    /// Takes note that the engine wants scheduling resumed.
    pub fn resumeRust(&mut self)
        ensures
            final(self)@ == old(self)@,
            final(self).config() == old(self).config(),
    {
    }

    /// The number of graphics tasks that wait for the render thread.
    pub fn pending(&self) -> (count: usize)
        ensures
            count == self@.queue.len(),
    {
        self.queue.len()
    }

    /// Whether the render thread still listens.
    pub fn is_receiver_open(&self) -> (open: bool)
        ensures
            open == self@.receiver_open,
    {
        self.receiver_open
    }

    /// Takes the oldest graphics task out of the queue, if there is one.
    pub fn try_recv(&mut self) -> (task: Option<T>)
        ensures
            old(self)@.queue.len() == 0 ==> task is None && final(self)@ == old(self)@,
            old(self)@.queue.len() > 0 ==> task == Some(old(self)@.queue[0]) && final(self)@ == (
            SchedulerState { queue: old(self)@.queue.drop_first(), ..old(self)@ }),
            final(self).config() == old(self).config(),
    {
        let task = self.queue.pop_front();
        proof {
            if old(self)@.queue.len() > 0 {
                assert(self.queue@ =~= old(self)@.queue.drop_first());
            }
        }
        task
    }

    /// Takes every graphics task that is queued right now out of the queue,
    /// oldest first. Tasks that are submitted later wait for the next drain.
    pub fn drain(&mut self) -> (tasks: Vec<T>)
        ensures
            tasks@ == old(self)@.queue,
            final(self)@ == drained(old(self)@),
            final(self).config() == old(self).config(),
    {
        let mut tasks: Vec<T> = Vec::new();
        let mut left: usize = self.queue.len();
        while left > 0
            invariant
                left == self.queue@.len(),
                tasks@ + self.queue@ == old(self)@.queue,
                self.receiver_open == old(self).receiver_open,
                self.config == old(self).config,
            decreases left,
        {
            let ghost before = self.queue@;
            let task = self.queue.pop_front().unwrap();
            tasks.push(task);
            left = left - 1;
            assert(tasks@ + self.queue@ =~= old(self)@.queue) by {
                assert(self.queue@ =~= before.drop_first());
            }
        }
        assert(self.queue@ =~= Seq::empty());
        assert(tasks@ =~= old(self)@.queue);
        tasks
    }

    /// Takes note that the render thread has stopped listening. The tasks
    /// that still wait are dropped, and graphics tasks that are submitted
    /// from now on are turned away.
    pub fn close_receiver(&mut self)
        ensures
            final(self)@ == (SchedulerState::<T> { queue: Seq::empty(), receiver_open: false }),
            final(self).config() == old(self).config(),
    {
        self.queue.clear();
        self.receiver_open = false;
    }
}

/// The scheduler after the tasks of `submissions` were submitted in order.
/// Each of them comes with the engine's answer to whether it is a graphics
/// task.
pub open spec fn submit_all<T>(state: SchedulerState<T>, submissions: Seq<(T, bool)>) -> SchedulerState<T>
    decreases submissions.len(),
{
    if submissions.len() == 0 {
        state
    } else {
        submit_all(
            submit_spec(state, submissions[0].0, submissions[0].1).0,
            submissions.drop_first(),
        )
    }
}

/// What became of each task of `submissions`, in the order of submission.
pub open spec fn dispatches<T>(state: SchedulerState<T>, submissions: Seq<(T, bool)>) -> Seq<Dispatch<T>>
    decreases submissions.len(),
{
    if submissions.len() == 0 {
        Seq::empty()
    } else {
        let (next, dispatch) = submit_spec(state, submissions[0].0, submissions[0].1);
        seq![dispatch] + dispatches(next, submissions.drop_first())
    }
}

/// The graphics tasks among `submissions`, in the order of submission.
pub open spec fn graphics_tasks<T>(submissions: Seq<(T, bool)>) -> Seq<T>
    decreases submissions.len(),
{
    if submissions.len() == 0 {
        Seq::empty()
    } else if submissions[0].1 {
        seq![submissions[0].0] + graphics_tasks(submissions.drop_first())
    } else {
        graphics_tasks(submissions.drop_first())
    }
}

/// While the render thread listens, the queue grows by exactly the graphics
/// tasks that are submitted, in the order of their submission, whatever
/// background tasks are submitted in between. The next drain therefore hands
/// the render thread every graphics task once, oldest first, and no
/// background task.
pub proof fn lemma_graphics_tasks_queue_in_order<T>(state: SchedulerState<T>, submissions: Seq<(T, bool)>)
    requires
        state.receiver_open,
    ensures
        submit_all(state, submissions).queue == state.queue + graphics_tasks(submissions),
        submit_all(state, submissions).receiver_open,
    decreases submissions.len(),
{
    if submissions.len() == 0 {
        assert(state.queue + graphics_tasks(submissions) =~= state.queue);
    } else {
        let next = submit_spec(state, submissions[0].0, submissions[0].1).0;
        lemma_graphics_tasks_queue_in_order(next, submissions.drop_first());
        assert(submit_all(state, submissions).queue =~= state.queue + graphics_tasks(submissions));
    }
}

/// The queue never holds a task back: whatever graphics tasks are submitted
/// after a drain, the next drain hands out exactly those, oldest first.
pub proof fn lemma_next_drain_takes_what_arrived<T>(state: SchedulerState<T>, submissions: Seq<(T, bool)>)
    requires
        state.receiver_open,
    ensures
        submit_all(drained(state), submissions).queue == graphics_tasks(submissions),
        drained(submit_all(drained(state), submissions)) == drained(state),
{
    lemma_graphics_tasks_queue_in_order(drained(state), submissions);
    assert(drained(state).queue + graphics_tasks(submissions) =~= graphics_tasks(submissions));
}

/// No task runs at submission, and every task goes to one place. A
/// background task is handed back for the pool in the very dispatch of its
/// submission, once. A graphics task is never handed back for the pool: it
/// is queued, or turned away when the render thread has stopped listening.
pub proof fn lemma_every_task_has_one_venue<T>(state: SchedulerState<T>, submissions: Seq<(T, bool)>)
    ensures
        dispatches(state, submissions).len() == submissions.len(),
        forall|i: int|
            0 <= i < submissions.len() ==> #[trigger] dispatches(state, submissions)[i] == (if !submissions[i].1 {
                Dispatch::Background(submissions[i].0)
            } else if state.receiver_open {
                Dispatch::Queued
            } else {
                Dispatch::Undeliverable(submissions[i].0)
            }),
    decreases submissions.len(),
{
    if submissions.len() > 0 {
        let (next, dispatch) = submit_spec(state, submissions[0].0, submissions[0].1);
        let rest = submissions.drop_first();
        lemma_every_task_has_one_venue(next, rest);
        assert(next.receiver_open == state.receiver_open);
        assert forall|i: int| 0 <= i < submissions.len() implies #[trigger] dispatches(
            state,
            submissions,
        )[i] == (if !submissions[i].1 {
            Dispatch::Background(submissions[i].0)
        } else if state.receiver_open {
            Dispatch::Queued
        } else {
            Dispatch::Undeliverable(submissions[i].0)
        }) by {
            if i > 0 {
                assert(dispatches(state, submissions)[i] == dispatches(next, rest)[i - 1]);
                assert(rest[i - 1] == submissions[i]);
            }
        }
    }
}

} // verus!
