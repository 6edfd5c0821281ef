use std::collections::VecDeque;
use vstd::prelude::*;

verus! {

/// A first-in first-out queue of tasks, served in the order they were pushed
/// (round-robin among the tasks that keep waking themselves).
pub struct SingleThread<T> {
    queue: VecDeque<T>,
}

impl<T> View for SingleThread<T> {
    type V = Seq<T>;

    /// The queued tasks, the next one to run first.
    closed spec fn view(&self) -> Seq<T> {
        self.queue@
    }
}

impl<T> SingleThread<T> {
    /// An empty queue.
    pub fn new() -> (s: SingleThread<T>)
        ensures
            s@ == Seq::<T>::empty(),
    {
        SingleThread { queue: VecDeque::new() }
    }

    /// Puts `task` at the back of the queue.
    pub fn push_task(&mut self, task: T)
        ensures
            final(self)@ == old(self)@.push(task),
    {
        self.queue.push_back(task);
    }

    /// Takes the task at the front of the queue, if any.
    pub fn pop_task(&mut self) -> (r: Option<T>)
        ensures
            old(self)@.len() == 0 ==> r is None && final(self)@ == old(self)@,
            old(self)@.len() > 0 ==> r == Some(old(self)@[0]) && final(self)@ == old(self)@.drop_first(),
    {
        self.queue.pop_front()
    }
}

/// The scheduling policies the runtime can use.
pub enum Scheduler<T> {
    SingleThread(SingleThread<T>),
}

impl<T> View for Scheduler<T> {
    type V = Seq<T>;

    /// The tasks waiting to run, the next one first.
    open spec fn view(&self) -> Seq<T> {
        match self {
            Scheduler::SingleThread(s) => s@,
        }
    }
}

impl<T> Scheduler<T> {
    /// Hands `task` to the policy in use.
    pub fn push_task(&mut self, task: T)
        ensures
            final(self)@ == old(self)@.push(task),
    {
        match self {
            Scheduler::SingleThread(s) => s.push_task(task),
        }
    }

    /// Asks the policy in use for the next task to run.
    pub fn pop_task(&mut self) -> (r: Option<T>)
        ensures
            old(self)@.len() == 0 ==> r is None && final(self)@ == old(self)@,
            old(self)@.len() > 0 ==> r == Some(old(self)@[0]) && final(self)@ == old(self)@.drop_first(),
    {
        match self {
            Scheduler::SingleThread(s) => s.pop_task(),
        }
    }
}

/// Tasks leave a first-in first-out queue in the order they entered it: after
/// pushing `t` onto queued tasks `q`, the tasks of `q` come out first, in their
/// order, and `t` comes out after them. This is the round-robin order of every
/// run queue of the library (`SingleThread`, `Scheduler`, the executor's
/// queue, the desk and the runtime's runnable tasks): a task that wakes
/// itself goes behind the others.
pub proof fn lemma_fifo_order<T>(q: Seq<T>, t: T)
    ensures
        q.len() > 0 ==> q.push(t)[0] == q[0] && q.push(t).drop_first() == q.drop_first().push(t),
        q.len() == 0 ==> q.push(t)[0] == t && q.push(t).drop_first() == Seq::<T>::empty(),
{
    if q.len() > 0 {
        assert(q.push(t).drop_first() =~= q.drop_first().push(t));
    } else {
        assert(q.push(t).drop_first() =~= Seq::<T>::empty());
    }
}

/// The unit that runs tasks on the current thread.
pub struct Worker;

impl Worker {
    /// A worker.
    pub fn new() -> (w: Worker)
        ensures
            w == Worker,
    {
        Worker
    }
}

} // verus!
