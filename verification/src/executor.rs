use std::collections::VecDeque;
use vstd::prelude::*;

verus! {

/// Queues a woken task at the back of the run queue.
pub fn add_task<T>(tasks: &mut VecDeque<T>, task: T)
    ensures
        final(tasks)@ == old(tasks)@.push(task),
{
    tasks.push_back(task);
}

/// Queues a newly spawned task at the back of the run queue.
pub fn spawn<T>(tasks: &mut VecDeque<T>, task: T)
    ensures
        final(tasks)@ == old(tasks)@.push(task),
{
    tasks.push_back(task);
}

/// Takes the next task to poll: the one queued first.
pub fn next_task<T>(tasks: &mut VecDeque<T>) -> (r: Option<T>)
    ensures
        old(tasks)@.len() == 0 ==> r is None && final(tasks)@ == old(tasks)@,
        old(tasks)@.len() > 0 ==> r == Some(old(tasks)@[0]) && final(tasks)@ == old(tasks)@.drop_first(),
{
    tasks.pop_front()
}

/// What `block_on` does after polling a task.
pub enum AfterPoll {
    /// The task finished: free it and stop, it was the main task.
    FreeAndStop,
    /// The task finished: free it and go on with the queue.
    FreeAndContinue,
    /// The task is pending: go on with the queue; a wake-up queues it again.
    Continue,
}

/// Decides what follows the poll of a task in `block_on`: a finished task
/// is freed, and the loop ends once the main task has finished.
pub fn after_poll(ready: bool, is_main: bool) -> (a: AfterPoll)
    ensures
        ready && is_main <==> a is FreeAndStop,
        ready && !is_main <==> a is FreeAndContinue,
        !ready <==> a is Continue,
{
    if ready {
        if is_main {
            AfterPoll::FreeAndStop
        } else {
            AfterPoll::FreeAndContinue
        }
    } else {
        AfterPoll::Continue
    }
}

} // verus!
