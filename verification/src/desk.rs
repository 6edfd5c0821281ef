use std::collections::VecDeque;
use vstd::prelude::*;

verus! {

/// Puts `task` at the back of the desk's line: tasks are served round-robin,
/// in the order they were put down.
pub fn push_task<T>(desk: &mut VecDeque<T>, task: T)
    ensures
        final(desk)@ == old(desk)@.push(task),
{
    desk.push_back(task);
}

/// Picks up the task at the front of the line, if any: the one put down
/// first.
pub fn pop_task<T>(desk: &mut VecDeque<T>) -> (r: Option<T>)
    ensures
        old(desk)@.len() == 0 ==> r is None && final(desk)@ == old(desk)@,
        old(desk)@.len() > 0 ==> r == Some(old(desk)@[0]) && final(desk)@ == old(desk)@.drop_first(),
{
    desk.pop_front()
}

/// The number of tasks on the desk.
pub fn desk_size<T>(desk: &VecDeque<T>) -> (n: usize)
    ensures
        n == desk@.len(),
{
    desk.len()
}

/// Queues a spawned task at the back of the line, behind every task
/// already waiting.
pub fn spawn<T>(desk: &mut VecDeque<T>, task: T)
    ensures
        final(desk)@ == old(desk)@.push(task),
{
    push_task(desk, task);
}

/// Whether the executor keeps going: it runs while a task is left on the
/// desk, whether put down by a spawn or by a wake-up.
pub fn keeps_running<T>(desk: &VecDeque<T>) -> (b: bool)
    ensures
        b == (desk@.len() > 0),
{
    desk_size(desk) > 0
}

} // verus!
