use vstd::prelude::*;

verus! {

/// The state shared between a spawned task and the handle that awaits it:
/// the task's output once it has finished, and the waker of the last poll
/// that found no output yet.
pub struct JoinHandle<T, W> {
    pub output: Option<T>,
    pub waker: Option<W>,
}

/// What a poll of a join handle gives back.
pub enum JoinPoll<T> {
    Ready(T),
    Pending,
}

impl<T, W> JoinHandle<T, W> {
    /// The state after a poll with `waker`: the output is taken when there
    /// is one; otherwise the waker is kept for the task to wake.
    pub open spec fn polled(self, waker: W) -> Self {
        match self.output {
            Some(_) => JoinHandle { output: None, waker: self.waker },
            None => JoinHandle { output: None, waker: Some(waker) },
        }
    }

    /// What a poll gives back: the output when the task has finished.
    pub open spec fn poll_result(self) -> JoinPoll<T> {
        match self.output {
            Some(v) => JoinPoll::Ready(v),
            None => JoinPoll::Pending,
        }
    }

    /// The state after the task finished with `output`: the output is
    /// stored and the registered waker is handed out.
    pub open spec fn completed(self, output: T) -> Self {
        JoinHandle { output: Some(output), waker: None }
    }

    /// A handle of a task that has not finished and was never polled.
    pub fn new() -> (h: Self)
        ensures
            h.output is None,
            h.waker is None,
    {
        JoinHandle { output: None, waker: None }
    }

    /// Polls the handle: gives the task's output if it has finished,
    /// else registers `waker` and reports pending.
    pub fn poll(&mut self, waker: W) -> (r: JoinPoll<T>)
        ensures
            r == old(self).poll_result(),
            *final(self) == old(self).polled(waker),
    {
        match self.output.take() {
            Some(v) => JoinPoll::Ready(v),
            None => {
                self.waker = Some(waker);
                JoinPoll::Pending
            },
        }
    }

    /// Records the task's output and hands back the waker to wake, if a
    /// poll registered one.
    pub fn complete(&mut self, output: T) -> (w: Option<W>)
        ensures
            w == old(self).waker,
            *final(self) == old(self).completed(output),
    {
        self.output = Some(output);
        self.waker.take()
    }
}

/// A task's output reaches the handle: once the task has finished with `v`,
/// the next poll gives `v`, whatever waker it brings.
pub proof fn lemma_poll_after_complete<T, W>(h: JoinHandle<T, W>, v: T, w: W)
    ensures
        h.completed(v).poll_result() == JoinPoll::<T>::Ready(v),
        h.completed(v).polled(w).output is None,
{
}

/// The output is given out once: after any poll, the next poll is pending
/// unless the task completes in between.
pub proof fn lemma_output_taken_once<T, W>(h: JoinHandle<T, W>, w1: W, w2: W)
    ensures
        h.polled(w1).poll_result() is Pending,
        h.polled(w1).polled(w2).waker == Some(w2),
{
}

/// No wake-up is lost: a poll that finds no output registers its waker, and
/// the task's completion hands that very waker back to be woken; the
/// completion clears it, so a waker is handed out once.
pub proof fn lemma_pending_poll_is_woken<T, W>(h: JoinHandle<T, W>, w: W, v: T, u: T)
    requires
        h.output is None,
    ensures
        h.poll_result() is Pending,
        h.polled(w).waker == Some(w),
        h.polled(w).completed(v).waker is None,
        h.polled(w).completed(v).completed(u).output == Some(u),
{
}

} // verus!
