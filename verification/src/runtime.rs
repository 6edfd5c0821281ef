use std::collections::VecDeque;
use std::sync::mpsc::{Receiver, SyncSender};
use std::time::Duration;
use vstd::prelude::*;

use crate::timer::nanos_of;

verus! {

#[verifier::external_type_specification]
#[verifier::external_body]
#[verifier::reject_recursive_types(T)]
pub struct ExReceiver<T>(Receiver<T>);

#[verifier::external_type_specification]
#[verifier::external_body]
#[verifier::reject_recursive_types(T)]
pub struct ExSyncSender<T>(SyncSender<T>);

/// How many wake-ups the channel holds before a waker blocks.
pub const CHANNEL_SIZE: usize = 10;

/// How long the runtime waits for a wake-up, in seconds, before it looks at
/// its tasks again.
pub const WAKEUP_TIMEOUT_SECS: u64 = 3;

/// Calls `std::sync::mpsc::sync_channel(bound)`. Nothing is claimed of the
/// two ends it returns: they are opaque to the library.
#[verifier::external_body]
fn new_sync_channel<T>(bound: usize) -> (SyncSender<T>, Receiver<T>) {
    std::sync::mpsc::sync_channel(bound)
}

/// Calls `std::time::Duration::from_secs(secs)`, the duration of `secs`
/// whole seconds: `secs * 1_000_000_000` nanoseconds.
#[verifier::external_body]
fn duration_from_secs(secs: u64) -> (d: Duration)
    ensures
        nanos_of(d) == secs * 1_000_000_000,
{
    Duration::from_secs(secs)
}

/// Calls `Receiver::recv_timeout(timeout)`, giving `Some` with the received
/// value and `None` on a time-out or a closed channel. What arrives depends
/// on other threads and on time, so nothing is claimed of the result.
#[verifier::external_body]
fn receive_with_timeout<T>(rx: &Receiver<T>, timeout: Duration) -> Option<T> {
    match rx.recv_timeout(timeout) {
        Ok(v) => Some(v),
        Err(_) => None,
    }
}

/// Calls `SyncSender::clone`, which gives another sender on the same
/// channel: to the library it is the same sender.
#[verifier::external_body]
fn clone_sender<T>(tx: &SyncSender<T>) -> (r: SyncSender<T>)
    ensures
        r == *tx,
{
    tx.clone()
}

/// The time the runtime waits for a wake-up before it looks at its tasks
/// again: `WAKEUP_TIMEOUT_SECS` seconds.
pub fn wakeup_timeout() -> (d: Duration)
    ensures
        nanos_of(d) == WAKEUP_TIMEOUT_SECS * 1_000_000_000,
{
    duration_from_secs(WAKEUP_TIMEOUT_SECS)
}

/// Finds where `id` stands among the sleeping tasks.
fn find_sleeper(sleeping: &Vec<u64>, id: u64) -> (r: Option<usize>)
    ensures
        match r {
            Some(i) => i < sleeping@.len() && sleeping@[i as int] == id,
            None => !sleeping@.contains(id),
        },
{
    let mut i: usize = 0;
    while i < sleeping.len()
        invariant
            i <= sleeping@.len(),
            forall|j: int| 0 <= j < i ==> sleeping@[j] != id,
        decreases sleeping@.len() - i,
    {
        if sleeping[i] == id {
            return Some(i);
        }
        i = i + 1;
    }
    None
}

/// A runtime that polls its runnable tasks round-robin, in the order they
/// became runnable, and keeps the tasks that returned pending asleep until
/// their waker sends their id back through the channel. Tasks are known by
/// their ids.
pub struct Runtime {
    tasks: VecDeque<u64>,
    sleeping: Vec<u64>,
    chan_recv: Receiver<u64>,
    chan_send: SyncSender<u64>,
}

impl View for Runtime {
    /// The runnable tasks, the next one to poll first, and the sleeping
    /// tasks.
    type V = (Seq<u64>, Seq<u64>);

    closed spec fn view(&self) -> (Seq<u64>, Seq<u64>) {
        (self.tasks@, self.sleeping@)
    }
}

/// The tasks the runtime still has to finish: the runnable ones and the
/// sleeping ones.
pub open spec fn outstanding(v: (Seq<u64>, Seq<u64>)) -> nat {
    v.0.len() + v.1.len()
}

/// The state after the next runnable task was taken for polling.
pub open spec fn popped(v: (Seq<u64>, Seq<u64>)) -> (Seq<u64>, Seq<u64>) {
    (v.0.drop_first(), v.1)
}

/// The state after task `id` was polled: a task that returned pending goes
/// to sleep, once.
pub open spec fn polled(v: (Seq<u64>, Seq<u64>), id: u64, ready: bool) -> (Seq<u64>, Seq<u64>) {
    if ready || v.1.contains(id) {
        v
    } else {
        (v.0, v.1.push(id))
    }
}

/// The state after the waker of task `id` sent it back: a sleeping task
/// becomes runnable, behind the others, and no longer sleeps; a wake-up for
/// a task that is not asleep (woken already, or finished) changes nothing.
pub open spec fn woken(v: (Seq<u64>, Seq<u64>), id: u64) -> (Seq<u64>, Seq<u64>) {
    if v.1.contains(id) {
        (v.0.push(id), v.1.remove(v.1.index_of(id)))
    } else {
        v
    }
}

impl Runtime {
    /// Each sleeping task is recorded once.
    #[verifier::type_invariant]
    spec fn sleepers_distinct(self) -> bool {
        self.sleeping@.no_duplicates()
    }

    /// The sender on which this runtime waits for wake-ups.
    pub closed spec fn wake_sender(&self) -> SyncSender<u64> {
        self.chan_send
    }

    /// The receiver on which this runtime waits for wake-ups.
    pub closed spec fn wake_receiver(&self) -> Receiver<u64> {
        self.chan_recv
    }

    /// A runtime with no task, and a channel of `CHANNEL_SIZE` places for
    /// wake-ups.
    pub fn new() -> (r: Self)
        ensures
            r@ == (Seq::<u64>::empty(), Seq::<u64>::empty()),
    {
        let (chan_send, chan_recv) = new_sync_channel(CHANNEL_SIZE);
        Runtime { tasks: VecDeque::new(), sleeping: Vec::new(), chan_recv, chan_send }
    }

    /// A sender through which a task's waker hands the task's id back: the
    /// runtime's own.
    pub fn task_sender(&self) -> (s: SyncSender<u64>)
        ensures
            s == self.wake_sender(),
    {
        clone_sender(&self.chan_send)
    }

    /// Makes task `task` runnable, behind the tasks already runnable.
    pub fn spawn(&mut self, task: u64)
        ensures
            final(self)@ == (old(self)@.0.push(task), old(self)@.1),
            outstanding(final(self)@) == outstanding(old(self)@) + 1,
            final(self).wake_sender() == old(self).wake_sender(),
            final(self).wake_receiver() == old(self).wake_receiver(),
    {
        proof {
            use_type_invariant(&*self);
        }
        let mut tasks = VecDeque::new();
        std::mem::swap(&mut tasks, &mut self.tasks);
        tasks.push_back(task);
        self.tasks = tasks;
    }

    /// The number of tasks that returned pending and were not woken yet.
    pub fn tasks_sleeping(&self) -> (n: usize)
        ensures
            n == self@.1.len(),
    {
        self.sleeping.len()
    }

    /// Whether `run` is done: no task is runnable and none sleeps, so every
    /// task it was given has finished.
    pub fn is_idle(&self) -> (b: bool)
        ensures
            b == (self@.0.len() == 0 && self@.1.len() == 0),
            b == (outstanding(self@) == 0),
    {
        self.tasks.len() == 0 && self.sleeping.len() == 0
    }

    /// Records what the wait for a wake-up gave: a woken sleeping task
    /// becomes runnable and no longer sleeps; a time-out, or a wake-up for a
    /// task that is not asleep, changes nothing.
    pub fn on_wakeup(&mut self, received: Option<u64>)
        ensures
            match received {
                Some(id) => final(self)@ == woken(old(self)@, id),
                None => final(self)@ == old(self)@,
            },
            match received {
                Some(id) => if old(self)@.1.contains(id) {
                    &&& final(self)@.0 == old(self)@.0.push(id)
                    &&& final(self)@.1.len() == old(self)@.1.len() - 1
                    &&& !final(self)@.1.contains(id)
                    &&& forall|x: u64|
                        x != id ==> (final(self)@.1.contains(x) <==> old(self)@.1.contains(x))
                } else {
                    final(self)@ == old(self)@
                },
                None => true,
            },
            final(self)@.1.no_duplicates(),
            outstanding(final(self)@) == outstanding(old(self)@),
            final(self).wake_sender() == old(self).wake_sender(),
            final(self).wake_receiver() == old(self).wake_receiver(),
    {
        proof {
            use_type_invariant(&*self);
        }
        match received {
            Some(id) => {
                match find_sleeper(&self.sleeping, id) {
                    Some(i) => {
                        proof {
                            let s = self.sleeping@;
                            assert(s.contains(id));
                            let j = s.index_of(id);
                            assert(0 <= j < s.len() && s[j] == id);
                            assert(j == i as int);
                            lemma_remove_keeps_distinct(s, i as int);
                            lemma_wakeup_appends(self@, id);
                        }
                        let mut sleeping = Vec::new();
                        std::mem::swap(&mut sleeping, &mut self.sleeping);
                        sleeping.remove(i);
                        self.sleeping = sleeping;
                        let mut tasks = VecDeque::new();
                        std::mem::swap(&mut tasks, &mut self.tasks);
                        tasks.push_back(id);
                        self.tasks = tasks;
                    },
                    None => {},
                }
            },
            None => {},
        }
        proof {
            use_type_invariant(&*self);
        }
    }

    /// When tasks sleep, waits up to `WAKEUP_TIMEOUT_SECS` seconds on the
    /// runtime's receiver for one to be woken, and records it; when none
    /// sleeps, does nothing.
    pub fn wait_for_wakeup(&mut self)
        ensures
            old(self)@.1.len() == 0 ==> final(self)@ == old(self)@,
            old(self)@.1.len() > 0 ==> (final(self)@ == old(self)@ || exists|id: u64|
                final(self)@ == woken(old(self)@, id)),
            final(self)@ == old(self)@ || exists|id: u64|
                #![trigger old(self)@.1.contains(id)]
                {
                    &&& old(self)@.1.contains(id)
                    &&& final(self)@.0 == old(self)@.0.push(id)
                    &&& !final(self)@.1.contains(id)
                    &&& final(self)@.1.len() == old(self)@.1.len() - 1
                },
            outstanding(final(self)@) == outstanding(old(self)@),
            final(self).wake_sender() == old(self).wake_sender(),
            final(self).wake_receiver() == old(self).wake_receiver(),
    {
        if self.sleeping.len() > 0 {
            let timeout = wakeup_timeout();
            let received = receive_with_timeout(&self.chan_recv, timeout);
            self.on_wakeup(received);
        }
    }

    /// Takes the runnable task that became runnable first, if any.
    pub fn next_task(&mut self) -> (r: Option<u64>)
        ensures
            old(self)@.0.len() == 0 ==> r is None && final(self)@ == old(self)@,
            old(self)@.0.len() > 0 ==> r == Some(old(self)@.0[0]) && final(self)@ == popped(
                old(self)@,
            ),
            final(self).wake_sender() == old(self).wake_sender(),
            final(self).wake_receiver() == old(self).wake_receiver(),
    {
        proof {
            use_type_invariant(&*self);
        }
        let mut tasks = VecDeque::new();
        std::mem::swap(&mut tasks, &mut self.tasks);
        let r = tasks.pop_front();
        self.tasks = tasks;
        r
    }

    /// Records the poll of task `id`: a task that returned pending goes to
    /// sleep until its waker sends it back.
    pub fn task_polled(&mut self, id: u64, ready: bool)
        ensures
            final(self)@ == polled(old(self)@, id, ready),
            final(self)@.0 == old(self)@.0,
            ready ==> final(self)@.1 == old(self)@.1,
            !ready ==> final(self)@.1.contains(id),
            !ready ==> forall|x: u64| x != id ==> (final(self)@.1.contains(x) <==> old(self)@.1.contains(x)),
            !ready && !old(self)@.1.contains(id) ==> final(self)@.1 == old(self)@.1.push(id),
            final(self)@.1.no_duplicates(),
            final(self).wake_sender() == old(self).wake_sender(),
            final(self).wake_receiver() == old(self).wake_receiver(),
    {
        proof {
            use_type_invariant(&*self);
        }
        if !ready {
            match find_sleeper(&self.sleeping, id) {
                Some(_) => {},
                None => {
                    proof {
                        lemma_push_keeps_distinct(self.sleeping@, id);
                        lemma_poll_records(self@, id, ready);
                    }
                    let mut sleeping = Vec::new();
                    std::mem::swap(&mut sleeping, &mut self.sleeping);
                    sleeping.push(id);
                    self.sleeping = sleeping;
                },
            }
        }
        proof {
            use_type_invariant(&*self);
        }
    }
}

proof fn lemma_remove_keeps_distinct(s: Seq<u64>, i: int)
    requires
        s.no_duplicates(),
        0 <= i < s.len(),
    ensures
        s.remove(i).no_duplicates(),
        s.remove(i).len() == s.len() - 1,
        !s.remove(i).contains(s[i]),
        forall|x: u64| x != s[i] ==> (s.remove(i).contains(x) <==> s.contains(x)),
{
    let r = s.remove(i);
    assert forall|a: int, b: int| 0 <= a < b < r.len() implies r[a] != r[b] by {
        let sa = if a < i { a } else { a + 1 };
        let sb = if b < i { b } else { b + 1 };
        assert(r[a] == s[sa]);
        assert(r[b] == s[sb]);
    }
    assert forall|a: int| 0 <= a < r.len() implies r[a] != s[i] by {
        let sa = if a < i { a } else { a + 1 };
        assert(r[a] == s[sa]);
    }
    assert forall|x: u64| x != s[i] implies (r.contains(x) <==> s.contains(x)) by {
        if r.contains(x) {
            let a = choose|a: int| 0 <= a < r.len() && r[a] == x;
            let sa = if a < i { a } else { a + 1 };
            assert(r[a] == s[sa]);
        }
        if s.contains(x) {
            let b = choose|b: int| 0 <= b < s.len() && s[b] == x;
            assert(b != i);
            let rb = if b < i { b } else { b - 1 };
            assert(r[rb] == s[b]);
        }
    }
}

proof fn lemma_push_keeps_distinct(s: Seq<u64>, id: u64)
    requires
        s.no_duplicates(),
        !s.contains(id),
    ensures
        s.push(id).no_duplicates(),
{
    let p = s.push(id);
    assert forall|a: int, b: int| 0 <= a < b < p.len() implies p[a] != p[b] by {
        if b == s.len() {
            assert(p[a] == s[a]);
        }
    }
}

/// Polling a runnable task removes it from the outstanding work exactly when
/// it finished: a task that returned pending stays outstanding, asleep.
pub proof fn lemma_poll_cycle(v: (Seq<u64>, Seq<u64>), ready: bool)
    requires
        v.0.len() > 0,
        !v.1.contains(v.0[0]),
    ensures
        outstanding(polled(popped(v), v.0[0], ready)) == outstanding(v) - (if ready {
            1int
        } else {
            0int
        }),
        !ready ==> polled(popped(v), v.0[0], ready).1.contains(v.0[0]),
{
    if !ready {
        assert(v.1.push(v.0[0])[v.1.len() as int] == v.0[0]);
    }
}

/// A sleeping task that is woken becomes runnable again, behind the tasks
/// already runnable, and no longer sleeps; nothing is lost or counted twice.
pub proof fn lemma_wakeup_cycle(v: (Seq<u64>, Seq<u64>), id: u64)
    requires
        v.1.contains(id),
        v.1.no_duplicates(),
    ensures
        outstanding(woken(v, id)) == outstanding(v),
        woken(v, id).0.last() == id,
        !woken(v, id).1.contains(id),
        woken(v, id).1.no_duplicates(),
{
    let j = v.1.index_of(id);
    assert(0 <= j < v.1.len() && v.1[j] == id);
    lemma_remove_keeps_distinct(v.1, j);
}

/// Recording a poll never touches the runnable tasks: a finished task leaves
/// the sleepers as they were, and a pending task is added to them, once,
/// beside the tasks already asleep.
pub proof fn lemma_poll_records(v: (Seq<u64>, Seq<u64>), id: u64, ready: bool)
    ensures
        polled(v, id, ready).0 == v.0,
        ready ==> polled(v, id, ready).1 == v.1,
        !ready ==> polled(v, id, ready).1.contains(id),
        !ready ==> forall|x: u64|
            x != id ==> (polled(v, id, ready).1.contains(x) <==> v.1.contains(x)),
        !ready && !v.1.contains(id) ==> polled(v, id, ready).1 == v.1.push(id),
{
    if !ready && !v.1.contains(id) {
        let p = v.1.push(id);
        assert(p[v.1.len() as int] == id);
        assert forall|x: u64| x != id implies (p.contains(x) <==> v.1.contains(x)) by {
            if p.contains(x) {
                let a = choose|a: int| 0 <= a < p.len() && p[a] == x;
                assert(a < v.1.len());
                assert(v.1[a] == x);
            }
            if v.1.contains(x) {
                let b = choose|b: int| 0 <= b < v.1.len() && v.1[b] == x;
                assert(p[b] == x);
            }
        }
    }
}

/// A wake-up of a sleeping task only appends it to the runnable tasks, every
/// task runnable before staying runnable in its place, and takes it, and
/// only it, out of the sleepers; a wake-up for a task that is not asleep
/// changes nothing.
pub proof fn lemma_wakeup_appends(v: (Seq<u64>, Seq<u64>), id: u64)
    requires
        v.1.no_duplicates(),
    ensures
        v.1.contains(id) ==> {
            &&& woken(v, id).0 == v.0.push(id)
            &&& woken(v, id).1.len() == v.1.len() - 1
            &&& !woken(v, id).1.contains(id)
            &&& forall|x: u64| x != id ==> (woken(v, id).1.contains(x) <==> v.1.contains(x))
        },
        !v.1.contains(id) ==> woken(v, id) == v,
{
    if v.1.contains(id) {
        let j = v.1.index_of(id);
        assert(0 <= j < v.1.len() && v.1[j] == id);
        lemma_remove_keeps_distinct(v.1, j);
    }
}

} // verus!
