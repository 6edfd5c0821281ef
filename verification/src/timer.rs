use std::time::{Duration, Instant};
use vstd::prelude::*;

verus! {

#[verifier::external_type_specification]
#[verifier::external_body]
pub struct ExInstant(Instant);

/// Calls `Instant::now()`. The clock's reading depends on the time of the
/// call, so nothing is claimed of it.
#[verifier::external_body]
fn instant_now() -> Instant {
    Instant::now()
}

/// Calls `Instant::elapsed()`. It depends on the time of the call, so
/// nothing is claimed of it.
#[verifier::external_body]
fn elapsed_since(start: &Instant) -> Duration {
    start.elapsed()
}

/// The total number of whole nanoseconds in `d`, as `Duration::as_nanos`
/// gives it: a function of the duration alone.
pub uninterp spec fn nanos_of(d: Duration) -> u128;

/// Calls `Duration::as_nanos()`, which returns the total number of whole
/// nanoseconds in the duration: `nanos_of(*d)`.
#[verifier::external_body]
fn duration_as_nanos(d: &Duration) -> (n: u128)
    ensures
        n == nanos_of(*d),
{
    d.as_nanos()
}

/// A future that completes once `duration` has passed since its creation,
/// giving the time that actually passed.
pub struct Timer {
    start: Instant,
    duration: Duration,
}

/// What a poll of a timer gives back.
pub enum TimerPoll {
    /// The time has passed; this much passed since the timer was created.
    Ready(Duration),
    /// The time has not passed yet: wake the task and poll again.
    Pending,
}

/// Whether a timer of `duration_nanos` nanoseconds has run out after
/// `elapsed_nanos` nanoseconds.
pub fn has_elapsed(elapsed_nanos: u128, duration_nanos: u128) -> (b: bool)
    ensures
        b == (elapsed_nanos >= duration_nanos),
{
    !(elapsed_nanos < duration_nanos)
}

impl Timer {
    /// The duration the timer waits for.
    pub closed spec fn wait_duration(&self) -> Duration {
        self.duration
    }

    /// A timer that starts now and runs for `duration`.
    pub fn new(duration: Duration) -> (t: Self)
        ensures
            t.wait_duration() == duration,
    {
        Timer { start: instant_now(), duration }
    }

    /// Reads the clock once: ready with the time elapsed since the start
    /// once it has reached the duration, else pending. The reading depends on
    /// the time of the call; whatever it is, the choice is `decide_timer`'s.
    pub fn poll(&self) -> (r: TimerPoll)
        ensures
            exists|e: Duration| r == timer_outcome(e, self.wait_duration()),
            match r {
                TimerPoll::Ready(d) => nanos_of(d) >= nanos_of(self.wait_duration()),
                TimerPoll::Pending => nanos_of(self.wait_duration()) > 0,
            },
            nanos_of(self.wait_duration()) == 0 ==> r is Ready,
    {
        let elapsed = elapsed_since(&self.start);
        let r = decide_timer(elapsed, &self.duration);
        assert(r == timer_outcome(elapsed, self.wait_duration()));
        r
    }
}

/// What a timer of `duration` answers when `elapsed` has passed since it
/// started: ready with that time once it reaches the duration, else pending.
pub open spec fn timer_outcome(elapsed: Duration, duration: Duration) -> TimerPoll {
    if nanos_of(elapsed) >= nanos_of(duration) {
        TimerPoll::Ready(elapsed)
    } else {
        TimerPoll::Pending
    }
}

/// Decides a timer's poll from the time elapsed since it started.
pub fn decide_timer(elapsed: Duration, duration: &Duration) -> (r: TimerPoll)
    ensures
        r == timer_outcome(elapsed, *duration),
        r is Pending <==> nanos_of(elapsed) < nanos_of(*duration),
        r is Ready ==> r == TimerPoll::Ready(elapsed),
{
    if has_elapsed(duration_as_nanos(&elapsed), duration_as_nanos(duration)) {
        TimerPoll::Ready(elapsed)
    } else {
        TimerPoll::Pending
    }
}

/// A timer fires on time: for any elapsed time, it is pending exactly while
/// that time is below its duration, and once ready it gives back that very
/// elapsed time; and it stays ready: a reading at least as late as one that
/// made it ready makes it ready too.
pub proof fn lemma_timer_fires_on_time(e1: Duration, e2: Duration, d: Duration)
    ensures
        timer_outcome(e1, d) is Pending <==> nanos_of(e1) < nanos_of(d),
        timer_outcome(e1, d) is Ready ==> timer_outcome(e1, d) == TimerPoll::Ready(e1),
        timer_outcome(e1, d) is Ready && nanos_of(e2) >= nanos_of(e1) ==> timer_outcome(e2, d) is Ready,
        nanos_of(d) == 0 ==> timer_outcome(e1, d) is Ready,
{
}

} // verus!
