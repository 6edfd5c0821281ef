use sentinel_io::context::Context;
use sentinel_io::desk;
use sentinel_io::entry::{expand_main, function_body, main_wrapper, TokenItem};
use sentinel_io::executor::{self, AfterPoll};
use sentinel_io::io::{decide_io_poll, write_progress, IoPoll, WriteProgress};
use sentinel_io::join::{JoinHandle, JoinPoll};
use sentinel_io::runtime::{wakeup_timeout, Runtime};
use sentinel_io::scheduler::{Scheduler, SingleThread, Worker};
use sentinel_io::task::Task;
use sentinel_io::timer::{decide_timer, has_elapsed, Timer, TimerPoll};
use std::collections::VecDeque;
use std::time::Duration;

#[test]
fn join_handle_starts_empty() {
    let h: JoinHandle<u32, &str> = JoinHandle::new();
    assert!(h.output.is_none());
    assert!(h.waker.is_none());
}

#[test]
fn join_handle_delivers_output_after_completion() {
    let mut h: JoinHandle<u32, &str> = JoinHandle::new();
    assert!(h.complete(42).is_none());
    assert!(matches!(h.poll("w"), JoinPoll::Ready(42)));
}

#[test]
fn join_handle_output_taken_once() {
    let mut h: JoinHandle<u32, &str> = JoinHandle::new();
    h.complete(7);
    assert!(matches!(h.poll("w1"), JoinPoll::Ready(7)));
    assert!(matches!(h.poll("w2"), JoinPoll::Pending));
    assert_eq!(h.waker, Some("w2"));
}

#[test]
fn join_handle_wakes_registered_waker() {
    let mut h: JoinHandle<u32, &str> = JoinHandle::new();
    assert!(matches!(h.poll("first"), JoinPoll::Pending));
    assert!(matches!(h.poll("second"), JoinPoll::Pending));
    assert_eq!(h.complete(3), Some("second"));
    assert!(h.waker.is_none());
    assert!(matches!(h.poll("third"), JoinPoll::Ready(3)));
}

#[test]
fn single_thread_is_fifo() {
    let mut s: SingleThread<u32> = SingleThread::new();
    assert_eq!(s.pop_task(), None);
    s.push_task(1);
    s.push_task(2);
    s.push_task(3);
    assert_eq!(s.pop_task(), Some(1));
    s.push_task(4);
    assert_eq!(s.pop_task(), Some(2));
    assert_eq!(s.pop_task(), Some(3));
    assert_eq!(s.pop_task(), Some(4));
    assert_eq!(s.pop_task(), None);
}

#[test]
fn scheduler_delegates_to_single_thread() {
    let mut s = Scheduler::SingleThread(SingleThread::new());
    s.push_task("a");
    s.push_task("b");
    assert_eq!(s.pop_task(), Some("a"));
    assert_eq!(s.pop_task(), Some("b"));
    assert_eq!(s.pop_task(), None);
}

#[test]
fn worker_and_task_construct() {
    let _w = Worker::new();
    let t = Task::new(5u8);
    assert_eq!(t.future, 5u8);
}

#[test]
fn desk_is_round_robin() {
    let mut d: VecDeque<u32> = VecDeque::new();
    assert!(!desk::keeps_running(&d));
    assert_eq!(desk::pop_task(&mut d), None);
    desk::spawn(&mut d, 1);
    desk::spawn(&mut d, 2);
    assert_eq!(desk::desk_size(&d), 2);
    assert!(desk::keeps_running(&d));
    assert_eq!(desk::pop_task(&mut d), Some(1));
    desk::push_task(&mut d, 1);
    assert_eq!(desk::pop_task(&mut d), Some(2));
    assert_eq!(desk::pop_task(&mut d), Some(1));
    assert_eq!(desk::desk_size(&d), 0);
}

#[test]
fn executor_queue_is_fifo() {
    let mut q: VecDeque<u32> = VecDeque::new();
    executor::spawn(&mut q, 10);
    executor::add_task(&mut q, 20);
    assert_eq!(executor::next_task(&mut q), Some(10));
    assert_eq!(executor::next_task(&mut q), Some(20));
    assert_eq!(executor::next_task(&mut q), None);
}

#[test]
fn executor_after_poll_decisions() {
    assert!(matches!(executor::after_poll(true, true), AfterPoll::FreeAndStop));
    assert!(matches!(executor::after_poll(true, false), AfterPoll::FreeAndContinue));
    assert!(matches!(executor::after_poll(false, true), AfterPoll::Continue));
    assert!(matches!(executor::after_poll(false, false), AfterPoll::Continue));
}

#[test]
fn runtime_accounts_for_tasks() {
    let mut rt = Runtime::new();
    assert!(rt.is_idle());
    rt.spawn(2);
    rt.spawn(1);
    assert!(!rt.is_idle());
    assert_eq!(rt.next_task(), Some(2));
    rt.task_polled(2, true);
    assert_eq!(rt.next_task(), Some(1));
    rt.task_polled(1, false);
    assert_eq!(rt.tasks_sleeping(), 1);
    assert_eq!(rt.next_task(), None);
    assert!(!rt.is_idle());
    rt.on_wakeup(None);
    assert_eq!(rt.tasks_sleeping(), 1);
    rt.on_wakeup(Some(1));
    assert_eq!(rt.tasks_sleeping(), 0);
    assert_eq!(rt.next_task(), Some(1));
    rt.task_polled(1, true);
    assert!(rt.is_idle());
}

#[test]
fn runtime_ignores_stale_wakeup() {
    let mut rt = Runtime::new();
    rt.spawn(2);
    rt.spawn(1);
    assert_eq!(rt.next_task(), Some(2));
    rt.task_polled(2, false);
    assert_eq!(rt.next_task(), Some(1));
    rt.task_polled(1, true);
    rt.on_wakeup(Some(1));
    assert_eq!(rt.tasks_sleeping(), 1);
    assert_eq!(rt.next_task(), None);
    rt.on_wakeup(Some(2));
    rt.on_wakeup(Some(2));
    assert_eq!(rt.tasks_sleeping(), 0);
    assert_eq!(rt.next_task(), Some(2));
    assert_eq!(rt.next_task(), None);
}

#[test]
fn runtime_sleeper_recorded_once() {
    let mut rt = Runtime::new();
    rt.task_polled(5, false);
    rt.task_polled(5, false);
    assert_eq!(rt.tasks_sleeping(), 1);
}

#[test]
fn runtime_receives_woken_task_through_channel() {
    let mut rt = Runtime::new();
    rt.spawn(9);
    assert_eq!(rt.next_task(), Some(9));
    rt.task_polled(9, false);
    let tx = rt.task_sender();
    tx.send(9).unwrap();
    rt.wait_for_wakeup();
    assert_eq!(rt.tasks_sleeping(), 0);
    assert_eq!(rt.next_task(), Some(9));
    rt.task_polled(9, true);
    assert!(rt.is_idle());
}

#[test]
fn runtime_wait_without_sleepers_does_nothing() {
    let mut rt = Runtime::new();
    rt.wait_for_wakeup();
    assert!(rt.is_idle());
}

#[test]
fn runtime_wakeup_timeout_is_three_seconds() {
    assert_eq!(wakeup_timeout(), Duration::from_secs(3));
}

#[test]
fn context_holds_runtime() {
    let mut c: Context<u32> = Context::new();
    assert!(!c.has_runtime());
    c.init_runtime(5);
    assert!(c.has_runtime());
    assert_eq!(c.with_runtime(|r| *r + 1), 6);
}

#[test]
fn timer_decides_by_elapsed_time() {
    assert!(has_elapsed(10, 10));
    assert!(has_elapsed(11, 10));
    assert!(!has_elapsed(9, 10));
    assert!(has_elapsed(0, 0));
}

#[test]
fn timer_zero_is_ready_and_long_is_pending() {
    let t = Timer::new(Duration::from_millis(0));
    assert!(matches!(t.poll(), TimerPoll::Ready(_)));
    let t = Timer::new(Duration::from_secs(3600));
    assert!(matches!(t.poll(), TimerPoll::Pending));
}

#[test]
fn timer_decision_from_elapsed_time() {
    let d = Duration::from_millis(5);
    assert!(matches!(decide_timer(Duration::from_millis(5), &d), TimerPoll::Ready(e) if e == Duration::from_millis(5)));
    assert!(matches!(decide_timer(Duration::from_millis(7), &d), TimerPoll::Ready(e) if e == Duration::from_millis(7)));
    assert!(matches!(decide_timer(Duration::from_nanos(4_999_999), &d), TimerPoll::Pending));
    assert!(matches!(decide_timer(Duration::ZERO, &Duration::ZERO), TimerPoll::Ready(_)));
}

#[test]
fn timer_zero_is_ready_at_once() {
    let t = Timer::new(Duration::ZERO);
    assert!(matches!(t.poll(), TimerPoll::Ready(_)));
}

#[test]
fn timer_ready_after_duration() {
    let t = Timer::new(Duration::from_millis(20));
    let start = std::time::Instant::now();
    while start.elapsed() < Duration::from_millis(30) {}
    match t.poll() {
        TimerPoll::Ready(d) => assert!(d >= Duration::from_millis(20)),
        TimerPoll::Pending => panic!("timer should be ready"),
    }
}

#[test]
fn io_poll_decisions() {
    let r: IoPoll<usize, &str> = decide_io_poll(Ok(4), false);
    assert!(matches!(r, IoPoll::Ready(Ok(4))));
    let r: IoPoll<usize, &str> = decide_io_poll(Ok(4), true);
    assert!(matches!(r, IoPoll::Ready(Ok(4))));
    let r: IoPoll<usize, &str> = decide_io_poll(Err("blocked"), true);
    assert!(matches!(r, IoPoll::Pending));
    let r: IoPoll<usize, &str> = decide_io_poll(Err("reset"), false);
    assert!(matches!(r, IoPoll::Ready(Err("reset"))));
}

#[test]
fn entry_finds_last_brace_group() {
    let items = vec![
        TokenItem::Other,
        TokenItem::BraceGroup("first".to_string()),
        TokenItem::Other,
        TokenItem::BraceGroup("let x = 1;".to_string()),
        TokenItem::Other,
    ];
    assert_eq!(function_body(&items), Some("let x = 1;".to_string()));
    assert_eq!(function_body(&vec![TokenItem::Other]), None);
    assert_eq!(function_body(&Vec::new()), None);
}

#[test]
fn entry_writes_main() {
    assert_eq!(
        main_wrapper("foo().await;"),
        "fn main() { sentinel_io::block_on(async { foo().await; }); }"
    );
    let items = vec![TokenItem::Other, TokenItem::Other, TokenItem::BraceGroup("x".to_string())];
    assert_eq!(expand_main(&items), "fn main() { sentinel_io::block_on(async { x }); }");
}

#[test]
fn write_progress_never_resends_accepted_bytes() {
    let r: WriteProgress<&str> = write_progress(0, 10, Ok(4), false, false);
    assert!(matches!(r, WriteProgress::Again(4)));
    let r: WriteProgress<&str> = write_progress(4, 10, Ok(6), false, false);
    assert!(matches!(r, WriteProgress::Done));
    let r: WriteProgress<&str> = write_progress(4, 10, Ok(0), false, false);
    assert!(matches!(r, WriteProgress::Stalled));
    let r: WriteProgress<&str> = write_progress(4, 10, Err("blocked"), true, false);
    assert!(matches!(r, WriteProgress::Pending));
    let r: WriteProgress<&str> = write_progress(4, 10, Err("intr"), false, true);
    assert!(matches!(r, WriteProgress::Again(4)));
    let r: WriteProgress<&str> = write_progress(4, 10, Err("reset"), false, false);
    assert!(matches!(r, WriteProgress::Failed("reset")));
}

#[test]
fn runtime_serves_round_robin() {
    let mut rt = Runtime::new();
    rt.spawn(1);
    rt.spawn(2);
    rt.spawn(3);
    assert_eq!(rt.next_task(), Some(1));
    rt.task_polled(1, false);
    rt.on_wakeup(Some(1));
    assert_eq!(rt.next_task(), Some(2));
    assert_eq!(rt.next_task(), Some(3));
    assert_eq!(rt.next_task(), Some(1));
    assert_eq!(rt.next_task(), None);
}
