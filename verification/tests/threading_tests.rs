use rustmix::error::RmxError;
use rustmix::threading::{
    check_running, clamp_threads, wait, wait_for, wait_for_until, wait_for_until_step, wait_until, WaitEvent, steal_action, StealAction, SpinnerState, QueueBehavior,
    QueueState, TaskResult, WorkerStep, ERR_FINISHED, QUEUE_COMPLETED, QUEUE_STARTED, THREADS_MAX,
};

#[test]
fn task_results_as_text() {
    assert_eq!(TaskResult::NoResult.to_string(), "");
    assert_eq!(TaskResult::Cancelled.to_string(), "Cancelled");
    assert_eq!(TaskResult::TimedOut.to_string(), "Timedout");
    assert_eq!(TaskResult::Error("bad".to_string()).to_string(), "Error: bad");
    assert_eq!(TaskResult::Success.to_string(), "Success");
    assert_eq!(QueueBehavior::FIFO.to_string(), "FIFO");
    assert_eq!(QueueBehavior::LIFO.to_string(), "LIFO");
    assert_eq!(QueueBehavior::default(), QueueBehavior::FIFO);
}

#[test]
fn thread_counts_are_clamped_by_options_only() {
    assert_eq!(clamp_threads(0), 1);
    assert_eq!(clamp_threads(8), 8);
    assert_eq!(clamp_threads(1000), THREADS_MAX);
    assert_eq!(QueueState::new(0).threads(), 0);
    assert_eq!(QueueState::new(1000).threads(), 1000);
    let mut idle = QueueState::new(0);
    assert_eq!(idle.start(), Ok(()));
    assert_eq!(idle.workers(), 0);
}

#[test]
fn queue_starts_once() {
    let mut q = QueueState::new(4);
    assert_eq!(q.start(), Ok(()));
    assert!(q.is_started());
    assert_eq!(q.workers(), 4);
    assert_eq!(q.start(), Err(RmxError::InvalidOperation(QUEUE_STARTED.to_string())));
}

#[test]
fn cancelled_queue_refuses_everything() {
    let mut q = QueueState::new(2);
    q.cancel();
    assert_eq!(q.start(), Err(RmxError::Canceled));
    assert_eq!(q.enqueue(), Err(RmxError::Canceled));
    assert_eq!(q.step(), WorkerStep::Stop);
    assert!(q.is_cancelled());
}

#[test]
fn completed_queue_drains_then_stops() {
    let mut q = QueueState::new(1);
    assert_eq!(q.enqueue(), Ok(()));
    assert_eq!(q.enqueue(), Ok(()));
    assert_eq!(q.len(), 2);
    q.stop(false);
    assert!(q.is_completed());
    assert_eq!(q.enqueue(), Err(RmxError::InvalidOperation(QUEUE_COMPLETED.to_string())));
    assert_eq!(q.start(), Ok(()));
    assert_eq!(q.step(), WorkerStep::Take);
    q.dequeued();
    q.inc_running();
    assert!(q.is_busy());
    q.dec_running();
    q.dequeued();
    assert!(q.is_empty());
    assert!(!q.is_busy());
    assert_eq!(q.step(), WorkerStep::Stop);
    assert!(q.dec_workers());
    q.finish();
    assert!(q.is_finished());
    let mut fresh = QueueState::new(1);
    assert_eq!(fresh.enqueue(), Ok(()));
    fresh.complete();
    fresh.dequeued();
    assert_eq!(fresh.start(), Err(RmxError::InvalidOperation(QUEUE_COMPLETED.to_string())));
}

#[test]
fn pause_resume_and_finish_rules() {
    let mut q = QueueState::new(2);
    assert_eq!(q.enqueue(), Ok(()));
    q.pause();
    assert!(q.is_paused());
    assert_eq!(q.step(), WorkerStep::Pause);
    q.resume();
    assert_eq!(q.step(), WorkerStep::Take);
    q.finish();
    assert!(!q.is_finished());
    assert_eq!(q.start(), Ok(()));
    assert!(!q.dec_workers());
    q.stop(true);
    assert!(q.dec_workers());
    q.finish();
    assert!(q.is_finished() && q.is_completed() && q.is_started());
    q.clear();
    assert_eq!(q.len(), 0);
    assert_eq!(q.running(), 0);
}

#[test]
fn wait_outcomes() {
    let live = QueueState::new(1);
    let mut gone = QueueState::new(1);
    gone.cancel();
    assert_eq!(wait::<QueueState, u32>(&live, true), Ok(()));
    assert_eq!(wait::<QueueState, u32>(&live, false), Err(RmxError::Canceled));
    assert_eq!(wait::<QueueState, u32>(&gone, true), Err(RmxError::Canceled));
    assert_eq!(wait_until::<QueueState, u32>(&live, true), Ok(()));
    assert_eq!(wait_for::<QueueState, u32>(&live, true, true), Err(RmxError::Timeout));
    assert_eq!(wait_for::<QueueState, u32>(&live, false, false), Err(RmxError::Timeout));
    assert_eq!(wait_for::<QueueState, u32>(&gone, false, true), Err(RmxError::Canceled));
    assert_eq!(wait_for_until::<QueueState, u32>(&live, false, true), Ok(()));
}

#[test]
fn spinner_guard() {
    assert_eq!(check_running(false), Ok(()));
    assert_eq!(check_running(true), Err(RmxError::InvalidOperation(ERR_FINISHED.to_string())));
}

#[test]
fn timed_wait_steps() {
    let checked = |holds, cancelled, expired| wait_for_until_step(WaitEvent::Checked { holds, cancelled, expired });
    assert_eq!(checked(true, true, true), Some(Ok(())));
    assert_eq!(checked(false, true, true), Some(Err(RmxError::Canceled)));
    assert_eq!(checked(false, false, true), Some(Err(RmxError::Timeout)));
    assert_eq!(checked(false, false, false), None);
    assert_eq!(wait_for_until_step(WaitEvent::Notified { cancelled: true }), Some(Err(RmxError::Canceled)));
    assert_eq!(wait_for_until_step(WaitEvent::Notified { cancelled: false }), Some(Ok(())));
    assert_eq!(wait_for_until_step(WaitEvent::Quiet { expired: true }), Some(Err(RmxError::Timeout)));
    assert_eq!(wait_for_until_step(WaitEvent::Quiet { expired: false }), None);
}

#[test]
fn empty_queue_actions() {
    assert_eq!(steal_action(true, true, true), StealAction::GiveUp);
    assert_eq!(steal_action(false, true, true), StealAction::PauseThenGiveUp);
    assert_eq!(steal_action(false, false, true), StealAction::Steal);
    assert_eq!(steal_action(false, true, false), StealAction::Steal);
}

#[test]
fn spinner_finishes_once() {
    let mut s = SpinnerState::new();
    assert_eq!(s.finish(), Ok(()));
    assert_eq!(s.finish(), Err(RmxError::InvalidOperation(ERR_FINISHED.to_string())));
    assert!(s.finished);
    assert!(!s.reset());
    assert!(!s.finished);
    assert!(s.reset());
    assert_eq!(s.finish(), Ok(()));
}

#[test]
fn finished_queue_does_not_restart() {
    let mut q = QueueState::new(1);
    assert_eq!(q.start(), Ok(()));
    q.enqueue().unwrap();
    q.complete();
    assert!(q.dec_workers());
    q.finish();
    assert!(q.is_finished() && q.is_started());
    assert_eq!(q.start(), Err(RmxError::InvalidOperation(QUEUE_STARTED.to_string())));
    q.clear();
    assert_eq!(q.start(), Err(RmxError::InvalidOperation(QUEUE_COMPLETED.to_string())));
}

#[test]
fn dequeue_counts_taken_items() {
    let mut q = QueueState::new(1);
    q.enqueue().unwrap();
    q.enqueue().unwrap();
    assert_eq!(q.taken(Some(7)), Some(7));
    assert_eq!(q.len(), 1);
    assert_eq!(q.taken::<u8>(None), None);
    assert_eq!(q.len(), 1);
    q.clear();
    assert_eq!(q.taken(Some('x')), Some('x'));
    assert_eq!(q.len(), usize::MAX);
}
