use vstd::prelude::*;
use crate::error::{RmxError, ErrorView};

verus! {

/// The fewest worker threads a queue runs.
pub const THREADS_MIN: usize = 1;
/// The most worker threads a queue runs.
pub const THREADS_MAX: usize = 255;
/// The tick of spinners and waits, in milliseconds.
pub const INTERVAL: u64 = 100;
/// The text of the error for a queue that no longer takes items.
pub const QUEUE_COMPLETED: &'static str = "Queue is completed";
/// The text of the error for a queue started twice.
pub const QUEUE_STARTED: &'static str = "Queue is already started";

/// How one task ended.
#[derive(Debug, Default, Clone, PartialEq, Eq, PartialOrd, Ord, Hash)]
pub enum TaskResult {
    #[default]
    NoResult,
    Cancelled,
    TimedOut,
    Error(String),
    Success,
}

impl TaskResult {
    /// The result as text ("Error: " with the message for an error, nothing
    /// for `None`).
    pub fn to_string(&self) -> (r: String)
        ensures
            r@ == match self {
                TaskResult::Cancelled => "Cancelled"@,
                TaskResult::TimedOut => "Timedout"@,
                TaskResult::Error(e) => "Error: "@ + e@,
                TaskResult::Success => "Success"@,
                TaskResult::NoResult => Seq::<char>::empty(),
            },
    {
        match self {
            TaskResult::Cancelled => "Cancelled".to_owned(),
            TaskResult::TimedOut => "Timedout".to_owned(),
            TaskResult::Error(e) => {
                let mut r = "Error: ".to_owned();
                r.append(e.as_str());
                r
            },
            TaskResult::Success => "Success".to_owned(),
            TaskResult::NoResult => String::new(),
        }
    }
}

/// The order in which a queue hands out its items.
#[derive(Debug, Default, Clone, PartialEq, Eq, PartialOrd, Ord, Hash)]
pub enum QueueBehavior {
    #[default]
    FIFO,
    LIFO,
}

impl QueueBehavior {
    /// The order's name.
    pub fn to_string(&self) -> (r: String)
        ensures
            r@ == match self {
                QueueBehavior::FIFO => "FIFO"@,
                QueueBehavior::LIFO => "LIFO"@,
            },
    {
        match self {
            QueueBehavior::FIFO => "FIFO".to_owned(),
            QueueBehavior::LIFO => "LIFO".to_owned(),
        }
    }
}

/// An item that a queue can carry between threads.
pub trait TaskItem: Clone + Send + Sync + core::fmt::Debug {}

impl<T: Clone + Send + Sync + core::fmt::Debug> TaskItem for T {}

/// A task item that owns all its data.
pub trait StaticTaskItem: TaskItem + 'static {}

impl<T: TaskItem + 'static> StaticTaskItem for T {}

/// A consumer whose end can be waited for.
pub trait AwaitableConsumer<T: TaskItem>: StaticTaskItem {
    spec fn cancelled(&self) -> bool;

    spec fn finished(&self) -> bool;

    fn is_cancelled(&self) -> (r: bool)
        ensures
            r == self.cancelled(),
    ;

    fn is_finished(&self) -> (r: bool)
        ensures
            r == self.finished(),
    ;
}

/// The code that a consumer runs for its items.
pub trait TaskDelegation<TPC: AwaitableConsumer<T>, T: StaticTaskItem>: StaticTaskItem {
    fn on_started(&self);

    fn process(&self, pc: &TPC, item: &T) -> Result<TaskResult, RmxError>;

    fn on_completed(&self, item: &T, result: &TaskResult) -> bool;

    fn on_cancelled(&self);

    fn on_finished(&self);
}

/// The end of a wait for a consumer to finish: a failed wait or a
/// cancelled consumer is cancellation, anything else success.
pub fn wait<TPC: AwaitableConsumer<T>, T: StaticTaskItem>(this: &TPC, waited: bool) -> (r: Result<(), RmxError>)
    ensures
        (!waited || this.cancelled()) ==> (r matches Err(e) && e@ == ErrorView::Canceled),
        (waited && !this.cancelled()) ==> r is Ok,
{
    if !waited {
        return Err(RmxError::Canceled);
    }
    if this.is_cancelled() {
        Err(RmxError::Canceled)
    } else {
        Ok(())
    }
}

/// The end of a wait for a consumer to finish or for a condition to hold:
/// decided as for `wait`.
pub fn wait_until<TPC: AwaitableConsumer<T>, T: StaticTaskItem>(this: &TPC, waited: bool) -> (r: Result<(), RmxError>)
    ensures
        (!waited || this.cancelled()) ==> (r matches Err(e) && e@ == ErrorView::Canceled),
        (waited && !this.cancelled()) ==> r is Ok,
{
    wait(this, waited)
}

/// The end of a wait with a time limit: no time at all, or a wait that
/// ran out, is a time-out; a cancelled consumer is cancellation.
pub fn wait_for<TPC: AwaitableConsumer<T>, T: StaticTaskItem>(this: &TPC, no_time: bool, waited: bool) -> (r: Result<(), RmxError>)
    ensures
        (no_time || !waited) ==> (r matches Err(e) && e@ == ErrorView::Timeout),
        (!no_time && waited && this.cancelled()) ==> (r matches Err(e) && e@ == ErrorView::Canceled),
        (!no_time && waited && !this.cancelled()) ==> r is Ok,
{
    if no_time || !waited {
        return Err(RmxError::Timeout);
    }
    if this.is_cancelled() {
        Err(RmxError::Canceled)
    } else {
        Ok(())
    }
}

/// The end of a wait with a time limit for a consumer to finish or for a
/// condition to hold: decided as for `wait_for`.
pub fn wait_for_until<TPC: AwaitableConsumer<T>, T: StaticTaskItem>(this: &TPC, no_time: bool, waited: bool) -> (r: Result<(), RmxError>)
    ensures
        (no_time || !waited) ==> (r matches Err(e) && e@ == ErrorView::Timeout),
        (!no_time && waited && this.cancelled()) ==> (r matches Err(e) && e@ == ErrorView::Canceled),
        (!no_time && waited && !this.cancelled()) ==> r is Ok,
{
    wait_for(this, no_time, waited)
}

/// What a timed wait for a condition has just learned.
#[derive(Debug, Clone, Copy, PartialEq, Eq)]
pub enum WaitEvent {
    /// The condition was checked: whether it holds, whether the consumer is
    /// cancelled and whether the time ran out.
    Checked { holds: bool, cancelled: bool, expired: bool },
    /// The consumer signalled; whether it is cancelled.
    Notified { cancelled: bool },
    /// A short listen ended with no signal; whether the time ran out.
    Quiet { expired: bool },
}

/// The next move of a timed wait for a condition: `None` to go on (listen
/// after a check, check again after a quiet listen), or how the wait ends.
/// A condition that holds ends it well; cancellation and running out of
/// time end it with their errors; a signal ends it, well unless the
/// consumer is cancelled.
pub fn wait_for_until_step(event: WaitEvent) -> (r: Option<Result<(), RmxError>>)
    ensures
        match event {
            WaitEvent::Checked { holds, cancelled, expired } =>
                if holds {
                    r matches Some(Ok(()))
                } else if cancelled {
                    r matches Some(Err(e)) && e@ == ErrorView::Canceled
                } else if expired {
                    r matches Some(Err(e)) && e@ == ErrorView::Timeout
                } else {
                    r is None
                },
            WaitEvent::Notified { cancelled } =>
                if cancelled {
                    r matches Some(Err(e)) && e@ == ErrorView::Canceled
                } else {
                    r matches Some(Ok(()))
                },
            WaitEvent::Quiet { expired } =>
                if expired {
                    r matches Some(Err(e)) && e@ == ErrorView::Timeout
                } else {
                    r is None
                },
        },
{
    match event {
        WaitEvent::Checked { holds, cancelled, expired } => {
            if holds {
                Some(Ok(()))
            } else if cancelled {
                Some(Err(RmxError::Canceled))
            } else if expired {
                Some(Err(RmxError::Timeout))
            } else {
                None
            }
        },
        WaitEvent::Notified { cancelled } => {
            if cancelled {
                Some(Err(RmxError::Canceled))
            } else {
                Some(Ok(()))
            }
        },
        WaitEvent::Quiet { expired } => {
            if expired {
                Some(Err(RmxError::Timeout))
            } else {
                None
            }
        },
    }
}

/// What a worker does when its own queue is empty.
#[derive(Debug, Clone, Copy, PartialEq, Eq)]
pub enum StealAction {
    /// Take nothing.
    GiveUp,
    /// Sleep for the pause time, then take nothing.
    PauseThenGiveUp,
    /// Steal from the shared queue, else from the other workers.
    Steal,
}

/// What a worker with an empty queue does: nothing once the queue is
/// cancelled, a pause when it waits for items of a paused queue, and else
/// it steals.
pub fn steal_action(cancelled: bool, wait_for_item: bool, paused: bool) -> (r: StealAction)
    ensures
        cancelled ==> r == StealAction::GiveUp,
        !cancelled && wait_for_item && paused ==> r == StealAction::PauseThenGiveUp,
        !cancelled && !(wait_for_item && paused) ==> r == StealAction::Steal,
{
    if cancelled {
        StealAction::GiveUp
    } else if wait_for_item && paused {
        StealAction::PauseThenGiveUp
    } else {
        StealAction::Steal
    }
}

/// The number of worker threads, brought into the allowed range.
pub fn clamp_threads(threads: usize) -> (r: usize)
    ensures
        THREADS_MIN <= r <= THREADS_MAX,
        THREADS_MIN <= threads <= THREADS_MAX ==> r == threads,
        threads < THREADS_MIN ==> r == THREADS_MIN,
        threads > THREADS_MAX ==> r == THREADS_MAX,
{
    if threads < THREADS_MIN {
        THREADS_MIN
    } else if threads > THREADS_MAX {
        THREADS_MAX
    } else {
        threads
    }
}

/// What a worker thread does next.
#[derive(Debug, Clone, Copy, PartialEq, Eq)]
pub enum WorkerStep {
    /// Leave the loop.
    Stop,
    /// Sleep for the pause time, then look again.
    Pause,
    /// Take the next item.
    Take,
}

/// The flags and counters of a work queue, as a value.
pub struct QueueView {
    pub threads: nat,
    pub started: bool,
    pub completed: bool,
    pub paused: bool,
    pub cancelled: bool,
    pub finished: bool,
    pub len: nat,
    pub workers: nat,
    pub running: nat,
}

/// The flags and counters of a work queue shared by its worker threads:
/// whether it started, takes no more items (completed), is paused,
/// cancelled or finished, how many items wait, how many workers are
/// alive and how many items are being processed.
#[derive(Debug, Clone)]
pub struct QueueState {
    threads: usize,
    started: bool,
    completed: bool,
    paused: bool,
    cancelled: bool,
    finished: bool,
    len: usize,
    workers: usize,
    running: usize,
}

impl View for QueueState {
    type V = QueueView;

    closed spec fn view(&self) -> QueueView {
        QueueView {
            threads: self.threads as nat,
            started: self.started,
            completed: self.completed,
            paused: self.paused,
            cancelled: self.cancelled,
            finished: self.finished,
            len: self.len as nat,
            workers: self.workers as nat,
            running: self.running as nat,
        }
    }
}

/// A fresh queue for `threads` workers, taken as given (the options that
/// choose it bring it into the allowed range).
pub open spec fn spec_new(threads: nat) -> QueueView {
    QueueView {
        threads: threads,
        started: false,
        completed: false,
        paused: false,
        cancelled: false,
        finished: false,
        len: 0,
        workers: 0,
        running: 0,
    }
}

/// Starting: refused for a cancelled queue, for a completed one with no
/// items left, and for one already started; otherwise it is started with
/// all its workers alive.
pub open spec fn spec_start(v: QueueView) -> (QueueView, Result<(), ErrorView>) {
    if v.cancelled {
        (v, Err(ErrorView::Canceled))
    } else if v.completed && v.len == 0 {
        (v, Err(ErrorView::InvalidOperation(QUEUE_COMPLETED@)))
    } else if v.started {
        (v, Err(ErrorView::InvalidOperation(QUEUE_STARTED@)))
    } else {
        (QueueView { started: true, workers: v.threads, ..v }, Ok(()))
    }
}

/// Adding an item: refused once the queue is cancelled or completed.
pub open spec fn spec_enqueue(v: QueueView) -> (QueueView, Result<(), ErrorView>) {
    if v.cancelled {
        (v, Err(ErrorView::Canceled))
    } else if v.completed {
        (v, Err(ErrorView::InvalidOperation(QUEUE_COMPLETED@)))
    } else {
        (QueueView { len: v.len + 1, ..v }, Ok(()))
    }
}

/// What a worker does next: stop once cancelled or once completed with
/// nothing left, sleep while paused, else take an item.
pub open spec fn spec_step(v: QueueView) -> WorkerStep {
    if v.cancelled || (v.len == 0 && v.completed) {
        WorkerStep::Stop
    } else if v.paused {
        WorkerStep::Pause
    } else {
        WorkerStep::Take
    }
}

/// A worker leaving: the last one to leave a completed or cancelled queue
/// finishes it (`true`).
pub open spec fn spec_worker_exit(v: QueueView) -> (QueueView, bool) {
    let w = (v.workers - 1) as nat;
    (QueueView { workers: w, ..v }, w == 0 && (v.completed || v.cancelled))
}

/// Finishing: only a completed or cancelled queue finishes; it is then
/// completed and finished (and stays marked as started).
pub open spec fn spec_finish(v: QueueView) -> QueueView {
    if !v.completed && !v.cancelled {
        v
    } else {
        QueueView { completed: true, finished: true, started: true, ..v }
    }
}

/// The invariant of a queue: a finished queue is completed and marked as
/// started.
pub open spec fn view_wf(v: QueueView) -> bool {
    v.finished ==> v.completed && v.started
}

/// What a dequeue does to the count of waiting items: one less when it
/// took an item (wrapping below zero, as an atomic counter does), the
/// same when it took nothing.
pub open spec fn spec_taken(v: QueueView, took: bool) -> QueueView {
    if took {
        QueueView { len: if v.len > 0 { (v.len - 1) as nat } else { usize::MAX as nat }, ..v }
    } else {
        v
    }
}

impl QueueState {
    /// The queue's invariant (see `view_wf`).
    pub open spec fn wf(&self) -> bool {
        view_wf(self@)
    }

    /// A fresh queue for `threads` workers.
    pub fn new(threads: usize) -> (r: Self)
        ensures
            r@ == spec_new(threads as nat),
            r.wf(),
    {
        QueueState {
            threads: threads,
            started: false,
            completed: false,
            paused: false,
            cancelled: false,
            finished: false,
            len: 0,
            workers: 0,
            running: 0,
        }
    }

    pub fn threads(&self) -> (r: usize)
        ensures
            r == self@.threads,
    {
        self.threads
    }

    pub fn is_started(&self) -> (r: bool)
        ensures
            r == self@.started,
    {
        self.started
    }

    pub fn is_completed(&self) -> (r: bool)
        ensures
            r == self@.completed,
    {
        self.completed
    }

    pub fn is_paused(&self) -> (r: bool)
        ensures
            r == self@.paused,
    {
        self.paused
    }

    pub fn is_cancelled(&self) -> (r: bool)
        ensures
            r == self@.cancelled,
    {
        self.cancelled
    }

    pub fn is_finished(&self) -> (r: bool)
        ensures
            r == self@.finished,
    {
        self.finished
    }

    /// Whether items wait or are being processed.
    pub fn is_busy(&self) -> (r: bool)
        ensures
            r == (self@.len + self@.running > 0),
    {
        self.len > 0 || self.running > 0
    }

    /// Whether no items wait.
    pub fn is_empty(&self) -> (r: bool)
        ensures
            r == (self@.len == 0),
    {
        self.len == 0
    }

    pub fn len(&self) -> (r: usize)
        ensures
            r == self@.len,
    {
        self.len
    }

    pub fn workers(&self) -> (r: usize)
        ensures
            r == self@.workers,
    {
        self.workers
    }

    pub fn running(&self) -> (r: usize)
        ensures
            r == self@.running,
    {
        self.running
    }

    /// Starts the queue (see `spec_start`).
    pub fn start(&mut self) -> (r: Result<(), RmxError>)
        requires
            old(self).wf(),
        ensures
            final(self).wf(),
            (final(self)@, crate::vpn::view_unit(r)) == spec_start(old(self)@),
    {
        if self.cancelled {
            return Err(RmxError::Canceled);
        }
        if self.completed && self.len == 0 {
            return Err(RmxError::InvalidOperation(QUEUE_COMPLETED.to_owned()));
        }
        if self.started {
            return Err(RmxError::InvalidOperation(QUEUE_STARTED.to_owned()));
        }
        self.started = true;
        self.workers = self.threads;
        Ok(())
    }

    /// Counts one more waiting item (see `spec_enqueue`).
    pub fn enqueue(&mut self) -> (r: Result<(), RmxError>)
        requires
            old(self).wf(),
            old(self)@.len < usize::MAX,
        ensures
            final(self).wf(),
            (final(self)@, crate::vpn::view_unit(r)) == spec_enqueue(old(self)@),
    {
        if self.cancelled {
            return Err(RmxError::Canceled);
        }
        if self.completed {
            return Err(RmxError::InvalidOperation(QUEUE_COMPLETED.to_owned()));
        }
        self.len = self.len + 1;
        Ok(())
    }

    /// Counts one waiting item as taken by a worker.
    pub fn dequeued(&mut self)
        requires
            old(self).wf(),
            old(self)@.len > 0,
        ensures
            final(self).wf(),
            final(self)@ == (QueueView { len: (old(self)@.len - 1) as nat, ..old(self)@ }),
    {
        self.len = self.len - 1;
    }

    /// Counts what a dequeue took (see `spec_taken`) and hands the item on.
    pub fn taken<T>(&mut self, item: Option<T>) -> (r: Option<T>)
        requires
            old(self).wf(),
        ensures
            final(self).wf(),
            r == item,
            final(self)@ == spec_taken(old(self)@, item is Some),
    {
        if item.is_some() {
            self.len = if self.len > 0 { self.len - 1 } else { usize::MAX };
        }
        item
    }

    /// What a worker does next (see `spec_step`).
    pub fn step(&self) -> (r: WorkerStep)
        ensures
            r == spec_step(self@),
    {
        if self.cancelled || (self.len == 0 && self.completed) {
            WorkerStep::Stop
        } else if self.paused {
            WorkerStep::Pause
        } else {
            WorkerStep::Take
        }
    }

    /// Counts one more item being processed.
    pub fn inc_running(&mut self)
        requires
            old(self).wf(),
            old(self)@.running < usize::MAX,
        ensures
            final(self).wf(),
            final(self)@ == (QueueView { running: old(self)@.running + 1, ..old(self)@ }),
    {
        self.running = self.running + 1;
    }

    /// Counts one item less being processed.
    pub fn dec_running(&mut self)
        requires
            old(self).wf(),
            old(self)@.running > 0,
        ensures
            final(self).wf(),
            final(self)@ == (QueueView { running: (old(self)@.running - 1) as nat, ..old(self)@ }),
    {
        self.running = self.running - 1;
    }

    /// A worker leaves (see `spec_worker_exit`).
    pub fn dec_workers(&mut self) -> (r: bool)
        requires
            old(self).wf(),
            old(self)@.workers > 0,
        ensures
            final(self).wf(),
            (final(self)@, r) == spec_worker_exit(old(self)@),
    {
        self.workers = self.workers - 1;
        self.workers == 0 && (self.completed || self.cancelled)
    }

    /// Marks a completed or cancelled queue finished (see `spec_finish`).
    pub fn finish(&mut self)
        requires
            old(self).wf(),
        ensures
            final(self).wf(),
            final(self)@ == spec_finish(old(self)@),
    {
        if !self.completed && !self.cancelled {
            return;
        }
        self.completed = true;
        self.finished = true;
        self.started = true;
    }

    /// Forgets every waiting item.
    pub fn clear(&mut self)
        requires
            old(self).wf(),
        ensures
            final(self).wf(),
            final(self)@ == (QueueView { len: 0, ..old(self)@ }),
    {
        self.len = 0;
    }

    /// Takes no more items; the workers stop once the waiting ones are done.
    pub fn complete(&mut self)
        requires
            old(self).wf(),
        ensures
            final(self).wf(),
            final(self)@ == (QueueView { completed: true, ..old(self)@ }),
    {
        self.completed = true;
    }

    /// Stops the queue at once.
    pub fn cancel(&mut self)
        requires
            old(self).wf(),
        ensures
            final(self).wf(),
            final(self)@ == (QueueView { cancelled: true, ..old(self)@ }),
    {
        self.cancelled = true;
    }

    /// Cancels the queue when `enforce` is set, else completes it.
    pub fn stop(&mut self, enforce: bool)
        requires
            old(self).wf(),
        ensures
            final(self).wf(),
            enforce ==> final(self)@ == (QueueView { cancelled: true, ..old(self)@ }),
            !enforce ==> final(self)@ == (QueueView { completed: true, ..old(self)@ }),
    {
        if enforce {
            self.cancel();
        } else {
            self.complete();
        }
    }

    pub fn pause(&mut self)
        requires
            old(self).wf(),
        ensures
            final(self).wf(),
            final(self)@ == (QueueView { paused: true, ..old(self)@ }),
    {
        self.paused = true;
    }

    pub fn resume(&mut self)
        requires
            old(self).wf(),
        ensures
            final(self).wf(),
            final(self)@ == (QueueView { paused: false, ..old(self)@ }),
    {
        self.paused = false;
    }
}

impl<T: TaskItem> AwaitableConsumer<T> for QueueState {
    open spec fn cancelled(&self) -> bool {
        self@.cancelled
    }

    open spec fn finished(&self) -> bool {
        self@.finished
    }

    fn is_cancelled(&self) -> (r: bool) {
        self.cancelled
    }

    fn is_finished(&self) -> (r: bool) {
        self.finished
    }
}

/// A queue starts at most once: after a start that succeeded, starting
/// again is refused.
pub proof fn law_start_once(v: QueueView)
    requires
        spec_start(v).1 is Ok,
    ensures
        spec_start(spec_start(v).0).1 is Err,
{
}

/// A cancelled queue refuses to start and to take items, and a worker of
/// it stops.
pub proof fn law_cancel_stops(v: QueueView)
    ensures
        spec_start(QueueView { cancelled: true, ..v }).1 == Err::<(), ErrorView>(ErrorView::Canceled),
        spec_enqueue(QueueView { cancelled: true, ..v }).1 == Err::<(), ErrorView>(ErrorView::Canceled),
        spec_step(QueueView { cancelled: true, ..v }) == WorkerStep::Stop,
{
}

/// A completed queue takes no more items, and once its waiting items are
/// gone its workers stop.
pub proof fn law_complete_drains(v: QueueView)
    requires
        !v.cancelled,
    ensures
        spec_enqueue(QueueView { completed: true, ..v }).1 is Err,
        spec_step(QueueView { completed: true, len: 0, ..v }) == WorkerStep::Stop,
{
}

/// A finished queue never starts again.
pub proof fn law_finished_stays_down(v: QueueView)
    requires
        view_wf(v),
        v.finished,
    ensures
        spec_start(v).1 is Err,
        spec_start(v).0 == v,
{
}

/// Every operation keeps the invariant of a queue.
pub proof fn law_ops_keep_wf(v: QueueView)
    requires
        view_wf(v),
    ensures
        view_wf(spec_start(v).0),
        view_wf(spec_enqueue(v).0),
        view_wf(spec_finish(v)),
        v.workers > 0 ==> view_wf(spec_worker_exit(v).0),
{
}

/// Taking an item undoes adding one: after an item is accepted, a
/// dequeue that takes one leaves the count as it was, and a dequeue that
/// takes nothing changes nothing.
pub proof fn law_dequeue_counts(v: QueueView)
    requires
        spec_enqueue(v).1 is Ok,
    ensures
        spec_taken(spec_enqueue(v).0, true) == v,
        spec_taken(v, false) == v,
        v.len > 0 ==> spec_taken(v, true).len == v.len - 1,
{
}

/// A worker leaving takes one worker away and changes nothing else; it is
/// told to finish the queue exactly when it is the last worker and the
/// queue is completed or cancelled, so a queue that is neither is never
/// finished by a leaving worker, however few workers are left.
pub proof fn law_worker_exit(v: QueueView)
    requires
        v.workers > 0,
    ensures
        spec_worker_exit(v).0.workers == v.workers - 1,
        spec_worker_exit(v).0 == (QueueView { workers: (v.workers - 1) as nat, ..v }),
        !v.completed && !v.cancelled ==> !spec_worker_exit(v).1,
        spec_worker_exit(v).1 <==> (v.workers == 1 && (v.completed || v.cancelled)),
{
}

/// Refused operations change nothing.
pub proof fn law_refusal_keeps_state(v: QueueView)
    ensures
        spec_start(v).1 is Err ==> spec_start(v).0 == v,
        spec_enqueue(v).1 is Err ==> spec_enqueue(v).0 == v,
{
}

/// Finishing takes effect only for a completed or cancelled queue, and
/// finishing twice is finishing once.
pub proof fn law_finish(v: QueueView)
    ensures
        (!v.completed && !v.cancelled) ==> !spec_finish(v).finished || v.finished,
        (v.completed || v.cancelled) ==> spec_finish(v).finished && spec_finish(v).completed,
        spec_finish(spec_finish(v)) == spec_finish(v),
{
}

/// Once cancelled, a queue stays cancelled through every operation, and
/// once completed it stays completed.
pub proof fn law_flags_stay(v: QueueView)
    ensures
        v.cancelled ==> spec_start(v).0.cancelled && spec_enqueue(v).0.cancelled
            && spec_finish(v).cancelled && spec_worker_exit(v).0.cancelled,
        v.completed ==> spec_start(v).0.completed && spec_enqueue(v).0.completed
            && spec_finish(v).completed && spec_worker_exit(v).0.completed,
{
}

/// The text of the error for a spinner used after it finished.
pub const ERR_FINISHED: &'static str = "Spinner is already finished. Try resseting it.";

/// A spinner acts only while it has not finished.
pub fn check_running(is_finished: bool) -> (r: Result<(), RmxError>)
    ensures
        is_finished ==> (r matches Err(e) && e@ == ErrorView::InvalidOperation(ERR_FINISHED@)),
        !is_finished ==> r is Ok,
{
    if is_finished {
        return Err(RmxError::InvalidOperation(ERR_FINISHED.to_owned()));
    }
    Ok(())
}

/// Whether a spinner has finished: it finishes once, and a reset lets it
/// run again.
#[derive(Debug, Clone, Copy, PartialEq, Eq)]
pub struct SpinnerState {
    pub finished: bool,
}

impl SpinnerState {
    /// A spinner that runs.
    pub fn new() -> (r: Self)
        ensures
            !r.finished,
    {
        SpinnerState { finished: false }
    }

    /// Finishes the spinner (stopping, clearing or abandoning it alike);
    /// refused when it has already finished, which then stays as it is.
    pub fn finish(&mut self) -> (r: Result<(), RmxError>)
        ensures
            old(self).finished ==> (r matches Err(e) && e@ == ErrorView::InvalidOperation(ERR_FINISHED@))
                && final(self).finished,
            !old(self).finished ==> r is Ok && final(self).finished,
    {
        match check_running(self.finished) {
            Err(e) => Err(e),
            Ok(()) => {
                self.finished = true;
                Ok(())
            },
        }
    }

    /// Resets the spinner so that it runs again; whether its bar must be
    /// cleared first (it had not finished).
    pub fn reset(&mut self) -> (r: bool)
        ensures
            r == !old(self).finished,
            !final(self).finished,
    {
        let clear = !self.finished;
        self.finished = false;
        clear
    }
}

/// Code told of the progress of a long operation.
pub trait CallbackHandler<T> {
    fn starting(&self);

    fn update(&self, data: T);

    fn completed(&self);
}

} // verus!
