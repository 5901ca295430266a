use vstd::prelude::*;

use crate::executor::CancelFutures;
use crate::future::FutureState;

verus! {

/// Where a submitted task stands: each phase but `Start` and `Finished` waits
/// for the reply to the action that it issued.
#[derive(Debug, Clone, Copy, PartialEq, Eq, Structural)]
pub enum WorkerPhase {
    Start,
    Cancelling,
    MarkingRunning,
    Running,
    Settling,
    Finished,
}

/// What the task learns: the shutdown flag when it starts, then the reply to
/// each action.
pub enum WorkerEvent<R, E> {
    Begin(CancelFutures),
    CancelDone,
    MarkedRunning(bool),
    WorkDone(Result<R, E>),
    SettleDone,
}

/// What the task asks to be done next on its future.
pub enum WorkerAction<R, E> {
    /// `cancel()` the future: the pool was shut down with cancellation.
    Cancel,
    /// `set_running_or_notify_cancel()`.
    MarkRunning,
    /// Run the submitted work.
    Run,
    /// `set_result` / `set_exception` with the work's outcome.
    Settle(Result<R, E>),
    /// Nothing more: the guard is disarmed.
    Finish,
}

/// Whether `event` is the reply that `phase` waits for.
pub open spec fn accepts<R, E>(phase: WorkerPhase, event: WorkerEvent<R, E>) -> bool {
    match (phase, event) {
        (WorkerPhase::Start, WorkerEvent::Begin(_)) => true,
        (WorkerPhase::Cancelling, WorkerEvent::CancelDone) => true,
        (WorkerPhase::MarkingRunning, WorkerEvent::MarkedRunning(_)) => true,
        (WorkerPhase::Running, WorkerEvent::WorkDone(_)) => true,
        (WorkerPhase::Settling, WorkerEvent::SettleDone) => true,
        _ => false,
    }
}

/// The task's script: on start, cancel the future if the pool asked for it,
/// else mark it running; run the work only if that succeeded; then settle the
/// future with the outcome.
pub open spec fn worker_step<R, E>(phase: WorkerPhase, event: WorkerEvent<R, E>) -> (WorkerPhase, WorkerAction<R, E>) {
    match event {
        WorkerEvent::Begin(CancelFutures::True) => (WorkerPhase::Cancelling, WorkerAction::Cancel),
        WorkerEvent::Begin(_) => (WorkerPhase::MarkingRunning, WorkerAction::MarkRunning),
        WorkerEvent::MarkedRunning(true) => (WorkerPhase::Running, WorkerAction::Run),
        WorkerEvent::WorkDone(outcome) => (WorkerPhase::Settling, WorkerAction::Settle(outcome)),
        _ => (WorkerPhase::Finished, WorkerAction::Finish),
    }
}

/// The guard that settles the future when the task is dropped stays armed until
/// the task has finished.
pub open spec fn guard_armed(phase: WorkerPhase) -> bool {
    !(phase is Finished)
}

/// One submitted task's progress.
pub struct Worker {
    pub phase: WorkerPhase,
}

impl Worker {
    pub fn new() -> (r: Self)
        ensures
            r.phase is Start,
    {
        Worker { phase: WorkerPhase::Start }
    }

    /// Takes the reply that the current phase waits for and says what to do next.
    pub fn step<R, E>(&mut self, event: WorkerEvent<R, E>) -> (r: WorkerAction<R, E>)
        requires
            accepts(old(self).phase, event),
        ensures
            (final(self).phase, r) == worker_step(old(self).phase, event),
    {
        let (phase, action) = match event {
            WorkerEvent::Begin(CancelFutures::True) => (WorkerPhase::Cancelling, WorkerAction::Cancel),
            WorkerEvent::Begin(_) => (WorkerPhase::MarkingRunning, WorkerAction::MarkRunning),
            WorkerEvent::MarkedRunning(true) => (WorkerPhase::Running, WorkerAction::Run),
            WorkerEvent::WorkDone(outcome) => (WorkerPhase::Settling, WorkerAction::Settle(outcome)),
            _ => (WorkerPhase::Finished, WorkerAction::Finish),
        };
        self.phase = phase;
        action
    }

    /// Whether dropping the task now must settle its future as cancelled.
    pub fn guard_armed(&self) -> (r: bool)
        ensures
            r == guard_armed(self.phase),
    {
        match self.phase {
            WorkerPhase::Finished => false,
            _ => true,
        }
    }
}

/// What performing `action` does to the future.
pub open spec fn effect<R, E>(f: FutureState<R, E>, action: WorkerAction<R, E>) -> FutureState<R, E> {
    match action {
        WorkerAction::Cancel => f.cancel_spec().0,
        WorkerAction::MarkRunning => f.set_running_spec().0,
        WorkerAction::Settle(outcome) => f.settle_spec(outcome).0,
        _ => f,
    }
}

/// The reply that `phase` gets, from the flag at start, from the future after
/// `set_running_or_notify_cancel`, and from the work's `outcome`.
pub open spec fn reply<R, E>(
    phase: WorkerPhase,
    f: FutureState<R, E>,
    flag: CancelFutures,
    outcome: Result<R, E>,
) -> WorkerEvent<R, E> {
    match phase {
        WorkerPhase::Start => WorkerEvent::Begin(flag),
        WorkerPhase::Cancelling => WorkerEvent::CancelDone,
        WorkerPhase::MarkingRunning => WorkerEvent::MarkedRunning(f is Running),
        WorkerPhase::Running => WorkerEvent::WorkDone(outcome),
        _ => WorkerEvent::SettleDone,
    }
}

/// One step of a task together with its future: the task takes its reply, and
/// the action it issues is performed on the future.
pub open spec fn task_step<R, E>(
    phase: WorkerPhase,
    f: FutureState<R, E>,
    flag: CancelFutures,
    outcome: Result<R, E>,
) -> (WorkerPhase, FutureState<R, E>) {
    let (next, action) = worker_step(phase, reply(phase, f, flag, outcome));
    (next, effect(f, action))
}

/// How a task's phase and its future relate, whatever others do to the future
/// by cancelling it.
pub open spec fn task_inv<R, E>(phase: WorkerPhase, f: FutureState<R, E>) -> bool {
    match phase {
        WorkerPhase::Start => f is Pending || f is Cancelled,
        WorkerPhase::Cancelling => f.is_cancelled(),
        WorkerPhase::MarkingRunning => f is Running || f is CancelledAndNotified,
        WorkerPhase::Running => f is Running,
        WorkerPhase::Settling => f is Finished,
        WorkerPhase::Finished => f.is_done(),
    }
}

/// A fresh task beside a fresh future satisfies the invariant.
pub proof fn lemma_task_inv_init<R, E>(f: FutureState<R, E>)
    requires
        f is Pending,
    ensures
        task_inv(WorkerPhase::Start, f),
{
}

/// Every step of an unfinished task keeps the invariant, whatever the flag and
/// the work's outcome.
pub proof fn lemma_task_step_keeps_inv<R, E>(
    phase: WorkerPhase,
    f: FutureState<R, E>,
    flag: CancelFutures,
    outcome: Result<R, E>,
)
    requires
        task_inv(phase, f),
        !(phase is Finished),
    ensures
        accepts(phase, reply(phase, f, flag, outcome)),
        task_inv(task_step(phase, f, flag, outcome).0, task_step(phase, f, flag, outcome).1),
{
}

/// Cancelling the future from outside, at any point of the task, keeps the
/// invariant.
pub proof fn lemma_outside_cancel_keeps_inv<R, E>(phase: WorkerPhase, f: FutureState<R, E>)
    requires
        task_inv(phase, f),
    ensures
        task_inv(phase, f.cancel_spec().0),
{
}

/// The task never asks `set_running_or_notify_cancel` of a future that would
/// refuse it, nor settles a future that is already done.
pub proof fn lemma_task_actions_accepted<R, E>(
    phase: WorkerPhase,
    f: FutureState<R, E>,
    flag: CancelFutures,
    outcome: Result<R, E>,
)
    requires
        task_inv(phase, f),
        !(phase is Finished),
    ensures
        worker_step(phase, reply(phase, f, flag, outcome)).1 is MarkRunning ==> f.set_running_spec().1 is Ok,
        worker_step(phase, reply(phase, f, flag, outcome)).1 is Settle ==> !f.is_done(),
{
}

/// After a shutdown that cancels pending work, a task that had not started
/// leaves its future cancelled within two steps, without running the work.
pub proof fn lemma_cancel_pending_task<R, E>(f: FutureState<R, E>, outcome: Result<R, E>)
    requires
        task_inv(WorkerPhase::Start, f),
    ensures
        ({
            let (p1, f1) = task_step(WorkerPhase::Start, f, CancelFutures::True, outcome);
            let (p2, f2) = task_step(p1, f1, CancelFutures::True, outcome);
            &&& p1 is Cancelling
            &&& f1.is_cancelled()
            &&& p2 is Finished
            &&& f2 == f1
        }),
{
}

/// A task whose future is already running completes normally, whatever the
/// flag says: the future ends holding the work's outcome.
pub proof fn lemma_running_task_completes<R, E>(
    f: FutureState<R, E>,
    flag: CancelFutures,
    outcome: Result<R, E>,
)
    requires
        task_inv(WorkerPhase::Running, f),
    ensures
        ({
            let (p1, f1) = task_step(WorkerPhase::Running, f, flag, outcome);
            let (p2, f2) = task_step(p1, f1, flag, outcome);
            &&& f1 == FutureState::<R, E>::Finished(outcome)
            &&& p2 is Finished
            &&& f2 == f1
        }),
{
}

/// Dropping a task at any point leaves its future done: either the task had
/// finished, and the future was done already, or the armed guard settles it
/// with the cancellation error `e`.
pub proof fn lemma_abandoned_task_settles<R, E>(phase: WorkerPhase, f: FutureState<R, E>, e: E)
    requires
        task_inv(phase, f),
    ensures
        guard_armed(phase) ==> f.settle_spec(Err(e)).0.is_done(),
        !guard_armed(phase) ==> f.is_done(),
{
}

} // verus!
