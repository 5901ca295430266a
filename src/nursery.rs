use tokio::runtime::Handle;
use vstd::prelude::*;

use crate::future::{FutureState, Settled};

verus! {

/// Why waiting on a future gave no value.
pub enum WaitError<E> {
    /// The future was cancelled.
    Cancelled,
    /// The future holds this exception.
    Raised(E),
}

/// What a waiter resolves with once the future is done: the cancellation error
/// first, then the stored exception, then the stored value.
pub open spec fn wait_outcome<R, E>(f: FutureState<R, E>) -> Option<Result<R, WaitError<E>>> {
    match f.settled() {
        Some(Settled::Cancelled) => Some(Err(WaitError::Cancelled)),
        Some(Settled::Raised(e)) => Some(Err(WaitError::Raised(e))),
        Some(Settled::Value(r)) => Some(Ok(r)),
        None => None,
    }
}

/// The question that the completion callback asks the future next.
#[derive(Debug, Clone, Copy, PartialEq, Eq, Structural)]
pub enum ProbePhase {
    AskCancelled,
    AskException,
    AskResult,
    Replied,
}

/// The future's answer to the current question.
pub enum ProbeEvent<R, E> {
    Cancelled(bool),
    Exception(Option<E>),
    Result(R),
}

/// What the callback does next.
pub enum ProbeAction<R, E> {
    AskException,
    AskResult,
    /// Send this to the waiter; the callback is done.
    Reply(Result<R, WaitError<E>>),
}

/// Whether `event` answers the question of `phase`.
pub open spec fn probe_accepts<R, E>(phase: ProbePhase, event: ProbeEvent<R, E>) -> bool {
    match (phase, event) {
        (ProbePhase::AskCancelled, ProbeEvent::Cancelled(_)) => true,
        (ProbePhase::AskException, ProbeEvent::Exception(_)) => true,
        (ProbePhase::AskResult, ProbeEvent::Result(_)) => true,
        _ => false,
    }
}

/// The callback asks whether the future was cancelled, then for its exception,
/// then for its result, and replies with the first of these that it finds.
pub open spec fn probe_step<R, E>(event: ProbeEvent<R, E>) -> (ProbePhase, ProbeAction<R, E>) {
    match event {
        ProbeEvent::Cancelled(true) => (ProbePhase::Replied, ProbeAction::Reply(Err(WaitError::Cancelled))),
        ProbeEvent::Cancelled(false) => (ProbePhase::AskException, ProbeAction::AskException),
        ProbeEvent::Exception(Some(e)) => (ProbePhase::Replied, ProbeAction::Reply(Err(WaitError::Raised(e)))),
        ProbeEvent::Exception(None) => (ProbePhase::AskResult, ProbeAction::AskResult),
        ProbeEvent::Result(r) => (ProbePhase::Replied, ProbeAction::Reply(Ok(r))),
    }
}

/// The completion callback that a waiter registers on a future.
pub struct WaitProbe {
    pub phase: ProbePhase,
}

impl WaitProbe {
    pub fn new() -> (r: Self)
        ensures
            r.phase is AskCancelled,
    {
        WaitProbe { phase: ProbePhase::AskCancelled }
    }

    /// Takes the answer to the current question and says what to do next.
    pub fn step<R, E>(&mut self, event: ProbeEvent<R, E>) -> (r: ProbeAction<R, E>)
        requires
            probe_accepts(old(self).phase, event),
        ensures
            (final(self).phase, r) == probe_step(event),
    {
        let (phase, action) = match event {
            ProbeEvent::Cancelled(true) => (ProbePhase::Replied, ProbeAction::Reply(Err(WaitError::Cancelled))),
            ProbeEvent::Cancelled(false) => (ProbePhase::AskException, ProbeAction::AskException),
            ProbeEvent::Exception(Some(e)) => (ProbePhase::Replied, ProbeAction::Reply(Err(WaitError::Raised(e)))),
            ProbeEvent::Exception(None) => (ProbePhase::AskResult, ProbeAction::AskResult),
            ProbeEvent::Result(r) => (ProbePhase::Replied, ProbeAction::Reply(Ok(r))),
        };
        self.phase = phase;
        action
    }
}

/// How a done future answers each question: `cancelled()`, `exception()` and,
/// for a future that holds a value, `result()`.
pub open spec fn answer<R, E>(phase: ProbePhase, f: FutureState<R, E>) -> ProbeEvent<R, E> {
    match phase {
        ProbePhase::AskCancelled => ProbeEvent::Cancelled(f.is_cancelled()),
        ProbePhase::AskException => ProbeEvent::Exception(
            match f {
                FutureState::Finished(Err(e)) => Some(e),
                _ => None,
            },
        ),
        _ => ProbeEvent::Result(
            match f {
                FutureState::Finished(Ok(r)) => r,
                _ => arbitrary(),
            },
        ),
    }
}

/// What the callback sends when the future answers its questions, within
/// `fuel` questions; `None` if it has not replied by then.
pub open spec fn probe_run<R, E>(phase: ProbePhase, f: FutureState<R, E>, fuel: nat) -> Option<Result<R, WaitError<E>>>
    decreases fuel,
{
    if fuel == 0 {
        None
    } else {
        let (next, action) = probe_step(answer(phase, f));
        match action {
            ProbeAction::Reply(outcome) => Some(outcome),
            _ => probe_run(next, f, (fuel - 1) as nat),
        }
    }
}

/// On a done future the callback replies within three questions, each of which
/// the future accepts, and a waiter resolves with the cancellation error if and
/// only if the future was cancelled; otherwise with its exception, else its
/// value.
pub proof fn lemma_wait_resolves<R, E>(f: FutureState<R, E>)
    requires
        f.is_done(),
    ensures
        probe_run(ProbePhase::AskCancelled, f, 3) == wait_outcome(f),
        wait_outcome(f) matches Some(Err(WaitError::Cancelled)) <==> f.is_cancelled(),
        f matches FutureState::Finished(Err(e)) ==> wait_outcome(f) == Some(Err::<R, WaitError<E>>(WaitError::Raised(e))),
        f matches FutureState::Finished(Ok(r)) ==> wait_outcome(f) == Some(Ok::<R, WaitError<E>>(r)),
{
    reveal_with_fuel(probe_run, 4);
}

/// Turns the futures of another concurrency domain into awaitable results.
pub struct FutureNursery {
    runtime: Handle,
}

impl FutureNursery {
    pub fn new(runtime: Handle) -> Self {
        FutureNursery { runtime }
    }

    pub fn runtime(&self) -> &Handle {
        &self.runtime
    }
}

} // verus!
