use vstd::prelude::*;

verus! {

/// The state of a concurrent future: `pending -> running -> finished`, or
/// `pending -> cancelled`. A cancelled future whose worker has seen the
/// cancellation is `CancelledAndNotified`.
pub enum FutureState<R, E> {
    Pending,
    Running,
    Cancelled,
    CancelledAndNotified,
    Finished(Result<R, E>),
}

/// Why a transition was refused by the future.
#[derive(Debug, Clone, Copy, PartialEq, Eq, Structural)]
pub enum FutureError {
    /// `set_result` / `set_exception` on a future that is already done.
    InvalidState,
    /// `set_running_or_notify_cancel` on a future that is neither pending nor cancelled.
    NotPending,
}

/// What an observer of a done future sees: exactly one of these.
pub enum Settled<R, E> {
    Value(R),
    Raised(E),
    Cancelled,
}

impl<R, E> FutureState<R, E> {
    pub open spec fn is_cancelled(self) -> bool {
        self is Cancelled || self is CancelledAndNotified
    }

    pub open spec fn is_done(self) -> bool {
        self.is_cancelled() || self is Finished
    }

    /// `cancel()`: a pending future becomes cancelled; a running or finished one
    /// refuses; a cancelled one stays cancelled. Returns whether it is cancelled.
    pub open spec fn cancel_spec(self) -> (Self, bool) {
        match self {
            FutureState::Pending => (FutureState::Cancelled, true),
            FutureState::Running => (self, false),
            FutureState::Finished(_) => (self, false),
            _ => (self, true),
        }
    }

    /// `set_running_or_notify_cancel()`: `Ok(true)` when the worker may run,
    /// `Ok(false)` when the future was cancelled before it started.
    pub open spec fn set_running_spec(self) -> (Self, Result<bool, FutureError>) {
        match self {
            FutureState::Pending => (FutureState::Running, Ok(true)),
            FutureState::Cancelled => (FutureState::CancelledAndNotified, Ok(false)),
            _ => (self, Err(FutureError::NotPending)),
        }
    }

    /// `set_result(r)` / `set_exception(e)`: settles a future that is not done yet.
    pub open spec fn settle_spec(self, outcome: Result<R, E>) -> (Self, Result<(), FutureError>) {
        if self.is_done() {
            (self, Err(FutureError::InvalidState))
        } else {
            (FutureState::Finished(outcome), Ok(()))
        }
    }

    /// What an observer reads from the future; `None` while it is not done.
    pub open spec fn settled(self) -> Option<Settled<R, E>> {
        match self {
            FutureState::Pending => None,
            FutureState::Running => None,
            FutureState::Finished(Ok(r)) => Some(Settled::Value(r)),
            FutureState::Finished(Err(e)) => Some(Settled::Raised(e)),
            _ => Some(Settled::Cancelled),
        }
    }

    /// A fresh future is pending.
    pub fn new() -> (r: Self)
        ensures
            r is Pending,
    {
        FutureState::Pending
    }

    pub fn cancelled(&self) -> (r: bool)
        ensures
            r == self.is_cancelled(),
    {
        match self {
            FutureState::Cancelled | FutureState::CancelledAndNotified => true,
            _ => false,
        }
    }

    pub fn running(&self) -> (r: bool)
        ensures
            r == (*self is Running),
    {
        match self {
            FutureState::Running => true,
            _ => false,
        }
    }

    pub fn done(&self) -> (r: bool)
        ensures
            r == self.is_done(),
    {
        match self {
            FutureState::Pending | FutureState::Running => false,
            _ => true,
        }
    }

    pub fn cancel(&mut self) -> (r: bool)
        ensures
            (*final(self), r) == old(self).cancel_spec(),
    {
        match self {
            FutureState::Pending => {
                *self = FutureState::Cancelled;
                true
            },
            FutureState::Running | FutureState::Finished(_) => false,
            _ => true,
        }
    }

    pub fn set_running_or_notify_cancel(&mut self) -> (r: Result<bool, FutureError>)
        ensures
            (*final(self), r) == old(self).set_running_spec(),
    {
        match self {
            FutureState::Pending => {
                *self = FutureState::Running;
                Ok(true)
            },
            FutureState::Cancelled => {
                *self = FutureState::CancelledAndNotified;
                Ok(false)
            },
            _ => Err(FutureError::NotPending),
        }
    }

    pub fn set_result(&mut self, result: R) -> (r: Result<(), FutureError>)
        ensures
            (*final(self), r) == old(self).settle_spec(Ok(result)),
    {
        self.settle(Ok(result))
    }

    pub fn set_exception(&mut self, exception: E) -> (r: Result<(), FutureError>)
        ensures
            (*final(self), r) == old(self).settle_spec(Err(exception)),
    {
        self.settle(Err(exception))
    }

    fn settle(&mut self, outcome: Result<R, E>) -> (r: Result<(), FutureError>)
        ensures
            (*final(self), r) == old(self).settle_spec(outcome),
    {
        if self.done() {
            Err(FutureError::InvalidState)
        } else {
            *self = FutureState::Finished(outcome);
            Ok(())
        }
    }

    /// Takes what an observer sees; `None` while the future is not done.
    pub fn into_settled(self) -> (r: Option<Settled<R, E>>)
        ensures
            r == self.settled(),
    {
        match self {
            FutureState::Pending | FutureState::Running => None,
            FutureState::Finished(Ok(v)) => Some(Settled::Value(v)),
            FutureState::Finished(Err(e)) => Some(Settled::Raised(e)),
            _ => Some(Settled::Cancelled),
        }
    }
}

/// A done future is final: no operation changes it, and it shows exactly one of
/// a value, an exception or a cancellation; one that is not done shows none.
pub proof fn lemma_done_is_final<R, E>(f: FutureState<R, E>, outcome: Result<R, E>, v: R, x: E)
    ensures
        f.is_done() ==> f.cancel_spec().0 == f,
        f.is_done() ==> f.settle_spec(outcome) == (f, Err::<(), FutureError>(FutureError::InvalidState)),
        f.is_done() ==> f.set_running_spec().0.is_done(),
        f.is_done() ==> f.set_running_spec().0.settled() == f.settled(),
        f.is_done() <==> f.settled() is Some,
        f.settled() matches Some(Settled::Cancelled) <==> f.is_cancelled(),
        f.settled() == Some(Settled::<R, E>::Value(v)) <==> f == FutureState::<R, E>::Finished(Ok(v)),
        f.settled() == Some(Settled::<R, E>::Raised(x)) <==> f == FutureState::<R, E>::Finished(Err(x)),
{
}

} // verus!
