use std::sync::Arc;

use crossbeam::atomic::AtomicCell;
use tokio::runtime::Handle;
use tokio_util::task::TaskTracker;
use vstd::prelude::*;

verus! {

/// crossbeam's `AtomicCell`, carried opaquely.
#[verifier::external_type_specification]
#[verifier::external_body]
#[verifier::reject_recursive_types(T)]
pub struct ExAtomicCell<T>(AtomicCell<T>);

/// tokio-util's `TaskTracker`, carried opaquely.
#[verifier::external_type_specification]
#[verifier::external_body]
pub struct ExTaskTracker(TaskTracker);

/// tokio's runtime `Handle`, carried opaquely.
#[verifier::external_type_specification]
#[verifier::external_body]
pub struct ExHandle(Handle);

/// Relies on crossbeam's `AtomicCell::new`: a cell holding `val`, shared by
/// whoever holds it afterwards, so nothing is stated of later reads.
pub assume_specification<T>[ AtomicCell::<T>::new ](val: T) -> AtomicCell<T>;

/// Relies on crossbeam's `AtomicCell::load`: the value of a cell that other
/// threads may write, so nothing is stated of it.
pub assume_specification<T: Copy>[ AtomicCell::<T>::load ](cell: &AtomicCell<T>) -> T;

/// Relies on crossbeam's `AtomicCell::compare_exchange`: stores `new` if the cell
/// holds a value that `T::eq` finds equal to `current`, and tells by `Ok` or `Err`
/// whether it did. Nothing is stated of the values returned: the cell is shared,
/// and `T::eq` need not agree with equality in specifications.
pub assume_specification<T: Copy + Eq>[ AtomicCell::<T>::compare_exchange ](
    cell: &AtomicCell<T>,
    current: T,
    new: T,
) -> Result<T, T>;

/// Relies on tokio-util's `TaskTracker::new`: an open tracker with no tasks.
pub assume_specification[ TaskTracker::new ]() -> TaskTracker;

/// Relies on tokio-util's `TaskTracker::close`: lets `wait` complete once the
/// tracked tasks are done; the result only tells whether this call closed it.
pub assume_specification[ TaskTracker::close ](tracker: &TaskTracker) -> bool;

/// The pool's shutdown flag: not requested yet, requested with cancellation of
/// the tasks that have not started, or requested with draining them.
#[derive(Debug, Clone, Copy, PartialEq, Eq, Structural)]
pub enum CancelFutures {
    NoSet,
    True,
    False,
}

/// The flag that a shutdown request with `cancel_futures` asks for.
pub open spec fn requested(cancel_futures: bool) -> CancelFutures {
    if cancel_futures {
        CancelFutures::True
    } else {
        CancelFutures::False
    }
}

/// A shutdown request on `flag`: only the first one takes effect. The result is
/// the new flag and whether this request took effect.
pub open spec fn shutdown_transition(flag: CancelFutures, cancel_futures: bool) -> (CancelFutures, bool) {
    if flag is NoSet {
        (requested(cancel_futures), true)
    } else {
        (flag, false)
    }
}

impl CancelFutures {
    pub fn requested(cancel_futures: bool) -> (r: CancelFutures)
        ensures
            r == requested(cancel_futures),
    {
        if cancel_futures {
            CancelFutures::True
        } else {
            CancelFutures::False
        }
    }

    /// Applies a shutdown request to the flag; returns whether it took effect.
    pub fn shutdown(&mut self, cancel_futures: bool) -> (r: bool)
        ensures
            (*final(self), r) == shutdown_transition(*old(self), cancel_futures),
    {
        match self {
            CancelFutures::NoSet => {
                *self = CancelFutures::requested(cancel_futures);
                true
            },
            _ => false,
        }
    }

    /// New work may be submitted only before any shutdown request.
    pub fn accepts_work(self) -> (r: bool)
        ensures
            r == (self is NoSet),
    {
        self == CancelFutures::NoSet
    }
}

/// Whether the atomic exchange of a shutdown request took effect, from what the
/// exchange returned.
pub fn exchange_took_effect(exchanged: Result<CancelFutures, CancelFutures>) -> (r: bool)
    ensures
        r == (exchanged is Ok),
{
    match exchanged {
        Ok(_) => true,
        Err(_) => false,
    }
}

/// A pool that runs submitted work on a runtime and settles one future per task.
pub struct TokioPoolExecutor {
    runtime: Handle,
    tracker: TaskTracker,
    shutdown: Arc<AtomicCell<CancelFutures>>,
}

impl TokioPoolExecutor {
    pub fn new(runtime: Handle) -> Self {
        TokioPoolExecutor {
            runtime,
            tracker: TaskTracker::new(),
            shutdown: Arc::new(AtomicCell::new(CancelFutures::NoSet)),
        }
    }

    pub fn runtime(&self) -> &Handle {
        &self.runtime
    }

    pub fn tracker(&self) -> &TaskTracker {
        &self.tracker
    }

    /// A handle on the shutdown flag, for the tasks to read when they start.
    pub fn shutdown_flag(&self) -> Arc<AtomicCell<CancelFutures>> {
        Arc::clone(&self.shutdown)
    }

    /// The flag as it stands now; other threads may change it at any time.
    pub fn flag(&self) -> CancelFutures {
        self.shutdown.load()
    }

    /// Applies a shutdown request atomically: the flag moves from `NoSet` to
    /// `requested(cancel_futures)`, and the tracker is closed, on the first
    /// request only. Returns whether this request was the first.
    pub fn begin_shutdown(&self, cancel_futures: bool) -> bool {
        let exchanged = self.shutdown.compare_exchange(
            CancelFutures::NoSet,
            CancelFutures::requested(cancel_futures),
        );
        let first = exchange_took_effect(exchanged);
        if first {
            let _ = self.tracker.close();
        }
        first
    }
}

/// A second shutdown request changes nothing and takes no effect, whatever its
/// argument: two requests leave the flag as the first one alone does.
pub proof fn lemma_shutdown_idempotent(flag: CancelFutures, first: bool, second: bool)
    ensures
        ({
            let (f1, took1) = shutdown_transition(flag, first);
            let (f2, took2) = shutdown_transition(f1, second);
            &&& f2 == f1
            &&& !took2
            &&& took1 == (flag is NoSet)
            &&& (flag is NoSet ==> f1 == requested(first))
        }),
{
}

} // verus!
