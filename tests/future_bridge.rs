use crossbeam::atomic::AtomicCell;
use pytauri::bundler::{DownloadUrlResponse, LATEST_RELEASE_URL};
use pytauri::executor::{exchange_took_effect, CancelFutures, TokioPoolExecutor};
use pytauri::future::{FutureError, FutureState, Settled};
use pytauri::nursery::{FutureNursery, ProbeAction, ProbeEvent, WaitError, WaitProbe};
use pytauri::worker::{Worker, WorkerAction, WorkerEvent, WorkerPhase};

type Fut = FutureState<i32, String>;

/// Runs one task's script against `future`, with the pool's flag as the task
/// starts and the outcome that its work would produce.
fn run_task(future: &mut Fut, flag: CancelFutures, outcome: Result<i32, String>) -> Worker {
    let mut worker = Worker::new();
    let mut event = WorkerEvent::Begin(flag);
    let mut outcome = Some(outcome);
    loop {
        match worker.step(event) {
            WorkerAction::Cancel => {
                future.cancel();
                event = WorkerEvent::CancelDone;
            }
            WorkerAction::MarkRunning => {
                let may_run = future.set_running_or_notify_cancel().unwrap();
                event = WorkerEvent::MarkedRunning(may_run);
            }
            WorkerAction::Run => event = WorkerEvent::WorkDone(outcome.take().unwrap()),
            WorkerAction::Settle(o) => {
                match o {
                    Ok(r) => future.set_result(r).unwrap(),
                    Err(e) => future.set_exception(e).unwrap(),
                }
                event = WorkerEvent::SettleDone;
            }
            WorkerAction::Finish => return worker,
        }
    }
}

/// Runs the completion callback of a waiter against a done future.
fn wait_on(future: &Fut) -> Result<i32, WaitError<String>> {
    let mut probe = WaitProbe::new();
    let mut event = ProbeEvent::Cancelled(future.cancelled());
    loop {
        match probe.step(event) {
            ProbeAction::AskException => {
                event = ProbeEvent::Exception(match future {
                    FutureState::Finished(Err(e)) => Some(e.clone()),
                    _ => None,
                })
            }
            ProbeAction::AskResult => {
                event = ProbeEvent::Result(match future {
                    FutureState::Finished(Ok(r)) => *r,
                    _ => panic!("no result"),
                })
            }
            ProbeAction::Reply(r) => return r,
        }
    }
}

#[test]
fn test_future() {
    let mut future = Fut::new();
    future.set_result(42).unwrap();
    assert!(matches!(future, FutureState::Finished(Ok(42))));
    assert!(!future.cancel());
    assert!(!future.cancelled());
    assert!(!future.running());
    assert!(future.done());
    assert!(matches!(future.into_settled(), Some(Settled::Value(42))));
}

#[test]
fn test_canceling_future() {
    let mut future = Fut::new();
    future.cancel();
    assert!(future.cancelled());
}

#[test]
fn test_future_set_exception() {
    let mut future = Fut::new();
    future.set_exception("RuntimeError".to_string()).unwrap();
    match future.into_settled() {
        Some(Settled::Raised(e)) => assert_eq!(e, "RuntimeError"),
        _ => panic!("should be Some"),
    }
}

#[test]
fn test_rs_future() {
    let mut future = Fut::new();
    run_task(&mut future, CancelFutures::NoSet, Ok(42));
    assert!(matches!(wait_on(&future), Ok(42)));
    assert!(matches!(future.into_settled(), Some(Settled::Value(42))));
}

#[test]
fn test_tokio_pool_executor() {
    assert!(AtomicCell::<CancelFutures>::is_lock_free());
}

#[test]
fn submit_then_shutdown_with_cancel_cancels_future() {
    let mut future = Fut::new();
    let mut flag = CancelFutures::NoSet;
    assert!(flag.shutdown(true));
    let worker = run_task(&mut future, flag, Ok(42));
    assert_eq!(worker.phase, WorkerPhase::Finished);
    assert!(future.cancelled());
    assert!(matches!(wait_on(&future), Err(WaitError::Cancelled)));
}

#[test]
fn shutdown_without_cancel_runs_pending_work() {
    let mut future = Fut::new();
    let mut flag = CancelFutures::NoSet;
    assert!(flag.shutdown(false));
    assert_eq!(flag, CancelFutures::False);
    run_task(&mut future, flag, Ok(7));
    assert!(matches!(wait_on(&future), Ok(7)));
}

#[test]
fn failing_work_stores_exception() {
    let mut future = Fut::new();
    run_task(&mut future, CancelFutures::NoSet, Err("boom".to_string()));
    match wait_on(&future) {
        Err(WaitError::Raised(e)) => assert_eq!(e, "boom"),
        _ => panic!("expected the exception"),
    }
}

#[test]
fn future_cancelled_before_start_is_not_run() {
    let mut future = Fut::new();
    assert!(future.cancel());
    let worker = run_task(&mut future, CancelFutures::NoSet, Ok(1));
    assert!(!worker.guard_armed());
    assert!(matches!(future, FutureState::CancelledAndNotified));
    assert!(matches!(wait_on(&future), Err(WaitError::Cancelled)));
}

#[test]
fn second_shutdown_is_ignored() {
    let mut flag = CancelFutures::NoSet;
    assert!(flag.accepts_work());
    assert!(flag.shutdown(false));
    assert!(!flag.shutdown(true));
    assert_eq!(flag, CancelFutures::False);
    assert!(!flag.accepts_work());
}

#[test]
fn executor_shutdown_applies_first_request_only() {
    let runtime = tokio::runtime::Builder::new_current_thread().build().unwrap();
    let executor = TokioPoolExecutor::new(runtime.handle().clone());
    assert_eq!(executor.flag(), CancelFutures::NoSet);
    assert!(!executor.tracker().is_closed());
    assert!(executor.begin_shutdown(true));
    assert!(executor.tracker().is_closed());
    assert!(!executor.begin_shutdown(false));
    assert_eq!(executor.flag(), CancelFutures::True);
    assert_eq!(executor.shutdown_flag().load(), CancelFutures::True);
}

#[test]
fn exchange_result_decides_effect() {
    assert!(exchange_took_effect(Ok(CancelFutures::NoSet)));
    assert!(!exchange_took_effect(Err(CancelFutures::False)));
}

#[test]
fn abandoned_task_guard_settles_future() {
    let mut future = Fut::new();
    let mut worker = Worker::new();
    assert!(worker.guard_armed());
    let action: WorkerAction<i32, String> = worker.step(WorkerEvent::Begin(CancelFutures::NoSet));
    assert!(matches!(action, WorkerAction::MarkRunning));
    assert!(future.set_running_or_notify_cancel().unwrap());
    let action: WorkerAction<i32, String> = worker.step(WorkerEvent::MarkedRunning(true));
    assert!(matches!(action, WorkerAction::Run));
    // the task is dropped while its work runs
    assert!(worker.guard_armed());
    future.set_exception("rust future cancelled".to_string()).unwrap();
    assert!(future.done());
}

#[test]
fn transitions_refused_on_done_future() {
    let mut future = Fut::new();
    assert_eq!(future.set_running_or_notify_cancel(), Ok(true));
    assert!(future.running());
    assert!(!future.cancel());
    assert_eq!(future.set_running_or_notify_cancel(), Err(FutureError::NotPending));
    future.set_result(3).unwrap();
    assert_eq!(future.set_result(4), Err(FutureError::InvalidState));
    assert_eq!(future.set_exception("late".to_string()), Err(FutureError::InvalidState));
    assert!(matches!(future.into_settled(), Some(Settled::Value(3))));
}

#[test]
fn pending_future_settles_to_nothing() {
    assert!(Fut::new().into_settled().is_none());
    let mut cancelled = Fut::new();
    cancelled.cancel();
    assert!(cancelled.cancel());
    assert!(matches!(cancelled.into_settled(), Some(Settled::Cancelled)));
}

#[test]
fn nursery_keeps_runtime() {
    let runtime = tokio::runtime::Builder::new_current_thread().build().unwrap();
    let nursery = FutureNursery::new(runtime.handle().clone());
    assert_eq!(nursery.runtime().block_on(async { 5 }), 5);
}

fn release() -> DownloadUrlResponse {
    DownloadUrlResponse {
        version: 1,
        tag: "20250212".to_string(),
        release_url: "https://example.org/releases/20250212".to_string(),
        asset_url_prefix: "https://example.org/download/20250212".to_string(),
    }
}

#[test]
fn archive_name_of_release() {
    assert_eq!(
        release().archive_name("3.10.16", "x86_64-unknown-linux-gnu"),
        "cpython-3.10.16+20250212-x86_64-unknown-linux-gnu-install_only_stripped.tar.gz"
    );
}

#[test]
fn asset_url_of_release() {
    assert_eq!(
        release().asset_url("python.tar.gz"),
        "https://example.org/download/20250212/python.tar.gz"
    );
    assert!(LATEST_RELEASE_URL.ends_with("latest-release.json"));
}

#[test]
fn running_task_completes_after_cancelling_shutdown() {
    let mut future = Fut::new();
    let mut flag = CancelFutures::NoSet;
    let mut worker = Worker::new();
    let action: WorkerAction<i32, String> = worker.step(WorkerEvent::Begin(flag));
    assert!(matches!(action, WorkerAction::MarkRunning));
    let may_run = future.set_running_or_notify_cancel().unwrap();
    assert!(matches!(worker.step::<i32, String>(WorkerEvent::MarkedRunning(may_run)), WorkerAction::Run));
    // the pool is shut down with cancellation while the work runs
    assert!(flag.shutdown(true));
    assert!(!future.cancel());
    match worker.step::<i32, String>(WorkerEvent::WorkDone(Ok(42))) {
        WorkerAction::Settle(Ok(r)) => future.set_result(r).unwrap(),
        _ => panic!("expected the outcome to be stored"),
    }
    assert!(matches!(worker.step::<i32, String>(WorkerEvent::SettleDone), WorkerAction::Finish));
    assert!(!worker.guard_armed());
    assert!(matches!(wait_on(&future), Ok(42)));
}
