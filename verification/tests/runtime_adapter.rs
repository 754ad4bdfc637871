//! The workload adapter and the console driver.

use uni_service::run_service;
use uni_service::runtime::ServiceApp;
use uni_service::shutdown_step;
use uni_service::BaseService;
use uni_service::RecvOutcome;
use uni_service::ServiceAppError;

#[test]
fn start_twice_fails() {
    // The worker thread is started exactly once per adapter: the second
    // start fails, and stopping joins the worker cleanly.
    let mut svc = BaseService::new_sync(
        "test_bin".to_string(),
        |rx: std::sync::mpsc::Receiver<()>, _service_mode: bool| {
            let _ = rx.recv();
            Ok(())
        },
        false,
    );
    assert_eq!(svc.name(), "test_bin");
    assert!(svc.start().is_ok());
    assert!(matches!(svc.start(), Err(ServiceAppError::AlreadyStarted)));
    assert!(svc.stop().is_ok());
    // The stop consumed the worker handle: a second stop has nothing left.
    assert!(matches!(svc.stop(), Err(ServiceAppError::NotStarted)));
}

#[test]
fn shutdown_wait_decisions() {
    // One channel wait decides the whole shutdown wait: a signal means
    // success, a dead channel the only possible error, a tick means poll
    // again.
    assert!(matches!(shutdown_step(RecvOutcome::Received), Some(Ok(()))));
    assert!(shutdown_step(RecvOutcome::TimedOut).is_none());
    assert!(matches!(
        shutdown_step(RecvOutcome::Disconnected),
        Some(Err(ServiceAppError::ChannelClosed))
    ));
}

#[test]
fn stop_without_start_fails() {
    let mut svc = BaseService::new_sync(
        "test_bin".to_string(),
        |_rx: std::sync::mpsc::Receiver<()>, _service_mode: bool| Ok(()),
        false,
    );
    assert!(matches!(svc.stop(), Err(ServiceAppError::NotStarted)));
}

#[test]
fn worker_error_propagates_through_stop() {
    let mut svc = BaseService::new_sync(
        "test_bin".to_string(),
        |rx: std::sync::mpsc::Receiver<()>, _service_mode: bool| {
            let _ = rx.recv();
            Err(ServiceAppError::App("boom".to_string()))
        },
        false,
    );
    assert!(svc.start().is_ok());
    let r = svc.stop();
    match r {
        Err(ServiceAppError::App(m)) => assert_eq!(m, "boom"),
        // The worker may already have finished when stop looks: then stop
        // reports success without joining, as the original logs and
        // returns.
        Ok(()) => {},
        other => panic!("unexpected stop result: {:?}", other),
    }
}

#[test]
fn worker_sees_service_mode_flag() {
    let (probe_tx, probe_rx) = std::sync::mpsc::channel();
    let mut svc = BaseService::new_sync(
        "test_bin".to_string(),
        move |rx: std::sync::mpsc::Receiver<()>, service_mode: bool| {
            probe_tx.send(service_mode).unwrap();
            let _ = rx.recv();
            Ok(())
        },
        true,
    );
    assert!(svc.start().is_ok());
    assert!(probe_rx.recv().unwrap());
    assert!(svc.stop().is_ok());
}

#[test]
fn run_service_returns_when_workload_exits() {
    // A workload that finishes on its own wakes the console driver: the
    // liveness poll sees it gone and the run ends without an interrupt.
    let svc = BaseService::new_sync(
        "test_bin".to_string(),
        |_rx: std::sync::mpsc::Receiver<()>, _service_mode: bool| Ok(()),
        false,
    );
    let r = run_service(svc, false);
    assert!(r.is_ok());
}

#[test]
fn error_messages_are_exact() {
    assert_eq!(
        ServiceAppError::AlreadyStarted.message(),
        "Receiver not found (service might have been started twice)"
    );
    assert_eq!(
        ServiceAppError::MissingServiceFunction.message(),
        "Service function not found"
    );
    assert_eq!(
        ServiceAppError::NotStarted.message(),
        "Thread handle not found for service"
    );
    assert_eq!(ServiceAppError::JoinFailed.message(), "Error joining thread");
    assert_eq!(
        ServiceAppError::App("boom".to_string()).message(),
        "boom"
    );
}

#[test]
fn start_error_propagates_unchanged() {
    // A start error ends the run with exactly that error and leaves the
    // workload untouched: it can still be started afterwards.
    let mut svc = BaseService::new_sync(
        "test_bin".to_string(),
        |rx: std::sync::mpsc::Receiver<()>, _service_mode: bool| {
            let _ = rx.recv();
            Ok(())
        },
        false,
    );
    let r = uni_service::drive_after_start(
        Err(ServiceAppError::App("refused".to_string())),
        &mut svc,
    );
    match r {
        Err(ServiceAppError::App(m)) => assert_eq!(m, "refused"),
        other => panic!("unexpected result: {:?}", other),
    }
    assert!(svc.start().is_ok());
    assert!(svc.stop().is_ok());
}
