//! The wait-for-state decisions, replayed over observation traces.

use uni_service::wait_for_status_trace;
use uni_service::wait_step;
use uni_service::Poll;
use uni_service::ServiceErrKind;
use uni_service::ServiceStatus;
use uni_service::WaitOutcome;

#[test]
fn reaching_the_target_succeeds() {
    let polls = vec![
        Poll { observed: Ok(ServiceStatus::Stopped), timed_out: false },
        Poll { observed: Ok(ServiceStatus::StartPending), timed_out: false },
        Poll { observed: Ok(ServiceStatus::Running), timed_out: false },
    ];
    let r = wait_for_status_trace(ServiceStatus::Running, polls);
    assert!(matches!(r, Some(Ok(()))));
}

#[test]
fn timeout_reports_last_status() {
    // Waiting for Running on a service that was never started: every poll
    // sees Stopped, and once the timeout elapses the wait fails with
    // exactly that status.
    let polls = vec![
        Poll { observed: Ok(ServiceStatus::Stopped), timed_out: false },
        Poll { observed: Ok(ServiceStatus::Stopped), timed_out: false },
        Poll { observed: Ok(ServiceStatus::Stopped), timed_out: true },
    ];
    let r = wait_for_status_trace(ServiceStatus::Running, polls);
    assert!(matches!(
        r,
        Some(Err(ServiceErrKind::Timeout(ServiceStatus::Stopped)))
    ));
}

#[test]
fn timeout_reports_last_error() {
    let polls = vec![
        Poll { observed: Err(ServiceErrKind::IoError), timed_out: false },
        Poll { observed: Err(ServiceErrKind::IoError), timed_out: true },
    ];
    let r = wait_for_status_trace(ServiceStatus::Running, polls);
    match r {
        Some(Err(ServiceErrKind::TimeoutError(inner))) => {
            assert!(matches!(*inner, ServiceErrKind::IoError));
        },
        _ => panic!("expected TimeoutError"),
    }
}

#[test]
fn undecided_session_keeps_polling() {
    let polls = vec![
        Poll { observed: Ok(ServiceStatus::Stopped), timed_out: false },
        Poll { observed: Err(ServiceErrKind::IoError), timed_out: false },
    ];
    let r = wait_for_status_trace(ServiceStatus::Running, polls);
    assert!(r.is_none());
    assert!(wait_for_status_trace(ServiceStatus::Running, Vec::new()).is_none());
}

#[test]
fn target_wins_even_after_timeout() {
    // The target observed on the very poll that crosses the timeout still
    // counts as success: the check for the target comes first.
    let polls = vec![Poll { observed: Ok(ServiceStatus::Running), timed_out: true }];
    let r = wait_for_status_trace(ServiceStatus::Running, polls);
    assert!(matches!(r, Some(Ok(()))));
}

#[test]
fn not_installed_is_a_waitable_status() {
    // Waiting for NotInstalled is the canonical way to wait for an
    // uninstall to take effect.
    let polls = vec![
        Poll { observed: Ok(ServiceStatus::Stopped), timed_out: false },
        Poll { observed: Ok(ServiceStatus::NotInstalled), timed_out: false },
    ];
    let r = wait_for_status_trace(ServiceStatus::NotInstalled, polls);
    assert!(matches!(r, Some(Ok(()))));
}

#[test]
fn single_step_decisions() {
    let r = wait_step(
        ServiceStatus::Running,
        Poll { observed: Ok(ServiceStatus::Running), timed_out: false },
    );
    assert!(matches!(r, WaitOutcome::Reached));
    let r = wait_step(
        ServiceStatus::Running,
        Poll { observed: Ok(ServiceStatus::Stopped), timed_out: false },
    );
    assert!(matches!(r, WaitOutcome::KeepWaiting));
    let r = wait_step(
        ServiceStatus::Running,
        Poll { observed: Err(ServiceErrKind::AccessDenied), timed_out: false },
    );
    assert!(matches!(r, WaitOutcome::KeepWaiting));
    let r = wait_step(
        ServiceStatus::Running,
        Poll { observed: Ok(ServiceStatus::Stopped), timed_out: true },
    );
    assert!(matches!(
        r,
        WaitOutcome::GiveUp(ServiceErrKind::Timeout(ServiceStatus::Stopped))
    ));
}
