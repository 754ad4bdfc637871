//! The dispatcher's status trace and control handling.

use uni_service::accepts_stop;
use uni_service::handle_control;
use uni_service::ControlResponse;
use uni_service::ScmLifecycle;
use uni_service::ScmState;
use uni_service::ServiceControl;

#[test]
fn normal_run_trace_is_exact() {
    // A normal run reports StartPending, Running, StopPending, Stopped in
    // order, with no state skipped or repeated.
    let mut m = ScmLifecycle::new();
    m.report_start_pending();
    m.report_running();
    m.report_stop_pending();
    m.report_stopped();
    assert_eq!(
        m.trace().clone(),
        vec![
            ScmState::StartPending,
            ScmState::Running,
            ScmState::StopPending,
            ScmState::Stopped,
        ]
    );
    assert_eq!(m.state(), ScmState::Stopped);
}

#[test]
fn failed_start_goes_straight_to_stopped() {
    let mut m = ScmLifecycle::new();
    m.report_start_pending();
    m.report_stopped();
    assert_eq!(m.trace().clone(), vec![ScmState::StartPending, ScmState::Stopped]);
}

#[test]
fn control_events_are_answered() {
    assert_eq!(
        handle_control(ServiceControl::Interrogate),
        (ControlResponse::NoError, false)
    );
    assert_eq!(
        handle_control(ServiceControl::Stop),
        (ControlResponse::NoError, true)
    );
    assert_eq!(
        handle_control(ServiceControl::Other),
        (ControlResponse::NotImplemented, false)
    );
}

#[test]
fn stop_accepted_until_stopped() {
    assert!(accepts_stop(ScmState::StartPending));
    assert!(accepts_stop(ScmState::Running));
    assert!(accepts_stop(ScmState::StopPending));
    assert!(!accepts_stop(ScmState::Stopped));
}
