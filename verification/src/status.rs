//! The observable states of a managed service.

use vstd::prelude::*;

verus! {

/// The status of a service. Windows services can be in any of these states;
/// the launchd and systemd backends only ever report `NotInstalled`,
/// `Stopped` or `Running`.
///
/// `NotInstalled` is a regular observed state, not an error: this keeps the
/// state machine closed and lets the wait-for-state primitive wait for an
/// uninstall to take effect like any other transition.
#[derive(Copy, Clone, Debug, PartialEq, Eq, Structural)]
pub enum ServiceStatus {
    /// The specified service is not installed.
    NotInstalled,
    /// The specified service is stopped.
    Stopped,
    /// The specified service is starting.
    StartPending,
    /// The specified service is stopping.
    StopPending,
    /// The specified service is running.
    Running,
    /// The specified service is continuing.
    ContinuePending,
    /// The specified service is pausing.
    PausePending,
    /// The specified service is paused.
    Paused,
}

} // verus!
