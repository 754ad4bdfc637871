//! The wait-for-state primitive.
//!
//! The uniform manager waits for a service to reach a target status by
//! polling `status()` every 50 milliseconds until the target is observed or
//! the timeout elapses. The decision taken after each poll is the verified
//! [`wait_step`]; the embedding program supplies the clock and the sleep.
//! [`wait_for_status_trace`] replays a whole sequence of observations, so
//! the outcome of any polling session is pinned down here.
//!
//! Because `NotInstalled` is a regular status, waiting for it is the
//! canonical way to wait for an uninstall to take effect.

use vstd::prelude::*;

use crate::errkind::ServiceErrKind;
use crate::status::ServiceStatus;

verus! {

/// One poll of `status()`: what it returned, and whether the timeout had
/// already elapsed when the poll was taken.
#[derive(Debug)]
pub struct Poll {
    /// What `status()` returned.
    pub observed: Result<ServiceStatus, ServiceErrKind>,
    /// Whether more than the timeout had elapsed at this poll.
    pub timed_out: bool,
}

/// The decision after one poll.
#[derive(Debug)]
pub enum WaitOutcome {
    /// The target status was observed: the wait succeeds now.
    Reached,
    /// Nothing decisive: sleep one interval and poll again.
    KeepWaiting,
    /// The timeout elapsed: the wait fails now with this error.
    GiveUp(ServiceErrKind),
}

/// The abstract outcome of a wait: used by the contracts below to state
/// which concrete value comes back. After the timeout, the last status is
/// surfaced as `Timeout` and the last error as `TimeoutError` — never both.
pub enum WaitVerdict {
    /// The target status was observed.
    Success,
    /// The timeout elapsed; the poll taken then returned this status.
    TimedOutStatus(ServiceStatus),
    /// The timeout elapsed; the poll taken then returned this error.
    TimedOutError(ServiceErrKind),
    /// Nothing decisive yet.
    Undecided,
}

/// The decision after one poll.
pub open spec fn spec_wait_step(desired: ServiceStatus, p: Poll) -> WaitVerdict {
    match p.observed {
        Ok(s) => {
            if s == desired {
                WaitVerdict::Success
            } else if p.timed_out {
                WaitVerdict::TimedOutStatus(s)
            } else {
                WaitVerdict::Undecided
            }
        },
        Err(e) => {
            if p.timed_out {
                WaitVerdict::TimedOutError(e)
            } else {
                WaitVerdict::Undecided
            }
        },
    }
}

/// Whether an outcome value realizes a verdict.
pub open spec fn outcome_matches(r: WaitOutcome, v: WaitVerdict) -> bool {
    match v {
        WaitVerdict::Success => r is Reached,
        WaitVerdict::TimedOutStatus(s) => r == WaitOutcome::GiveUp(ServiceErrKind::Timeout(s)),
        WaitVerdict::TimedOutError(e) => r matches WaitOutcome::GiveUp(
            ServiceErrKind::TimeoutError(b),
        ) && b == e,
        WaitVerdict::Undecided => r is KeepWaiting,
    }
}

/// Decides what to do after one poll of `status()`.
pub fn wait_step(desired: ServiceStatus, p: Poll) -> (r: WaitOutcome)
    ensures
        outcome_matches(r, spec_wait_step(desired, p)),
{
    match p.observed {
        Ok(s) => {
            if s == desired {
                WaitOutcome::Reached
            } else if p.timed_out {
                WaitOutcome::GiveUp(ServiceErrKind::Timeout(s))
            } else {
                WaitOutcome::KeepWaiting
            }
        },
        Err(e) => {
            if p.timed_out {
                WaitOutcome::GiveUp(ServiceErrKind::TimeoutError(Box::new(e)))
            } else {
                WaitOutcome::KeepWaiting
            }
        },
    }
}

/// The verdict of a whole polling session: the verdict of the first
/// decisive poll, or `Undecided` when every poll said to keep waiting.
pub open spec fn spec_wait_trace(desired: ServiceStatus, polls: Seq<Poll>) -> WaitVerdict
    decreases polls.len(),
{
    if polls.len() == 0 {
        WaitVerdict::Undecided
    } else if !(spec_wait_step(desired, polls[0]) is Undecided) {
        spec_wait_step(desired, polls[0])
    } else {
        spec_wait_trace(desired, polls.drop_first())
    }
}

/// A wait session never succeeds without having observed the target status.
pub proof fn lemma_wait_success_observes_target(desired: ServiceStatus, polls: Seq<Poll>)
    requires
        spec_wait_trace(desired, polls) is Success,
    ensures
        exists|i: int|
            0 <= i < polls.len() && polls[i].observed == Result::<
                ServiceStatus,
                ServiceErrKind,
            >::Ok(desired),
    decreases polls.len(),
{
    if polls.len() > 0 {
        if !(spec_wait_step(desired, polls[0]) is Undecided) {
            assert(polls[0].observed == Result::<ServiceStatus, ServiceErrKind>::Ok(desired));
        } else {
            lemma_wait_success_observes_target(desired, polls.drop_first());
            let i = choose|i: int|
                0 <= i < polls.drop_first().len() && polls.drop_first()[i].observed == Result::<
                    ServiceStatus,
                    ServiceErrKind,
                >::Ok(desired);
            assert(polls[i + 1].observed == Result::<ServiceStatus, ServiceErrKind>::Ok(desired));
        }
    }
}

/// Whether a replayed result realizes a verdict.
pub open spec fn result_matches(
    r: Option<Result<(), ServiceErrKind>>,
    v: WaitVerdict,
) -> bool {
    match v {
        WaitVerdict::Success => r == Some(Result::<(), ServiceErrKind>::Ok(())),
        WaitVerdict::TimedOutStatus(s) => r == Some(
            Result::<(), ServiceErrKind>::Err(ServiceErrKind::Timeout(s)),
        ),
        WaitVerdict::TimedOutError(e) => r matches Some(
            Err(ServiceErrKind::TimeoutError(b)),
        ) && b == e,
        WaitVerdict::Undecided => r is None,
    }
}

/// Replays a polling session: returns the decision of the first decisive
/// poll, or `None` when the session ended with every poll undecided (the
/// real loop would still be polling).
pub fn wait_for_status_trace(desired: ServiceStatus, polls: Vec<Poll>) -> (r: Option<
    Result<(), ServiceErrKind>,
>)
    ensures
        result_matches(r, spec_wait_trace(desired, polls@)),
{
    let ghost orig = polls@;
    let mut rest = polls;
    loop
        invariant
            orig == polls@,
            spec_wait_trace(desired, orig) == spec_wait_trace(desired, rest@),
        decreases rest@.len(),
    {
        if rest.len() == 0 {
            return None;
        }
        let ghost before = rest@;
        let p = rest.remove(0);
        proof {
            assert(rest@ =~= before.drop_first());
        }
        match wait_step(desired, p) {
            WaitOutcome::Reached => {
                return Some(Ok(()));
            },
            WaitOutcome::GiveUp(e) => {
                return Some(Err(e));
            },
            WaitOutcome::KeepWaiting => {},
        }
    }
}

} // verus!
