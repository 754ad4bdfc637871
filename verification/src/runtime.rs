//! The service runtime: one executable running attended or as a managed
//! service.
//!
//! A workload is anything implementing [`ServiceApp`]. [`run_service`]
//! routes it: in service mode the platform dispatcher takes over (the
//! bridging to the Windows service control manager is platform glue outside
//! this crate; elsewhere service mode falls back to the console driver),
//! otherwise the console driver runs it attended — install an interrupt
//! handler, start the workload, wait until the interrupt fires or the
//! workload exits on its own, stop it.

use vstd::prelude::*;

use crate::base::ServiceAppError;

verus! {

/// A service application: the contract between the runtime drivers and a
/// workload.
pub trait ServiceApp: Sized {
    /// The well-formedness the driver maintains across calls.
    spec fn inv(&self) -> bool;

    /// Whether the workload has been started.
    spec fn spec_started(&self) -> bool;

    /// The name of the service, as a specification value: fixed for the
    /// life of the instance.
    spec fn spec_name(&self) -> Seq<char>;

    /// The name of the service, stable for the life of the instance and
    /// matching the name registered with the platform.
    fn name(&self) -> (r: String)
        ensures
            r@ == self.spec_name(),
    ;

    /// Starts the workload. It must return promptly (the platform imposes
    /// a start timeout); a second start fails.
    fn start(&mut self) -> (r: Result<(), ServiceAppError>)
        requires
            old(self).inv(),
        ensures
            final(self).inv(),
            old(self).spec_started() ==> r is Err,
            r is Ok ==> final(self).spec_started(),
    ;

    /// Stops the workload: delivers the shutdown signal, waits for the
    /// worker to finish, and propagates its result.
    fn stop(&mut self) -> (r: Result<(), ServiceAppError>)
        requires
            old(self).inv(),
        ensures
            final(self).inv(),
    ;

    /// Whether the workload is still running: cheap and read-only; false
    /// once the worker has exited.
    fn is_running(&self) -> bool;
}

/// The sending half of the standard channel, declared so that it can cross
/// this crate's signatures.
#[verifier::external_type_specification]
#[verifier::external_body]
#[verifier::reject_recursive_types(T)]
pub struct ExSender<T>(std::sync::mpsc::Sender<T>);

/// The receiving half of the standard channel, declared so that it can
/// cross this crate's signatures.
#[verifier::external_type_specification]
#[verifier::external_body]
#[verifier::reject_recursive_types(T)]
pub struct ExReceiver<T>(std::sync::mpsc::Receiver<T>);

/// What one bounded wait on the interrupt channel yielded.
#[derive(Copy, Clone, Debug, PartialEq, Eq, Structural)]
pub enum RecvOutcome {
    /// The shutdown signal arrived.
    Received,
    /// The tick elapsed with no signal.
    TimedOut,
    /// Every sender is gone: no signal can ever arrive.
    Disconnected,
}

/// Relies on `std::sync::mpsc::channel` for the interrupt channel: a fresh
/// sender/receiver pair. Which messages arrive depends on the threads
/// involved, so nothing is promised.
#[verifier::external_body]
pub(crate) fn interrupt_channel() -> (r: (
    std::sync::mpsc::Sender<()>,
    std::sync::mpsc::Receiver<()>,
)) {
    std::sync::mpsc::channel()
}

/// Relies on `std::sync::mpsc::Sender::send`: delivers one unit message;
/// true unless the receiver is gone. Whether it fails depends on the other
/// side, so nothing is promised.
#[verifier::external_body]
pub(crate) fn send_signal(tx: &std::sync::mpsc::Sender<()>) -> (r: bool) {
    tx.send(()).is_ok()
}

/// Relies on `std::sync::mpsc::Receiver::recv_timeout` with a 100 ms tick:
/// blocks until a message, the tick, or disconnection. The outcome depends
/// on timing and the other side, so nothing is promised.
#[verifier::external_body]
pub(crate) fn recv_signal_tick(rx: &std::sync::mpsc::Receiver<()>) -> (r: RecvOutcome) {
    match rx.recv_timeout(core::time::Duration::from_millis(100)) {
        Ok(()) => RecvOutcome::Received,
        Err(std::sync::mpsc::RecvTimeoutError::Timeout) => RecvOutcome::TimedOut,
        Err(std::sync::mpsc::RecvTimeoutError::Disconnected) => RecvOutcome::Disconnected,
    }
}

/// The decision after one bounded wait on the interrupt channel: a
/// received signal ends the wait with success, an elapsed tick polls the
/// workload again, and a disconnected channel ends it with `ChannelClosed`
/// — the only failure a shutdown wait can produce.
pub open spec fn spec_shutdown_step(o: RecvOutcome) -> Option<Result<(), ServiceAppError>> {
    match o {
        RecvOutcome::Received => Some(Ok(())),
        RecvOutcome::TimedOut => None,
        RecvOutcome::Disconnected => Some(Err(ServiceAppError::ChannelClosed)),
    }
}

/// Decides what one bounded wait on the interrupt channel means.
pub fn shutdown_step(o: RecvOutcome) -> (r: Option<Result<(), ServiceAppError>>)
    ensures
        r == spec_shutdown_step(o),
{
    match o {
        RecvOutcome::Received => Some(Ok(())),
        RecvOutcome::TimedOut => None,
        RecvOutcome::Disconnected => Some(Err(ServiceAppError::ChannelClosed)),
    }
}

/// Sends the shutdown signal, ignoring delivery failure: the handler side
/// of the interrupt channel, where a gone receiver only means the driver
/// already returned.
pub(crate) fn notify_interrupt(tx: &std::sync::mpsc::Sender<()>) {
    let _sent = send_signal(tx);
}

/// Relies on `ctrlc::set_handler` to install the process-wide interrupt
/// handler; true when installation succeeded (it fails when a handler is
/// already installed or the OS refuses one). The handler only forwards the
/// signal through [`notify_interrupt`].
#[verifier::external_body]
fn install_interrupt_handler(tx: std::sync::mpsc::Sender<()>) -> (r: bool) {
    ctrlc::set_handler(move || notify_interrupt(&tx)).is_ok()
}

/// Waits until the shutdown signal arrives or the workload exits on its
/// own, polling liveness every tick. Each channel wait is interpreted by
/// the verified [`shutdown_step`]: a received signal yields success and a
/// disconnected channel the error, which is the only failure this wait can
/// produce; what the channel delivers and when the workload exits are the
/// threads' business, outside this contract.
pub fn wait_for_shutdown_or_exit<A: ServiceApp>(
    shutdown_rx: &std::sync::mpsc::Receiver<()>,
    app: &A,
) -> (r: Result<(), ServiceAppError>)
    ensures
        r is Ok || r == Result::<(), ServiceAppError>::Err(ServiceAppError::ChannelClosed),
{
    // The tick budget only bounds the loop formally: at one tick per 100 ms
    // it cannot run out on real hardware.
    let mut ticks: u64 = u64::MAX;
    while ticks > 0 && app.is_running()
        decreases ticks,
    {
        let outcome = recv_signal_tick(shutdown_rx);
        match shutdown_step(outcome) {
            Some(decision) => {
                proof {
                    assert(decision is Ok || decision == Result::<(), ServiceAppError>::Err(
                        ServiceAppError::ChannelClosed,
                    ));
                }
                return decision;
            },
            None => {},
        }
        ticks = ticks - 1;
    }
    Ok(())
}

/// Installs the interrupt handler and waits for the signal or workload
/// exit.
fn wait_for_shutdown<A: ServiceApp>(app: &A) -> (r: Result<(), ServiceAppError>)
    ensures
        r is Ok || r == Result::<(), ServiceAppError>::Err(ServiceAppError::ChannelClosed) || r
            == Result::<(), ServiceAppError>::Err(ServiceAppError::InterruptHandler),
{
    let (tx, rx) = interrupt_channel();
    if !install_interrupt_handler(tx) {
        return Err(ServiceAppError::InterruptHandler);
    }
    wait_for_shutdown_or_exit(&rx, app)
}

/// The rest of a console run, given what the workload's start returned: a
/// start error ends the run with exactly that error, leaving the workload
/// untouched — neither the interrupt wait nor the stop is reached. After a
/// successful start the driver waits for the interrupt or workload exit
/// and then stops the workload, returning the stop's result (or the wait's
/// failure).
pub fn drive_after_start<A: ServiceApp>(
    started: Result<(), ServiceAppError>,
    app: &mut A,
) -> (r: Result<(), ServiceAppError>)
    requires
        old(app).inv(),
    ensures
        final(app).inv(),
        started matches Err(e) ==> r matches Err(e2) && e2 == e && *final(app) == *old(app),
{
    match started {
        Ok(()) => {},
        Err(e) => {
            return Err(e);
        },
    }
    let waited = wait_for_shutdown(app);
    match waited {
        Ok(()) => {},
        Err(e) => {
            return Err(e);
        },
    }
    app.stop()
}

/// The console driver: starts the workload, waits for an interrupt or
/// workload exit, stops it, and propagates the first failure — a start
/// error is returned unchanged, before the wait or the stop is ever
/// reached (see [`drive_after_start`]). What the run returns beyond that
/// is decided by the workload's own start and stop.
pub fn run_interactive<A: ServiceApp>(mut app: A) -> (r: Result<(), ServiceAppError>)
    requires
        app.inv(),
    ensures
        app.spec_started() ==> r is Err,
{
    let started = app.start();
    drive_after_start(started, &mut app)
}

/// Runs the workload under the platform's service dispatcher. The bridge to
/// the Windows service control manager is platform glue outside this crate
/// (see [`crate::scm`] for the protocol it must follow); on the other
/// platforms a managed service is an ordinary process, so the console
/// driver runs it.
pub fn start_service<A: ServiceApp>(app: A) -> (r: Result<(), ServiceAppError>)
    requires
        app.inv(),
    ensures
        app.spec_started() ==> r is Err,
{
    run_interactive(app)
}

/// Executes a service. If started by the service manager, `service_mode`
/// must be true; if started interactively, false.
pub fn run_service<A: ServiceApp>(app: A, service_mode: bool) -> (r: Result<(), ServiceAppError>)
    requires
        app.inv(),
    ensures
        app.spec_started() ==> r is Err,
{
    if service_mode {
        start_service(app)
    } else {
        run_interactive(app)
    }
}

} // verus!
