//! The workload adapter: wraps a user-supplied worker function into a
//! [`ServiceApp`](crate::runtime::ServiceApp), owning the worker thread.
//!
//! The worker receives the receiving end of an internal shutdown channel
//! and the service-mode flag. Two channel variants cover synchronous and
//! cooperative-async workloads, chosen at construction; the signalling side
//! of either can be driven from a blocking OS thread. The worker thread is
//! started exactly once per adapter: a second start fails.

use vstd::prelude::*;
use vstd::*;

use crate::runtime::send_signal;
use crate::runtime::ServiceApp;

verus! {

/// The error type of the service runtime. Workloads report their own
/// failures through `App`.
#[derive(Debug)]
pub enum ServiceAppError {
    /// The workload was already started: its receiver was already taken.
    AlreadyStarted,
    /// The worker function was already consumed.
    MissingServiceFunction,
    /// There is no worker thread to stop.
    NotStarted,
    /// The worker thread could not be joined.
    JoinFailed,
    /// The process-wide interrupt handler could not be installed.
    InterruptHandler,
    /// The shutdown channel is gone: the signal cannot be delivered or
    /// received.
    ChannelClosed,
    /// The workload itself failed.
    App(String),
}

/// What each error means, shown to users by embedding programs in place of
/// a `Display` implementation.
pub open spec fn spec_app_error_message(e: ServiceAppError) -> Seq<char> {
    match e {
        ServiceAppError::AlreadyStarted => {
            "Receiver not found (service might have been started twice)"@
        },
        ServiceAppError::MissingServiceFunction => "Service function not found"@,
        ServiceAppError::NotStarted => "Thread handle not found for service"@,
        ServiceAppError::JoinFailed => "Error joining thread"@,
        ServiceAppError::InterruptHandler => "Could not install the interrupt handler"@,
        ServiceAppError::ChannelClosed => "The shutdown channel is closed"@,
        ServiceAppError::App(m) => m@,
    }
}

impl ServiceAppError {
    /// The human-readable description of this error.
    pub fn message(&self) -> (r: String)
        ensures
            r@ == spec_app_error_message(*self),
    {
        match self {
            ServiceAppError::AlreadyStarted => {
                String::from_str("Receiver not found (service might have been started twice)")
            },
            ServiceAppError::MissingServiceFunction => {
                String::from_str("Service function not found")
            },
            ServiceAppError::NotStarted => {
                String::from_str("Thread handle not found for service")
            },
            ServiceAppError::JoinFailed => String::from_str("Error joining thread"),
            ServiceAppError::InterruptHandler => {
                String::from_str("Could not install the interrupt handler")
            },
            ServiceAppError::ChannelClosed => {
                String::from_str("The shutdown channel is closed")
            },
            ServiceAppError::App(m) => m.clone(),
        }
    }
}

/// The sending half of the cooperative-async channel, declared so that it
/// can cross this crate's signatures.
#[verifier::external_type_specification]
#[verifier::external_body]
#[verifier::reject_recursive_types(T)]
pub struct ExTokioSender<T>(tokio::sync::mpsc::Sender<T>);

/// The receiving half of the cooperative-async channel, declared so that
/// it can cross this crate's signatures.
#[verifier::external_type_specification]
#[verifier::external_body]
#[verifier::reject_recursive_types(T)]
pub struct ExTokioReceiver<T>(tokio::sync::mpsc::Receiver<T>);

/// Relies on `tokio::sync::mpsc::channel` with capacity one for the
/// cooperative-async shutdown channel (the capacity is positive, as the
/// constructor demands). Which messages arrive depends on the threads
/// involved, so nothing is promised.
#[verifier::external_body]
fn tokio_shutdown_channel() -> (r: (
    tokio::sync::mpsc::Sender<()>,
    tokio::sync::mpsc::Receiver<()>,
)) {
    tokio::sync::mpsc::channel(1)
}

/// Relies on `tokio::sync::mpsc::Sender::blocking_send`: delivers one unit
/// message from a blocking thread; true unless the receiver is gone. It
/// must be called from outside an async runtime, which every caller in
/// this crate is. Whether it fails depends on the other side, so nothing
/// is promised.
#[verifier::external_body]
fn tokio_blocking_send(tx: &tokio::sync::mpsc::Sender<()>) -> (r: bool) {
    tx.blocking_send(()).is_ok()
}

/// Relies on `Arc::clone` to share the worker-liveness flag between the
/// adapter and its worker thread.
#[verifier::external_body]
fn share_flag(a: &std::sync::Arc<core::sync::atomic::AtomicBool>) -> (r: std::sync::Arc<
    core::sync::atomic::AtomicBool,
>) {
    a.clone()
}

/// The signalling side of the shutdown channel: one variant per workload
/// model, both safely invocable from a blocking OS thread.
pub enum ShutdownSender {
    /// The synchronous channel's sender.
    Sync(std::sync::mpsc::Sender<()>),
    /// The cooperative-async channel's sender.
    Tokio(tokio::sync::mpsc::Sender<()>),
}

/// A base service: wraps a worker function into a service application. The
/// worker runs on a dedicated thread and receives the shutdown receiver
/// and the service-mode flag.
pub struct BaseService<F, R> {
    name: String,
    service_fn: Option<F>,
    sender: ShutdownSender,
    receiver: Option<R>,
    handle: Option<thread::JoinHandle<Result<(), ServiceAppError>>>,
    running: std::sync::Arc<core::sync::atomic::AtomicBool>,
    is_service: bool,
}

impl<F, R> BaseService<F, R> where
    F: FnOnce(R, bool) -> Result<(), ServiceAppError> + Send + 'static,
    R: Send + 'static,
 {
    /// Creates a base service from any sender/receiver pair. `service_fn`
    /// is the worker; `sender` is signalled to request shutdown;
    /// `receiver` is handed to the worker. The worker must be callable
    /// with whatever receiver and mode it is given.
    /// Whether a worker thread's handle is held: set by a successful
    /// start, consumed by stop.
    pub closed spec fn spec_has_worker(&self) -> bool {
        self.handle is Some
    }

    pub fn new(
        name: String,
        service_fn: F,
        is_service: bool,
        sender: ShutdownSender,
        receiver: R,
    ) -> (r: BaseService<F, R>)
        requires
            forall|rcv: R, b: bool| service_fn.requires((rcv, b)),
        ensures
            r.inv(),
            !r.spec_started(),
            !r.spec_has_worker(),
            r.spec_name() == name@,
    {
        BaseService {
            name,
            service_fn: Some(service_fn),
            sender,
            receiver: Some(receiver),
            handle: None,
            running: std::sync::Arc::new(core::sync::atomic::AtomicBool::new(false)),
            is_service,
        }
    }

}

impl<F> BaseService<F, std::sync::mpsc::Receiver<()>> where
    F: FnOnce(std::sync::mpsc::Receiver<()>, bool) -> Result<(), ServiceAppError> + Send
        + 'static,
 {
    /// Creates a base service for synchronous workloads: the worker gets a
    /// blocking receiver that yields one message when shutdown is
    /// requested.
    pub fn new_sync(name: String, service_fn: F, is_service: bool) -> (r: BaseService<
        F,
        std::sync::mpsc::Receiver<()>,
    >)
        requires
            forall|rcv: std::sync::mpsc::Receiver<()>, b: bool| service_fn.requires((rcv, b)),
        ensures
            r.inv(),
            !r.spec_started(),
            r.spec_name() == name@,
    {
        let (tx, rx) = crate::runtime::interrupt_channel();
        BaseService::new(name, service_fn, is_service, ShutdownSender::Sync(tx), rx)
    }
}

impl<F> BaseService<F, tokio::sync::mpsc::Receiver<()>> where
    F: FnOnce(tokio::sync::mpsc::Receiver<()>, bool) -> Result<(), ServiceAppError> + Send
        + 'static,
 {
    /// Creates a base service for cooperative-async workloads: the worker
    /// gets a wakeable receiver that yields one message when shutdown is
    /// requested.
    pub fn new_tokio(name: String, service_fn: F, is_service: bool) -> (r: BaseService<
        F,
        tokio::sync::mpsc::Receiver<()>,
    >)
        requires
            forall|rcv: tokio::sync::mpsc::Receiver<()>, b: bool| service_fn.requires((rcv, b)),
        ensures
            r.inv(),
            !r.spec_started(),
            r.spec_name() == name@,
    {
        let (tx, rx) = tokio_shutdown_channel();
        BaseService::new(name, service_fn, is_service, ShutdownSender::Tokio(tx), rx)
    }
}

impl<F, R> ServiceApp for BaseService<F, R> where
    F: FnOnce(R, bool) -> Result<(), ServiceAppError> + Send + 'static,
    R: Send + 'static,
 {
    /// The stored worker, if any, accepts whatever it will be handed.
    closed spec fn inv(&self) -> bool {
        match self.service_fn {
            Some(f) => forall|rcv: R, b: bool| f.requires((rcv, b)),
            None => true,
        }
    }

    /// Started once the receiver or the worker function has been consumed.
    closed spec fn spec_started(&self) -> bool {
        self.receiver is None || self.service_fn is None
    }

    /// The fixed name given at construction.
    closed spec fn spec_name(&self) -> Seq<char> {
        self.name@
    }

    fn name(&self) -> (r: String) {
        self.name.clone()
    }

    /// Spawns the worker thread, handing it the shutdown receiver and the
    /// service-mode flag. Returns promptly (it blocks only on the spawn,
    /// never on the workload); a first start always succeeds, and a second
    /// start fails.
    fn start(&mut self) -> (r: Result<(), ServiceAppError>)
        ensures
            !old(self).spec_started() ==> r is Ok,
            r is Ok ==> final(self).spec_has_worker(),
    {
        let receiver = match self.receiver.take() {
            Some(rcv) => rcv,
            None => {
                return Err(ServiceAppError::AlreadyStarted);
            },
        };
        let service_fn = match self.service_fn.take() {
            Some(f) => f,
            None => {
                return Err(ServiceAppError::MissingServiceFunction);
            },
        };
        let is_service = self.is_service;
        self.running.store(true, core::sync::atomic::Ordering::SeqCst);
        let flag = share_flag(&self.running);
        let handle = thread::spawn(
            move || -> Result<(), ServiceAppError>
                {
                    let result = service_fn(receiver, is_service);
                    flag.store(false, core::sync::atomic::Ordering::SeqCst);
                    result
                },
        );
        self.handle = Some(handle);
        Ok(())
    }

    /// Signals the shutdown channel and joins the worker thread,
    /// propagating the worker's result. A worker that already finished is
    /// not signalled: stopping then succeeds immediately. Without a worker
    /// to stop — never started, or already stopped — this fails with
    /// `NotStarted`; either way the handle is consumed.
    fn stop(&mut self) -> (r: Result<(), ServiceAppError>)
        ensures
            !old(self).spec_has_worker() ==> r matches Err(ServiceAppError::NotStarted),
            !final(self).spec_has_worker(),
    {
        let handle = match self.handle.take() {
            Some(h) => h,
            None => {
                return Err(ServiceAppError::NotStarted);
            },
        };
        if !self.running.load(core::sync::atomic::Ordering::SeqCst) {
            // The worker already finished on its own.
            return Ok(());
        }
        let sent = match &self.sender {
            ShutdownSender::Sync(tx) => send_signal(tx),
            ShutdownSender::Tokio(tx) => tokio_blocking_send(tx),
        };
        if !sent {
            return Err(ServiceAppError::ChannelClosed);
        }
        match handle.join() {
            Ok(worker_result) => worker_result,
            Err(()) => Err(ServiceAppError::JoinFailed),
        }
    }

    fn is_running(&self) -> bool {
        self.running.load(core::sync::atomic::Ordering::SeqCst)
    }
}

} // verus!
