//! Cross-platform OS service toolkit.
//!
//! The crate has two halves. The runtime half lets one executable run either
//! as an attended foreground process or as a child of the platform's service
//! supervisor, delivering a uniform cooperative shutdown signal to the
//! workload. The manager half plans install / uninstall / start / stop /
//! status operations against the platform control surface (Windows `sc.exe`,
//! launchd, systemd), translating platform error semantics into one taxonomy.
//!
//! All decision logic lives here as verified functions over plain values; an
//! embedding program executes the planned commands and file writes and feeds
//! the observed outcomes back in.

pub mod base;
pub mod caps;
pub mod errkind;
pub mod launchd;
pub mod manager;
pub mod runtime;
pub mod sc;
pub mod scm;
pub mod shim;
pub mod status;
pub mod svcspec;
pub mod systemd;
pub mod textparse;
pub mod waiting;

pub use base::BaseService;
pub use base::ServiceAppError;
pub use base::ShutdownSender;
pub use caps::ServiceCapabilities;
pub use errkind::ServiceErrKind;
pub use launchd::LaunchdInstallPlan;
pub use launchd::LaunchdUninstallPlan;
pub use manager::InstallPlan;
pub use manager::Platform;
pub use manager::PlatformEnv;
pub use manager::StatusStep;
pub use manager::UninstallPlan;
pub use manager::UniServiceManager;
pub use manager::WinUninstallPlan;
pub use manager::platform_env;
pub use runtime::RecvOutcome;
pub use runtime::ServiceApp;
pub use runtime::shutdown_step;
pub use runtime::drive_after_start;
pub use runtime::run_interactive;
pub use runtime::run_service;
pub use runtime::start_service;
pub use runtime::wait_for_shutdown_or_exit;
pub use sc::WinInstallPlan;
pub use scm::ControlResponse;
pub use scm::ScmLifecycle;
pub use scm::ScmState;
pub use scm::ServiceControl;
pub use scm::accepts_stop;
pub use scm::handle_control;
pub use shim::Cmd;
pub use shim::CmdOutcome;
pub use shim::FileWrite;
pub use shim::command_result;
pub use status::ServiceStatus;
pub use svcspec::ServiceSpec;
pub use systemd::SystemdInstallPlan;
pub use systemd::SystemdUninstallPlan;
pub use waiting::Poll;
pub use waiting::WaitOutcome;
pub use waiting::wait_for_status_trace;
pub use waiting::wait_step;
