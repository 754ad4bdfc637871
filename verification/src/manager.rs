//! The uniform service manager: capability-aware validation, state-gated
//! dispatch, and per-platform command planning.
//!
//! The manager holds the instance identity (name, prefix, user flag, the
//! platform, and on Windows user services the discovered per-session LUID)
//! and decides everything: whether an operation may proceed in the current
//! status, which invocations and file writes realize it, and how their
//! outcomes read. The embedding program runs the planned commands and
//! reports outcomes back; every backend error flows through unchanged.

use vstd::prelude::*;

use crate::caps::ServiceCapabilities;
use crate::errkind::ServiceErrKind;
use crate::launchd;
use crate::launchd::LaunchdInstallPlan;
use crate::launchd::LaunchdUninstallPlan;
use crate::sc;
use crate::sc::WinInstallPlan;
use crate::shim::Cmd;
use crate::shim::CmdOutcome;
use crate::shim::SERVICE_PERMS;
use crate::status::ServiceStatus;
use crate::svcspec::ServiceSpec;
use crate::systemd;
use crate::systemd::SystemdInstallPlan;
use crate::systemd::SystemdUninstallPlan;

verus! {

/// The platform whose backend a manager drives.
#[derive(Copy, Clone, Debug, PartialEq, Eq, Structural)]
pub enum Platform {
    /// Windows: the service control manager, driven through `sc.exe`.
    Windows,
    /// macOS: launchd, driven through `launchctl`.
    MacOs,
    /// Linux: systemd, driven through `systemctl`.
    Linux,
}

/// What the environment contributes to planning: the directories that only
/// the environment can resolve, and the current user id. The embedding
/// program fills this in once at construction.
#[derive(Clone, Debug)]
pub struct PlatformEnv {
    /// The user's configuration directory, where user units live on Linux.
    pub config_dir: Option<String>,
    /// The user's home directory, where user agents live on macOS.
    pub home_dir: Option<String>,
    /// The current user id, which names the `gui/<uid>` domain on macOS.
    pub uid: u32,
}

/// Relies on `dirs::config_dir` for the user's configuration directory;
/// whether and where it resolves depends on the environment, so nothing is
/// promised of the result. A directory that is not UTF-8 is treated as
/// unresolvable.
#[verifier::external_body]
fn config_dir_string() -> (r: Option<String>) {
    dirs::config_dir().and_then(|p| p.to_str().map(|s| s.to_string()))
}

/// Relies on `dirs::home_dir` for the user's home directory; whether and
/// where it resolves depends on the environment, so nothing is promised of
/// the result. A directory that is not UTF-8 is treated as unresolvable.
#[verifier::external_body]
fn home_dir_string() -> (r: Option<String>) {
    dirs::home_dir().and_then(|p| p.to_str().map(|s| s.to_string()))
}

/// Gathers the environment for planning: the user's directories as the
/// environment resolves them, and the given user id.
pub fn platform_env(uid: u32) -> (r: PlatformEnv)
    ensures
        r.uid == uid,
{
    PlatformEnv { config_dir: config_dir_string(), home_dir: home_dir_string(), uid }
}

/// A planned install: one variant per platform backend.
#[derive(Debug)]
pub enum InstallPlan {
    /// The `sc.exe` calls of a Windows install.
    Windows(WinInstallPlan),
    /// The plist write and `launchctl bootstrap` of a macOS install.
    MacOs(LaunchdInstallPlan),
    /// The unit write and optional `systemctl enable` of a Linux install.
    Linux(SystemdInstallPlan),
}

/// The planned effect of a Windows uninstall: query the per-session
/// instance (user services only), delete it when it exists, then delete the
/// template.
#[derive(Debug)]
pub struct WinUninstallPlan {
    /// The `sc.exe query <instance>` whose outcome decides, via
    /// [`sc::raw_status_from_outcome`] and [`sc::instance_delete_needed`],
    /// whether the instance is deleted first. Present exactly for user
    /// services.
    pub instance_query: Option<Cmd>,
    /// The `sc.exe delete <instance>` call, run when the instance exists.
    pub delete_instance: Cmd,
    /// The `sc.exe delete <template>` call, always run.
    pub delete_template: Cmd,
}

/// A planned uninstall: one variant per platform backend.
#[derive(Debug)]
pub enum UninstallPlan {
    /// The `sc.exe delete` calls of a Windows uninstall.
    Windows(WinUninstallPlan),
    /// The `launchctl bootout` and plist removal of a macOS uninstall.
    MacOs(LaunchdUninstallPlan),
    /// The `systemctl disable` and unit removal of a Linux uninstall.
    Linux(SystemdUninstallPlan),
}

/// One step of a status query: either the status (or error) is decided, or
/// a second query under the template name is needed first — the Windows
/// user-service fallback, since a freshly installed user service has no
/// instance until the next logon.
#[derive(Debug)]
pub enum StatusStep {
    /// The query is decided.
    Decided(Result<ServiceStatus, ServiceErrKind>),
    /// Run this query under the template name and interpret its outcome
    /// with [`UniServiceManager::status_interpret_template`].
    QueryTemplate(Cmd),
}

/// The error that stops an install before any backend work, if any: the
/// service must not be installed yet; a user service takes no credentials;
/// and the capability flags are enforced against the specification, in this
/// order.
pub open spec fn spec_install_gate(
    user_service: bool,
    caps: ServiceCapabilities,
    s: ServiceSpec,
    current: ServiceStatus,
) -> Option<ServiceErrKind> {
    if !(current is NotInstalled) {
        Some(ServiceErrKind::AlreadyInstalled)
    } else if user_service && (s.user is Some || s.group is Some || s.password is Some) {
        Some(ServiceErrKind::BadServiceSpec)
    } else if caps.restart_on_failure_requires_autostart && s.restart_on_failure && !s.autostart {
        Some(ServiceErrKind::BadServiceSpec)
    } else if caps.custom_user_requires_password && s.user is Some && s.password is None {
        Some(ServiceErrKind::BadServiceSpec)
    } else if !caps.supports_custom_group && s.group is Some {
        Some(ServiceErrKind::BadServiceSpec)
    } else {
        None
    }
}

/// The error that stops a state-gated operation, if any: the operation may
/// proceed only in `required`; any other status is returned inside
/// `WrongState`.
pub open spec fn spec_state_gate(required: ServiceStatus, current: ServiceStatus) -> Option<
    ServiceErrKind,
> {
    if current == required {
        None
    } else {
        Some(ServiceErrKind::WrongState(current))
    }
}

/// A service manager for one service on one platform. It plans every
/// operation as data — commands to run, files to write — and interprets
/// the outcomes; the embedding program supplies the process execution, the
/// file system and the clock.
#[derive(Debug)]
pub struct UniServiceManager {
    name: String,
    prefix: String,
    user: bool,
    platform: Platform,
    luid: Option<String>,
    env: PlatformEnv,
}

impl UniServiceManager {
    /// The service name.
    pub closed spec fn spec_name(&self) -> Seq<char> {
        self.name@
    }

    /// The reverse-domain prefix (used on macOS only).
    pub closed spec fn spec_prefix(&self) -> Seq<char> {
        self.prefix@
    }

    /// Whether this manages a user service.
    pub closed spec fn spec_user(&self) -> bool {
        self.user
    }

    /// The platform backend.
    pub closed spec fn spec_platform(&self) -> Platform {
        self.platform
    }

    /// The discovered per-session LUID, on Windows user services.
    pub closed spec fn spec_luid(&self) -> Option<Seq<char>> {
        self.luid.deep_view()
    }

    /// The environment given at construction.
    pub closed spec fn spec_env(&self) -> PlatformEnv {
        self.env
    }

    /// Creates a manager for the service `name`. The `prefix` is a
    /// java-style reverse domain name prefix (such as `com.example.`), used
    /// on macOS only. If `user` is true the service applies to the current
    /// user alone. `env` carries what the environment resolves; `luid` is
    /// the per-session LUID discovered from `sc query type= userservice`
    /// output (via [`sc::extract_luid`]) and is consulted only for Windows
    /// user services, which cannot be managed without one.
    pub fn new(
        name: String,
        prefix: String,
        user: bool,
        platform: Platform,
        env: PlatformEnv,
        luid: Option<String>,
    ) -> (r: Result<UniServiceManager, ServiceErrKind>)
        ensures
            match r {
                Ok(m) => {
                    &&& name@.len() > 0
                    &&& m.spec_name() == name@
                    &&& m.spec_prefix() == prefix@
                    &&& m.spec_user() == user
                    &&& m.spec_platform() == platform
                    &&& m.spec_env() == env
                    &&& if platform is Windows && user {
                        luid is Some && m.spec_luid() == luid.deep_view()
                    } else {
                        m.spec_luid() is None
                    }
                },
                Err(e) => {
                    ||| (name@.len() == 0 && e is InvalidNameOrPrefix)
                    ||| (name@.len() > 0 && platform is Windows && user && luid is None
                        && e is ServiceManagementNotAvailable)
                },
            },
    {
        if name.as_str().unicode_len() == 0 {
            return Err(ServiceErrKind::InvalidNameOrPrefix);
        }
        let is_win_user = matches!(platform, Platform::Windows) && user;
        let luid = if is_win_user {
            match luid {
                Some(l) => Some(l),
                None => {
                    return Err(ServiceErrKind::ServiceManagementNotAvailable);
                },
            }
        } else {
            None
        };
        Ok(UniServiceManager { name, prefix, user, platform, luid, env })
    }

    /// The plain service name: the template name on Windows, the unit name
    /// on Linux, the unprefixed label part on macOS.
    pub fn name(&self) -> (r: &String)
        ensures
            r@ == self.spec_name(),
    {
        &self.name
    }

    /// The fully qualified name of the service: the `<template>_<LUID>`
    /// instance on Windows (user services have a dynamic name that changes
    /// between sessions), the `<domain>/<prefix><name>` target on macOS,
    /// and the plain unit name on Linux.
    pub fn fully_qualified_name(&self) -> (r: String)
        ensures
            r@ == match self.spec_platform() {
                Platform::Windows => sc::spec_instance_name(self.spec_name(), self.spec_luid()),
                Platform::MacOs => launchd::spec_service_target(
                    self.spec_user(),
                    self.spec_env().uid,
                    self.spec_prefix(),
                    self.spec_name(),
                ),
                Platform::Linux => self.spec_name(),
            },
    {
        match self.platform {
            Platform::Windows => sc::instance_name(self.name.as_str(), &self.luid),
            Platform::MacOs => launchd::service_target(
                self.user,
                self.env.uid,
                self.prefix.as_str(),
                self.name.as_str(),
            ),
            Platform::Linux => self.name.clone(),
        }
    }

    /// Whether this manages a user service. On Windows that is decided by
    /// the discovered LUID.
    pub fn is_user_service(&self) -> (r: bool)
        ensures
            r == if self.spec_platform() is Windows {
                self.spec_luid() is Some
            } else {
                self.spec_user()
            },
    {
        match self.platform {
            Platform::Windows => matches!(&self.luid, Some(_)),
            _ => self.user,
        }
    }

    /// The capabilities the platform backend advertises.
    pub fn capabilities(&self) -> (r: ServiceCapabilities)
        ensures
            r == spec_platform_capabilities(self.spec_platform()),
    {
        match self.platform {
            Platform::Windows => sc::capabilities(),
            Platform::MacOs => launchd::capabilities(),
            Platform::Linux => systemd::capabilities(),
        }
    }

    /// The availability probe to run before anything else: `sc.exe query`
    /// (with `type= userservice` for user services, whose output carries
    /// the LUID), `launchctl list`, or a bare `systemctl` on the selected
    /// bus.
    pub fn availability_probe(platform: Platform, user: bool) -> (r: Cmd)
        ensures
            match platform {
                Platform::Windows => r.program@ == "sc.exe"@ && r.args.deep_view() == (if user {
                    seq!["query"@, "type="@, "userservice"@]
                } else {
                    seq!["query"@]
                }),
                Platform::MacOs => r.program@ == "launchctl"@ && r.args.deep_view() == seq![
                    "list"@,
                ],
                Platform::Linux => r.program@ == "systemctl"@ && r.args.deep_view() == seq![
                    systemd::spec_bus_flag(user),
                ],
            },
    {
        match platform {
            Platform::Windows => if user {
                sc::user_query_cmd()
            } else {
                sc::probe_cmd()
            },
            Platform::MacOs => launchd::probe_cmd(),
            Platform::Linux => systemd::systemctl_probe_cmd(user),
        }
    }

    /// Interprets the outcome of [`UniServiceManager::availability_probe`]:
    /// a probe that ran and exited cleanly proves the control surface
    /// usable and hands back its output (which on Windows carries the user
    /// services' LUID suffixes); any failure means service management is
    /// not available on this system, whatever the underlying cause.
    pub fn interpret_probe(outcome: CmdOutcome) -> (r: Result<String, ServiceErrKind>)
        ensures
            match crate::shim::spec_command_result(outcome) {
                Ok(out) => r matches Ok(o) && o == out,
                Err(_) => r matches Err(e) && e is ServiceManagementNotAvailable,
            },
    {
        match crate::shim::command_result(outcome) {
            Ok(out) => Ok(out),
            Err(_) => Err(ServiceErrKind::ServiceManagementNotAvailable),
        }
    }

    /// The query that asks the platform for the service's status.
    pub fn status_query(&self) -> (r: Cmd)
        ensures
            match self.spec_platform() {
                Platform::Windows => r.program@ == "sc.exe"@ && r.args.deep_view() == seq![
                    "query"@,
                    sc::spec_instance_name(self.spec_name(), self.spec_luid()),
                ],
                Platform::MacOs => r.program@ == "launchctl"@ && r.args.deep_view() == seq![
                    "print"@,
                    launchd::spec_service_target(
                        self.spec_user(),
                        self.spec_env().uid,
                        self.spec_prefix(),
                        self.spec_name(),
                    ),
                ],
                Platform::Linux => r.program@ == "systemctl"@ && r.args.deep_view()
                    == systemd::spec_systemctl_args(self.spec_user(), "status"@, self.spec_name()),
            },
    {
        match self.platform {
            Platform::Windows => {
                let target = sc::instance_name(self.name.as_str(), &self.luid);
                sc::query_cmd(target.as_str())
            },
            Platform::MacOs => launchd::status_cmd(
                self.user,
                self.env.uid,
                self.prefix.as_str(),
                self.name.as_str(),
            ),
            Platform::Linux => systemd::systemctl_cmd(self.user, "status", self.name.as_str()),
        }
    }

    /// Interprets the outcome of [`UniServiceManager::status_query`]. On
    /// Windows, a user service whose instance reports `NotInstalled` is
    /// queried again under the template name: the second query to run is
    /// handed back.
    pub fn status_interpret(&self, outcome: CmdOutcome) -> (r: StatusStep)
        ensures
            match self.spec_platform() {
                Platform::Windows => {
                    match sc::spec_raw_status_interpretation(outcome) {
                        Ok(st) => {
                            if self.spec_luid() is Some && st is NotInstalled {
                                r matches StatusStep::QueryTemplate(c) && c.program@ == "sc.exe"@
                                    && c.args.deep_view() == seq!["query"@, self.spec_name()]
                            } else {
                                r == StatusStep::Decided(Result::<
                                    ServiceStatus,
                                    ServiceErrKind,
                                >::Ok(st))
                            }
                        },
                        Err(e) => r == StatusStep::Decided(Result::<
                            ServiceStatus,
                            ServiceErrKind,
                        >::Err(e)),
                    }
                },
                Platform::MacOs => r == StatusStep::Decided(
                    launchd::spec_status_interpretation(outcome),
                ),
                Platform::Linux => r == StatusStep::Decided(
                    systemd::spec_status_interpretation(outcome),
                ),
            },
    {
        match self.platform {
            Platform::Windows => {
                match sc::raw_status_from_outcome(outcome) {
                    Ok(st) => {
                        let is_user = matches!(&self.luid, Some(_));
                        if sc::needs_template_fallback(is_user, st) {
                            StatusStep::QueryTemplate(sc::query_cmd(self.name.as_str()))
                        } else {
                            StatusStep::Decided(Ok(st))
                        }
                    },
                    Err(e) => StatusStep::Decided(Err(e)),
                }
            },
            Platform::MacOs => StatusStep::Decided(launchd::status_from_outcome(outcome)),
            Platform::Linux => StatusStep::Decided(systemd::status_from_outcome(outcome)),
        }
    }

    /// Interprets the outcome of the template query handed back by
    /// [`UniServiceManager::status_interpret`].
    pub fn status_interpret_template(&self, outcome: CmdOutcome) -> (r: Result<
        ServiceStatus,
        ServiceErrKind,
    >)
        ensures
            r == sc::spec_raw_status_interpretation(outcome),
    {
        sc::raw_status_from_outcome(outcome)
    }

    /// Plans an install. Validation comes first: the service must not be
    /// installed, a user service takes no credentials, and the capability
    /// flags are enforced — each violation returns its typed error before
    /// any backend work. The plan itself can only fail on Linux and macOS
    /// user services whose directory does not resolve.
    pub fn install(&self, current: ServiceStatus, s: &ServiceSpec) -> (r: Result<
        InstallPlan,
        ServiceErrKind,
    >)
        ensures
            match spec_install_gate(
                self.spec_is_user_service(),
                spec_platform_capabilities(self.spec_platform()),
                *s,
                current,
            ) {
                Some(g) => r matches Err(e) && e == g,
                None => match self.spec_platform() {
                    Platform::Windows => r matches Ok(InstallPlan::Windows(p))
                        && spec_win_install_plan_matches(p, self.spec_name(), self.spec_luid(), *s),
                    Platform::MacOs => match r {
                        Ok(plan) => plan matches InstallPlan::MacOs(p)
                            && spec_launchd_install_plan_matches(
                            p,
                            self.spec_prefix(),
                            self.spec_name(),
                            self.spec_user(),
                            self.spec_env(),
                            *s,
                        ),
                        Err(e) => self.spec_user() && self.spec_env().home_dir is None
                            && e is DirectoryNotFound,
                    },
                    Platform::Linux => match r {
                        Ok(plan) => plan matches InstallPlan::Linux(p)
                            && spec_systemd_install_plan_matches(
                            p,
                            self.spec_name(),
                            self.spec_user(),
                            self.spec_env(),
                            *s,
                        ),
                        Err(e) => self.spec_user() && self.spec_env().config_dir is None
                            && e is DirectoryNotFound,
                    },
                },
            },
    {
        if !matches!(current, ServiceStatus::NotInstalled) {
            return Err(ServiceErrKind::AlreadyInstalled);
        }
        let user_service = self.is_user_service();
        if user_service && (matches!(&s.user, Some(_)) || matches!(&s.group, Some(_)) || matches!(
            &s.password,
            Some(_),
        )) {
            return Err(ServiceErrKind::BadServiceSpec);
        }
        let caps = self.capabilities();
        if caps.restart_on_failure_requires_autostart && s.restart_on_failure && !s.autostart {
            return Err(ServiceErrKind::BadServiceSpec);
        }
        if caps.custom_user_requires_password && matches!(&s.user, Some(_)) && matches!(
            &s.password,
            None,
        ) {
            return Err(ServiceErrKind::BadServiceSpec);
        }
        if !caps.supports_custom_group && matches!(&s.group, Some(_)) {
            return Err(ServiceErrKind::BadServiceSpec);
        }
        match self.platform {
            Platform::Windows => {
                let is_user = matches!(&self.luid, Some(_));
                Ok(InstallPlan::Windows(sc::install_plan(self.name.as_str(), is_user, s)))
            },
            Platform::MacOs => {
                let p = launchd::install_plan(
                    self.prefix.as_str(),
                    self.name.as_str(),
                    self.user,
                    self.env.uid,
                    &self.env.home_dir,
                    s,
                )?;
                Ok(InstallPlan::MacOs(p))
            },
            Platform::Linux => {
                let p = systemd::install_plan(self.name.as_str(), self.user, &self.env.config_dir, s)?;
                Ok(InstallPlan::Linux(p))
            },
        }
    }

    /// Whether this manages a user service, as a specification value.
    pub open spec fn spec_is_user_service(&self) -> bool {
        if self.spec_platform() is Windows {
            self.spec_luid() is Some
        } else {
            self.spec_user()
        }
    }

    /// Plans an uninstall: allowed only in `Stopped`; any other status is a
    /// `WrongState` error. The plan can only fail on Linux and macOS user
    /// services whose directory does not resolve.
    pub fn uninstall(&self, current: ServiceStatus) -> (r: Result<UninstallPlan, ServiceErrKind>)
        ensures
            match spec_state_gate(ServiceStatus::Stopped, current) {
                Some(g) => r matches Err(e) && e == g,
                None => match self.spec_platform() {
                    Platform::Windows => r matches Ok(UninstallPlan::Windows(p))
                        && spec_win_uninstall_plan_matches(p, self.spec_name(), self.spec_luid()),
                    Platform::MacOs => match r {
                        Ok(plan) => plan matches UninstallPlan::MacOs(p) && {
                            &&& p.bootout.program@ == "launchctl"@
                            &&& p.bootout.args.deep_view() == seq![
                                "bootout"@,
                                launchd::spec_service_target(
                                    self.spec_user(),
                                    self.spec_env().uid,
                                    self.spec_prefix(),
                                    self.spec_name(),
                                ),
                            ]
                            &&& launchd::spec_plist_dir(
                                self.spec_user(),
                                self.spec_env().home_dir.deep_view(),
                            ) matches Ok(dir) && p.remove_path@ == launchd::spec_plist_path(
                                dir,
                                self.spec_prefix(),
                                self.spec_name(),
                            )
                        },
                        Err(e) => self.spec_user() && self.spec_env().home_dir is None
                            && e is DirectoryNotFound,
                    },
                    Platform::Linux => match r {
                        Ok(plan) => plan matches UninstallPlan::Linux(p) && {
                            &&& p.disable.program@ == "systemctl"@
                            &&& p.disable.args.deep_view() == systemd::spec_systemctl_args(
                                self.spec_user(),
                                "disable"@,
                                self.spec_name(),
                            )
                            &&& systemd::spec_unit_dir(
                                self.spec_user(),
                                self.spec_env().config_dir.deep_view(),
                            ) matches Ok(dir) && p.remove_path@ == systemd::spec_unit_path(
                                dir,
                                self.spec_name(),
                            )
                        },
                        Err(e) => self.spec_user() && self.spec_env().config_dir is None
                            && e is DirectoryNotFound,
                    },
                },
            },
    {
        if !matches!(current, ServiceStatus::Stopped) {
            return Err(ServiceErrKind::WrongState(current));
        }
        match self.platform {
            Platform::Windows => {
                let instance = sc::instance_name(self.name.as_str(), &self.luid);
                let instance_query = match &self.luid {
                    Some(_) => Some(sc::query_cmd(instance.as_str())),
                    None => None,
                };
                Ok(
                    UninstallPlan::Windows(
                        WinUninstallPlan {
                            instance_query,
                            delete_instance: sc::delete_cmd(instance.as_str()),
                            delete_template: sc::delete_cmd(self.name.as_str()),
                        },
                    ),
                )
            },
            Platform::MacOs => {
                let p = launchd::uninstall_plan(
                    self.prefix.as_str(),
                    self.name.as_str(),
                    self.user,
                    self.env.uid,
                    &self.env.home_dir,
                )?;
                Ok(UninstallPlan::MacOs(p))
            },
            Platform::Linux => {
                let p = systemd::uninstall_plan(
                    self.name.as_str(),
                    self.user,
                    &self.env.config_dir,
                )?;
                Ok(UninstallPlan::Linux(p))
            },
        }
    }

    /// Plans a start: allowed only in `Stopped`; any other status is a
    /// `WrongState` error.
    pub fn start(&self, current: ServiceStatus) -> (r: Result<Cmd, ServiceErrKind>)
        ensures
            match spec_state_gate(ServiceStatus::Stopped, current) {
                Some(g) => r matches Err(e) && e == g,
                None => r matches Ok(c) && spec_start_cmd_matches(c, *self),
            },
    {
        if !matches!(current, ServiceStatus::Stopped) {
            return Err(ServiceErrKind::WrongState(current));
        }
        match self.platform {
            Platform::Windows => {
                let instance = sc::instance_name(self.name.as_str(), &self.luid);
                Ok(sc::start_cmd(instance.as_str()))
            },
            Platform::MacOs => Ok(
                launchd::start_cmd(self.user, self.env.uid, self.prefix.as_str(), self.name.as_str()),
            ),
            Platform::Linux => Ok(systemd::systemctl_cmd(self.user, "start", self.name.as_str())),
        }
    }

    /// Plans a stop: allowed only in `Running`; any other status is a
    /// `WrongState` error.
    pub fn stop(&self, current: ServiceStatus) -> (r: Result<Cmd, ServiceErrKind>)
        ensures
            match spec_state_gate(ServiceStatus::Running, current) {
                Some(g) => r matches Err(e) && e == g,
                None => r matches Ok(c) && spec_stop_cmd_matches(c, *self),
            },
    {
        if !matches!(current, ServiceStatus::Running) {
            return Err(ServiceErrKind::WrongState(current));
        }
        match self.platform {
            Platform::Windows => {
                let instance = sc::instance_name(self.name.as_str(), &self.luid);
                Ok(sc::stop_cmd(instance.as_str()))
            },
            Platform::MacOs => Ok(
                launchd::stop_cmd(self.user, self.env.uid, self.prefix.as_str(), self.name.as_str()),
            ),
            Platform::Linux => Ok(systemd::systemctl_cmd(self.user, "stop", self.name.as_str())),
        }
    }
}

/// The capabilities each platform backend advertises.
pub open spec fn spec_platform_capabilities(p: Platform) -> ServiceCapabilities {
    match p {
        Platform::Windows => ServiceCapabilities {
            custom_user_requires_password: true,
            supports_custom_group: false,
            user_services_require_new_logon: true,
            restart_on_failure_requires_autostart: false,
            uses_name_prefix: false,
            user_services_req_elevated_priv_for_install: true,
            supports_pending_paused_states: true,
            user_service_name_is_dynamic: true,
            supports_description: true,
            supports_display_name: true,
        },
        Platform::MacOs => ServiceCapabilities {
            custom_user_requires_password: false,
            supports_custom_group: false,
            user_services_require_new_logon: false,
            restart_on_failure_requires_autostart: false,
            uses_name_prefix: true,
            user_services_req_elevated_priv_for_install: false,
            supports_pending_paused_states: false,
            user_service_name_is_dynamic: false,
            supports_description: false,
            supports_display_name: false,
        },
        Platform::Linux => ServiceCapabilities {
            custom_user_requires_password: false,
            supports_custom_group: true,
            user_services_require_new_logon: false,
            restart_on_failure_requires_autostart: false,
            uses_name_prefix: false,
            user_services_req_elevated_priv_for_install: false,
            supports_pending_paused_states: false,
            user_service_name_is_dynamic: false,
            supports_description: false,
            supports_display_name: false,
        },
    }
}

/// Whether a Windows install plan realizes the specification for this
/// template name, LUID and service specification.
pub open spec fn spec_win_install_plan_matches(
    p: WinInstallPlan,
    name: Seq<char>,
    luid: Option<Seq<char>>,
    s: ServiceSpec,
) -> bool {
    &&& p.create.program@ == "sc.exe"@
    &&& p.create.args.deep_view() == sc::spec_create_args(name, luid is Some, s)
    &&& match s.description {
        Some(d) => p.description matches Some(c) && c.program@ == "sc.exe"@ && c.args.deep_view()
            == seq!["description"@, name, d@],
        None => p.description is None,
    }
    &&& p.needs_sid == (luid is Some)
    &&& if s.restart_on_failure {
        p.failure matches Some(c) && c.program@ == "sc.exe"@ && c.args.deep_view() == seq![
            "failure"@,
            name,
            "reset="@,
            "0"@,
            "actions="@,
            "restart/2000/restart/2000/restart/2000"@,
        ]
    } else {
        p.failure is None
    }
}

/// Whether a Windows uninstall plan realizes the specification.
pub open spec fn spec_win_uninstall_plan_matches(
    p: WinUninstallPlan,
    name: Seq<char>,
    luid: Option<Seq<char>>,
) -> bool {
    &&& match luid {
        Some(_) => p.instance_query matches Some(c) && c.program@ == "sc.exe"@
            && c.args.deep_view() == seq!["query"@, sc::spec_instance_name(name, luid)],
        None => p.instance_query is None,
    }
    &&& p.delete_instance.program@ == "sc.exe"@
    &&& p.delete_instance.args.deep_view() == seq!["delete"@, sc::spec_instance_name(name, luid)]
    &&& p.delete_template.program@ == "sc.exe"@
    &&& p.delete_template.args.deep_view() == seq!["delete"@, name]
}

/// Whether a launchd install plan realizes the specification.
pub open spec fn spec_launchd_install_plan_matches(
    p: LaunchdInstallPlan,
    prefix: Seq<char>,
    name: Seq<char>,
    user: bool,
    env: PlatformEnv,
    s: ServiceSpec,
) -> bool {
    &&& launchd::spec_plist_dir(user, env.home_dir.deep_view()) matches Ok(dir) && p.plist_dir@
        == dir
    &&& p.file.path@ == launchd::spec_plist_path(p.plist_dir@, prefix, name)
    &&& p.file.content@ == launchd::spec_plist_content(launchd::spec_label(prefix, name), s)
    &&& p.file.mode == SERVICE_PERMS
    &&& p.bootstrap.program@ == "launchctl"@
    &&& p.bootstrap.args.deep_view() == seq![
        "bootstrap"@,
        launchd::spec_domain_target(user, env.uid),
        p.file.path@,
    ]
}

/// Whether a systemd install plan realizes the specification.
pub open spec fn spec_systemd_install_plan_matches(
    p: SystemdInstallPlan,
    name: Seq<char>,
    user: bool,
    env: PlatformEnv,
    s: ServiceSpec,
) -> bool {
    &&& systemd::spec_unit_dir(user, env.config_dir.deep_view()) matches Ok(dir) && p.unit_dir@
        == dir
    &&& p.file.path@ == systemd::spec_unit_path(p.unit_dir@, name)
    &&& p.file.content@ == systemd::spec_unit_content(s, user)
    &&& p.file.mode == SERVICE_PERMS
    &&& if s.autostart {
        p.enable matches Some(c) && c.program@ == "systemctl"@ && c.args.deep_view()
            == systemd::spec_systemctl_args(user, "enable"@, name)
    } else {
        p.enable is None
    }
}

/// Whether a start command realizes the specification for this manager.
pub open spec fn spec_start_cmd_matches(c: Cmd, m: UniServiceManager) -> bool {
    match m.spec_platform() {
        Platform::Windows => c.program@ == "sc.exe"@ && c.args.deep_view() == seq![
            "start"@,
            sc::spec_instance_name(m.spec_name(), m.spec_luid()),
        ],
        Platform::MacOs => c.program@ == "launchctl"@ && c.args.deep_view() == seq![
            "kickstart"@,
            "-kp"@,
            launchd::spec_service_target(m.spec_user(), m.spec_env().uid, m.spec_prefix(), m.spec_name()),
        ],
        Platform::Linux => c.program@ == "systemctl"@ && c.args.deep_view()
            == systemd::spec_systemctl_args(m.spec_user(), "start"@, m.spec_name()),
    }
}

/// Whether a stop command realizes the specification for this manager.
pub open spec fn spec_stop_cmd_matches(c: Cmd, m: UniServiceManager) -> bool {
    match m.spec_platform() {
        Platform::Windows => c.program@ == "sc.exe"@ && c.args.deep_view() == seq![
            "stop"@,
            sc::spec_instance_name(m.spec_name(), m.spec_luid()),
        ],
        Platform::MacOs => c.program@ == "launchctl"@ && c.args.deep_view() == seq![
            "kill"@,
            "SIGTERM"@,
            launchd::spec_service_target(m.spec_user(), m.spec_env().uid, m.spec_prefix(), m.spec_name()),
        ],
        Platform::Linux => c.program@ == "systemctl"@ && c.args.deep_view()
            == systemd::spec_systemctl_args(m.spec_user(), "stop"@, m.spec_name()),
    }
}

/// A user service rejects credentials: whenever the service is a user
/// service and the specification sets a user, group or password, the
/// install gate answers `BadServiceSpec` before any backend work — given
/// only that the service is not yet installed.
pub proof fn lemma_user_service_rejects_credentials(
    caps: ServiceCapabilities,
    s: ServiceSpec,
    current: ServiceStatus,
)
    requires
        current is NotInstalled,
        s.user is Some || s.group is Some || s.password is Some,
    ensures
        spec_install_gate(true, caps, s, current) == Some(ServiceErrKind::BadServiceSpec),
{
}

/// A second install is refused: whenever the service is in any state but
/// `NotInstalled`, the install gate answers `AlreadyInstalled` before any
/// backend work, whatever the specification says.
pub proof fn lemma_second_install_refused(
    user_service: bool,
    caps: ServiceCapabilities,
    s: ServiceSpec,
    current: ServiceStatus,
)
    requires
        !(current is NotInstalled),
    ensures
        spec_install_gate(user_service, caps, s, current) == Some(
            ServiceErrKind::AlreadyInstalled,
        ),
{
}

/// A stop in the wrong state is refused with that state: stopping is
/// allowed only while `Running`, and the offending status is carried in
/// the error.
pub proof fn lemma_stop_wrong_state(current: ServiceStatus)
    requires
        !(current is Running),
    ensures
        spec_state_gate(ServiceStatus::Running, current) == Some(
            ServiceErrKind::WrongState(current),
        ),
{
}

/// On Windows an install writes no files, and an uninstall deletes exactly
/// the names the matching install registered: the instance and the template
/// an install created are what the uninstall removes, so the pair leaves no
/// residual registration behind.
pub proof fn lemma_win_uninstall_deletes_install_names(
    p: WinInstallPlan,
    q: WinUninstallPlan,
    name: Seq<char>,
    luid: Option<Seq<char>>,
    s: ServiceSpec,
)
    requires
        spec_win_install_plan_matches(p, name, luid, s),
        spec_win_uninstall_plan_matches(q, name, luid),
    ensures
        q.delete_template.args.deep_view()[1] == p.create.args.deep_view()[1],
        q.delete_instance.args.deep_view()[1] == sc::spec_instance_name(name, luid),
{
    assert(p.create.args.deep_view()[1] == name);
}

/// Waiting for `NotInstalled` succeeds only on an observation of
/// `NotInstalled` itself: after an uninstall, a successful wait really saw
/// the service gone.
pub proof fn lemma_uninstall_wait_observes_not_installed(polls: Seq<crate::waiting::Poll>)
    requires
        crate::waiting::spec_wait_trace(ServiceStatus::NotInstalled, polls) is Success,
    ensures
        exists|i: int|
            0 <= i < polls.len() && polls[i].observed == Result::<
                ServiceStatus,
                ServiceErrKind,
            >::Ok(ServiceStatus::NotInstalled),
{
    crate::waiting::lemma_wait_success_observes_target(ServiceStatus::NotInstalled, polls);
}

/// The canonical lifecycle sequence is admitted at every step: a
/// specification without credentials or unsupported options installs from
/// `NotInstalled`, starting is allowed from `Stopped`, stopping from
/// `Running`, and uninstalling from `Stopped` — so a run of
/// install, start, stop, uninstall whose waits observe those statuses is
/// never refused by a validation or state check.
pub proof fn lemma_lifecycle_order_admitted(
    user_service: bool,
    caps: ServiceCapabilities,
    s: ServiceSpec,
)
    requires
        s.user is None,
        s.group is None,
        s.password is None,
        s.restart_on_failure ==> (s.autostart || !caps.restart_on_failure_requires_autostart),
    ensures
        spec_install_gate(user_service, caps, s, ServiceStatus::NotInstalled) is None,
        spec_state_gate(ServiceStatus::Stopped, ServiceStatus::Stopped) is None,
        spec_state_gate(ServiceStatus::Running, ServiceStatus::Running) is None,
{
}

/// On Windows, the capabilities advertise that user services require a new
/// logon and that their fully qualified names are dynamic.
pub proof fn lemma_windows_user_service_capabilities()
    ensures
        spec_platform_capabilities(Platform::Windows).user_services_require_new_logon,
        spec_platform_capabilities(Platform::Windows).user_service_name_is_dynamic,
{
}

} // verus!
