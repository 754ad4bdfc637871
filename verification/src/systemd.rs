//! The systemd backend: plans `systemctl` invocations and unit files.
//!
//! The unit file goes to `/etc/systemd/system` for a system service and to
//! `<config dir>/systemd/user` for a user service; `--system` or `--user`
//! selects the bus explicitly on every `systemctl` call. `systemctl` exit
//! code 3 means stopped and 4 means not installed; both are statuses, not
//! errors.

use vstd::prelude::*;

use crate::caps::ServiceCapabilities;
use crate::errkind::ServiceErrKind;
use crate::shim::spec_command_result;
use crate::shim::Cmd;
use crate::shim::CmdOutcome;
use crate::shim::FileWrite;
use crate::shim::SERVICE_PERMS;
use crate::status::ServiceStatus;
use crate::svcspec::ServiceSpec;
use crate::textparse::join_with;
use crate::textparse::spec_join;

verus! {

/// The planned effect of a systemd install: create the directory, write the
/// unit file, then optionally enable the unit.
#[derive(Debug)]
pub struct SystemdInstallPlan {
    /// The directory to create (with parents) before writing.
    pub unit_dir: String,
    /// The unit file to write and sync.
    pub file: FileWrite,
    /// The `systemctl enable` call, planned only when autostart is wanted.
    pub enable: Option<Cmd>,
}

/// The planned effect of a systemd uninstall: disable the unit, then remove
/// its file.
#[derive(Debug)]
pub struct SystemdUninstallPlan {
    /// The `systemctl disable` call.
    pub disable: Cmd,
    /// The unit file to remove afterwards.
    pub remove_path: String,
}

/// The bus selection flag: `--user` or `--system`, always explicit.
pub open spec fn spec_bus_flag(user: bool) -> Seq<char> {
    if user {
        "--user"@
    } else {
        "--system"@
    }
}

/// The arguments of a `systemctl` call on the service.
pub open spec fn spec_systemctl_args(user: bool, sub: Seq<char>, name: Seq<char>) -> Seq<
    Seq<char>,
> {
    seq![spec_bus_flag(user), sub, name]
}

/// A `systemctl <sub> <name>` invocation on the selected bus.
pub fn systemctl_cmd(user: bool, sub: &str, name: &str) -> (r: Cmd)
    ensures
        r.program@ == "systemctl"@,
        r.args.deep_view() == spec_systemctl_args(user, sub@, name@),
{
    let mut args: Vec<String> = Vec::new();
    if user {
        args.push(String::from_str("--user"));
    } else {
        args.push(String::from_str("--system"));
    }
    args.push(String::from_str(sub));
    args.push(String::from_str(name));
    let r = Cmd { program: String::from_str("systemctl"), args };
    proof {
        assert(r.args.deep_view() =~= spec_systemctl_args(user, sub@, name@));
    }
    r
}

/// A bare `systemctl` invocation on the selected bus: the availability probe
/// run at construction.
pub fn systemctl_probe_cmd(user: bool) -> (r: Cmd)
    ensures
        r.program@ == "systemctl"@,
        r.args.deep_view() == seq![spec_bus_flag(user)],
{
    let mut args: Vec<String> = Vec::new();
    if user {
        args.push(String::from_str("--user"));
    } else {
        args.push(String::from_str("--system"));
    }
    let r = Cmd { program: String::from_str("systemctl"), args };
    proof {
        assert(r.args.deep_view() =~= seq![spec_bus_flag(user)]);
    }
    r
}

/// Where unit files live: the fixed system directory, or `systemd/user`
/// under the user's configuration directory, which must resolve.
pub open spec fn spec_unit_dir(user: bool, config_dir: Option<Seq<char>>) -> Result<
    Seq<char>,
    ServiceErrKind,
> {
    if user {
        match config_dir {
            Some(d) => Ok(d + "/systemd/user"@),
            None => Err(ServiceErrKind::DirectoryNotFound),
        }
    } else {
        Ok("/etc/systemd/system"@)
    }
}

/// The directory that holds the unit file.
pub fn unit_dir(user: bool, config_dir: &Option<String>) -> (r: Result<String, ServiceErrKind>)
    ensures
        match r {
            Ok(d) => spec_unit_dir(user, config_dir.deep_view()) matches Ok(sd) && d@ == sd,
            Err(e) => spec_unit_dir(user, config_dir.deep_view()) matches Err(se) && e == se,
        },
{
    if user {
        match config_dir {
            Some(d) => {
                let mut p = d.clone();
                p.append("/systemd/user");
                Ok(p)
            },
            None => Err(ServiceErrKind::DirectoryNotFound),
        }
    } else {
        Ok(String::from_str("/etc/systemd/system"))
    }
}

/// The full path of the unit file: `<dir>/<name>.service`.
pub open spec fn spec_unit_path(dir: Seq<char>, name: Seq<char>) -> Seq<char> {
    dir + "/"@ + name + ".service"@
}

/// The full path of the unit file.
pub fn unit_path(dir: &str, name: &str) -> (r: String)
    ensures
        r@ == spec_unit_path(dir@, name@),
{
    let mut p = String::from_str(dir);
    p.append("/");
    p.append(name);
    p.append(".service");
    p
}

/// The executable path followed by the arguments, each a part of its own.
pub open spec fn spec_path_and_args(s: ServiceSpec) -> Seq<Seq<char>> {
    seq![s.path@] + s.args.deep_view()
}

/// The executable path followed by the arguments.
pub fn path_and_args(s: &ServiceSpec) -> (r: Vec<String>)
    ensures
        r.deep_view() == spec_path_and_args(*s),
{
    let mut r: Vec<String> = Vec::new();
    r.push(s.path.clone());
    let n = s.args.len();
    let mut i: usize = 0;
    while i < n
        invariant
            n == s.args@.len(),
            i <= n,
            r.deep_view() =~= seq![s.path@] + s.args.deep_view().subrange(0, i as int),
        decreases n - i,
    {
        let ghost old_deep = r.deep_view();
        let item = s.args[i].clone();
        proof {
            assert(item@ == s.args@[i as int]@);
        }
        r.push(item);
        proof {
            assert(r.deep_view() =~= old_deep.push(s.args@[i as int]@));
            assert(s.args.deep_view()[i as int] == s.args@[i as int]@);
            assert(r.deep_view() =~= seq![s.path@] + s.args.deep_view().subrange(0, i + 1));
        }
        i = i + 1;
    }
    proof {
        assert(s.args.deep_view().subrange(0, n as int) =~= s.args.deep_view());
        assert(r.deep_view() =~= spec_path_and_args(*s));
    }
    r
}

/// The `ExecStart` value: path and arguments joined by single spaces.
pub open spec fn spec_exec_start(s: ServiceSpec) -> Seq<char> {
    spec_join(spec_path_and_args(s), " "@)
}

/// The target that wants the unit: `default.target` for a user unit,
/// `multi-user.target` for a system unit.
pub open spec fn spec_wanted_by(user: bool) -> Seq<char> {
    if user {
        "default.target"@
    } else {
        "multi-user.target"@
    }
}

/// The description line of the unit, when a description was given.
pub open spec fn spec_description_part(s: ServiceSpec) -> Seq<char> {
    match s.description {
        Some(d) => "Description="@ + d@ + "\n"@,
        None => Seq::empty(),
    }
}

/// The whole unit file: a `[Unit]` section with the optional description, a
/// `[Service]` section with the command line and `Restart=always`, and an
/// `[Install]` section naming the wanting target.
pub open spec fn spec_unit_content(s: ServiceSpec, user: bool) -> Seq<char> {
    "[Unit]\n"@ + spec_description_part(s) + "\n[Service]\nExecStart="@ + spec_exec_start(s)
        + "\nRestart=always\n\n[Install]\nWantedBy="@ + spec_wanted_by(user) + "\n"@
}

/// Renders the unit file.
pub fn unit_content(s: &ServiceSpec, user: bool) -> (r: String)
    ensures
        r@ == spec_unit_content(*s, user),
{
    let mut r = String::from_str("[Unit]\n");
    match &s.description {
        Some(d) => {
            r.append("Description=");
            r.append(d.as_str());
            r.append("\n");
        },
        None => {},
    }
    r.append("\n[Service]\nExecStart=");
    let parts = path_and_args(s);
    let exec_start = join_with(&parts, " ");
    r.append(exec_start.as_str());
    r.append("\nRestart=always\n\n[Install]\nWantedBy=");
    if user {
        r.append("default.target");
    } else {
        r.append("multi-user.target");
    }
    r.append("\n");
    proof {
        assert(r@ =~= spec_unit_content(*s, user));
    }
    r
}

/// What installing plans: write the unit file under the resolved directory,
/// then enable the unit exactly when autostart is wanted. Fails only when a
/// user service's configuration directory cannot be resolved.
pub fn install_plan(name: &str, user: bool, config_dir: &Option<String>, s: &ServiceSpec) -> (r:
    Result<SystemdInstallPlan, ServiceErrKind>)
    ensures
        match r {
            Ok(p) => {
                &&& spec_unit_dir(user, config_dir.deep_view()) matches Ok(dir) && p.unit_dir@
                    == dir
                &&& p.file.path@ == spec_unit_path(p.unit_dir@, name@)
                &&& p.file.content@ == spec_unit_content(*s, user)
                &&& p.file.mode == SERVICE_PERMS
                &&& if s.autostart {
                    p.enable matches Some(c) && c.program@ == "systemctl"@ && c.args.deep_view()
                        == spec_systemctl_args(user, "enable"@, name@)
                } else {
                    p.enable is None
                }
            },
            Err(e) => spec_unit_dir(user, config_dir.deep_view()) == Result::<
                Seq<char>,
                ServiceErrKind,
            >::Err(e) && e is DirectoryNotFound,
        },
{
    let dir = unit_dir(user, config_dir)?;
    let path = unit_path(dir.as_str(), name);
    let content = unit_content(s, user);
    let enable = if s.autostart {
        Some(systemctl_cmd(user, "enable", name))
    } else {
        None
    };
    Ok(
        SystemdInstallPlan {
            unit_dir: dir,
            file: FileWrite { path, content, mode: SERVICE_PERMS },
            enable,
        },
    )
}

/// What uninstalling plans: disable the unit, then remove its file. The
/// removed path is exactly the one an install with the same inputs writes.
pub fn uninstall_plan(name: &str, user: bool, config_dir: &Option<String>) -> (r: Result<
    SystemdUninstallPlan,
    ServiceErrKind,
>)
    ensures
        match r {
            Ok(p) => {
                &&& p.disable.program@ == "systemctl"@
                &&& p.disable.args.deep_view() == spec_systemctl_args(user, "disable"@, name@)
                &&& spec_unit_dir(user, config_dir.deep_view()) matches Ok(dir) && p.remove_path@
                    == spec_unit_path(dir, name@)
            },
            Err(e) => spec_unit_dir(user, config_dir.deep_view()) == Result::<
                Seq<char>,
                ServiceErrKind,
            >::Err(e) && e is DirectoryNotFound,
        },
{
    let dir = unit_dir(user, config_dir)?;
    let path = unit_path(dir.as_str(), name);
    Ok(SystemdUninstallPlan { disable: systemctl_cmd(user, "disable", name), remove_path: path })
}

/// Installing and then uninstalling touches exactly one file, and it is the
/// same file in both directions: an install followed by an uninstall leaves
/// no residual unit file behind.
pub proof fn lemma_uninstall_removes_install_file(
    p: SystemdInstallPlan,
    q: SystemdUninstallPlan,
    dir: Seq<char>,
    name: Seq<char>,
)
    requires
        p.file.path@ == spec_unit_path(dir, name),
        q.remove_path@ == spec_unit_path(dir, name),
    ensures
        p.file.path@ == q.remove_path@,
{
}

/// How a `systemctl status` outcome reads: success means running, exit code
/// 3 means stopped, exit code 4 means not installed, and anything else is
/// the error the shim reports.
pub open spec fn spec_status_interpretation(outcome: CmdOutcome) -> Result<
    ServiceStatus,
    ServiceErrKind,
> {
    match spec_command_result(outcome) {
        Ok(_) => Ok(ServiceStatus::Running),
        Err(e) => match e {
            ServiceErrKind::BadExitStatus(Some(3), _) => Ok(ServiceStatus::Stopped),
            ServiceErrKind::BadExitStatus(Some(4), _) => Ok(ServiceStatus::NotInstalled),
            _ => Err(e),
        },
    }
}

/// Interprets the outcome of `systemctl status`.
pub fn status_from_outcome(outcome: CmdOutcome) -> (r: Result<ServiceStatus, ServiceErrKind>)
    ensures
        r == spec_status_interpretation(outcome),
{
    match crate::shim::command_result(outcome) {
        Ok(_) => Ok(ServiceStatus::Running),
        Err(e) => match e {
            ServiceErrKind::BadExitStatus(Some(3), _) => Ok(ServiceStatus::Stopped),
            ServiceErrKind::BadExitStatus(Some(4), _) => Ok(ServiceStatus::NotInstalled),
            other => Err(other),
        },
    }
}

/// What systemd can do: custom groups are supported; nothing else of the
/// optional behaviors is.
pub fn capabilities() -> (r: ServiceCapabilities)
    ensures
        r == (ServiceCapabilities {
            custom_user_requires_password: false,
            supports_custom_group: true,
            user_services_require_new_logon: false,
            restart_on_failure_requires_autostart: false,
            uses_name_prefix: false,
            user_services_req_elevated_priv_for_install: false,
            supports_pending_paused_states: false,
            user_service_name_is_dynamic: false,
            supports_description: false,
            supports_display_name: false,
        }),
{
    ServiceCapabilities {
        custom_user_requires_password: false,
        supports_custom_group: true,
        user_services_require_new_logon: false,
        restart_on_failure_requires_autostart: false,
        uses_name_prefix: false,
        user_services_req_elevated_priv_for_install: false,
        supports_pending_paused_states: false,
        user_service_name_is_dynamic: false,
        supports_description: false,
        supports_display_name: false,
    }
}

} // verus!
