//! The launchd backend: plans `launchctl` invocations and property lists.
//!
//! A service is labelled `<prefix><name>`. User agents live in the `gui/<uid>`
//! domain and their plists under `$HOME/Library/LaunchAgents`; daemons live
//! in the `system` domain under `/Library/LaunchDaemons`. `launchctl print`
//! exit code 113 means the service is not installed; that is a status, not
//! an error.

use vstd::prelude::*;

use crate::caps::ServiceCapabilities;
use crate::errkind::ServiceErrKind;
use crate::shim::spec_command_result;
use crate::shim::Cmd;
use crate::shim::CmdOutcome;
use crate::shim::FileWrite;
use crate::shim::SERVICE_PERMS;
use crate::status::ServiceStatus;
use crate::svcspec::ServiceSpec;
use crate::systemd::path_and_args;
use crate::systemd::spec_path_and_args;
use crate::textparse::dec_rep;
use crate::textparse::join_with;
use crate::textparse::spec_contains;
use crate::textparse::spec_join;
use crate::textparse::str_contains;
use crate::textparse::u64_to_dec;

verus! {

/// The planned effect of a launchd install: create the directory, write the
/// plist, then bootstrap it into the domain.
#[derive(Debug)]
pub struct LaunchdInstallPlan {
    /// The directory to create (with parents) before writing.
    pub plist_dir: String,
    /// The plist to write and sync.
    pub file: FileWrite,
    /// The `launchctl bootstrap <domain> <plist>` call.
    pub bootstrap: Cmd,
}

/// The planned effect of a launchd uninstall: boot the service out of its
/// domain, then remove the plist.
#[derive(Debug)]
pub struct LaunchdUninstallPlan {
    /// The `launchctl bootout <domain>/<label>` call.
    pub bootout: Cmd,
    /// The plist to remove afterwards.
    pub remove_path: String,
}

/// The service label: the reverse-domain prefix followed by the name.
pub open spec fn spec_label(prefix: Seq<char>, name: Seq<char>) -> Seq<char> {
    prefix + name
}

/// The domain a service lives in: `gui/<uid>` for the current user's agents,
/// `system` for daemons.
pub open spec fn spec_domain_target(user: bool, uid: u32) -> Seq<char> {
    if user {
        "gui/"@ + dec_rep(uid as nat)
    } else {
        "system"@
    }
}

/// The domain target.
pub fn domain_target(user: bool, uid: u32) -> (r: String)
    ensures
        r@ == spec_domain_target(user, uid),
{
    if user {
        let mut r = String::from_str("gui/");
        let digits = u64_to_dec(uid as u64);
        r.append(digits.as_str());
        r
    } else {
        String::from_str("system")
    }
}

/// The fully qualified service target: `<domain>/<label>`.
pub open spec fn spec_service_target(
    user: bool,
    uid: u32,
    prefix: Seq<char>,
    name: Seq<char>,
) -> Seq<char> {
    spec_domain_target(user, uid) + "/"@ + spec_label(prefix, name)
}

/// The service label.
pub fn label(prefix: &str, name: &str) -> (r: String)
    ensures
        r@ == spec_label(prefix@, name@),
{
    let mut r = String::from_str(prefix);
    r.append(name);
    r
}

/// The fully qualified service target.
pub fn service_target(user: bool, uid: u32, prefix: &str, name: &str) -> (r: String)
    ensures
        r@ == spec_service_target(user, uid, prefix@, name@),
{
    let mut r = domain_target(user, uid);
    r.append("/");
    r.append(prefix);
    r.append(name);
    r
}

/// Where plists live: the fixed daemon directory, or `Library/LaunchAgents`
/// under the user's home directory, which must resolve.
pub open spec fn spec_plist_dir(user: bool, home_dir: Option<Seq<char>>) -> Result<
    Seq<char>,
    ServiceErrKind,
> {
    if user {
        match home_dir {
            Some(h) => Ok(h + "/Library/LaunchAgents"@),
            None => Err(ServiceErrKind::DirectoryNotFound),
        }
    } else {
        Ok("/Library/LaunchDaemons"@)
    }
}

/// The directory that holds the plist.
pub fn plist_dir(user: bool, home_dir: &Option<String>) -> (r: Result<String, ServiceErrKind>)
    ensures
        match r {
            Ok(d) => spec_plist_dir(user, home_dir.deep_view()) matches Ok(sd) && d@ == sd,
            Err(e) => spec_plist_dir(user, home_dir.deep_view()) matches Err(se) && e == se,
        },
{
    if user {
        match home_dir {
            Some(h) => {
                let mut p = h.clone();
                p.append("/Library/LaunchAgents");
                Ok(p)
            },
            None => Err(ServiceErrKind::DirectoryNotFound),
        }
    } else {
        Ok(String::from_str("/Library/LaunchDaemons"))
    }
}

/// The full path of the plist: `<dir>/<prefix><name>.plist`.
pub open spec fn spec_plist_path(dir: Seq<char>, prefix: Seq<char>, name: Seq<char>) -> Seq<
    char,
> {
    dir + "/"@ + prefix + name + ".plist"@
}

/// The full path of the plist.
pub fn plist_path(dir: &str, prefix: &str, name: &str) -> (r: String)
    ensures
        r@ == spec_plist_path(dir@, prefix@, name@),
{
    let mut p = String::from_str(dir);
    p.append("/");
    p.append(prefix);
    p.append(name);
    p.append(".plist");
    p
}

/// One `<string>` element of the `ProgramArguments` array.
pub open spec fn spec_plist_arg_line(arg: Seq<char>) -> Seq<char> {
    "            <string>"@ + arg + "</string>"@
}

/// The `ProgramArguments` elements: one line per part of the command line.
pub open spec fn spec_plist_args(s: ServiceSpec) -> Seq<char> {
    spec_join(spec_path_and_args(s).map_values(|a: Seq<char>| spec_plist_arg_line(a)), "\n"@)
}

/// The whole plist: Apple PLIST 1.0 with `Label`, `ProgramArguments`,
/// `KeepAlive` false, and `RunAtLoad` mirroring the autostart flag.
pub open spec fn spec_plist_content(label: Seq<char>, s: ServiceSpec) -> Seq<char> {
    "<?xml version=\"1.0\" encoding=\"UTF-8\"?>\n<!DOCTYPE plist PUBLIC \"-//Apple//DTD PLIST 1.0//EN\" \"http://www.apple.com/DTDs/PropertyList-1.0.dtd\">\n<plist version=\"1.0\">\n    <dict>\n        <key>Label</key>\n        <string>"@
        + label + "</string>\n        <key>ProgramArguments</key>\n        <array>\n"@
        + spec_plist_args(s)
        + "\n        </array>\n        <key>KeepAlive</key>\n        <false/>\n        <key>RunAtLoad</key>\n        <"@
        + (if s.autostart {
        "true"@
    } else {
        "false"@
    }) + "/>\n    </dict>\n</plist>\n"@
}

/// Renders the plist.
pub fn plist_content(label: &str, s: &ServiceSpec) -> (r: String)
    ensures
        r@ == spec_plist_content(label@, *s),
{
    let parts = path_and_args(s);
    let mut lines: Vec<String> = Vec::new();
    let n = parts.len();
    let mut i: usize = 0;
    while i < n
        invariant
            n == parts@.len(),
            parts.deep_view() == spec_path_and_args(*s),
            i <= n,
            lines.deep_view() =~= parts.deep_view().subrange(0, i as int).map_values(
                |a: Seq<char>| spec_plist_arg_line(a),
            ),
        decreases n - i,
    {
        let ghost old_deep = lines.deep_view();
        let mut line = String::from_str("            <string>");
        line.append(parts[i].as_str());
        line.append("</string>");
        lines.push(line);
        proof {
            assert(lines.deep_view() =~= old_deep.push(spec_plist_arg_line(
                parts.deep_view()[i as int],
            )));
            assert(lines.deep_view() =~= parts.deep_view().subrange(0, i + 1).map_values(
                |a: Seq<char>| spec_plist_arg_line(a),
            ));
        }
        i = i + 1;
    }
    proof {
        assert(parts.deep_view().subrange(0, n as int) =~= parts.deep_view());
    }
    let args = join_with(&lines, "\n");
    let mut r = String::from_str(
        "<?xml version=\"1.0\" encoding=\"UTF-8\"?>\n<!DOCTYPE plist PUBLIC \"-//Apple//DTD PLIST 1.0//EN\" \"http://www.apple.com/DTDs/PropertyList-1.0.dtd\">\n<plist version=\"1.0\">\n    <dict>\n        <key>Label</key>\n        <string>",
    );
    r.append(label);
    r.append("</string>\n        <key>ProgramArguments</key>\n        <array>\n");
    r.append(args.as_str());
    r.append("\n        </array>\n        <key>KeepAlive</key>\n        <false/>\n        <key>RunAtLoad</key>\n        <");
    if s.autostart {
        r.append("true");
    } else {
        r.append("false");
    }
    r.append("/>\n    </dict>\n</plist>\n");
    proof {
        assert(r@ =~= spec_plist_content(label@, *s));
    }
    r
}

/// A `launchctl <sub> <args..>` invocation.
fn launchctl_cmd(sub: &str, args: Vec<String>) -> (r: Cmd)
    ensures
        r.program@ == "launchctl"@,
        r.args.deep_view() == seq![sub@] + args.deep_view(),
{
    let mut all: Vec<String> = Vec::new();
    all.push(String::from_str(sub));
    let mut rest = args;
    let n = rest.len();
    let mut i: usize = 0;
    while i < n
        invariant
            n == rest@.len(),
            i <= n,
            all.deep_view() =~= seq![sub@] + rest.deep_view().subrange(0, i as int),
            rest.deep_view().len() == n,
        decreases n - i,
    {
        let ghost old_deep = all.deep_view();
        let item = rest[i].clone();
        proof {
            assert(item@ == rest@[i as int]@);
        }
        all.push(item);
        proof {
            assert(all.deep_view() =~= old_deep.push(rest.deep_view()[i as int]));
            assert(all.deep_view() =~= seq![sub@] + rest.deep_view().subrange(0, i + 1));
        }
        i = i + 1;
    }
    proof {
        assert(rest.deep_view().subrange(0, n as int) =~= rest.deep_view());
    }
    Cmd { program: String::from_str("launchctl"), args: all }
}

/// The availability probe run at construction: `launchctl list`.
pub fn probe_cmd() -> (r: Cmd)
    ensures
        r.program@ == "launchctl"@,
        r.args.deep_view() == seq!["list"@],
{
    let r = launchctl_cmd("list", Vec::new());
    proof {
        assert(r.args.deep_view() =~= seq!["list"@]);
    }
    r
}

/// The `launchctl kickstart -kp <domain>/<label>` call that starts the
/// service.
pub fn start_cmd(user: bool, uid: u32, prefix: &str, name: &str) -> (r: Cmd)
    ensures
        r.program@ == "launchctl"@,
        r.args.deep_view() == seq![
            "kickstart"@,
            "-kp"@,
            spec_service_target(user, uid, prefix@, name@),
        ],
{
    let mut args: Vec<String> = Vec::new();
    args.push(String::from_str("-kp"));
    args.push(service_target(user, uid, prefix, name));
    let r = launchctl_cmd("kickstart", args);
    proof {
        assert(r.args.deep_view() =~= seq![
            "kickstart"@,
            "-kp"@,
            spec_service_target(user, uid, prefix@, name@),
        ]);
    }
    r
}

/// The `launchctl kill SIGTERM <domain>/<label>` call that stops the
/// service.
pub fn stop_cmd(user: bool, uid: u32, prefix: &str, name: &str) -> (r: Cmd)
    ensures
        r.program@ == "launchctl"@,
        r.args.deep_view() == seq![
            "kill"@,
            "SIGTERM"@,
            spec_service_target(user, uid, prefix@, name@),
        ],
{
    let mut args: Vec<String> = Vec::new();
    args.push(String::from_str("SIGTERM"));
    args.push(service_target(user, uid, prefix, name));
    let r = launchctl_cmd("kill", args);
    proof {
        assert(r.args.deep_view() =~= seq![
            "kill"@,
            "SIGTERM"@,
            spec_service_target(user, uid, prefix@, name@),
        ]);
    }
    r
}

/// The `launchctl print <domain>/<label>` call that queries the status.
pub fn status_cmd(user: bool, uid: u32, prefix: &str, name: &str) -> (r: Cmd)
    ensures
        r.program@ == "launchctl"@,
        r.args.deep_view() == seq!["print"@, spec_service_target(user, uid, prefix@, name@)],
{
    let mut args: Vec<String> = Vec::new();
    args.push(service_target(user, uid, prefix, name));
    let r = launchctl_cmd("print", args);
    proof {
        assert(r.args.deep_view() =~= seq![
            "print"@,
            spec_service_target(user, uid, prefix@, name@),
        ]);
    }
    r
}

/// What installing plans: write the plist under the resolved directory,
/// then bootstrap it into the domain. Fails only when a user service's home
/// directory cannot be resolved.
pub fn install_plan(
    prefix: &str,
    name: &str,
    user: bool,
    uid: u32,
    home_dir: &Option<String>,
    s: &ServiceSpec,
) -> (r: Result<LaunchdInstallPlan, ServiceErrKind>)
    ensures
        match r {
            Ok(p) => {
                &&& spec_plist_dir(user, home_dir.deep_view()) matches Ok(dir) && p.plist_dir@
                    == dir
                &&& p.file.path@ == spec_plist_path(p.plist_dir@, prefix@, name@)
                &&& p.file.content@ == spec_plist_content(spec_label(prefix@, name@), *s)
                &&& p.file.mode == SERVICE_PERMS
                &&& p.bootstrap.program@ == "launchctl"@
                &&& p.bootstrap.args.deep_view() == seq![
                    "bootstrap"@,
                    spec_domain_target(user, uid),
                    p.file.path@,
                ]
            },
            Err(e) => spec_plist_dir(user, home_dir.deep_view()) matches Err(se) && e == se
                && e is DirectoryNotFound,
        },
{
    let dir = plist_dir(user, home_dir)?;
    let path = plist_path(dir.as_str(), prefix, name);
    let lbl = label(prefix, name);
    let content = plist_content(lbl.as_str(), s);
    let mut args: Vec<String> = Vec::new();
    args.push(domain_target(user, uid));
    args.push(path.clone());
    let bootstrap = launchctl_cmd("bootstrap", args);
    proof {
        assert(bootstrap.args.deep_view() =~= seq![
            "bootstrap"@,
            spec_domain_target(user, uid),
            path@,
        ]);
    }
    Ok(
        LaunchdInstallPlan {
            plist_dir: dir,
            file: FileWrite { path, content, mode: SERVICE_PERMS },
            bootstrap,
        },
    )
}

/// What uninstalling plans: boot the fully qualified label out of its
/// domain, then remove the plist. The removed path is exactly the one an
/// install with the same inputs writes.
pub fn uninstall_plan(
    prefix: &str,
    name: &str,
    user: bool,
    uid: u32,
    home_dir: &Option<String>,
) -> (r: Result<LaunchdUninstallPlan, ServiceErrKind>)
    ensures
        match r {
            Ok(p) => {
                &&& p.bootout.program@ == "launchctl"@
                &&& p.bootout.args.deep_view() == seq![
                    "bootout"@,
                    spec_service_target(user, uid, prefix@, name@),
                ]
                &&& spec_plist_dir(user, home_dir.deep_view()) matches Ok(dir) && p.remove_path@
                    == spec_plist_path(dir, prefix@, name@)
            },
            Err(e) => spec_plist_dir(user, home_dir.deep_view()) matches Err(se) && e == se
                && e is DirectoryNotFound,
        },
{
    let dir = plist_dir(user, home_dir)?;
    let path = plist_path(dir.as_str(), prefix, name);
    let mut args: Vec<String> = Vec::new();
    args.push(service_target(user, uid, prefix, name));
    let bootout = launchctl_cmd("bootout", args);
    proof {
        assert(bootout.args.deep_view() =~= seq![
            "bootout"@,
            spec_service_target(user, uid, prefix@, name@),
        ]);
    }
    Ok(LaunchdUninstallPlan { bootout, remove_path: path })
}

/// Installing and then uninstalling touches exactly one file, and it is the
/// same file in both directions: an install followed by an uninstall leaves
/// no residual plist behind.
pub proof fn lemma_uninstall_removes_install_file(
    p: LaunchdInstallPlan,
    q: LaunchdUninstallPlan,
    dir: Seq<char>,
    prefix: Seq<char>,
    name: Seq<char>,
)
    requires
        p.file.path@ == spec_plist_path(dir, prefix, name),
        q.remove_path@ == spec_plist_path(dir, prefix, name),
    ensures
        p.file.path@ == q.remove_path@,
{
}

/// How a `launchctl print` outcome reads: on success, the service is
/// running exactly when the report contains `state = running`; exit code
/// 113 means not installed; anything else is the error the shim reports.
pub open spec fn spec_status_interpretation(outcome: CmdOutcome) -> Result<
    ServiceStatus,
    ServiceErrKind,
> {
    match spec_command_result(outcome) {
        Ok(out) => {
            if spec_contains(out@, "state = running"@) {
                Ok(ServiceStatus::Running)
            } else {
                Ok(ServiceStatus::Stopped)
            }
        },
        Err(e) => match e {
            ServiceErrKind::BadExitStatus(Some(113), _) => Ok(ServiceStatus::NotInstalled),
            _ => Err(e),
        },
    }
}

/// Interprets the outcome of `launchctl print`.
pub fn status_from_outcome(outcome: CmdOutcome) -> (r: Result<ServiceStatus, ServiceErrKind>)
    ensures
        r == spec_status_interpretation(outcome),
{
    match crate::shim::command_result(outcome) {
        Ok(out) => {
            if str_contains(out.as_str(), "state = running") {
                Ok(ServiceStatus::Running)
            } else {
                Ok(ServiceStatus::Stopped)
            }
        },
        Err(e) => match e {
            ServiceErrKind::BadExitStatus(Some(113), _) => Ok(ServiceStatus::NotInstalled),
            other => Err(other),
        },
    }
}

/// What launchd can do: services are addressed through a name prefix;
/// nothing else of the optional behaviors is advertised.
pub fn capabilities() -> (r: ServiceCapabilities)
    ensures
        r == (ServiceCapabilities {
            custom_user_requires_password: false,
            supports_custom_group: false,
            user_services_require_new_logon: false,
            restart_on_failure_requires_autostart: false,
            uses_name_prefix: true,
            user_services_req_elevated_priv_for_install: false,
            supports_pending_paused_states: false,
            user_service_name_is_dynamic: false,
            supports_description: false,
            supports_display_name: false,
        }),
{
    ServiceCapabilities {
        custom_user_requires_password: false,
        supports_custom_group: false,
        user_services_require_new_logon: false,
        restart_on_failure_requires_autostart: false,
        uses_name_prefix: true,
        user_services_req_elevated_priv_for_install: false,
        supports_pending_paused_states: false,
        user_service_name_is_dynamic: false,
        supports_description: false,
        supports_display_name: false,
    }
}

} // verus!
