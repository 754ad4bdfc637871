//! The Windows backend: plans `sc.exe` invocations and parses their output.
//!
//! A user service is registered as a template; each logon session gets an
//! instance named `<template>_<LUID>`, where the LUID is discovered from
//! `sc query type= userservice` at construction. The template name is used
//! for install, uninstall and description; the instance name for start, stop
//! and query, falling back to the template when the instance does not exist
//! yet. `sc query` exit code 1060 means the service is not installed; that
//! is a status, not an error.

use vstd::prelude::*;

use crate::caps::ServiceCapabilities;
use crate::errkind::ServiceErrKind;
use crate::shim::spec_command_result;
use crate::shim::Cmd;
use crate::shim::CmdOutcome;
use crate::status::ServiceStatus;
use crate::svcspec::ServiceSpec;
use crate::textparse::chars_of;
use crate::textparse::line_spans;
use crate::textparse::span_eq_str;
use crate::textparse::span_rfind;
use crate::textparse::span_starts_with;
use crate::textparse::span_string;
use crate::textparse::spec_lines;
use crate::textparse::spec_rfind;
use crate::textparse::spec_starts_with;
use crate::textparse::spec_ws_tokens;
use crate::textparse::ws_token_spans;

verus! {

/// The status a `STATE` keyword names, if it is one of the seven `sc.exe`
/// reports.
pub open spec fn spec_state_token(t: Seq<char>) -> Option<ServiceStatus> {
    if t == "RUNNING"@ {
        Some(ServiceStatus::Running)
    } else if t == "STOPPED"@ {
        Some(ServiceStatus::Stopped)
    } else if t == "START_PENDING"@ {
        Some(ServiceStatus::StartPending)
    } else if t == "STOP_PENDING"@ {
        Some(ServiceStatus::StopPending)
    } else if t == "CONTINUE_PENDING"@ {
        Some(ServiceStatus::ContinuePending)
    } else if t == "PAUSE_PENDING"@ {
        Some(ServiceStatus::PausePending)
    } else if t == "PAUSED"@ {
        Some(ServiceStatus::Paused)
    } else {
        None
    }
}

/// Whether a line of `sc query` output reports the state: its first token
/// is `STATE`, its second `:`, and a numeric code and a keyword follow.
pub open spec fn spec_is_state_line(l: Seq<char>) -> bool {
    let toks = spec_ws_tokens(l);
    toks.len() >= 4 && toks[0] == "STATE"@ && toks[1] == ":"@
}

/// The status reported by a sequence of output lines: the first state line
/// decides; an unknown keyword there, or no state line at all, is a
/// platform error.
pub open spec fn spec_scan_state_lines(lines: Seq<Seq<char>>) -> Result<
    ServiceStatus,
    ServiceErrKind,
>
    decreases lines.len(),
{
    if lines.len() == 0 {
        Err(ServiceErrKind::PlatformError(None))
    } else if spec_is_state_line(lines[0]) {
        match spec_state_token(spec_ws_tokens(lines[0])[3]) {
            Some(st) => Ok(st),
            None => Err(ServiceErrKind::PlatformError(None)),
        }
    } else {
        spec_scan_state_lines(lines.drop_first())
    }
}

/// The keyword a token span names, as a status.
fn state_token_status(v: &Vec<char>, a: usize, b: usize) -> (r: Option<ServiceStatus>)
    requires
        a <= b <= v@.len(),
    ensures
        r == spec_state_token(v@.subrange(a as int, b as int)),
{
    if span_eq_str(v, a, b, "RUNNING") {
        Some(ServiceStatus::Running)
    } else if span_eq_str(v, a, b, "STOPPED") {
        Some(ServiceStatus::Stopped)
    } else if span_eq_str(v, a, b, "START_PENDING") {
        Some(ServiceStatus::StartPending)
    } else if span_eq_str(v, a, b, "STOP_PENDING") {
        Some(ServiceStatus::StopPending)
    } else if span_eq_str(v, a, b, "CONTINUE_PENDING") {
        Some(ServiceStatus::ContinuePending)
    } else if span_eq_str(v, a, b, "PAUSE_PENDING") {
        Some(ServiceStatus::PausePending)
    } else if span_eq_str(v, a, b, "PAUSED") {
        Some(ServiceStatus::Paused)
    } else {
        None
    }
}

/// Parses successful `sc query` output: scans for the first `STATE : <code>
/// <keyword>` line and maps its keyword.
#[verifier::rlimit(50)]
pub fn parse_query_status(output: &str) -> (r: Result<ServiceStatus, ServiceErrKind>)
    ensures
        r == spec_scan_state_lines(spec_lines(output@)),
{
    let v = chars_of(output);
    let spans = line_spans(&v);
    let ghost lines = spec_lines(output@);
    let n = spans.len();
    let mut i: usize = 0;
    proof {
        assert(lines.skip(0) =~= lines);
        assert forall|k: int| 0 <= k < n implies {
            &&& (#[trigger] spans@[k]).0 <= spans@[k].1 <= v@.len()
            &&& v@.subrange(spans@[k].0 as int, spans@[k].1 as int) == lines[k]
        } by {
            assert(v@.subrange(spans@[k].0 as int, spans@[k].1 as int) == spec_lines(v@)[k]);
        }
    }
    while i < n
        invariant
            v@ == output@,
            lines == spec_lines(output@),
            n == spans@.len() == lines.len(),
            i <= n,
            forall|k: int|
                0 <= k < n ==> {
                    &&& (#[trigger] spans@[k]).0 <= spans@[k].1 <= v@.len()
                    &&& v@.subrange(spans@[k].0 as int, spans@[k].1 as int) == lines[k]
                },
            spec_scan_state_lines(lines) == spec_scan_state_lines(lines.skip(i as int)),
        decreases n - i,
    {
        let (a, b) = (spans[i].0, spans[i].1);
        let toks = ws_token_spans(&v, a, b);
        let ghost line = lines[i as int];
        proof {
            assert(lines.skip(i as int)[0] == line);
        }
        if toks.len() >= 4 && span_eq_str(&v, toks[0].0, toks[0].1, "STATE") && span_eq_str(
            &v,
            toks[1].0,
            toks[1].1,
            ":",
        ) {
            proof {
                assert(spec_ws_tokens(line)[0] == v@.subrange(
                    toks@[0].0 as int,
                    toks@[0].1 as int,
                ));
                assert(spec_ws_tokens(line)[1] == v@.subrange(
                    toks@[1].0 as int,
                    toks@[1].1 as int,
                ));
                assert(spec_is_state_line(line));
            }
            let st = state_token_status(&v, toks[3].0, toks[3].1);
            proof {
                assert(spec_ws_tokens(line)[3] == v@.subrange(
                    toks@[3].0 as int,
                    toks@[3].1 as int,
                ));
                assert(lines.skip(i as int).drop_first() =~= lines.skip(i + 1));
            }
            match st {
                Some(s) => {
                    return Ok(s);
                },
                None => {
                    return Err(ServiceErrKind::PlatformError(None));
                },
            }
        }
        proof {
            assert(!spec_is_state_line(line)) by {
                if spec_is_state_line(line) {
                    assert(spec_ws_tokens(line)[0] == v@.subrange(
                        toks@[0].0 as int,
                        toks@[0].1 as int,
                    ));
                    assert(spec_ws_tokens(line)[1] == v@.subrange(
                        toks@[1].0 as int,
                        toks@[1].1 as int,
                    ));
                }
            }
            assert(lines.skip(i as int).drop_first() =~= lines.skip(i + 1));
        }
        i = i + 1;
    }
    proof {
        assert(lines.skip(n as int) =~= Seq::<Seq<char>>::empty());
    }
    Err(ServiceErrKind::PlatformError(None))
}

/// The per-session LUID found in `sc query type= userservice` output: from
/// the first `SERVICE_NAME:` line whose name carries an underscore, the
/// part after the last underscore.
pub open spec fn spec_scan_luid(lines: Seq<Seq<char>>) -> Option<Seq<char>>
    decreases lines.len(),
{
    if lines.len() == 0 {
        None
    } else if spec_starts_with(lines[0], "SERVICE_NAME:"@) && spec_rfind(lines[0], '_') is Some {
        match spec_rfind(lines[0], '_') {
            Some(u) => Some(lines[0].subrange(u + 1, lines[0].len() as int)),
            None => None,
        }
    } else {
        spec_scan_luid(lines.drop_first())
    }
}

/// Extracts the current session's LUID from `sc query type= userservice`
/// output.
#[verifier::rlimit(100)]
pub fn extract_luid(output: &str) -> (r: Option<String>)
    ensures
        match r {
            Some(l) => spec_scan_luid(spec_lines(output@)) == Some(l@),
            None => spec_scan_luid(spec_lines(output@)) is None,
        },
{
    let v = chars_of(output);
    let spans = line_spans(&v);
    let ghost lines = spec_lines(output@);
    let n = spans.len();
    let mut i: usize = 0;
    proof {
        assert(lines.skip(0) =~= lines);
        assert forall|k: int| 0 <= k < n implies {
            &&& (#[trigger] spans@[k]).0 <= spans@[k].1 <= v@.len()
            &&& v@.subrange(spans@[k].0 as int, spans@[k].1 as int) == lines[k]
        } by {
            assert(v@.subrange(spans@[k].0 as int, spans@[k].1 as int) == spec_lines(v@)[k]);
        }
    }
    while i < n
        invariant
            v@ == output@,
            lines == spec_lines(output@),
            n == spans@.len() == lines.len(),
            i <= n,
            forall|k: int|
                0 <= k < n ==> {
                    &&& (#[trigger] spans@[k]).0 <= spans@[k].1 <= v@.len()
                    &&& v@.subrange(spans@[k].0 as int, spans@[k].1 as int) == lines[k]
                },
            spec_scan_luid(lines) == spec_scan_luid(lines.skip(i as int)),
        decreases n - i,
    {
        let (a, b) = (spans[i].0, spans[i].1);
        let ghost line = lines[i as int];
        proof {
            assert(lines.skip(i as int)[0] == line);
            assert(lines.skip(i as int).drop_first() =~= lines.skip(i + 1));
        }
        if span_starts_with(&v, a, b, "SERVICE_NAME:") {
            match span_rfind(&v, a, b, '_') {
                Some(u) => {
                    let luid = span_string(output, u + 1, b);
                    proof {
                        assert(line.subrange(u - a + 1, line.len() as int) =~= output@.subrange(
                            u + 1,
                            b as int,
                        ));
                    }
                    return Some(luid);
                },
                None => {},
            }
        }
        i = i + 1;
    }
    proof {
        assert(lines.skip(n as int) =~= Seq::<Seq<char>>::empty());
    }
    None
}

/// The field after the last comma of a line (the whole line when it has no
/// comma): how the SID column of `whoami /user /fo csv` output is isolated.
pub open spec fn spec_last_csv_field(line: Seq<char>) -> Seq<char> {
    match spec_rfind(line, ',') {
        Some(u) => line.subrange(u + 1, line.len() as int),
        None => line,
    }
}

/// The SID in `whoami /user /fo csv` output: the last comma-separated field
/// of the last line, which must be a quoted string starting with `S-`;
/// the quotes are stripped. Anything else cannot be used as a SID.
pub open spec fn spec_user_sid(out: Seq<char>) -> Result<Seq<char>, ServiceErrKind> {
    let lines = spec_lines(out);
    if lines.len() == 0 {
        Err(ServiceErrKind::BadSid)
    } else {
        let field = spec_last_csv_field(lines.last());
        if spec_starts_with(field, "\"S-"@) && field.last() == '"' {
            Ok(field.subrange(1, field.len() - 1))
        } else {
            Err(ServiceErrKind::BadSid)
        }
    }
}

/// Extracts the current user's SID from `whoami /user /fo csv` output.
#[verifier::rlimit(50)]
pub fn extract_user_sid(output: &str) -> (r: Result<String, ServiceErrKind>)
    ensures
        match r {
            Ok(sid) => spec_user_sid(output@) matches Ok(s) && sid@ == s,
            Err(e) => spec_user_sid(output@) matches Err(se) && e == se && e is BadSid,
        },
{
    let v = chars_of(output);
    let spans = line_spans(&v);
    let ghost lines = spec_lines(output@);
    let n = spans.len();
    if n == 0 {
        return Err(ServiceErrKind::BadSid);
    }
    let (a, b) = (spans[n - 1].0, spans[n - 1].1);
    let ghost line = lines.last();
    proof {
        assert(v@.subrange(spans@[n - 1].0 as int, spans@[n - 1].1 as int) == spec_lines(v@)[
            n - 1
        ]);
    }
    // Isolate the field after the last comma.
    let fa = match span_rfind(&v, a, b, ',') {
        Some(u) => u + 1,
        None => a,
    };
    let ghost field = spec_last_csv_field(line);
    proof {
        assert(v@.subrange(fa as int, b as int) =~= field);
    }
    // The field must be a quoted SID: "S-...".
    if span_starts_with(&v, fa, b, "\"S-") && b - fa >= 2 && v[b - 1] == '"' {
        let sid = span_string(output, fa + 1, b - 1);
        proof {
            reveal_strlit("\"S-");
            assert(field.subrange(1, field.len() - 1) =~= output@.subrange(
                fa + 1,
                b - 1,
            ));
            assert(field.last() == '"');
        }
        Ok(sid)
    } else {
        proof {
            reveal_strlit("\"S-");
            if spec_starts_with(field, "\"S-"@) && field.last() == '"' {
                assert(field.len() >= 3);
                assert(v@[b - 1] == field.last());
            }
        }
        Err(ServiceErrKind::BadSid)
    }
}

/// The SDDL descriptor installed on a user service: random users and
/// service users get read-and-interrogate access; SYSTEM, the built-in
/// administrators and the installing user's SID get full control.
pub open spec fn spec_sddl(sid: Seq<char>) -> Seq<char> {
    "D:(A;;CCLCSWLOCRRC;;;IU)(A;;CCLCSWLOCRRC;;;SU)(A;;CCDCLCSWRPWPDTLOCRSDRCWDWO;;;SY)(A;;CCDCLCSWRPWPDTLOCRSDRCWDWO;;;BA)(A;;CCDCLCSWRPWPDTLOCRSDRCWDWO;;;"@
        + sid + ")"@
}

/// Builds the SDDL descriptor granting the given SID full control.
pub fn sddl_for_sid(sid: &str) -> (r: String)
    ensures
        r@ == spec_sddl(sid@),
{
    let mut r = String::from_str(
        "D:(A;;CCLCSWLOCRRC;;;IU)(A;;CCLCSWLOCRRC;;;SU)(A;;CCDCLCSWRPWPDTLOCRSDRCWDWO;;;SY)(A;;CCDCLCSWRPWPDTLOCRSDRCWDWO;;;BA)(A;;CCDCLCSWRPWPDTLOCRSDRCWDWO;;;",
    );
    r.append(sid);
    r.append(")");
    r
}

/// The name start, stop and query address: the per-session instance
/// `<template>_<LUID>` when the LUID is known, the template itself
/// otherwise.
pub open spec fn spec_instance_name(name: Seq<char>, luid: Option<Seq<char>>) -> Seq<char> {
    match luid {
        Some(l) => name + "_"@ + l,
        None => name,
    }
}

/// The instance name of the service.
pub fn instance_name(name: &str, luid: &Option<String>) -> (r: String)
    ensures
        r@ == spec_instance_name(name@, luid.deep_view()),
{
    match luid {
        Some(l) => {
            let mut r = String::from_str(name);
            r.append("_");
            r.append(l.as_str());
            r
        },
        None => String::from_str(name),
    }
}

/// An `sc.exe <sub> <target> <args..>` invocation.
fn sc_cmd(sub: &str, target: Option<&str>, args: Vec<String>) -> (r: Cmd)
    ensures
        r.program@ == "sc.exe"@,
        r.args.deep_view() == seq![sub@] + (match target {
            Some(t) => seq![t@],
            None => Seq::<Seq<char>>::empty(),
        }) + args.deep_view(),
{
    let ghost expected_head = seq![sub@] + (match target {
        Some(t) => seq![t@],
        None => Seq::<Seq<char>>::empty(),
    });
    let mut all: Vec<String> = Vec::new();
    all.push(String::from_str(sub));
    match target {
        Some(t) => {
            all.push(String::from_str(t));
        },
        None => {},
    }
    proof {
        assert(all.deep_view() =~= expected_head);
    }
    let rest = args;
    let n = rest.len();
    let mut i: usize = 0;
    while i < n
        invariant
            n == rest@.len(),
            i <= n,
            all.deep_view() =~= expected_head + rest.deep_view().subrange(0, i as int),
            rest.deep_view().len() == n,
        decreases n - i,
    {
        let ghost old_deep = all.deep_view();
        let item = rest[i].clone();
        proof {
            assert(item@ == rest@[i as int]@);
        }
        all.push(item);
        proof {
            assert(all.deep_view() =~= old_deep.push(rest.deep_view()[i as int]));
            assert(all.deep_view() =~= expected_head + rest.deep_view().subrange(0, i + 1));
        }
        i = i + 1;
    }
    proof {
        assert(rest.deep_view().subrange(0, n as int) =~= rest.deep_view());
        assert(expected_head + rest.deep_view() =~= seq![sub@] + (match target {
            Some(t) => seq![t@],
            None => Seq::<Seq<char>>::empty(),
        }) + rest.deep_view());
    }
    Cmd { program: String::from_str("sc.exe"), args: all }
}

/// The `sc.exe query <instance>` call that queries one service's status.
pub fn query_cmd(target: &str) -> (r: Cmd)
    ensures
        r.program@ == "sc.exe"@,
        r.args.deep_view() == seq!["query"@, target@],
{
    let r = sc_cmd("query", Some(target), Vec::new());
    proof {
        assert(r.args.deep_view() =~= seq!["query"@, target@]);
    }
    r
}

/// The `sc.exe query type= userservice` call that lists the active user
/// services, whose names carry the current session's LUID.
pub fn user_query_cmd() -> (r: Cmd)
    ensures
        r.program@ == "sc.exe"@,
        r.args.deep_view() == seq!["query"@, "type="@, "userservice"@],
{
    let mut args: Vec<String> = Vec::new();
    args.push(String::from_str("type="));
    args.push(String::from_str("userservice"));
    let r = sc_cmd("query", None, args);
    proof {
        assert(r.args.deep_view() =~= seq!["query"@, "type="@, "userservice"@]);
    }
    r
}

/// The bare `sc.exe query` call: the availability probe for system
/// services.
pub fn probe_cmd() -> (r: Cmd)
    ensures
        r.program@ == "sc.exe"@,
        r.args.deep_view() == seq!["query"@],
{
    let r = sc_cmd("query", None, Vec::new());
    proof {
        assert(r.args.deep_view() =~= seq!["query"@]);
    }
    r
}

/// The `whoami.exe /user /fo csv` call whose output carries the current
/// user's SID.
pub fn whoami_cmd() -> (r: Cmd)
    ensures
        r.program@ == "whoami.exe"@,
        r.args.deep_view() == seq!["/user"@, "/fo"@, "csv"@],
{
    let mut args: Vec<String> = Vec::new();
    args.push(String::from_str("/user"));
    args.push(String::from_str("/fo"));
    args.push(String::from_str("csv"));
    let r = Cmd { program: String::from_str("whoami.exe"), args };
    proof {
        assert(r.args.deep_view() =~= seq!["/user"@, "/fo"@, "csv"@]);
    }
    r
}

/// The `sc.exe delete <target>` call.
pub fn delete_cmd(target: &str) -> (r: Cmd)
    ensures
        r.program@ == "sc.exe"@,
        r.args.deep_view() == seq!["delete"@, target@],
{
    let r = sc_cmd("delete", Some(target), Vec::new());
    proof {
        assert(r.args.deep_view() =~= seq!["delete"@, target@]);
    }
    r
}

/// The `sc.exe start <instance>` call.
pub fn start_cmd(target: &str) -> (r: Cmd)
    ensures
        r.program@ == "sc.exe"@,
        r.args.deep_view() == seq!["start"@, target@],
{
    let r = sc_cmd("start", Some(target), Vec::new());
    proof {
        assert(r.args.deep_view() =~= seq!["start"@, target@]);
    }
    r
}

/// The `sc.exe stop <instance>` call.
pub fn stop_cmd(target: &str) -> (r: Cmd)
    ensures
        r.program@ == "sc.exe"@,
        r.args.deep_view() == seq!["stop"@, target@],
{
    let r = sc_cmd("stop", Some(target), Vec::new());
    proof {
        assert(r.args.deep_view() =~= seq!["stop"@, target@]);
    }
    r
}

/// How an `sc.exe query` outcome reads: on success the `STATE` line
/// decides; exit code 1060 means not installed (a status), 2 means the
/// service path was not found, 5 access denied, 1073 already installed; any
/// other failure is the error the shim reports.
pub open spec fn spec_raw_status_interpretation(outcome: CmdOutcome) -> Result<
    ServiceStatus,
    ServiceErrKind,
> {
    match spec_command_result(outcome) {
        Ok(out) => spec_scan_state_lines(spec_lines(out@)),
        Err(e) => match e {
            ServiceErrKind::BadExitStatus(Some(2), _) => Err(ServiceErrKind::ServicePathNotFound),
            ServiceErrKind::BadExitStatus(Some(5), _) => Err(ServiceErrKind::AccessDenied),
            ServiceErrKind::BadExitStatus(Some(1060), _) => Ok(ServiceStatus::NotInstalled),
            ServiceErrKind::BadExitStatus(Some(1073), _) => Err(ServiceErrKind::AlreadyInstalled),
            _ => Err(e),
        },
    }
}

/// Interprets the outcome of `sc.exe query` on one service.
pub fn raw_status_from_outcome(outcome: CmdOutcome) -> (r: Result<ServiceStatus, ServiceErrKind>)
    ensures
        r == spec_raw_status_interpretation(outcome),
{
    match crate::shim::command_result(outcome) {
        Ok(out) => parse_query_status(out.as_str()),
        Err(e) => match e {
            ServiceErrKind::BadExitStatus(Some(2), _) => Err(ServiceErrKind::ServicePathNotFound),
            ServiceErrKind::BadExitStatus(Some(5), _) => Err(ServiceErrKind::AccessDenied),
            ServiceErrKind::BadExitStatus(Some(1060), _) => Ok(ServiceStatus::NotInstalled),
            ServiceErrKind::BadExitStatus(Some(1073), _) => Err(ServiceErrKind::AlreadyInstalled),
            other => Err(other),
        },
    }
}

/// After querying the instance: a user service whose instance reports
/// `NotInstalled` is queried again under its template name, because a
/// freshly installed user service has no instance until the next logon.
pub fn needs_template_fallback(user: bool, st: ServiceStatus) -> (r: bool)
    ensures
        r == (user && st is NotInstalled),
{
    user && matches!(st, ServiceStatus::NotInstalled)
}

/// During uninstall of a user service: the per-session instance is deleted
/// first exactly when it exists.
pub fn instance_delete_needed(st: ServiceStatus) -> (r: bool)
    ensures
        r == !(st is NotInstalled),
{
    !matches!(st, ServiceStatus::NotInstalled)
}

/// The arguments of the `sc.exe create` call: service type (`own` or
/// `userown`), the space-joined command line as `binPath=`, the start mode,
/// then the optional display name and the optional credentials.
pub open spec fn spec_create_args(name: Seq<char>, user: bool, s: ServiceSpec) -> Seq<Seq<char>> {
    seq![
        "create"@,
        name,
        "type="@,
        (if user { "userown"@ } else { "own"@ }),
        "binPath="@,
        crate::systemd::spec_exec_start(s),
        "start="@,
        (if s.autostart { "auto"@ } else { "demand"@ }),
    ] + (match s.display_name {
        Some(d) => seq!["DisplayName="@, d@],
        None => Seq::<Seq<char>>::empty(),
    }) + (match (s.user, s.password) {
        (Some(u), Some(p)) => seq!["obj="@, u@, "password="@, p@],
        _ => Seq::<Seq<char>>::empty(),
    })
}

/// The `sc.exe create` call that registers the service (or the user-service
/// template).
pub fn create_cmd(name: &str, user: bool, s: &ServiceSpec) -> (r: Cmd)
    ensures
        r.program@ == "sc.exe"@,
        r.args.deep_view() == spec_create_args(name@, user, *s),
{
    let mut args: Vec<String> = Vec::new();
    args.push(String::from_str("type="));
    if user {
        args.push(String::from_str("userown"));
    } else {
        args.push(String::from_str("own"));
    }
    args.push(String::from_str("binPath="));
    let parts = crate::systemd::path_and_args(s);
    args.push(crate::textparse::join_with(&parts, " "));
    args.push(String::from_str("start="));
    if s.autostart {
        args.push(String::from_str("auto"));
    } else {
        args.push(String::from_str("demand"));
    }
    match &s.display_name {
        Some(d) => {
            args.push(String::from_str("DisplayName="));
            args.push(d.clone());
        },
        None => {},
    }
    match (&s.user, &s.password) {
        (Some(u), Some(p)) => {
            args.push(String::from_str("obj="));
            args.push(u.clone());
            args.push(String::from_str("password="));
            args.push(p.clone());
        },
        _ => {},
    }
    let r = sc_cmd("create", Some(name), args);
    proof {
        assert(r.args.deep_view() =~= spec_create_args(name@, user, *s));
    }
    r
}

/// The `sc.exe description` call that sets the description on the template.
pub fn description_cmd(name: &str, desc: &str) -> (r: Cmd)
    ensures
        r.program@ == "sc.exe"@,
        r.args.deep_view() == seq!["description"@, name@, desc@],
{
    let mut args: Vec<String> = Vec::new();
    args.push(String::from_str(desc));
    let r = sc_cmd("description", Some(name), args);
    proof {
        assert(r.args.deep_view() =~= seq!["description"@, name@, desc@]);
    }
    r
}

/// The `sc.exe sdset` call that grants the current user control over the
/// service, built from `whoami` output that must carry a usable SID.
pub fn sdset_cmd(name: &str, whoami_output: &str) -> (r: Result<Cmd, ServiceErrKind>)
    ensures
        match r {
            Ok(c) => {
                &&& spec_user_sid(whoami_output@) matches Ok(sid) && c.args.deep_view() == seq![
                    "sdset"@,
                    name@,
                    spec_sddl(sid),
                ]
                &&& c.program@ == "sc.exe"@
            },
            Err(e) => spec_user_sid(whoami_output@) matches Err(se) && e == se && e is BadSid,
        },
{
    let sid = extract_user_sid(whoami_output)?;
    let sd = sddl_for_sid(sid.as_str());
    let mut args: Vec<String> = Vec::new();
    args.push(sd);
    let r = sc_cmd("sdset", Some(name), args);
    proof {
        assert(r.args.deep_view() =~= seq!["sdset"@, name@, spec_sddl(sid@)]);
    }
    Ok(r)
}

/// The `sc.exe failure` call that configures three restarts on failure.
pub fn failure_cmd(name: &str) -> (r: Cmd)
    ensures
        r.program@ == "sc.exe"@,
        r.args.deep_view() == seq![
            "failure"@,
            name@,
            "reset="@,
            "0"@,
            "actions="@,
            "restart/2000/restart/2000/restart/2000"@,
        ],
{
    let mut args: Vec<String> = Vec::new();
    args.push(String::from_str("reset="));
    args.push(String::from_str("0"));
    args.push(String::from_str("actions="));
    args.push(String::from_str("restart/2000/restart/2000/restart/2000"));
    let r = sc_cmd("failure", Some(name), args);
    proof {
        assert(r.args.deep_view() =~= seq![
            "failure"@,
            name@,
            "reset="@,
            "0"@,
            "actions="@,
            "restart/2000/restart/2000/restart/2000"@,
        ]);
    }
    r
}

/// The planned effect of a Windows install: the `create` call, the optional
/// `description` call, then for a user service an `sdset` built from a SID
/// still to be discovered, and finally the optional `failure` call.
#[derive(Debug)]
pub struct WinInstallPlan {
    /// The `sc.exe create` call on the template name.
    pub create: Cmd,
    /// The `sc.exe description` call, planned when a description was given.
    pub description: Option<Cmd>,
    /// Whether an `sdset` must follow, built from fresh `whoami` output via
    /// [`sdset_cmd`]: exactly for user services.
    pub needs_sid: bool,
    /// The `sc.exe failure` call, planned when restart-on-failure is wanted.
    pub failure: Option<Cmd>,
}

/// What installing plans on Windows. The backend cannot reject anything at
/// planning time; the SID for a user service's access descriptor is
/// discovered afterwards.
pub fn install_plan(name: &str, user: bool, s: &ServiceSpec) -> (r: WinInstallPlan)
    ensures
        r.create.program@ == "sc.exe"@,
        r.create.args.deep_view() == spec_create_args(name@, user, *s),
        match s.description {
            Some(d) => r.description matches Some(c) && c.program@ == "sc.exe"@
                && c.args.deep_view() == seq!["description"@, name@, d@],
            None => r.description is None,
        },
        r.needs_sid == user,
        if s.restart_on_failure {
            r.failure matches Some(c) && c.program@ == "sc.exe"@ && c.args.deep_view() == seq![
                "failure"@,
                name@,
                "reset="@,
                "0"@,
                "actions="@,
                "restart/2000/restart/2000/restart/2000"@,
            ]
        } else {
            r.failure is None
        },
{
    let create = create_cmd(name, user, s);
    let description = match &s.description {
        Some(d) => Some(description_cmd(name, d.as_str())),
        None => None,
    };
    let failure = if s.restart_on_failure {
        Some(failure_cmd(name))
    } else {
        None
    };
    WinInstallPlan { create, description, needs_sid: user, failure }
}

/// What the Windows backend can do: passwords are required for custom
/// users, user services need a new logon and elevated installation, pending
/// and paused states are reported, user service names are dynamic, and
/// descriptions and display names are supported.
pub fn capabilities() -> (r: ServiceCapabilities)
    ensures
        r == (ServiceCapabilities {
            custom_user_requires_password: true,
            supports_custom_group: false,
            user_services_require_new_logon: true,
            restart_on_failure_requires_autostart: false,
            uses_name_prefix: false,
            user_services_req_elevated_priv_for_install: true,
            supports_pending_paused_states: true,
            user_service_name_is_dynamic: true,
            supports_description: true,
            supports_display_name: true,
        }),
{
    ServiceCapabilities {
        custom_user_requires_password: true,
        supports_custom_group: false,
        user_services_require_new_logon: true,
        restart_on_failure_requires_autostart: false,
        uses_name_prefix: false,
        user_services_req_elevated_priv_for_install: true,
        supports_pending_paused_states: true,
        user_service_name_is_dynamic: true,
        supports_description: true,
        supports_display_name: true,
    }
}

} // verus!
