//! Interpreting control tool outcomes: output parsing and exit-code
//! mapping.

use uni_service::manager::PlatformEnv;
use uni_service::manager::StatusStep;
use uni_service::CmdOutcome;
use uni_service::Platform;
use uni_service::ServiceErrKind;
use uni_service::ServiceStatus;
use uni_service::UniServiceManager;

fn env() -> PlatformEnv {
    PlatformEnv { config_dir: None, home_dir: None, uid: 0 }
}

fn mgr(platform: Platform, user: bool, luid: Option<&str>) -> UniServiceManager {
    UniServiceManager::new(
        "user_test".to_string(),
        "org.test.".to_string(),
        user,
        platform,
        env(),
        luid.map(|l| l.to_string()),
    )
    .unwrap()
}

fn ok_output(out: &str) -> CmdOutcome {
    CmdOutcome::Exited {
        success: true,
        code: Some(0),
        stdout: Some(out.to_string()),
        stderr: Some(String::new()),
    }
}

fn failed(code: i32, stderr: &str) -> CmdOutcome {
    CmdOutcome::Exited {
        success: false,
        code: Some(code),
        stdout: Some(String::new()),
        stderr: Some(stderr.to_string()),
    }
}

fn decided(step: StatusStep) -> Result<ServiceStatus, ServiceErrKind> {
    match step {
        StatusStep::Decided(r) => r,
        StatusStep::QueryTemplate(_) => panic!("expected a decided status"),
    }
}

#[test]
fn sc_query_running_parses() {
    let out = "\r\nSERVICE_NAME: user_test_1a2b3c\r\n        TYPE               : 10  WIN32_OWN_PROCESS\r\n        STATE              : 4  RUNNING\r\n                                (STOPPABLE, NOT_PAUSABLE, ACCEPTS_SHUTDOWN)\r\n";
    let m = mgr(Platform::Windows, false, None);
    let r = decided(m.status_interpret(ok_output(out)));
    assert_eq!(r.unwrap(), ServiceStatus::Running);
}

#[test]
fn sc_query_all_keywords_parse() {
    let m = mgr(Platform::Windows, false, None);
    let cases = vec![
        ("STOPPED", ServiceStatus::Stopped),
        ("START_PENDING", ServiceStatus::StartPending),
        ("STOP_PENDING", ServiceStatus::StopPending),
        ("CONTINUE_PENDING", ServiceStatus::ContinuePending),
        ("PAUSE_PENDING", ServiceStatus::PausePending),
        ("PAUSED", ServiceStatus::Paused),
    ];
    for (word, want) in cases {
        let out = format!("        STATE              : 1  {}\r\n", word);
        let r = decided(m.status_interpret(ok_output(&out)));
        assert_eq!(r.unwrap(), want);
    }
}

#[test]
fn sc_query_unknown_keyword_is_platform_error() {
    let m = mgr(Platform::Windows, false, None);
    let r = decided(m.status_interpret(ok_output("STATE : 9 HIBERNATING\r\n")));
    assert!(matches!(r, Err(ServiceErrKind::PlatformError(None))));
}

#[test]
fn sc_query_without_state_line_is_platform_error() {
    let m = mgr(Platform::Windows, false, None);
    let r = decided(m.status_interpret(ok_output("SERVICE_NAME: x\r\n")));
    assert!(matches!(r, Err(ServiceErrKind::PlatformError(None))));
}

#[test]
fn sc_exit_codes_map() {
    let m = mgr(Platform::Windows, false, None);
    let r = decided(m.status_interpret(failed(1060, "x")));
    assert_eq!(r.unwrap(), ServiceStatus::NotInstalled);
    let r = decided(m.status_interpret(failed(2, "x")));
    assert!(matches!(r, Err(ServiceErrKind::ServicePathNotFound)));
    let r = decided(m.status_interpret(failed(5, "x")));
    assert!(matches!(r, Err(ServiceErrKind::AccessDenied)));
    let r = decided(m.status_interpret(failed(1073, "x")));
    assert!(matches!(r, Err(ServiceErrKind::AlreadyInstalled)));
    let r = decided(m.status_interpret(failed(99, "boom")));
    assert!(matches!(r, Err(ServiceErrKind::BadExitStatus(Some(99), _))));
}

#[test]
fn windows_user_service_falls_back_to_template() {
    // A freshly installed user service has no instance until the next
    // logon: the instance query reporting NotInstalled leads to a second
    // query under the template name.
    let m = mgr(Platform::Windows, true, Some("1a2b3c"));
    let step = m.status_interpret(failed(1060, "x"));
    let template_query = match step {
        StatusStep::QueryTemplate(c) => c,
        StatusStep::Decided(_) => panic!("expected a template query"),
    };
    assert_eq!(
        template_query.args,
        vec!["query".to_string(), "user_test".to_string()]
    );
    let r = m.status_interpret_template(ok_output("STATE : 1 STOPPED\r\n"));
    assert_eq!(r.unwrap(), ServiceStatus::Stopped);
}

#[test]
fn luid_extraction() {
    let out = "\r\nSERVICE_NAME: CDPUserSvc_1a2b3c\r\nSERVICE_NAME: OneSyncSvc_1a2b3c\r\n";
    assert_eq!(uni_service::sc::extract_luid(out).as_deref(), Some("1a2b3c"));
    // The scan takes whatever follows the last underscore of the line, and
    // the `SERVICE_NAME` keyword itself carries one: a name without a LUID
    // suffix yields the text after that underscore. Real `type=
    // userservice` listings only show instances with LUID suffixes.
    assert_eq!(
        uni_service::sc::extract_luid("SERVICE_NAME: plain\r\n").as_deref(),
        Some("NAME: plain")
    );
    assert_eq!(uni_service::sc::extract_luid(""), None);
}

#[test]
fn sid_extraction() {
    let out = "USER INFORMATION\r\n----------------\r\n\"dom\\me\",\"S-1-5-21-1\"\r\n";
    assert_eq!(uni_service::sc::extract_user_sid(out).unwrap(), "S-1-5-21-1");
    let bad = "USER INFORMATION\r\n\"dom\\me\",unquoted\r\n";
    assert!(matches!(
        uni_service::sc::extract_user_sid(bad),
        Err(ServiceErrKind::BadSid)
    ));
    assert!(matches!(
        uni_service::sc::extract_user_sid(""),
        Err(ServiceErrKind::BadSid)
    ));
}

#[test]
fn launchd_status_reads_state_line() {
    let m = mgr(Platform::MacOs, false, None);
    let out = "org.test.user_test = {\n\tactive count = 1\n\tstate = running\n}\n";
    let r = decided(m.status_interpret(ok_output(out)));
    assert_eq!(r.unwrap(), ServiceStatus::Running);
    let out = "org.test.user_test = {\n\tstate = not running\n}\n";
    let r = decided(m.status_interpret(ok_output(out)));
    // The report says "state = not running", which still contains the
    // running marker as a substring only when spelled exactly; this one
    // does not match "state = running".
    assert_eq!(r.unwrap(), ServiceStatus::Stopped);
    let r = decided(m.status_interpret(failed(113, "x")));
    assert_eq!(r.unwrap(), ServiceStatus::NotInstalled);
    let r = decided(m.status_interpret(failed(1, "boom")));
    assert!(matches!(r, Err(ServiceErrKind::BadExitStatus(Some(1), _))));
}

#[test]
fn systemd_status_maps_exit_codes() {
    let m = mgr(Platform::Linux, false, None);
    let r = decided(m.status_interpret(ok_output("active (running)")));
    assert_eq!(r.unwrap(), ServiceStatus::Running);
    let r = decided(m.status_interpret(failed(3, "inactive")));
    assert_eq!(r.unwrap(), ServiceStatus::Stopped);
    let r = decided(m.status_interpret(failed(4, "no such unit")));
    assert_eq!(r.unwrap(), ServiceStatus::NotInstalled);
    let r = decided(m.status_interpret(failed(1, "boom")));
    assert!(matches!(r, Err(ServiceErrKind::BadExitStatus(Some(1), _))));
}

#[test]
fn probe_interpretation() {
    // A clean probe proves the control surface usable and hands back its
    // listing; any failure means service management is not available.
    let r = UniServiceManager::interpret_probe(ok_output("SERVICE_NAME: a_1\r\n"));
    assert_eq!(r.unwrap(), "SERVICE_NAME: a_1\r\n");
    assert!(matches!(
        UniServiceManager::interpret_probe(failed(1, "no bus")),
        Err(ServiceErrKind::ServiceManagementNotAvailable)
    ));
    assert!(matches!(
        UniServiceManager::interpret_probe(CmdOutcome::LaunchFailed),
        Err(ServiceErrKind::ServiceManagementNotAvailable)
    ));
}

#[test]
fn command_result_interpretation() {
    let r = uni_service::command_result(CmdOutcome::LaunchFailed);
    assert!(matches!(r, Err(ServiceErrKind::IoError)));
    let r = uni_service::command_result(CmdOutcome::Exited {
        success: true,
        code: Some(0),
        stdout: Some("out".to_string()),
        stderr: Some(String::new()),
    });
    assert_eq!(r.unwrap(), "out");
    let r = uni_service::command_result(CmdOutcome::Exited {
        success: true,
        code: Some(0),
        stdout: None,
        stderr: Some(String::new()),
    });
    assert!(matches!(r, Err(ServiceErrKind::BadUtf8)));
    let r = uni_service::command_result(CmdOutcome::Exited {
        success: false,
        code: None,
        stdout: Some(String::new()),
        stderr: Some("killed".to_string()),
    });
    match r {
        Err(ServiceErrKind::BadExitStatus(None, msg)) => assert_eq!(msg, "killed"),
        _ => panic!("expected BadExitStatus"),
    }
}

#[test]
fn error_contexts_are_exact() {
    assert_eq!(
        ServiceErrKind::AlreadyInstalled.context(),
        "Service is already installed"
    );
    assert_eq!(
        ServiceErrKind::WrongState(ServiceStatus::Stopped).context(),
        "Service is in the wrong state for the requested operation. Current status: Stopped"
    );
    assert_eq!(
        ServiceErrKind::Timeout(ServiceStatus::Stopped).context(),
        "Timeout waiting for service status. Last status: Stopped"
    );
    assert_eq!(
        ServiceErrKind::TimeoutError(Box::new(ServiceErrKind::NotInstalled)).context(),
        "Timeout waiting for service status. Last error: NotInstalled"
    );
    assert_eq!(
        ServiceErrKind::BadExitStatus(Some(1060), "boom".to_string()).context(),
        "Bad child process exit status. Code: 1060. Stderr: boom"
    );
    assert_eq!(
        ServiceErrKind::BadExitStatus(Some(-9), "sig".to_string()).context(),
        "Bad child process exit status. Code: -9. Stderr: sig"
    );
    assert_eq!(
        ServiceErrKind::PlatformError(Some(87)).context(),
        "A platform-specific error occurred. Code: 87"
    );
    assert_eq!(
        ServiceErrKind::PlatformError(None).context(),
        "A platform-specific error occurred"
    );
    assert_eq!(ServiceErrKind::BadUtf8.context(), "Bad UTF-8 encoding");
    assert_eq!(
        ServiceErrKind::ServiceManagementNotAvailable.context(),
        "Service management is not available on this platform"
    );
    assert_eq!(ServiceErrKind::NotInstalled.context(), "Service is not installed");
    assert_eq!(
        ServiceErrKind::InvalidNameOrPrefix.context(),
        "Service name or prefix is invalid"
    );
    assert_eq!(
        ServiceErrKind::ServicePathNotFound.context(),
        "The service path was not found"
    );
    assert_eq!(ServiceErrKind::AccessDenied.context(), "Access denied");
    assert_eq!(
        ServiceErrKind::DirectoryNotFound.context(),
        "Unable to locate the directory"
    );
    assert_eq!(
        ServiceErrKind::BadServiceSpec.context(),
        "The service specification is invalid"
    );
    assert_eq!(ServiceErrKind::IoError.context(), "An I/O error occurred");
    assert_eq!(ServiceErrKind::BadSid.context(), "The SID could not be extracted");
    assert_eq!(ServiceErrKind::Unknown.context(), "Unknown error");
}
