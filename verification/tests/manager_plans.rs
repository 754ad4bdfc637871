//! The planned commands and files of each backend.

use uni_service::manager::PlatformEnv;
use uni_service::InstallPlan;
use uni_service::Platform;
use uni_service::ServiceSpec;
use uni_service::ServiceStatus;
use uni_service::UninstallPlan;
use uni_service::UniServiceManager;

fn env() -> PlatformEnv {
    PlatformEnv {
        config_dir: Some("/home/u/.config".to_string()),
        home_dir: Some("/home/u".to_string()),
        uid: 1000,
    }
}

fn manager(platform: Platform, user: bool, luid: Option<&str>) -> UniServiceManager {
    UniServiceManager::new(
        "user_test".to_string(),
        "org.test.".to_string(),
        user,
        platform,
        env(),
        luid.map(|l| l.to_string()),
    )
    .unwrap()
}

fn test_spec() -> ServiceSpec {
    ServiceSpec::new("/bin/app".to_string())
        .arg("service".to_string())
        .unwrap()
        .arg("127.0.0.1:53165".to_string())
        .unwrap()
        .display_name("Test service".to_string())
        .unwrap()
        .description("Test service description".to_string())
        .unwrap()
}

#[test]
fn linux_install_plan_writes_unit_file() {
    let m = manager(Platform::Linux, false, None);
    let plan = m.install(ServiceStatus::NotInstalled, &test_spec()).unwrap();
    let p = match plan {
        InstallPlan::Linux(p) => p,
        _ => panic!("expected a Linux plan"),
    };
    assert_eq!(p.unit_dir, "/etc/systemd/system");
    assert_eq!(p.file.path, "/etc/systemd/system/user_test.service");
    assert_eq!(p.file.mode, 0o644);
    assert_eq!(
        p.file.content,
        "[Unit]\nDescription=Test service description\n\n[Service]\nExecStart=/bin/app service 127.0.0.1:53165\nRestart=always\n\n[Install]\nWantedBy=multi-user.target\n"
    );
    assert!(p.enable.is_none());
}

#[test]
fn linux_user_install_plan_with_autostart() {
    let m = manager(Platform::Linux, true, None);
    let spec = test_spec().set_autostart();
    let plan = m.install(ServiceStatus::NotInstalled, &spec).unwrap();
    let p = match plan {
        InstallPlan::Linux(p) => p,
        _ => panic!("expected a Linux plan"),
    };
    assert_eq!(p.unit_dir, "/home/u/.config/systemd/user");
    assert_eq!(p.file.path, "/home/u/.config/systemd/user/user_test.service");
    assert!(p.file.content.contains("WantedBy=default.target"));
    let enable = p.enable.unwrap();
    assert_eq!(enable.program, "systemctl");
    assert_eq!(
        enable.args,
        vec!["--user".to_string(), "enable".to_string(), "user_test".to_string()]
    );
}

#[test]
fn linux_uninstall_removes_what_install_wrote() {
    // Install followed by uninstall touches exactly one unit file: the
    // system returns to its pre-install state.
    let m = manager(Platform::Linux, false, None);
    let install = match m.install(ServiceStatus::NotInstalled, &test_spec()).unwrap() {
        InstallPlan::Linux(p) => p,
        _ => panic!("expected a Linux plan"),
    };
    let uninstall = match m.uninstall(ServiceStatus::Stopped).unwrap() {
        UninstallPlan::Linux(p) => p,
        _ => panic!("expected a Linux plan"),
    };
    assert_eq!(install.file.path, uninstall.remove_path);
    assert_eq!(
        uninstall.disable.args,
        vec!["--system".to_string(), "disable".to_string(), "user_test".to_string()]
    );
}

#[test]
fn macos_user_install_plan_writes_plist() {
    let m = manager(Platform::MacOs, true, None);
    let spec = ServiceSpec::new("/bin/app".to_string())
        .arg("service".to_string())
        .unwrap();
    let plan = m.install(ServiceStatus::NotInstalled, &spec).unwrap();
    let p = match plan {
        InstallPlan::MacOs(p) => p,
        _ => panic!("expected a macOS plan"),
    };
    assert_eq!(p.plist_dir, "/home/u/Library/LaunchAgents");
    assert_eq!(p.file.path, "/home/u/Library/LaunchAgents/org.test.user_test.plist");
    assert_eq!(p.file.mode, 0o644);
    let expected = "<?xml version=\"1.0\" encoding=\"UTF-8\"?>\n<!DOCTYPE plist PUBLIC \"-//Apple//DTD PLIST 1.0//EN\" \"http://www.apple.com/DTDs/PropertyList-1.0.dtd\">\n<plist version=\"1.0\">\n    <dict>\n        <key>Label</key>\n        <string>org.test.user_test</string>\n        <key>ProgramArguments</key>\n        <array>\n            <string>/bin/app</string>\n            <string>service</string>\n        </array>\n        <key>KeepAlive</key>\n        <false/>\n        <key>RunAtLoad</key>\n        <false/>\n    </dict>\n</plist>\n";
    assert_eq!(p.file.content, expected);
    assert_eq!(p.bootstrap.program, "launchctl");
    assert_eq!(
        p.bootstrap.args,
        vec![
            "bootstrap".to_string(),
            "gui/1000".to_string(),
            "/home/u/Library/LaunchAgents/org.test.user_test.plist".to_string(),
        ]
    );
}

#[test]
fn macos_uninstall_removes_what_install_wrote() {
    let m = manager(Platform::MacOs, true, None);
    let spec = ServiceSpec::new("/bin/app".to_string());
    let install = match m.install(ServiceStatus::NotInstalled, &spec).unwrap() {
        InstallPlan::MacOs(p) => p,
        _ => panic!("expected a macOS plan"),
    };
    let uninstall = match m.uninstall(ServiceStatus::Stopped).unwrap() {
        UninstallPlan::MacOs(p) => p,
        _ => panic!("expected a macOS plan"),
    };
    assert_eq!(install.file.path, uninstall.remove_path);
    assert_eq!(
        uninstall.bootout.args,
        vec!["bootout".to_string(), "gui/1000/org.test.user_test".to_string()]
    );
}

#[test]
fn macos_system_targets() {
    let m = manager(Platform::MacOs, false, None);
    assert_eq!(m.fully_qualified_name(), "system/org.test.user_test");
    let c = m.start(ServiceStatus::Stopped).unwrap();
    assert_eq!(
        c.args,
        vec![
            "kickstart".to_string(),
            "-kp".to_string(),
            "system/org.test.user_test".to_string(),
        ]
    );
    let c = m.stop(ServiceStatus::Running).unwrap();
    assert_eq!(
        c.args,
        vec![
            "kill".to_string(),
            "SIGTERM".to_string(),
            "system/org.test.user_test".to_string(),
        ]
    );
}

#[test]
fn windows_install_plan_builds_sc_calls() {
    let m = manager(Platform::Windows, true, Some("1a2b3c"));
    let spec = test_spec().set_restart_on_failure();
    let plan = m.install(ServiceStatus::NotInstalled, &spec).unwrap();
    let p = match plan {
        InstallPlan::Windows(p) => p,
        _ => panic!("expected a Windows plan"),
    };
    assert_eq!(p.create.program, "sc.exe");
    assert_eq!(
        p.create.args,
        vec![
            "create".to_string(),
            "user_test".to_string(),
            "type=".to_string(),
            "userown".to_string(),
            "binPath=".to_string(),
            "/bin/app service 127.0.0.1:53165".to_string(),
            "start=".to_string(),
            "demand".to_string(),
            "DisplayName=".to_string(),
            "Test service".to_string(),
        ]
    );
    let description = p.description.unwrap();
    assert_eq!(
        description.args,
        vec![
            "description".to_string(),
            "user_test".to_string(),
            "Test service description".to_string(),
        ]
    );
    assert!(p.needs_sid);
    let failure = p.failure.unwrap();
    assert_eq!(
        failure.args,
        vec![
            "failure".to_string(),
            "user_test".to_string(),
            "reset=".to_string(),
            "0".to_string(),
            "actions=".to_string(),
            "restart/2000/restart/2000/restart/2000".to_string(),
        ]
    );
}

#[test]
fn windows_system_install_plan() {
    let m = manager(Platform::Windows, false, None);
    let spec = ServiceSpec::new("/bin/app".to_string()).set_autostart();
    let plan = m.install(ServiceStatus::NotInstalled, &spec).unwrap();
    let p = match plan {
        InstallPlan::Windows(p) => p,
        _ => panic!("expected a Windows plan"),
    };
    assert_eq!(
        p.create.args,
        vec![
            "create".to_string(),
            "user_test".to_string(),
            "type=".to_string(),
            "own".to_string(),
            "binPath=".to_string(),
            "/bin/app".to_string(),
            "start=".to_string(),
            "auto".to_string(),
        ]
    );
    assert!(p.description.is_none());
    assert!(!p.needs_sid);
    assert!(p.failure.is_none());
}

#[test]
fn windows_uninstall_plan_deletes_instance_then_template() {
    let m = manager(Platform::Windows, true, Some("1a2b3c"));
    let plan = match m.uninstall(ServiceStatus::Stopped).unwrap() {
        UninstallPlan::Windows(p) => p,
        _ => panic!("expected a Windows plan"),
    };
    let q = plan.instance_query.unwrap();
    assert_eq!(q.args, vec!["query".to_string(), "user_test_1a2b3c".to_string()]);
    assert_eq!(
        plan.delete_instance.args,
        vec!["delete".to_string(), "user_test_1a2b3c".to_string()]
    );
    assert_eq!(
        plan.delete_template.args,
        vec!["delete".to_string(), "user_test".to_string()]
    );
}

#[test]
fn windows_user_service_name_and_capabilities() {
    // The fully qualified name of a Windows user service carries the
    // per-session LUID, and the capabilities say the name is dynamic and a
    // new logon is required.
    let m = manager(Platform::Windows, true, Some("1a2b3c"));
    assert_eq!(m.fully_qualified_name(), "user_test_1a2b3c");
    assert!(m.is_user_service());
    let caps = m.capabilities();
    assert!(caps.user_services_require_new_logon);
    assert!(caps.user_service_name_is_dynamic);
    assert!(caps.custom_user_requires_password);
    assert!(!caps.supports_custom_group);
}

#[test]
fn sdset_command_carries_the_sddl() {
    let whoami = "USER INFORMATION\r\n----------------\r\n\"dom\\me\",\"S-1-5-21-3623811015-3361044348-30300820-1013\"\r\n";
    let c = uni_service::sc::sdset_cmd("user_test", whoami).unwrap();
    assert_eq!(c.program, "sc.exe");
    assert_eq!(c.args[0], "sdset");
    assert_eq!(c.args[1], "user_test");
    assert_eq!(
        c.args[2],
        "D:(A;;CCLCSWLOCRRC;;;IU)(A;;CCLCSWLOCRRC;;;SU)(A;;CCDCLCSWRPWPDTLOCRSDRCWDWO;;;SY)(A;;CCDCLCSWRPWPDTLOCRSDRCWDWO;;;BA)(A;;CCDCLCSWRPWPDTLOCRSDRCWDWO;;;S-1-5-21-3623811015-3361044348-30300820-1013)"
    );
}

#[test]
fn probes_per_platform() {
    let probe = UniServiceManager::availability_probe(Platform::Windows, true);
    assert_eq!(probe.program, "sc.exe");
    assert_eq!(
        probe.args,
        vec!["query".to_string(), "type=".to_string(), "userservice".to_string()]
    );
    let probe = UniServiceManager::availability_probe(Platform::MacOs, false);
    assert_eq!(probe.program, "launchctl");
    assert_eq!(probe.args, vec!["list".to_string()]);
    let probe = UniServiceManager::availability_probe(Platform::Linux, false);
    assert_eq!(probe.program, "systemctl");
    assert_eq!(probe.args, vec!["--system".to_string()]);
}
