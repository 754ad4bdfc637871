//! The uniform manager's validation and state gates.

use uni_service::manager::PlatformEnv;
use uni_service::Platform;
use uni_service::ServiceErrKind;
use uni_service::ServiceSpec;
use uni_service::ServiceStatus;
use uni_service::UniServiceManager;

fn env() -> PlatformEnv {
    PlatformEnv {
        config_dir: Some("/home/u/.config".to_string()),
        home_dir: Some("/home/u".to_string()),
        uid: 1000,
    }
}

fn linux_user() -> UniServiceManager {
    UniServiceManager::new(
        "user_test".to_string(),
        "org.test.".to_string(),
        true,
        Platform::Linux,
        env(),
        None,
    )
    .unwrap()
}

fn linux_system() -> UniServiceManager {
    UniServiceManager::new(
        "system_test".to_string(),
        "org.test.".to_string(),
        false,
        Platform::Linux,
        env(),
        None,
    )
    .unwrap()
}

fn windows_system() -> UniServiceManager {
    UniServiceManager::new(
        "system_test".to_string(),
        "org.test.".to_string(),
        false,
        Platform::Windows,
        env(),
        None,
    )
    .unwrap()
}

#[test]
fn empty_name_rejected() {
    let r = UniServiceManager::new(
        String::new(),
        "org.test.".to_string(),
        false,
        Platform::Linux,
        env(),
        None,
    );
    assert!(matches!(r, Err(ServiceErrKind::InvalidNameOrPrefix)));
}

#[test]
fn windows_user_without_luid_rejected() {
    let r = UniServiceManager::new(
        "user_test".to_string(),
        "org.test.".to_string(),
        true,
        Platform::Windows,
        env(),
        None,
    );
    assert!(matches!(r, Err(ServiceErrKind::ServiceManagementNotAvailable)));
}

#[test]
fn second_install_already_installed() {
    // A service in any state other than NotInstalled cannot be installed
    // again; the platform is never touched.
    let m = linux_system();
    let s = ServiceSpec::new("/bin/app".to_string());
    let r = m.install(ServiceStatus::Stopped, &s);
    assert!(matches!(r, Err(ServiceErrKind::AlreadyInstalled)));
    let r = m.install(ServiceStatus::Running, &s);
    assert!(matches!(r, Err(ServiceErrKind::AlreadyInstalled)));
}

#[test]
fn user_service_rejects_credentials() {
    let m = linux_user();
    let with_user = ServiceSpec::new("/bin/app".to_string())
        .set_user("svcuser".to_string())
        .unwrap();
    assert!(matches!(
        m.install(ServiceStatus::NotInstalled, &with_user),
        Err(ServiceErrKind::BadServiceSpec)
    ));
    let with_group = ServiceSpec::new("/bin/app".to_string())
        .set_group("svcgroup".to_string())
        .unwrap();
    assert!(matches!(
        m.install(ServiceStatus::NotInstalled, &with_group),
        Err(ServiceErrKind::BadServiceSpec)
    ));
    let with_password = ServiceSpec::new("/bin/app".to_string())
        .set_password("SECRET-REDACTED".to_string())
        .unwrap();
    assert!(matches!(
        m.install(ServiceStatus::NotInstalled, &with_password),
        Err(ServiceErrKind::BadServiceSpec)
    ));
}

#[test]
fn windows_user_without_password_rejected() {
    let m = windows_system();
    let s = ServiceSpec::new("/bin/app".to_string())
        .set_user("svcuser".to_string())
        .unwrap();
    assert!(matches!(
        m.install(ServiceStatus::NotInstalled, &s),
        Err(ServiceErrKind::BadServiceSpec)
    ));
}

#[test]
fn windows_group_unsupported() {
    let m = windows_system();
    let s = ServiceSpec::new("/bin/app".to_string())
        .set_group("svcgroup".to_string())
        .unwrap();
    assert!(matches!(
        m.install(ServiceStatus::NotInstalled, &s),
        Err(ServiceErrKind::BadServiceSpec)
    ));
}

#[test]
fn linux_group_supported() {
    let m = linux_system();
    let s = ServiceSpec::new("/bin/app".to_string())
        .set_group("svcgroup".to_string())
        .unwrap();
    assert!(m.install(ServiceStatus::NotInstalled, &s).is_ok());
}

#[test]
fn stop_in_stopped_is_wrong_state() {
    // After install and a successful wait for Stopped, stopping is refused
    // with the offending state.
    let m = linux_system();
    let r = m.stop(ServiceStatus::Stopped);
    assert!(matches!(
        r,
        Err(ServiceErrKind::WrongState(ServiceStatus::Stopped))
    ));
}

#[test]
fn start_requires_stopped() {
    let m = linux_system();
    assert!(m.start(ServiceStatus::Stopped).is_ok());
    assert!(matches!(
        m.start(ServiceStatus::Running),
        Err(ServiceErrKind::WrongState(ServiceStatus::Running))
    ));
    assert!(matches!(
        m.start(ServiceStatus::NotInstalled),
        Err(ServiceErrKind::WrongState(ServiceStatus::NotInstalled))
    ));
}

#[test]
fn uninstall_requires_stopped() {
    let m = linux_system();
    assert!(m.uninstall(ServiceStatus::Stopped).is_ok());
    assert!(matches!(
        m.uninstall(ServiceStatus::Running),
        Err(ServiceErrKind::WrongState(ServiceStatus::Running))
    ));
}

#[test]
fn linux_user_without_config_dir_fails_install() {
    let m = UniServiceManager::new(
        "user_test".to_string(),
        "org.test.".to_string(),
        true,
        Platform::Linux,
        PlatformEnv { config_dir: None, home_dir: None, uid: 1000 },
        None,
    )
    .unwrap();
    let s = ServiceSpec::new("/bin/app".to_string());
    assert!(matches!(
        m.install(ServiceStatus::NotInstalled, &s),
        Err(ServiceErrKind::DirectoryNotFound)
    ));
}

#[test]
fn start_command_is_systemctl_start() {
    let m = linux_system();
    let c = m.start(ServiceStatus::Stopped).unwrap();
    assert_eq!(c.program, "systemctl");
    assert_eq!(
        c.args,
        vec!["--system".to_string(), "start".to_string(), "system_test".to_string()]
    );
    let m = linux_user();
    let c = m.stop(ServiceStatus::Running).unwrap();
    assert_eq!(
        c.args,
        vec!["--user".to_string(), "stop".to_string(), "user_test".to_string()]
    );
}
