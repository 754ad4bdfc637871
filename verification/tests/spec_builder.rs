//! The service specification builder: every setter validates non-emptiness.

use uni_service::ServiceErrKind;
use uni_service::ServiceSpec;

#[test]
fn new_has_defaults() {
    let s = ServiceSpec::new("/bin/app".to_string());
    assert_eq!(s.path, "/bin/app");
    assert!(s.args.is_empty());
    assert!(s.display_name.is_none());
    assert!(s.description.is_none());
    assert!(!s.autostart);
    assert!(!s.restart_on_failure);
    assert!(s.user.is_none());
    assert!(s.password.is_none());
    assert!(s.group.is_none());
}

#[test]
fn arg_appends_in_order() {
    let s = ServiceSpec::new("/bin/app".to_string())
        .arg("service".to_string())
        .unwrap()
        .arg("127.0.0.1:53165".to_string())
        .unwrap();
    assert_eq!(s.args, vec!["service".to_string(), "127.0.0.1:53165".to_string()]);
}

#[test]
fn empty_arg_rejected() {
    let r = ServiceSpec::new("/bin/app".to_string()).arg(String::new());
    assert!(matches!(r, Err(ServiceErrKind::BadServiceSpec)));
}

#[test]
fn empty_display_name_rejected() {
    let r = ServiceSpec::new("/bin/app".to_string()).display_name(String::new());
    assert!(matches!(r, Err(ServiceErrKind::BadServiceSpec)));
}

#[test]
fn empty_description_rejected() {
    let r = ServiceSpec::new("/bin/app".to_string()).description(String::new());
    assert!(matches!(r, Err(ServiceErrKind::BadServiceSpec)));
}

#[test]
fn empty_user_rejected() {
    let r = ServiceSpec::new("/bin/app".to_string()).set_user(String::new());
    assert!(matches!(r, Err(ServiceErrKind::BadServiceSpec)));
}

#[test]
fn empty_password_rejected() {
    let r = ServiceSpec::new("/bin/app".to_string()).set_password(String::new());
    assert!(matches!(r, Err(ServiceErrKind::BadServiceSpec)));
}

#[test]
fn empty_group_rejected() {
    let r = ServiceSpec::new("/bin/app".to_string()).set_group(String::new());
    assert!(matches!(r, Err(ServiceErrKind::BadServiceSpec)));
}

#[test]
fn setters_set_their_fields() {
    let s = ServiceSpec::new("/bin/app".to_string())
        .display_name("Test service".to_string())
        .unwrap()
        .description("Test service description".to_string())
        .unwrap()
        .set_user("svcuser".to_string())
        .unwrap()
        .set_password("SECRET-REDACTED".to_string())
        .unwrap()
        .set_group("svcgroup".to_string())
        .unwrap()
        .set_autostart()
        .set_restart_on_failure();
    assert_eq!(s.display_name.as_deref(), Some("Test service"));
    assert_eq!(s.description.as_deref(), Some("Test service description"));
    assert_eq!(s.user.as_deref(), Some("svcuser"));
    assert_eq!(s.password.as_deref(), Some("SECRET-REDACTED"));
    assert_eq!(s.group.as_deref(), Some("svcgroup"));
    assert!(s.autostart);
    assert!(s.restart_on_failure);
}
