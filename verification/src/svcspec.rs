//! The specification of a service to be installed, with its fluent builder.
//!
//! Every setter validates that its input is non-empty; an empty string is
//! rejected with [`ServiceErrKind::BadServiceSpec`]. Once built, a
//! specification is read-only: it is consumed by one install.

use vstd::prelude::*;

use crate::errkind::ServiceErrKind;

verus! {

/// A specification of a service to be installed.
#[derive(Clone, Debug)]
pub struct ServiceSpec {
    /// The path to the executable to run when the service starts.
    pub path: String,
    /// The arguments to pass to the executable.
    pub args: Vec<String>,
    /// The display name of the service.
    pub display_name: Option<String>,
    /// The description of the service.
    pub description: Option<String>,
    /// Whether the platform should start the service automatically at boot
    /// or first logon.
    pub autostart: bool,
    /// Whether the service should be restarted if it fails.
    pub restart_on_failure: bool,
    /// User to run the service as.
    pub user: Option<String>,
    /// Password to use for the user.
    pub password: Option<String>,
    /// Group to run the service as.
    pub group: Option<String>,
}

impl ServiceSpec {
    /// Creates a new service specification with the given path to the
    /// executable.
    pub fn new(path: String) -> (r: Self)
        ensures
            r.path == path,
            r.args@ == Seq::<String>::empty(),
            r.display_name is None,
            r.description is None,
            !r.autostart,
            !r.restart_on_failure,
            r.user is None,
            r.password is None,
            r.group is None,
    {
        ServiceSpec {
            path,
            args: Vec::new(),
            display_name: None,
            description: None,
            autostart: false,
            restart_on_failure: false,
            user: None,
            password: None,
            group: None,
        }
    }

    /// Rejects an empty field value.
    fn validate(field: String) -> (r: Result<String, ServiceErrKind>)
        ensures
            match r {
                Ok(f) => f == field && field@.len() > 0,
                Err(e) => field@.len() == 0 && e is BadServiceSpec,
            },
    {
        if field.as_str().unicode_len() == 0 {
            Err(ServiceErrKind::BadServiceSpec)
        } else {
            Ok(field)
        }
    }

    /// Adds an argument to the executable. Empty arguments are rejected.
    pub fn arg(self, arg: String) -> (r: Result<Self, ServiceErrKind>)
        ensures
            match r {
                Ok(s) => arg@.len() > 0 && s == (ServiceSpec {
                    args: s.args,
                    ..self
                }) && s.args@ == self.args@.push(arg),
                Err(e) => arg@.len() == 0 && e is BadServiceSpec,
            },
    {
        let checked = Self::validate(arg)?;
        let mut s = self;
        s.args.push(checked);
        Ok(s)
    }

    /// Sets the display name of the service. Empty names are rejected.
    pub fn display_name(self, display_name: String) -> (r: Result<Self, ServiceErrKind>)
        ensures
            match r {
                Ok(s) => display_name@.len() > 0 && s == (ServiceSpec {
                    display_name: Some(display_name),
                    ..self
                }),
                Err(e) => display_name@.len() == 0 && e is BadServiceSpec,
            },
    {
        let checked = Self::validate(display_name)?;
        Ok(ServiceSpec { display_name: Some(checked), ..self })
    }

    /// Sets the description of the service. Empty descriptions are rejected.
    pub fn description(self, desc: String) -> (r: Result<Self, ServiceErrKind>)
        ensures
            match r {
                Ok(s) => desc@.len() > 0 && s == (ServiceSpec { description: Some(desc), ..self }),
                Err(e) => desc@.len() == 0 && e is BadServiceSpec,
            },
    {
        let checked = Self::validate(desc)?;
        Ok(ServiceSpec { description: Some(checked), ..self })
    }

    /// Marks the service to start automatically when the system boots or the
    /// user logs in.
    pub fn set_autostart(self) -> (r: Self)
        ensures
            r == (ServiceSpec { autostart: true, ..self }),
    {
        ServiceSpec { autostart: true, ..self }
    }

    /// Marks the service to be restarted if it fails.
    pub fn set_restart_on_failure(self) -> (r: Self)
        ensures
            r == (ServiceSpec { restart_on_failure: true, ..self }),
    {
        ServiceSpec { restart_on_failure: true, ..self }
    }

    /// Sets the user to run the service as. Empty users are rejected.
    pub fn set_user(self, user: String) -> (r: Result<Self, ServiceErrKind>)
        ensures
            match r {
                Ok(s) => user@.len() > 0 && s == (ServiceSpec { user: Some(user), ..self }),
                Err(e) => user@.len() == 0 && e is BadServiceSpec,
            },
    {
        let checked = Self::validate(user)?;
        Ok(ServiceSpec { user: Some(checked), ..self })
    }

    /// Sets the password to use for the user. Empty passwords are rejected.
    pub fn set_password(self, password: String) -> (r: Result<Self, ServiceErrKind>)
        ensures
            match r {
                Ok(s) => password@.len() > 0 && s == (ServiceSpec {
                    password: Some(password),
                    ..self
                }),
                Err(e) => password@.len() == 0 && e is BadServiceSpec,
            },
    {
        let checked = Self::validate(password)?;
        Ok(ServiceSpec { password: Some(checked), ..self })
    }

    /// Sets the group to run the service as. Empty groups are rejected.
    pub fn set_group(self, group: String) -> (r: Result<Self, ServiceErrKind>)
        ensures
            match r {
                Ok(s) => group@.len() > 0 && s == (ServiceSpec { group: Some(group), ..self }),
                Err(e) => group@.len() == 0 && e is BadServiceSpec,
            },
    {
        let checked = Self::validate(group)?;
        Ok(ServiceSpec { group: Some(checked), ..self })
    }
}

} // verus!
