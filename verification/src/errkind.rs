//! The uniform error taxonomy for service management operations.

use vstd::prelude::*;

use crate::status::ServiceStatus;
use crate::textparse::dec_int_rep;
use crate::textparse::i64_to_dec;

verus! {

/// The error kinds for service management operations, shared by every
/// backend. Each carries a human-readable context via [`ServiceErrKind::context`].
#[derive(Debug)]
pub enum ServiceErrKind {
    /// Service management is not available on this platform, either because
    /// it is not supported or because the service manager is not detected.
    ServiceManagementNotAvailable,
    /// The service is already installed.
    AlreadyInstalled,
    /// The service is not installed.
    NotInstalled,
    /// The service name or prefix is invalid.
    InvalidNameOrPrefix,
    /// The service is in the wrong state for the requested operation.
    WrongState(ServiceStatus),
    /// The wait operation timed out. The last observed status is returned.
    Timeout(ServiceStatus),
    /// The wait operation timed out. The last error kind is returned.
    TimeoutError(Box<ServiceErrKind>),
    /// The operation failed because an OS string was not valid UTF-8.
    BadUtf8,
    /// A child process exited with a non-zero status.
    BadExitStatus(Option<i32>, String),
    /// The service path was not found.
    ServicePathNotFound,
    /// The operation failed due to insufficient permissions.
    AccessDenied,
    /// The operation failed because a directory was not found.
    DirectoryNotFound,
    /// The operation failed because the service specification is invalid.
    BadServiceSpec,
    /// The operation failed because of an I/O error.
    IoError,
    /// The operation failed because the SID could not be extracted.
    BadSid,
    /// The operation failed because of a platform-specific error.
    PlatformError(Option<i64>),
    /// The operation failed because of an unknown error.
    Unknown,
}

/// The name of a status, as it appears in context messages.
pub open spec fn spec_status_label(s: ServiceStatus) -> Seq<char> {
    match s {
        ServiceStatus::NotInstalled => "NotInstalled"@,
        ServiceStatus::Stopped => "Stopped"@,
        ServiceStatus::StartPending => "StartPending"@,
        ServiceStatus::StopPending => "StopPending"@,
        ServiceStatus::Running => "Running"@,
        ServiceStatus::ContinuePending => "ContinuePending"@,
        ServiceStatus::PausePending => "PausePending"@,
        ServiceStatus::Paused => "Paused"@,
    }
}

/// The name of a status, for building context messages.
pub fn status_label(s: ServiceStatus) -> (r: &'static str)
    ensures
        r@ == spec_status_label(s),
{
    match s {
        ServiceStatus::NotInstalled => "NotInstalled",
        ServiceStatus::Stopped => "Stopped",
        ServiceStatus::StartPending => "StartPending",
        ServiceStatus::StopPending => "StopPending",
        ServiceStatus::Running => "Running",
        ServiceStatus::ContinuePending => "ContinuePending",
        ServiceStatus::PausePending => "PausePending",
        ServiceStatus::Paused => "Paused",
    }
}

/// The name of an error kind, without its payload.
pub open spec fn spec_kind_label(k: ServiceErrKind) -> Seq<char> {
    match k {
        ServiceErrKind::ServiceManagementNotAvailable => "ServiceManagementNotAvailable"@,
        ServiceErrKind::AlreadyInstalled => "AlreadyInstalled"@,
        ServiceErrKind::NotInstalled => "NotInstalled"@,
        ServiceErrKind::InvalidNameOrPrefix => "InvalidNameOrPrefix"@,
        ServiceErrKind::WrongState(_) => "WrongState"@,
        ServiceErrKind::Timeout(_) => "Timeout"@,
        ServiceErrKind::TimeoutError(_) => "TimeoutError"@,
        ServiceErrKind::BadUtf8 => "BadUtf8"@,
        ServiceErrKind::BadExitStatus(_, _) => "BadExitStatus"@,
        ServiceErrKind::ServicePathNotFound => "ServicePathNotFound"@,
        ServiceErrKind::AccessDenied => "AccessDenied"@,
        ServiceErrKind::DirectoryNotFound => "DirectoryNotFound"@,
        ServiceErrKind::BadServiceSpec => "BadServiceSpec"@,
        ServiceErrKind::IoError => "IoError"@,
        ServiceErrKind::BadSid => "BadSid"@,
        ServiceErrKind::PlatformError(_) => "PlatformError"@,
        ServiceErrKind::Unknown => "Unknown"@,
    }
}

/// The exit code part of a `BadExitStatus` context: the decimal code when the
/// child reported one, `unknown` when it was killed by a signal.
pub open spec fn spec_code_label(code: Option<i32>) -> Seq<char> {
    match code {
        Some(c) => dec_int_rep(c as int),
        None => "unknown"@,
    }
}

/// The human-readable context of an error kind.
pub open spec fn spec_context(k: ServiceErrKind) -> Seq<char> {
    match k {
        ServiceErrKind::ServiceManagementNotAvailable => {
            "Service management is not available on this platform"@
        },
        ServiceErrKind::AlreadyInstalled => "Service is already installed"@,
        ServiceErrKind::NotInstalled => "Service is not installed"@,
        ServiceErrKind::InvalidNameOrPrefix => "Service name or prefix is invalid"@,
        ServiceErrKind::WrongState(s) => {
            "Service is in the wrong state for the requested operation. Current status: "@
                + spec_status_label(s)
        },
        ServiceErrKind::Timeout(s) => {
            "Timeout waiting for service status. Last status: "@ + spec_status_label(s)
        },
        ServiceErrKind::TimeoutError(k) => {
            "Timeout waiting for service status. Last error: "@ + spec_kind_label(*k)
        },
        ServiceErrKind::BadUtf8 => "Bad UTF-8 encoding"@,
        ServiceErrKind::BadExitStatus(code, msg) => {
            "Bad child process exit status. Code: "@ + spec_code_label(code) + ". Stderr: "@
                + msg@
        },
        ServiceErrKind::ServicePathNotFound => "The service path was not found"@,
        ServiceErrKind::AccessDenied => "Access denied"@,
        ServiceErrKind::DirectoryNotFound => "Unable to locate the directory"@,
        ServiceErrKind::BadServiceSpec => "The service specification is invalid"@,
        ServiceErrKind::IoError => "An I/O error occurred"@,
        ServiceErrKind::BadSid => "The SID could not be extracted"@,
        ServiceErrKind::PlatformError(code) => {
            match code {
                Some(c) => {
                    "A platform-specific error occurred. Code: "@ + dec_int_rep(c as int)
                },
                None => "A platform-specific error occurred"@,
            }
        },
        ServiceErrKind::Unknown => "Unknown error"@,
    }
}

impl ServiceErrKind {
    /// The name of this kind, without its payload.
    pub fn kind_label(&self) -> (r: &'static str)
        ensures
            r@ == spec_kind_label(*self),
    {
        match self {
            ServiceErrKind::ServiceManagementNotAvailable => "ServiceManagementNotAvailable",
            ServiceErrKind::AlreadyInstalled => "AlreadyInstalled",
            ServiceErrKind::NotInstalled => "NotInstalled",
            ServiceErrKind::InvalidNameOrPrefix => "InvalidNameOrPrefix",
            ServiceErrKind::WrongState(_) => "WrongState",
            ServiceErrKind::Timeout(_) => "Timeout",
            ServiceErrKind::TimeoutError(_) => "TimeoutError",
            ServiceErrKind::BadUtf8 => "BadUtf8",
            ServiceErrKind::BadExitStatus(_, _) => "BadExitStatus",
            ServiceErrKind::ServicePathNotFound => "ServicePathNotFound",
            ServiceErrKind::AccessDenied => "AccessDenied",
            ServiceErrKind::DirectoryNotFound => "DirectoryNotFound",
            ServiceErrKind::BadServiceSpec => "BadServiceSpec",
            ServiceErrKind::IoError => "IoError",
            ServiceErrKind::BadSid => "BadSid",
            ServiceErrKind::PlatformError(_) => "PlatformError",
            ServiceErrKind::Unknown => "Unknown",
        }
    }

    /// The human-readable context of this error, shown to users by embedding
    /// programs in place of a `Display` implementation.
    pub fn context(&self) -> (r: String)
        ensures
            r@ == spec_context(*self),
    {
        match self {
            ServiceErrKind::ServiceManagementNotAvailable => {
                String::from_str("Service management is not available on this platform")
            },
            ServiceErrKind::AlreadyInstalled => String::from_str("Service is already installed"),
            ServiceErrKind::NotInstalled => String::from_str("Service is not installed"),
            ServiceErrKind::InvalidNameOrPrefix => {
                String::from_str("Service name or prefix is invalid")
            },
            ServiceErrKind::WrongState(s) => {
                let mut r = String::from_str(
                    "Service is in the wrong state for the requested operation. Current status: ",
                );
                r.append(status_label(*s));
                r
            },
            ServiceErrKind::Timeout(s) => {
                let mut r = String::from_str("Timeout waiting for service status. Last status: ");
                r.append(status_label(*s));
                r
            },
            ServiceErrKind::TimeoutError(k) => {
                let mut r = String::from_str("Timeout waiting for service status. Last error: ");
                r.append(k.kind_label());
                r
            },
            ServiceErrKind::BadUtf8 => String::from_str("Bad UTF-8 encoding"),
            ServiceErrKind::BadExitStatus(code, msg) => {
                let mut r = String::from_str("Bad child process exit status. Code: ");
                match code {
                    Some(c) => {
                        let coded = i64_to_dec(*c as i64);
                        r.append(coded.as_str());
                    },
                    None => {
                        r.append("unknown");
                        proof {
                            reveal_strlit("unknown");
                        }
                    },
                }
                r.append(". Stderr: ");
                r.append(msg.as_str());
                proof {
                    assert(r@ =~= spec_context(*self));
                }
                r
            },
            ServiceErrKind::ServicePathNotFound => {
                String::from_str("The service path was not found")
            },
            ServiceErrKind::AccessDenied => String::from_str("Access denied"),
            ServiceErrKind::DirectoryNotFound => String::from_str("Unable to locate the directory"),
            ServiceErrKind::BadServiceSpec => {
                String::from_str("The service specification is invalid")
            },
            ServiceErrKind::IoError => String::from_str("An I/O error occurred"),
            ServiceErrKind::BadSid => String::from_str("The SID could not be extracted"),
            ServiceErrKind::PlatformError(code) => {
                match code {
                    Some(c) => {
                        let mut r = String::from_str(
                            "A platform-specific error occurred. Code: ",
                        );
                        let coded = i64_to_dec(*c);
                        r.append(coded.as_str());
                        r
                    },
                    None => String::from_str("A platform-specific error occurred"),
                }
            },
            ServiceErrKind::Unknown => String::from_str("Unknown error"),
        }
    }
}

} // verus!
