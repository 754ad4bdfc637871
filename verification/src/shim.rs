//! The shared model of the child-process invocation shim.
//!
//! Every backend drives its platform by running a control tool (`sc.exe`,
//! `launchctl`, `systemctl`) as a child process with stdin null and
//! stdout/stderr piped, or by writing a service file. The commands and file
//! writes are planned here as plain data; the embedding program executes
//! them and reports a [`CmdOutcome`] back. [`command_result`] is the uniform
//! interpretation of such an outcome: exit status zero yields the standard
//! output, anything else a typed error.

use vstd::prelude::*;

use crate::errkind::ServiceErrKind;

verus! {

/// A child process invocation: a program and its arguments, run with stdin
/// null and stdout/stderr piped.
#[derive(Clone, Debug)]
pub struct Cmd {
    /// The program to run.
    pub program: String,
    /// The arguments, in order.
    pub args: Vec<String>,
}

/// The file mode service files are written with.
pub const SERVICE_PERMS: u32 = 0o644;

/// A planned service-file write: created with create+write, synced to disk
/// before the platform is told to load it.
#[derive(Clone, Debug)]
pub struct FileWrite {
    /// The absolute path of the file.
    pub path: String,
    /// The entire content of the file.
    pub content: String,
    /// The unix permission bits to create the file with.
    pub mode: u32,
}

/// What running a child process yielded, as reported by the embedding
/// program. A captured stream is `None` when its bytes were not valid UTF-8.
#[derive(Debug)]
pub enum CmdOutcome {
    /// The process could not be spawned or its output not collected.
    LaunchFailed,
    /// The process ran to completion.
    Exited {
        /// Whether the exit status was zero.
        success: bool,
        /// The exit code, if the process exited normally.
        code: Option<i32>,
        /// The decoded standard output, if valid UTF-8.
        stdout: Option<String>,
        /// The decoded standard error, if valid UTF-8.
        stderr: Option<String>,
    },
}

/// The uniform interpretation of a child process outcome.
pub open spec fn spec_command_result(outcome: CmdOutcome) -> Result<String, ServiceErrKind> {
    match outcome {
        CmdOutcome::LaunchFailed => Err(ServiceErrKind::IoError),
        CmdOutcome::Exited { success, code, stdout, stderr } => {
            if success {
                match stdout {
                    Some(out) => Ok(out),
                    None => Err(ServiceErrKind::BadUtf8),
                }
            } else {
                match stderr {
                    Some(msg) => Err(ServiceErrKind::BadExitStatus(code, msg)),
                    None => Err(ServiceErrKind::BadUtf8),
                }
            }
        },
    }
}

/// Interprets a child process outcome: a zero exit status yields the decoded
/// standard output; a failure to launch is an I/O error; a non-zero exit
/// carries the exit code and the decoded standard error; output that is not
/// UTF-8 is rejected.
pub fn command_result(outcome: CmdOutcome) -> (r: Result<String, ServiceErrKind>)
    ensures
        r == spec_command_result(outcome),
{
    match outcome {
        CmdOutcome::LaunchFailed => Err(ServiceErrKind::IoError),
        CmdOutcome::Exited { success, code, stdout, stderr } => {
            if success {
                match stdout {
                    Some(out) => Ok(out),
                    None => Err(ServiceErrKind::BadUtf8),
                }
            } else {
                match stderr {
                    Some(msg) => Err(ServiceErrKind::BadExitStatus(code, msg)),
                    None => Err(ServiceErrKind::BadUtf8),
                }
            }
        },
    }
}

} // verus!
