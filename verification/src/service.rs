//! Request and response shapes of the four operations, and the two-tier
//! error taxonomy: per-operation task errors with fixed descriptions, and
//! general internal errors carrying a free-form description.

use vstd::prelude::*;
use vstd::string::StringExecFns;

verus! {

/// A request to run a command under optional resource constraints.
/// Absent constraints mean "unconstrained".
#[derive(Debug, Clone)]
pub struct RunRequest {
    pub command: String,
    pub arguments: Vec<String>,
    /// Memory ceiling in bytes.
    pub memory: Option<u64>,
    /// Relative cpu shares.
    pub cpu: Option<u64>,
    /// Read and write bytes per second, applied to every disk device.
    pub disk: Option<u64>,
}

impl Default for RunRequest {
    fn default() -> (r: RunRequest)
        ensures
            r.command@ == Seq::<char>::empty(),
            r.arguments@ == Seq::<String>::empty(),
            r.memory is None,
            r.cpu is None,
            r.disk is None,
    {
        RunRequest {
            command: String::new(),
            arguments: Vec::new(),
            memory: None,
            cpu: None,
            disk: None,
        }
    }
}

#[derive(Debug, Clone)]
pub struct StopRequest {
    pub id: String,
}

#[derive(Debug, Clone)]
pub struct StatusRequest {
    pub id: String,
}

#[derive(Debug, Clone)]
pub struct LogRequest {
    pub id: String,
    /// Wire encoding of the descriptor selector; see [`descriptor_from_i32`].
    pub descriptor: i32,
}

/// Which of the two per-job log files a log stream follows.
#[derive(Clone, Copy, Debug, PartialEq, Eq, Structural)]
pub enum Descriptor {
    Stdout,
    Stderr,
}

/// Decodes the wire value of a descriptor: 0 is stdout, 1 is stderr, and
/// every other value is invalid.
pub fn descriptor_from_i32(v: i32) -> (r: Option<Descriptor>)
    ensures
        v == 0 ==> r == Some(Descriptor::Stdout),
        v == 1 ==> r == Some(Descriptor::Stderr),
        v != 0 && v != 1 ==> r is None,
{
    if v == 0 {
        Some(Descriptor::Stdout)
    } else if v == 1 {
        Some(Descriptor::Stderr)
    } else {
        None
    }
}

/// The success shape of a status query: still running, exited with a code,
/// or killed by a signal.
#[derive(Clone, Copy, Debug, PartialEq, Eq, Structural)]
pub enum StatusResult {
    Running,
    Exited(i32),
    Killed(i32),
}

/// An unexpected failure (I/O, syscall, control-group creation), wrapped
/// with a short description and kept apart from the task errors.
#[derive(Debug, Clone)]
pub struct InternalError {
    pub description: String,
}

#[derive(Clone, Copy, Debug, PartialEq, Eq, Structural)]
pub enum RunErrorKind {
    NameEmpty,
    General,
}

#[derive(Debug, Clone)]
pub struct RunError {
    pub kind: RunErrorKind,
    pub description: String,
}

/// The fixed description of each run task error.
pub open spec fn run_error_text(kind: RunErrorKind) -> Seq<char> {
    match kind {
        RunErrorKind::NameEmpty => "Command name empty"@,
        RunErrorKind::General => Seq::<char>::empty(),
    }
}

impl RunError {
    /// The task error of the given kind, with its fixed description.
    pub fn task(kind: RunErrorKind) -> (r: RunError)
        ensures
            r.kind == kind,
            r.description@ == run_error_text(kind),
    {
        let description = match kind {
            RunErrorKind::NameEmpty => String::from_str("Command name empty"),
            RunErrorKind::General => String::new(),
        };
        RunError { kind, description }
    }

    /// A general error with the given description.
    pub fn general(description: String) -> (r: RunError)
        ensures
            r.kind == RunErrorKind::General,
            r.description == description,
    {
        RunError { kind: RunErrorKind::General, description }
    }
}

#[derive(Clone, Copy, Debug, PartialEq, Eq, Structural)]
pub enum StopErrorKind {
    InvalidId,
    ProcessNotFound,
    ProcessAlreadyStopped,
    CouldntStop,
    General,
}

#[derive(Debug, Clone)]
pub struct StopError {
    pub kind: StopErrorKind,
    pub description: String,
}

/// The fixed description of each stop task error.
pub open spec fn stop_error_text(kind: StopErrorKind) -> Seq<char> {
    match kind {
        StopErrorKind::InvalidId => "Invalid process id"@,
        StopErrorKind::ProcessNotFound => "Process not found"@,
        StopErrorKind::ProcessAlreadyStopped => "Process already stopped"@,
        StopErrorKind::CouldntStop => "Couldn't kill a process"@,
        StopErrorKind::General => Seq::<char>::empty(),
    }
}

impl StopError {
    /// The task error of the given kind, with its fixed description.
    pub fn task(kind: StopErrorKind) -> (r: StopError)
        ensures
            r.kind == kind,
            r.description@ == stop_error_text(kind),
    {
        let description = match kind {
            StopErrorKind::InvalidId => String::from_str("Invalid process id"),
            StopErrorKind::ProcessNotFound => String::from_str("Process not found"),
            StopErrorKind::ProcessAlreadyStopped => String::from_str("Process already stopped"),
            StopErrorKind::CouldntStop => String::from_str("Couldn't kill a process"),
            StopErrorKind::General => String::new(),
        };
        StopError { kind, description }
    }

    /// A general error with the given description.
    pub fn general(description: String) -> (r: StopError)
        ensures
            r.kind == StopErrorKind::General,
            r.description == description,
    {
        StopError { kind: StopErrorKind::General, description }
    }
}

#[derive(Clone, Copy, Debug, PartialEq, Eq, Structural)]
pub enum StatusErrorKind {
    InvalidId,
    ProcessNotFound,
    General,
}

#[derive(Debug, Clone)]
pub struct StatusError {
    pub kind: StatusErrorKind,
    pub description: String,
}

/// The fixed description of each status task error.
pub open spec fn status_error_text(kind: StatusErrorKind) -> Seq<char> {
    match kind {
        StatusErrorKind::InvalidId => "Invalid process id"@,
        StatusErrorKind::ProcessNotFound => "Process not found"@,
        StatusErrorKind::General => Seq::<char>::empty(),
    }
}

impl StatusError {
    /// The task error of the given kind, with its fixed description.
    pub fn task(kind: StatusErrorKind) -> (r: StatusError)
        ensures
            r.kind == kind,
            r.description@ == status_error_text(kind),
    {
        let description = match kind {
            StatusErrorKind::InvalidId => String::from_str("Invalid process id"),
            StatusErrorKind::ProcessNotFound => String::from_str("Process not found"),
            StatusErrorKind::General => String::new(),
        };
        StatusError { kind, description }
    }

    /// A general error with the given description.
    pub fn general(description: String) -> (r: StatusError)
        ensures
            r.kind == StatusErrorKind::General,
            r.description == description,
    {
        StatusError { kind: StatusErrorKind::General, description }
    }
}

#[derive(Clone, Copy, Debug, PartialEq, Eq, Structural)]
pub enum LogErrorKind {
    InvalidId,
    ProcessNotFound,
    General,
}

#[derive(Debug, Clone)]
pub struct LogError {
    pub kind: LogErrorKind,
    pub description: String,
}

/// The fixed description of each log task error.
pub open spec fn log_error_text(kind: LogErrorKind) -> Seq<char> {
    match kind {
        LogErrorKind::InvalidId => "Invalid process id"@,
        LogErrorKind::ProcessNotFound => "Process not found"@,
        LogErrorKind::General => Seq::<char>::empty(),
    }
}

impl LogError {
    /// The task error of the given kind, with its fixed description.
    pub fn task(kind: LogErrorKind) -> (r: LogError)
        ensures
            r.kind == kind,
            r.description@ == log_error_text(kind),
    {
        let description = match kind {
            LogErrorKind::InvalidId => String::from_str("Invalid process id"),
            LogErrorKind::ProcessNotFound => String::from_str("Process not found"),
            LogErrorKind::General => String::new(),
        };
        LogError { kind, description }
    }

    /// A general error with the given description.
    pub fn general(description: String) -> (r: LogError)
        ensures
            r.kind == LogErrorKind::General,
            r.description == description,
    {
        LogError { kind: LogErrorKind::General, description }
    }

    /// Wraps an internal error, keeping its description.
    pub fn internal(e: InternalError) -> (r: LogError)
        ensures
            r.kind == LogErrorKind::General,
            r.description@ == e.description@,
    {
        LogError { kind: LogErrorKind::General, description: e.description }
    }
}

} // verus!
