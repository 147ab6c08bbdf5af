//! The runner: request validation and the decisions of the four operations.
//!
//! Run validates the command, draws a fresh identifier and lays out the
//! spawn (log-file paths and control-group plan); the fork itself, the
//! registry insert and the per-child reaper are driven by the embedding
//! program from that plan.  Stop, status and log read the registry and
//! decide; the stop loop's per-turn decision and the classification of a
//! failed kill are spelled out here so that the signalling loop outside the
//! library holds no policy of its own.

use crate::cgroups::{create_cgroups, BlockDevice, CgroupPlan};
use crate::ids::{
    format_id, fresh_id_bits, id_str_of, id_value, is_canonical_id, lemma_id_round_trip, nibble,
    parse_id,
};
use crate::process_map::{Exit, ProcessMap, ProcessStatus};
use crate::service::{
    descriptor_from_i32, log_error_text, run_error_text, status_error_text, stop_error_text,
    Descriptor, InternalError, LogError, LogErrorKind, LogRequest, RunError, RunErrorKind,
    RunRequest, StatusError, StatusErrorKind, StatusRequest, StatusResult, StopError,
    StopErrorKind, StopRequest,
};
use crate::cgroups::throttles_spec;
use vstd::prelude::*;
use vstd::string::StrSliceExecFns;
use vstd::string::StringExecFns;

verus! {

/// The characters `str::trim` removes: the Unicode white-space set.
pub open spec fn is_space_char(c: char) -> bool {
    ||| c == '\t'
    ||| c == '\n'
    ||| c == '\u{B}'
    ||| c == '\u{C}'
    ||| c == '\r'
    ||| c == ' '
    ||| c == '\u{85}'
    ||| c == '\u{A0}'
    ||| c == '\u{1680}'
    ||| c == '\u{2000}'
    ||| c == '\u{2001}'
    ||| c == '\u{2002}'
    ||| c == '\u{2003}'
    ||| c == '\u{2004}'
    ||| c == '\u{2005}'
    ||| c == '\u{2006}'
    ||| c == '\u{2007}'
    ||| c == '\u{2008}'
    ||| c == '\u{2009}'
    ||| c == '\u{200A}'
    ||| c == '\u{2028}'
    ||| c == '\u{2029}'
    ||| c == '\u{202F}'
    ||| c == '\u{205F}'
    ||| c == '\u{3000}'
}

/// A command string that trims to nothing: empty or all white space.
pub open spec fn is_blank(s: Seq<char>) -> bool {
    forall|i: int| 0 <= i < s.len() ==> is_space_char(#[trigger] s[i])
}

fn is_space(c: char) -> (r: bool)
    ensures
        r == is_space_char(c),
{
    match c {
        '\t' | '\n' | '\u{B}' | '\u{C}' | '\r' | ' ' | '\u{85}' | '\u{A0}' | '\u{1680}'
        | '\u{2000}' | '\u{2001}' | '\u{2002}' | '\u{2003}' | '\u{2004}' | '\u{2005}'
        | '\u{2006}' | '\u{2007}' | '\u{2008}' | '\u{2009}' | '\u{200A}' | '\u{2028}'
        | '\u{2029}' | '\u{202F}' | '\u{205F}' | '\u{3000}' => true,
        _ => false,
    }
}

/// True exactly when the string trims to nothing.
pub fn is_blank_str(s: &str) -> (r: bool)
    ensures
        r == is_blank(s@),
{
    let n = s.unicode_len();
    let mut i: usize = 0;
    while i < n
        invariant
            i <= n,
            n == s@.len(),
            forall|k: int| 0 <= k < i ==> is_space_char(#[trigger] s@[k]),
        decreases n - i,
    {
        let c = s.get_char(i);
        if !is_space(c) {
            return false;
        }
        i = i + 1;
    }
    true
}

/// The graceful-stop budget: after this many seconds of SIGTERM attempts
/// the loop escalates to SIGKILL.
pub const STOP_PATIENCE_SECS: u64 = 5;

/// How long the stop loop and the log tail wait between attempts.
pub const RETRY_DELAY_MILLIS: u64 = 100;

/// Default byte count of one log-stream read.
pub const DEFAULT_LOG_BUFFER: usize = 256;

/// Linux errno values the stop protocol distinguishes, as `kill(2)` returns
/// them.
pub const EPERM: i32 = 1;
pub const ESRCH: i32 = 3;
pub const ECHILD: i32 = 10;
pub const EACCES: i32 = 13;

/// What the stop loop does on one turn.
#[derive(Clone, Copy, Debug, PartialEq, Eq, Structural)]
pub enum StopAction {
    /// The registry shows the job terminal: the stop call returns.
    Finished,
    /// The budget ran out: send SIGKILL once and return.
    EscalateKill,
    /// Send SIGTERM, wait [`RETRY_DELAY_MILLIS`], and look again.
    TermAndRecheck,
}

/// Decides one turn of the graceful-then-forceful stop loop from the
/// registry's current status of the job and the elapsed seconds.
pub fn next_stop_action(status: ProcessStatus, elapsed_secs: u64) -> (r: StopAction)
    ensures
        !(status is Running) ==> r == StopAction::Finished,
        status is Running && elapsed_secs > STOP_PATIENCE_SECS ==> r == StopAction::EscalateKill,
        status is Running && elapsed_secs <= STOP_PATIENCE_SECS ==> r == StopAction::TermAndRecheck,
{
    match status {
        ProcessStatus::Stopped(_) => StopAction::Finished,
        ProcessStatus::Running => {
            if elapsed_secs > STOP_PATIENCE_SECS {
                StopAction::EscalateKill
            } else {
                StopAction::TermAndRecheck
            }
        },
    }
}

/// What to do after a SIGTERM attempt failed.
#[derive(Clone, Copy, Debug, PartialEq, Eq, Structural)]
pub enum KillErrorAction {
    /// Permission or child-state error: surface it to the caller.
    ReportFailure,
    /// The process is already gone: the stop succeeded.
    TreatAsGone,
    /// Anything else: escalate to SIGKILL and return.
    EscalateKill,
}

/// Classifies the errno of a failed `kill(2)`: `EACCES`, `ECHILD` and
/// `EPERM` are reported to the caller, `ESRCH` means the process is already
/// gone, and every other errno escalates to SIGKILL.
pub fn classify_kill_errno(errno: i32) -> (r: KillErrorAction)
    ensures
        errno == EACCES || errno == ECHILD || errno == EPERM ==> r
            == KillErrorAction::ReportFailure,
        errno == ESRCH ==> r == KillErrorAction::TreatAsGone,
        errno != EACCES && errno != ECHILD && errno != EPERM && errno != ESRCH ==> r
            == KillErrorAction::EscalateKill,
{
    if errno == EACCES || errno == ECHILD || errno == EPERM {
        KillErrorAction::ReportFailure
    } else if errno == ESRCH {
        KillErrorAction::TreatAsGone
    } else {
        KillErrorAction::EscalateKill
    }
}

/// The path of the stdout log file: `<log-dir>/<id>.stdout.txt`.
pub open spec fn stdout_path_spec(log_dir: Seq<char>, id: Seq<char>) -> Seq<char> {
    log_dir + "/"@ + id + ".stdout.txt"@
}

/// The path of the stderr log file: `<log-dir>/<id>.stderr.txt`.
pub open spec fn stderr_path_spec(log_dir: Seq<char>, id: Seq<char>) -> Seq<char> {
    log_dir + "/"@ + id + ".stderr.txt"@
}

/// The buffer size a log stream uses: the configured one, or the default.
pub open spec fn buffer_or_default(b: Option<usize>) -> usize {
    match b {
        Some(x) => x,
        None => DEFAULT_LOG_BUFFER,
    }
}

/// Everything the embedding program needs to spawn a validated run: the
/// fresh identifier, the two log-file paths, and the control-group plan.
#[derive(Debug, Clone)]
pub struct RunPlan {
    pub id_bits: u128,
    /// The identifier in its canonical rendering; this is what the caller
    /// of a successful run is told.
    pub id: String,
    pub stdout_path: String,
    pub stderr_path: String,
    pub cgroups: CgroupPlan,
}

/// A stop request that passed validation: the pid to signal, and whose
/// registry entry the signalling loop watches.
#[derive(Clone, Copy, Debug, PartialEq, Eq, Structural)]
pub struct StopTicket {
    pub id_bits: u128,
    pub pid: u32,
}

/// A log request that passed validation: whose registry entry to probe,
/// which file to follow, and how much to read at a time.
#[derive(Debug, Clone)]
pub struct LogPlan {
    pub id_bits: u128,
    pub path: String,
    pub buffer_size: usize,
}

/// The runner's configuration.  The registry itself is handed to each
/// operation by the embedding program, which owns it behind a
/// readers-writer lock.
#[derive(Debug, Clone)]
pub struct Runner {
    /// Where the per-job log files live.
    pub log_dir: String,
    /// The size of the buffer for streaming logs.
    pub buffer_size: Option<usize>,
}

impl Default for Runner {
    fn default() -> (r: Runner)
        ensures
            r.log_dir@ == "tmp"@,
            r.buffer_size == Some(DEFAULT_LOG_BUFFER),
    {
        Runner { log_dir: String::from_str("tmp"), buffer_size: Some(DEFAULT_LOG_BUFFER) }
    }
}

impl Runner {
    /// Returns the path to the stdout file for a process.
    pub fn stdout_path(&self, id: &str) -> (r: String)
        ensures
            r@ == stdout_path_spec(self.log_dir@, id@),
    {
        let mut p = self.log_dir.clone();
        p.append("/");
        p.append(id);
        p.append(".stdout.txt");
        p
    }

    /// Returns the path to the stderr file for a process.
    pub fn stderr_path(&self, id: &str) -> (r: String)
        ensures
            r@ == stderr_path_spec(self.log_dir@, id@),
    {
        let mut p = self.log_dir.clone();
        p.append("/");
        p.append(id);
        p.append(".stderr.txt");
        p
    }

    /// Returns the pid recorded for a job identifier.
    pub fn pid_for_process(&self, processes: &ProcessMap, id: u128) -> (r: Option<u32>)
        requires
            processes.wf(),
        ensures
            match r {
                Some(pid) => processes@.dom().contains(id) && processes@[id].0 == pid,
                None => !processes@.dom().contains(id),
            },
    {
        match processes.get(id) {
            Some((pid, _)) => Some(pid),
            None => None,
        }
    }

    /// Validates a run request and lays the spawn out.
    ///
    /// A command that trims to nothing is rejected with the `NameEmpty`
    /// task error — and with no registry in reach of this function, no
    /// identifier can leak anywhere on rejection.  Otherwise the plan
    /// carries a fresh version-4 identifier in canonical rendering, the two
    /// log-file paths under this runner's log directory, and the
    /// control-group plan for the request's knobs over the enumerated block
    /// devices.
    pub fn run(&self, request: &RunRequest, devices: &Vec<BlockDevice>) -> (r: Result<
        RunPlan,
        RunError,
    >)
        ensures
            r is Err <==> is_blank(request.command@),
            r matches Err(e) ==> e.kind == RunErrorKind::NameEmpty && e.description@
                == run_error_text(RunErrorKind::NameEmpty),
            r matches Ok(p) ==> {
                &&& p.id@ == id_str_of(p.id_bits)
                &&& is_canonical_id(p.id@)
                &&& id_value(p.id@) == p.id_bits
                &&& nibble(p.id_bits, 12) == 4
                &&& p.stdout_path@ == stdout_path_spec(self.log_dir@, p.id@)
                &&& p.stderr_path@ == stderr_path_spec(self.log_dir@, p.id@)
                &&& p.cgroups.memory_limit_in_bytes == request.memory
                &&& p.cgroups.cpu_shares == request.cpu
                &&& (request.disk matches Some(bps) ==> p.cgroups.disk_throttles matches Some(v)
                    && v@ == throttles_spec(devices@, bps))
                &&& (request.disk is None ==> p.cgroups.disk_throttles is None)
            },
    {
        if is_blank_str(request.command.as_str()) {
            return Err(RunError::task(RunErrorKind::NameEmpty));
        }
        let id_bits = fresh_id_bits();
        proof {
            lemma_id_round_trip(id_bits);
        }
        let id = format_id(id_bits);
        let cgroups = create_cgroups(request, devices);
        let stdout_path = self.stdout_path(id.as_str());
        let stderr_path = self.stderr_path(id.as_str());
        Ok(RunPlan { id_bits, id, stdout_path, stderr_path, cgroups })
    }

    /// Answers a status query from the registry alone.
    ///
    /// A malformed identifier and an unknown identifier are the two task
    /// errors; a `Running` entry reports as running; a `Stopped` entry
    /// reports its exit code or its terminating signal — always one of the
    /// two — and the never-expected case of an exit with neither surfaces
    /// as a general error.
    pub fn status(&self, processes: &ProcessMap, request: &StatusRequest) -> (r: Result<
        StatusResult,
        StatusError,
    >)
        requires
            processes.wf(),
        ensures
            ({
                let s = request.id@;
                let n = id_value(s) as u128;
                &&& !is_canonical_id(s) ==> (r matches Err(e) && e.kind
                    == StatusErrorKind::InvalidId && e.description@ == status_error_text(
                    StatusErrorKind::InvalidId,
                ))
                &&& is_canonical_id(s) && !processes@.dom().contains(n) ==> (r matches Err(e)
                    && e.kind == StatusErrorKind::ProcessNotFound && e.description@
                    == status_error_text(StatusErrorKind::ProcessNotFound))
                &&& is_canonical_id(s) && processes@.dom().contains(n) ==> match processes@[n].1 {
                    ProcessStatus::Running => r == Ok::<StatusResult, StatusError>(
                        StatusResult::Running,
                    ),
                    ProcessStatus::Stopped(Exit::Code(code)) => r == Ok::<
                        StatusResult,
                        StatusError,
                    >(StatusResult::Exited(code)),
                    ProcessStatus::Stopped(Exit::Signal(signal)) => r == Ok::<
                        StatusResult,
                        StatusError,
                    >(StatusResult::Killed(signal)),
                    ProcessStatus::Stopped(Exit::Unknown) => r matches Err(e) && e.kind
                        == StatusErrorKind::General && e.description@
                        == "Couldn't get exit code or the kill signal"@,
                }
            }),
    {
        match parse_id(request.id.as_str()) {
            None => Err(StatusError::task(StatusErrorKind::InvalidId)),
            Some(id) => match processes.get(id) {
                None => Err(StatusError::task(StatusErrorKind::ProcessNotFound)),
                Some((_pid, status)) => match status {
                    ProcessStatus::Running => Ok(StatusResult::Running),
                    ProcessStatus::Stopped(Exit::Code(code)) => Ok(StatusResult::Exited(code)),
                    ProcessStatus::Stopped(Exit::Signal(signal)) => Ok(
                        StatusResult::Killed(signal),
                    ),
                    ProcessStatus::Stopped(Exit::Unknown) => Err(
                        StatusError::general(
                            String::from_str("Couldn't get exit code or the kill signal"),
                        ),
                    ),
                },
            },
        }
    }

    /// Validates a stop request against the registry.
    ///
    /// A malformed identifier, an unknown identifier and an already-stopped
    /// job are the three task errors; stopping an already-stopped job
    /// changes nothing — this function only reads.  For a running job the
    /// ticket carries the recorded pid, and the embedding program drives
    /// the signalling loop with [`next_stop_action`] and
    /// [`classify_kill_errno`].
    pub fn stop(&self, processes: &ProcessMap, request: &StopRequest) -> (r: Result<
        StopTicket,
        StopError,
    >)
        requires
            processes.wf(),
        ensures
            ({
                let s = request.id@;
                let n = id_value(s) as u128;
                &&& !is_canonical_id(s) ==> (r matches Err(e) && e.kind == StopErrorKind::InvalidId
                    && e.description@ == stop_error_text(StopErrorKind::InvalidId))
                &&& is_canonical_id(s) && !processes@.dom().contains(n) ==> (r matches Err(e)
                    && e.kind == StopErrorKind::ProcessNotFound && e.description@
                    == stop_error_text(StopErrorKind::ProcessNotFound))
                &&& is_canonical_id(s) && processes@.dom().contains(n) && processes@[n].1
                    is Stopped ==> (r matches Err(e) && e.kind
                    == StopErrorKind::ProcessAlreadyStopped && e.description@ == stop_error_text(
                    StopErrorKind::ProcessAlreadyStopped,
                ))
                &&& is_canonical_id(s) && processes@.dom().contains(n) && processes@[n].1
                    is Running ==> (r matches Ok(t) && t.id_bits == n && t.pid
                    == processes@[n].0)
            }),
    {
        match parse_id(request.id.as_str()) {
            None => Err(StopError::task(StopErrorKind::InvalidId)),
            Some(id) => match processes.get(id) {
                None => Err(StopError::task(StopErrorKind::ProcessNotFound)),
                Some((pid, status)) => match status {
                    ProcessStatus::Stopped(_) => Err(
                        StopError::task(StopErrorKind::ProcessAlreadyStopped),
                    ),
                    ProcessStatus::Running => Ok(StopTicket { id_bits: id, pid }),
                },
            },
        }
    }

    /// Validates a log request against the registry.
    ///
    /// A malformed identifier and an unknown identifier are the task
    /// errors; an unmapped descriptor value surfaces as a general error.
    /// The plan names the selected log file and the read size; the
    /// embedding program re-opens the file from its beginning and polls it
    /// through [`crate::log_stream::LogStream`].
    pub fn log(&self, processes: &ProcessMap, request: &LogRequest) -> (r: Result<
        LogPlan,
        LogError,
    >)
        requires
            processes.wf(),
        ensures
            ({
                let s = request.id@;
                let n = id_value(s) as u128;
                &&& !is_canonical_id(s) ==> (r matches Err(e) && e.kind == LogErrorKind::InvalidId
                    && e.description@ == log_error_text(LogErrorKind::InvalidId))
                &&& is_canonical_id(s) && !processes@.dom().contains(n) ==> (r matches Err(e)
                    && e.kind == LogErrorKind::ProcessNotFound && e.description@ == log_error_text(
                    LogErrorKind::ProcessNotFound,
                ))
                &&& is_canonical_id(s) && processes@.dom().contains(n) && request.descriptor != 0
                    && request.descriptor != 1 ==> (r matches Err(e) && e.kind
                    == LogErrorKind::General && e.description@
                    == "Given descriptor is invalid. Are you using compatible version of the client?"@)
                &&& is_canonical_id(s) && processes@.dom().contains(n) && request.descriptor == 0
                    ==> (r matches Ok(p) && p.id_bits == n && p.path@ == stdout_path_spec(
                    self.log_dir@,
                    s,
                ) && p.buffer_size == buffer_or_default(self.buffer_size))
                &&& is_canonical_id(s) && processes@.dom().contains(n) && request.descriptor == 1
                    ==> (r matches Ok(p) && p.id_bits == n && p.path@ == stderr_path_spec(
                    self.log_dir@,
                    s,
                ) && p.buffer_size == buffer_or_default(self.buffer_size))
            }),
    {
        match parse_id(request.id.as_str()) {
            None => Err(LogError::task(LogErrorKind::InvalidId)),
            Some(id) => match processes.get(id) {
                None => Err(LogError::task(LogErrorKind::ProcessNotFound)),
                Some(_) => {
                    let path = match descriptor_from_i32(request.descriptor) {
                        Some(Descriptor::Stdout) => self.stdout_path(request.id.as_str()),
                        Some(Descriptor::Stderr) => self.stderr_path(request.id.as_str()),
                        None => {
                            return Err(
                                LogError::internal(
                                    InternalError {
                                        description: String::from_str(
                                            "Given descriptor is invalid. Are you using compatible version of the client?",
                                        ),
                                    },
                                ),
                            );
                        },
                    };
                    let buffer_size = match self.buffer_size {
                        Some(b) => b,
                        None => DEFAULT_LOG_BUFFER,
                    };
                    Ok(LogPlan { id_bits: id, path, buffer_size })
                },
            },
        }
    }
}

} // verus!
