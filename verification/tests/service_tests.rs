use jobrunner::service::{
    InternalError, LogError, LogErrorKind, RunError, RunErrorKind, RunRequest, StatusError,
    StatusErrorKind, StopError, StopErrorKind,
};

#[test]
fn run_task_errors_carry_their_fixed_description() {
    let e = RunError::task(RunErrorKind::NameEmpty);
    assert_eq!(e.kind, RunErrorKind::NameEmpty);
    assert_eq!(e.description, "Command name empty");
}

#[test]
fn stop_task_errors_carry_their_fixed_descriptions() {
    let invalid = StopError::task(StopErrorKind::InvalidId);
    assert_eq!(invalid.description, "Invalid process id");
    let missing = StopError::task(StopErrorKind::ProcessNotFound);
    assert_eq!(missing.description, "Process not found");
    let stopped = StopError::task(StopErrorKind::ProcessAlreadyStopped);
    assert_eq!(stopped.description, "Process already stopped");
    let couldnt = StopError::task(StopErrorKind::CouldntStop);
    assert_eq!(couldnt.kind, StopErrorKind::CouldntStop);
    assert_eq!(couldnt.description, "Couldn't kill a process");
}

#[test]
fn status_task_errors_carry_their_fixed_descriptions() {
    assert_eq!(StatusError::task(StatusErrorKind::InvalidId).description, "Invalid process id");
    assert_eq!(
        StatusError::task(StatusErrorKind::ProcessNotFound).description,
        "Process not found"
    );
}

#[test]
fn log_task_errors_carry_their_fixed_descriptions() {
    assert_eq!(LogError::task(LogErrorKind::InvalidId).description, "Invalid process id");
    assert_eq!(LogError::task(LogErrorKind::ProcessNotFound).description, "Process not found");
}

#[test]
fn general_errors_keep_the_given_description() {
    let e = RunError::general("Couldn't create a cgroup: no permission".to_string());
    assert_eq!(e.kind, RunErrorKind::General);
    assert_eq!(e.description, "Couldn't create a cgroup: no permission");
    let s = StopError::general("Operation not permitted".to_string());
    assert_eq!(s.kind, StopErrorKind::General);
    assert_eq!(s.description, "Operation not permitted");
    let l = LogError::general("Couldn't open log file".to_string());
    assert_eq!(l.kind, LogErrorKind::General);
    assert_eq!(l.description, "Couldn't open log file");
}

#[test]
fn an_internal_error_surfaces_as_a_general_log_error() {
    let e = LogError::internal(InternalError { description: "descriptor table gone".to_string() });
    assert_eq!(e.kind, LogErrorKind::General);
    assert_eq!(e.description, "descriptor table gone");
}

#[test]
fn a_default_run_request_is_unconstrained_and_empty() {
    let r = RunRequest::default();
    assert_eq!(r.command, "");
    assert!(r.arguments.is_empty());
    assert_eq!(r.memory, None);
    assert_eq!(r.cpu, None);
    assert_eq!(r.disk, None);
}
