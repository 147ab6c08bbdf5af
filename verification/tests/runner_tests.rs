use jobrunner::cgroups::{disk_throttles, BlockDevice, DeviceThrottle};
use jobrunner::ids::is_well_formed_id;
use jobrunner::process_map::{Exit, ProcessMap, ProcessStatus};
use jobrunner::runner::{
    classify_kill_errno, next_stop_action, KillErrorAction, Runner, StopAction,
};
use jobrunner::service::{
    descriptor_from_i32, Descriptor, LogErrorKind, LogRequest, RunErrorKind, RunRequest,
    StatusErrorKind, StatusRequest, StatusResult, StopErrorKind, StopRequest,
};

fn request(command: &str) -> RunRequest {
    RunRequest { command: command.to_string(), ..Default::default() }
}

#[test]
fn default_runner_logs_under_tmp_with_256_byte_reads() {
    let runner = Runner::default();
    assert_eq!(runner.log_dir, "tmp");
    assert_eq!(runner.buffer_size, Some(256));
}

#[test]
fn run_with_empty_command_returns_name_empty() {
    let runner = Runner::default();
    let r = runner.run(&request(""), &Vec::new());
    let e = r.err().unwrap();
    assert_eq!(e.kind, RunErrorKind::NameEmpty);
    assert_eq!(e.description, "Command name empty");
}

#[test]
fn run_with_blank_command_returns_name_empty() {
    let runner = Runner::default();
    let r = runner.run(&request("  \t\n "), &Vec::new());
    assert_eq!(r.err().unwrap().kind, RunErrorKind::NameEmpty);
}

#[test]
fn run_returns_a_well_formed_id_and_the_log_paths() {
    let runner = Runner::default();
    let plan = runner.run(&request("date"), &Vec::new()).unwrap();
    assert!(is_well_formed_id(&plan.id));
    // A fresh identifier always carries the version-4 marker digit.
    assert_eq!(plan.id.as_bytes()[14], b'4');
    assert_eq!(plan.stdout_path, format!("tmp/{}.stdout.txt", plan.id));
    assert_eq!(plan.stderr_path, format!("tmp/{}.stderr.txt", plan.id));
    assert_eq!(plan.cgroups.memory_limit_in_bytes, None);
    assert_eq!(plan.cgroups.cpu_shares, None);
    assert!(plan.cgroups.disk_throttles.is_none());
}

#[test]
fn two_runs_draw_distinct_identifiers() {
    let runner = Runner::default();
    let a = runner.run(&request("date"), &Vec::new()).unwrap();
    let b = runner.run(&request("date"), &Vec::new()).unwrap();
    assert_ne!(a.id, b.id);
}

#[test]
fn run_carries_the_resource_knobs_into_the_plan() {
    let runner = Runner::default();
    let req = RunRequest {
        command: "sleep".to_string(),
        arguments: vec!["60".to_string()],
        memory: Some(7340032),
        cpu: Some(100),
        disk: None,
    };
    let plan = runner.run(&req, &Vec::new()).unwrap();
    assert_eq!(plan.cgroups.memory_limit_in_bytes, Some(7340032));
    assert_eq!(plan.cgroups.cpu_shares, Some(100));
    assert!(plan.cgroups.disk_throttles.is_none());
}

#[test]
fn disk_limit_throttles_every_disk_device() {
    let runner = Runner::default();
    let devices = vec![
        BlockDevice { devnum: Some(0x800), devtype: Some("disk".to_string()) },
        BlockDevice { devnum: Some(0x801), devtype: Some("partition".to_string()) },
        BlockDevice { devnum: None, devtype: Some("disk".to_string()) },
        BlockDevice { devnum: Some(0x1600), devtype: None },
    ];
    let req = RunRequest { disk: Some(100), ..request("dd") };
    let plan = runner.run(&req, &devices).unwrap();
    let throttles = plan.cgroups.disk_throttles.unwrap();
    assert_eq!(throttles, vec![DeviceThrottle { major: 8, minor: 0, bps: 100 }]);
}

#[test]
fn device_numbers_split_into_major_and_minor() {
    let devices = vec![
        BlockDevice { devnum: Some(0x10203), devtype: Some("disk".to_string()) },
        BlockDevice { devnum: Some(0xfe07), devtype: Some("disk".to_string()) },
    ];
    let throttles = disk_throttles(&devices, 42);
    // major from bits 8..16; minor from the devnum with those bits cleared,
    // truncated to 16 bits.
    assert_eq!(throttles[0], DeviceThrottle { major: 0x02, minor: 0x0003, bps: 42 });
    assert_eq!(throttles[1], DeviceThrottle { major: 0xfe, minor: 0x0007, bps: 42 });
}

#[test]
fn status_of_malformed_id_is_invalid_id() {
    let runner = Runner::default();
    let processes = ProcessMap::new();
    let r = runner.status(&processes, &StatusRequest { id: "not-an-id".to_string() });
    let e = r.err().unwrap();
    assert_eq!(e.kind, StatusErrorKind::InvalidId);
    assert_eq!(e.description, "Invalid process id");
}

#[test]
fn status_of_unknown_id_is_process_not_found() {
    let runner = Runner::default();
    let processes = ProcessMap::new();
    let r = runner.status(
        &processes,
        &StatusRequest { id: "00000000-0000-0000-0000-000000000007".to_string() },
    );
    let e = r.err().unwrap();
    assert_eq!(e.kind, StatusErrorKind::ProcessNotFound);
    assert_eq!(e.description, "Process not found");
}

#[test]
fn status_of_running_job_reports_running() {
    let runner = Runner::default();
    let mut processes = ProcessMap::new();
    processes.insert(7, 4242);
    let r = runner.status(
        &processes,
        &StatusRequest { id: "00000000-0000-0000-0000-000000000007".to_string() },
    );
    assert_eq!(r.unwrap(), StatusResult::Running);
}

#[test]
fn status_reports_the_exit_code_after_the_reaper_ran() {
    let runner = Runner::default();
    let mut processes = ProcessMap::new();
    processes.insert(7, 4242);
    processes.mark_stopped(7, Exit::Code(3));
    let req = StatusRequest { id: "00000000-0000-0000-0000-000000000007".to_string() };
    assert_eq!(runner.status(&processes, &req).unwrap(), StatusResult::Exited(3));
    // Every later status query answers the same.
    assert_eq!(runner.status(&processes, &req).unwrap(), StatusResult::Exited(3));
}

#[test]
fn status_reports_the_terminating_signal() {
    let runner = Runner::default();
    let mut processes = ProcessMap::new();
    processes.insert(7, 4242);
    processes.mark_stopped(7, Exit::Signal(15));
    let req = StatusRequest { id: "00000000-0000-0000-0000-000000000007".to_string() };
    assert_eq!(runner.status(&processes, &req).unwrap(), StatusResult::Killed(15));
}

#[test]
fn status_surfaces_an_exit_with_neither_code_nor_signal() {
    let runner = Runner::default();
    let mut processes = ProcessMap::new();
    processes.insert(7, 4242);
    processes.mark_stopped(7, Exit::Unknown);
    let req = StatusRequest { id: "00000000-0000-0000-0000-000000000007".to_string() };
    let e = runner.status(&processes, &req).err().unwrap();
    assert_eq!(e.kind, StatusErrorKind::General);
    assert_eq!(e.description, "Couldn't get exit code or the kill signal");
}

#[test]
fn stop_of_malformed_id_is_invalid_id() {
    let runner = Runner::default();
    let processes = ProcessMap::new();
    let e = runner.stop(&processes, &StopRequest { id: "xyz".to_string() }).err().unwrap();
    assert_eq!(e.kind, StopErrorKind::InvalidId);
    assert_eq!(e.description, "Invalid process id");
}

#[test]
fn stop_of_unknown_id_is_process_not_found() {
    let runner = Runner::default();
    let processes = ProcessMap::new();
    let req = StopRequest { id: "00000000-0000-0000-0000-000000000007".to_string() };
    let e = runner.stop(&processes, &req).err().unwrap();
    assert_eq!(e.kind, StopErrorKind::ProcessNotFound);
}

#[test]
fn stopping_an_already_stopped_job_is_the_idempotent_error() {
    let runner = Runner::default();
    let mut processes = ProcessMap::new();
    processes.insert(7, 4242);
    processes.mark_stopped(7, Exit::Signal(9));
    let req = StopRequest { id: "00000000-0000-0000-0000-000000000007".to_string() };
    let e = runner.stop(&processes, &req).err().unwrap();
    assert_eq!(e.kind, StopErrorKind::ProcessAlreadyStopped);
    assert_eq!(e.description, "Process already stopped");
    // Nothing changed: the entry still shows the same exit.
    assert_eq!(processes.get(7), Some((4242, ProcessStatus::Stopped(Exit::Signal(9)))));
}

#[test]
fn stop_of_running_job_hands_out_the_pid() {
    let runner = Runner::default();
    let mut processes = ProcessMap::new();
    processes.insert(7, 4242);
    let req = StopRequest { id: "00000000-0000-0000-0000-000000000007".to_string() };
    let ticket = runner.stop(&processes, &req).unwrap();
    assert_eq!(ticket.pid, 4242);
}

#[test]
fn stop_loop_sends_term_within_the_budget() {
    assert_eq!(next_stop_action(ProcessStatus::Running, 0), StopAction::TermAndRecheck);
    assert_eq!(next_stop_action(ProcessStatus::Running, 5), StopAction::TermAndRecheck);
}

#[test]
fn stop_loop_escalates_to_kill_after_the_budget() {
    assert_eq!(next_stop_action(ProcessStatus::Running, 6), StopAction::EscalateKill);
}

#[test]
fn stop_loop_finishes_once_the_registry_shows_stopped() {
    assert_eq!(
        next_stop_action(ProcessStatus::Stopped(Exit::Signal(15)), 1),
        StopAction::Finished
    );
}

#[test]
fn kill_errors_are_classified_as_the_protocol_asks() {
    assert_eq!(classify_kill_errno(13), KillErrorAction::ReportFailure); // EACCES
    assert_eq!(classify_kill_errno(10), KillErrorAction::ReportFailure); // ECHILD
    assert_eq!(classify_kill_errno(1), KillErrorAction::ReportFailure); // EPERM
    assert_eq!(classify_kill_errno(3), KillErrorAction::TreatAsGone); // ESRCH
    assert_eq!(classify_kill_errno(22), KillErrorAction::EscalateKill);
    assert_eq!(classify_kill_errno(0), KillErrorAction::EscalateKill);
}

#[test]
fn descriptor_decoding_matches_the_wire_values() {
    assert_eq!(descriptor_from_i32(0), Some(Descriptor::Stdout));
    assert_eq!(descriptor_from_i32(1), Some(Descriptor::Stderr));
    assert_eq!(descriptor_from_i32(2), None);
    assert_eq!(descriptor_from_i32(-1), None);
}

#[test]
fn log_of_malformed_id_is_invalid_id() {
    let runner = Runner::default();
    let processes = ProcessMap::new();
    let req = LogRequest { id: "???".to_string(), descriptor: 0 };
    let e = runner.log(&processes, &req).err().unwrap();
    assert_eq!(e.kind, LogErrorKind::InvalidId);
    assert_eq!(e.description, "Invalid process id");
}

#[test]
fn log_of_unknown_id_is_process_not_found() {
    let runner = Runner::default();
    let processes = ProcessMap::new();
    let req =
        LogRequest { id: "00000000-0000-0000-0000-000000000007".to_string(), descriptor: 0 };
    let e = runner.log(&processes, &req).err().unwrap();
    assert_eq!(e.kind, LogErrorKind::ProcessNotFound);
    assert_eq!(e.description, "Process not found");
}

#[test]
fn log_selects_the_file_by_descriptor() {
    let runner = Runner::default();
    let mut processes = ProcessMap::new();
    processes.insert(7, 4242);
    let id = "00000000-0000-0000-0000-000000000007";
    let stdout_plan = runner
        .log(&processes, &LogRequest { id: id.to_string(), descriptor: 0 })
        .unwrap();
    assert_eq!(stdout_plan.path, format!("tmp/{}.stdout.txt", id));
    assert_eq!(stdout_plan.id_bits, 7);
    assert_eq!(stdout_plan.buffer_size, 256);
    let stderr_plan = runner
        .log(&processes, &LogRequest { id: id.to_string(), descriptor: 1 })
        .unwrap();
    assert_eq!(stderr_plan.path, format!("tmp/{}.stderr.txt", id));
}

#[test]
fn log_rejects_an_unmapped_descriptor() {
    let runner = Runner::default();
    let mut processes = ProcessMap::new();
    processes.insert(7, 4242);
    let req =
        LogRequest { id: "00000000-0000-0000-0000-000000000007".to_string(), descriptor: 9 };
    let e = runner.log(&processes, &req).err().unwrap();
    assert_eq!(e.kind, LogErrorKind::General);
    assert_eq!(
        e.description,
        "Given descriptor is invalid. Are you using compatible version of the client?"
    );
}

#[test]
fn log_honours_a_configured_buffer_size() {
    let runner = Runner { log_dir: "logs".to_string(), buffer_size: Some(64) };
    let mut processes = ProcessMap::new();
    processes.insert(7, 4242);
    let req =
        LogRequest { id: "00000000-0000-0000-0000-000000000007".to_string(), descriptor: 0 };
    let plan = runner.log(&processes, &req).unwrap();
    assert_eq!(plan.buffer_size, 64);
    assert_eq!(plan.path, "logs/00000000-0000-0000-0000-000000000007.stdout.txt");
}

#[test]
fn log_falls_back_to_the_default_buffer_size() {
    let runner = Runner { log_dir: "tmp".to_string(), buffer_size: None };
    let mut processes = ProcessMap::new();
    processes.insert(7, 4242);
    let req =
        LogRequest { id: "00000000-0000-0000-0000-000000000007".to_string(), descriptor: 0 };
    assert_eq!(runner.log(&processes, &req).unwrap().buffer_size, 256);
}
