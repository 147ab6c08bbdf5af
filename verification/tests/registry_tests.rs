use jobrunner::process_map::{Exit, ProcessMap, ProcessStatus};

#[test]
fn empty_registry_knows_nothing() {
    let processes = ProcessMap::new();
    assert_eq!(processes.get(7), None);
}

#[test]
fn insert_records_a_running_child() {
    let mut processes = ProcessMap::new();
    processes.insert(7, 4242);
    assert_eq!(processes.get(7), Some((4242, ProcessStatus::Running)));
    assert_eq!(processes.get(8), None);
}

#[test]
fn mark_stopped_records_the_exit() {
    let mut processes = ProcessMap::new();
    processes.insert(7, 4242);
    processes.mark_stopped(7, Exit::Code(0));
    assert_eq!(processes.get(7), Some((4242, ProcessStatus::Stopped(Exit::Code(0)))));
}

#[test]
fn stopped_status_stays_the_same_on_every_later_read() {
    let mut processes = ProcessMap::new();
    processes.insert(1, 100);
    processes.insert(2, 200);
    processes.mark_stopped(1, Exit::Signal(15));
    let first = processes.get(1);
    processes.mark_stopped(2, Exit::Code(7));
    let second = processes.get(1);
    assert_eq!(first, second);
    assert_eq!(second, Some((100, ProcessStatus::Stopped(Exit::Signal(15)))));
}

#[test]
fn pid_survives_the_stop_transition() {
    let mut processes = ProcessMap::new();
    processes.insert(9, 555);
    processes.mark_stopped(9, Exit::Unknown);
    let (pid, status) = processes.get(9).unwrap();
    assert_eq!(pid, 555);
    assert_eq!(status, ProcessStatus::Stopped(Exit::Unknown));
}

#[test]
fn entries_are_independent() {
    let mut processes = ProcessMap::new();
    processes.insert(1, 10);
    processes.insert(2, 20);
    processes.mark_stopped(2, Exit::Code(1));
    assert_eq!(processes.get(1), Some((10, ProcessStatus::Running)));
    assert_eq!(processes.get(2), Some((20, ProcessStatus::Stopped(Exit::Code(1)))));
}
