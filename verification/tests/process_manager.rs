use gprocess::process_manager::{create, ProcessError, ProcessManager};

type Table = ProcessManager<&'static str, String, String>;

fn table_with_one() -> Table {
    let mut pm: Table = create();
    let pid = pm
        .add_process(Some(42), "child", Some("in".to_string()), Some("out".to_string()), None)
        .unwrap();
    assert_eq!(pid, 42);
    pm
}

#[test]
fn add_without_pid_fails() {
    let mut pm: Table = create();
    assert_eq!(pm.add_process(None, "child", None, None, None), Err(ProcessError::PidUnavailable));
    assert!(pm.ps().is_empty());
}

#[test]
fn added_process_exists() {
    let pm = table_with_one();
    assert!(pm.process_exists(42));
    assert!(!pm.process_exists(43));
    assert_eq!(pm.ps(), vec![42]);
    assert_eq!(pm.pi(42).unwrap().child, "child");
    assert!(matches!(pm.pi(7), Err(ProcessError::NotFound(7))));
}

#[test]
fn readers_and_writers() {
    let pm = table_with_one();
    assert_eq!(pm.get_reader(42, 1), Ok(&"out".to_string()));
    assert_eq!(pm.get_reader(42, 2), Err(ProcessError::NotPiped(2)));
    assert_eq!(pm.get_reader(42, 0), Err(ProcessError::InvalidFd(0)));
    assert_eq!(pm.get_reader(42, 3), Err(ProcessError::InvalidFd(3)));
    assert_eq!(pm.get_reader(1, 1), Err(ProcessError::NotFound(1)));
    assert_eq!(pm.get_writer(42, 0), Ok(&"in".to_string()));
    assert_eq!(pm.get_writer(42, 1), Err(ProcessError::InvalidFd(1)));
    assert_eq!(pm.get_writer(1, 0), Err(ProcessError::NotFound(1)));
}

#[test]
fn writer_not_piped() {
    let mut pm: Table = create();
    pm.add_process(Some(5), "c", None, None, None).unwrap();
    assert_eq!(pm.get_writer(5, 0), Err(ProcessError::NotPiped(0)));
}

#[test]
fn wait_removes_and_reports_status() {
    let mut pm = table_with_one();
    assert_eq!(pm.wait(42, Some(3)), 3);
    assert!(!pm.process_exists(42));
    let mut pm = table_with_one();
    assert_eq!(pm.wait(42, None), -1);
    assert!(pm.ps().is_empty());
}

#[test]
fn remove_keeps_others() {
    let mut pm = table_with_one();
    pm.add_process(Some(7), "other", None, None, None).unwrap();
    let mut pids = pm.ps();
    pids.sort();
    assert_eq!(pids, vec![7, 42]);
    pm.remove(42);
    assert_eq!(pm.ps(), vec![7]);
    pm.remove(1000);
    assert_eq!(pm.ps(), vec![7]);
}

#[test]
fn add_replaces_same_pid() {
    let mut pm = table_with_one();
    pm.add_process(Some(42), "second", None, None, None).unwrap();
    assert_eq!(pm.ps(), vec![42]);
    assert_eq!(pm.pi(42).unwrap().child, "second");
    assert_eq!(pm.get_reader(42, 1), Err(ProcessError::NotPiped(1)));
}
