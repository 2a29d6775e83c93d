use gprocess::api::request::Command;
use gprocess::api::response;
use gprocess::api::{
    CloseRequest, PsRequest, ReadRequest, SignalRequest, StartRequest, StartResponse, Stream,
    WaitRequest, WaitResponse, WriteRequest,
};
use gprocess::handler::start_request::SpawnOutcome;
use gprocess::handler::wait_request::WaitOutcome;
use gprocess::handler::{
    close_request, handle_request_command, read_request, respond, signal_request, start_request,
    wait_request, write_request, Effect, Failure, HandlerError, Operation, Step,
};
use gprocess::process_manager::{create, ProcessError, ProcessManager};
use gprocess::signal::Signal;

type Table = ProcessManager<u32, String, String>;

fn start_request(stdin: Option<i32>, stdout: Option<i32>, stderr: Option<i32>) -> StartRequest {
    StartRequest {
        program: "/bin/cat".to_string(),
        args: vec![],
        env: vec![],
        env_clear: None,
        work_dir: None,
        uid: None,
        gid: None,
        stdin,
        stdout,
        stderr,
    }
}

fn table() -> Table {
    let mut pm: Table = create();
    let resp = start_request::finish(
        &mut pm,
        SpawnOutcome::Spawned {
            os_pid: Some(100),
            child: 1,
            stdin: Some("in".to_string()),
            stdout: Some("out".to_string()),
            stderr: None,
        },
    )
    .unwrap();
    assert_eq!(resp, StartResponse { pid: 100, stdin: Some(0), stdout: Some(1), stderr: None });
    pm
}

fn failure_of<T>(r: Result<T, HandlerError>) -> (Operation, Option<u64>, Failure) {
    match r {
        Ok(_) => panic!("expected a failure"),
        Err(e) => (e.operation, e.pid, e.failure),
    }
}

#[test]
fn start_plan_resolves_streams() {
    let pm: Table = create();
    match handle_request_command(Command::Start(start_request(Some(2), Some(1), None)), &pm) {
        Ok(Step::Perform(Effect::Spawn(plan))) => {
            assert_eq!(plan.stdin, Stream::Pipe);
            assert_eq!(plan.stdout, Stream::Null);
            assert_eq!(plan.stderr, Stream::Inherit);
            assert_eq!(plan.request.program, "/bin/cat");
        }
        _ => panic!("expected a spawn"),
    }
}

#[test]
fn start_failures() {
    let mut pm: Table = create();
    let (op, pid, f) = failure_of(start_request::finish(&mut pm, SpawnOutcome::Failed("no such file".to_string())));
    assert_eq!(op, Operation::Start);
    assert_eq!(pid, None);
    assert!(matches!(f, Failure::Os(m) if m == "no such file"));
    let (_, _, f) = failure_of(start_request::finish(
        &mut pm,
        SpawnOutcome::Spawned { os_pid: None, child: 1, stdin: None, stdout: None, stderr: None },
    ));
    assert!(matches!(f, Failure::Process(ProcessError::PidUnavailable)));
    assert!(pm.ps().is_empty());
}

#[test]
fn start_then_read_and_write() {
    let pm = table();
    match handle_request_command(Command::Read(ReadRequest { pid: 100, stream: 1, len: 16 }), &pm) {
        Ok(Step::Perform(Effect::Read { pid, reader, len })) => {
            assert_eq!(pid, 100);
            assert_eq!(reader, "out");
            assert_eq!(len, 16);
        }
        _ => panic!("expected a read"),
    }
    match handle_request_command(
        Command::Write(WriteRequest { pid: 100, stream: 0, data: vec![1, 2] }),
        &pm,
    ) {
        Ok(Step::Perform(Effect::Write { pid, writer, data })) => {
            assert_eq!(pid, 100);
            assert_eq!(writer, "in");
            assert_eq!(data, vec![1, 2]);
        }
        _ => panic!("expected a write"),
    }
}

#[test]
fn read_refusals() {
    let pm = table();
    let (op, pid, f) = failure_of(read_request::handle(&ReadRequest { pid: 100, stream: 1, len: 0 }, &pm));
    assert_eq!((op, pid), (Operation::Read, Some(100)));
    assert!(matches!(f, Failure::InvalidLength));
    let (_, _, f) = failure_of(read_request::handle(
        &ReadRequest { pid: 100, stream: 1, len: 1024 * 1024 + 1 },
        &pm,
    ));
    assert!(matches!(f, Failure::LengthTooLarge));
    let (_, _, f) = failure_of(read_request::handle(&ReadRequest { pid: 100, stream: 2, len: 4 }, &pm));
    assert!(matches!(f, Failure::Process(ProcessError::NotPiped(2))));
    let (_, _, f) = failure_of(read_request::handle(&ReadRequest { pid: 100, stream: 7, len: 4 }, &pm));
    assert!(matches!(f, Failure::Process(ProcessError::InvalidFd(7))));
    let (_, _, f) = failure_of(read_request::handle(&ReadRequest { pid: 9, stream: 1, len: 4 }, &pm));
    assert!(matches!(f, Failure::Process(ProcessError::NotFound(9))));
    assert!(read_request::handle(&ReadRequest { pid: 100, stream: 1, len: 1024 * 1024 }, &pm).is_ok());
}

#[test]
fn read_finish_truncates() {
    let r = read_request::finish(100, vec![1, 2, 3, 4], Ok(2)).unwrap();
    assert_eq!(r.data, vec![1, 2]);
    let r = read_request::finish(100, vec![1, 2, 3, 4], Ok(0)).unwrap();
    assert!(r.data.is_empty());
    let (op, pid, f) = failure_of(read_request::finish(100, vec![0; 4], Err("concurrent read".to_string())));
    assert_eq!((op, pid), (Operation::Read, Some(100)));
    assert!(matches!(f, Failure::Os(m) if m == "concurrent read"));
}

#[test]
fn write_refusals_and_finish() {
    let pm = table();
    let (op, _, f) = failure_of(write_request::handle(&WriteRequest { pid: 100, stream: 1, data: vec![] }, &pm));
    assert_eq!(op, Operation::Write);
    assert!(matches!(f, Failure::Process(ProcessError::InvalidFd(1))));
    assert_eq!(write_request::finish(100, Ok(5)).unwrap().len, 5);
    let (_, _, f) = failure_of(write_request::finish(100, Err("broken pipe".to_string())));
    assert!(matches!(f, Failure::Os(_)));
}

#[test]
fn write_finish_overflow() {
    let (_, _, f) = failure_of(write_request::finish(100, Ok(u32::MAX as usize + 1)));
    assert!(matches!(f, Failure::LengthOverflow));
    assert_eq!(write_request::finish(100, Ok(u32::MAX as usize)).unwrap().len, u32::MAX);
}

#[test]
fn signal_checks() {
    let pm = table();
    match handle_request_command(Command::Signal(SignalRequest { pid: 100, signal: 15 }), &pm) {
        Ok(Step::Perform(Effect::Kill { pid, target, signal })) => {
            assert_eq!((pid, target, signal), (100, 100, Signal::SIGTERM));
        }
        _ => panic!("expected a kill"),
    }
    assert_eq!(signal_request::handle(&SignalRequest { pid: 100, signal: 99 }, &pm).unwrap(), (100, Signal::SIGKILL));
    let (op, pid, f) = failure_of(signal_request::handle(&SignalRequest { pid: 5, signal: 9 }, &pm));
    assert_eq!((op, pid), (Operation::Signal, Some(5)));
    assert!(matches!(f, Failure::Process(ProcessError::NotFound(5))));
    assert!(signal_request::finish(100, Ok(())).is_ok());
    assert!(matches!(failure_of(signal_request::finish(100, Err("EPERM".to_string()))).2, Failure::Os(_)));
}

#[test]
fn signal_pid_out_of_range() {
    let mut pm: Table = create();
    let big = i32::MAX as u64 + 1;
    pm.add_process(Some(big as u32), 0, None, None, None).unwrap();
    let (_, pid, f) = failure_of(signal_request::handle(&SignalRequest { pid: big, signal: 9 }, &pm));
    assert_eq!(pid, Some(big));
    assert!(matches!(f, Failure::PidOutOfRange));
}

#[test]
fn wait_flow() {
    let mut pm = table();
    assert_eq!(wait_request::handle(&WaitRequest { pid: 100 }, &pm).unwrap(), 100);
    let (op, _, f) = failure_of(wait_request::handle(&WaitRequest { pid: 1 }, &pm));
    assert_eq!(op, Operation::Wait);
    assert!(matches!(f, Failure::Process(ProcessError::NotFound(1))));
    assert_eq!(
        wait_request::finish(&mut pm, 100, WaitOutcome::Busy).unwrap(),
        WaitResponse { status: None, already_waits: Some(true) }
    );
    assert!(pm.process_exists(100));
    assert!(wait_request::finish(&mut pm, 100, WaitOutcome::Failed("io".to_string())).is_err());
    assert!(pm.process_exists(100));
    assert_eq!(
        wait_request::finish(&mut pm, 100, WaitOutcome::Exited(Some(0))).unwrap(),
        WaitResponse { status: Some(0), already_waits: None }
    );
    assert!(!pm.process_exists(100));
    assert!(wait_request::handle(&WaitRequest { pid: 100 }, &pm).is_err());
}

#[test]
fn wait_without_exit_code() {
    let mut pm = table();
    assert_eq!(
        wait_request::finish(&mut pm, 100, WaitOutcome::Exited(None)).unwrap(),
        WaitResponse { status: Some(-1), already_waits: None }
    );
}

#[test]
fn ps_and_close() {
    let mut pm = table();
    match handle_request_command(Command::Ps(PsRequest {}), &pm) {
        Ok(Step::Done(response::Command::Ps(p))) => assert_eq!(p.pid, vec![100]),
        _ => panic!("expected a listing"),
    }
    match handle_request_command(Command::Close(CloseRequest { pid: 100 }), &pm) {
        Ok(Step::Perform(Effect::Close { pid })) => assert_eq!(pid, 100),
        _ => panic!("expected a close"),
    }
    close_request::handle(&CloseRequest { pid: 100 }, &mut pm);
    assert!(pm.ps().is_empty());
    let (_, _, f) = failure_of(read_request::handle(&ReadRequest { pid: 100, stream: 1, len: 1 }, &pm));
    assert!(matches!(f, Failure::Process(ProcessError::NotFound(100))));
    let (_, _, f) = failure_of(signal_request::handle(&SignalRequest { pid: 100, signal: 15 }, &pm));
    assert!(matches!(f, Failure::Process(ProcessError::NotFound(100))));
    assert!(wait_request::handle(&WaitRequest { pid: 100 }, &pm).is_err());
}

#[test]
fn respond_carries_id() {
    let r = respond(7, Ok(response::Command::Close(gprocess::api::CloseResponse {})));
    assert_eq!(r.request_id, 7);
    assert!(matches!(r.command, Some(response::Command::Close(_))));
    let r = respond(8, Err(HandlerError { operation: Operation::Ps, pid: None, failure: Failure::InvalidLength }));
    assert_eq!(r.request_id, 8);
    assert!(r.command.is_none());
}

#[test]
fn dispatch_answers_as_the_handler() {
    let pm = table();
    for (pid, signal) in [(100u64, 2), (100, 99), (5, 9)] {
        let req = SignalRequest { pid, signal };
        let direct = signal_request::handle(&req, &pm);
        match (handle_request_command(Command::Signal(req), &pm), direct) {
            (Ok(Step::Perform(Effect::Kill { pid: p, target, signal: s })), Ok((t, s2))) => {
                assert_eq!((p, target, s), (pid, t, s2));
            }
            (Err(a), Err(b)) => {
                assert_eq!((a.operation, a.pid), (b.operation, b.pid));
                assert_eq!(format!("{:?}", a.failure), format!("{:?}", b.failure));
            }
            _ => panic!("dispatch and handler disagree"),
        }
    }
    for (pid, stream, len) in [(100u64, 1, 8u32), (100, 2, 8), (100, 1, 0), (3, 1, 8)] {
        let req = ReadRequest { pid, stream, len };
        let direct = read_request::handle(&req, &pm);
        match (handle_request_command(Command::Read(req), &pm), direct) {
            (Ok(Step::Perform(Effect::Read { reader, len: n, .. })), Ok((r2, n2))) => {
                assert_eq!((reader, n), (r2, n2));
            }
            (Err(a), Err(b)) => {
                assert_eq!((a.operation, a.pid), (b.operation, b.pid));
                assert_eq!(format!("{:?}", a.failure), format!("{:?}", b.failure));
            }
            _ => panic!("dispatch and handler disagree"),
        }
    }
    for pid in [100u64, 1] {
        let req = WaitRequest { pid };
        let direct = wait_request::handle(&req, &pm);
        match (handle_request_command(Command::Wait(req), &pm), direct) {
            (Ok(Step::Perform(Effect::Wait { pid: p })), Ok(p2)) => assert_eq!(p, p2),
            (Err(a), Err(b)) => assert_eq!((a.operation, a.pid), (b.operation, b.pid)),
            _ => panic!("dispatch and handler disagree"),
        }
    }
}
