//! Starting a child.
use crate::api::{is_stream_code, StartRequest, StartResponse, Stream};
use crate::handler::{failed, Failure, HandlerError, Operation};
use crate::process_manager::{
    ChildInfo, Pid, ProcessError, ProcessManager, STDERR_FD, STDIN_FD, STDOUT_FD,
};
use crate::utils::int_to_stream_type;
use vstd::prelude::*;

verus! {

/// How to start a child: the request, with the kind of each standard
/// stream resolved.
pub struct StartPlan {
    pub request: StartRequest,
    pub stdin: Stream,
    pub stdout: Stream,
    pub stderr: Stream,
}

/// What the operating system reported for a spawn.
pub enum SpawnOutcome<C, R, W> {
    /// The child started; `os_pid` is its id, if the system gave one, and
    /// the stream ends are those that were piped.
    Spawned { os_pid: Option<u32>, child: C, stdin: Option<W>, stdout: Option<R>, stderr: Option<R> },
    /// The child could not be started, with the system's message.
    Failed(String),
}

/// Whether every stream number that a start request gives names a stream
/// kind.
pub open spec fn valid_stdio(r: StartRequest) -> bool {
    &&& (r.stdin matches Some(v) ==> is_stream_code(v))
    &&& (r.stdout matches Some(v) ==> is_stream_code(v))
    &&& (r.stderr matches Some(v) ==> is_stream_code(v))
}

/// The stream kind that an optional, valid stream number asks for; an
/// absent one asks for the daemon's own stream.
pub open spec fn stream_kind(v: Option<i32>) -> Stream {
    match v {
        Some(c) => if c == 0i32 {
            Stream::Inherit
        } else if c == 1i32 {
            Stream::Null
        } else {
            Stream::Pipe
        },
        None => Stream::Inherit,
    }
}

/// The descriptor number that a start response reports for a stream: its
/// number when the stream is piped, nothing otherwise.
pub open spec fn piped_fd<T>(end: Option<T>, fd: i32) -> Option<i32> {
    match end {
        Some(_) => Some(fd),
        None => None,
    }
}

/// Whether `plan` is what `handle` answers for the start request `r`: the
/// request itself with the stream kinds that it names.
pub open spec fn handled(r: StartRequest, plan: StartPlan) -> bool {
    &&& plan.request == r
    &&& plan.stdin == stream_kind(r.stdin)
    &&& plan.stdout == stream_kind(r.stdout)
    &&& plan.stderr == stream_kind(r.stderr)
}

/// The plan for a start request: the request with its stream kinds.
pub fn handle(request: StartRequest) -> (plan: StartPlan)
    requires
        valid_stdio(request),
    ensures
        handled(request, plan),
{
    let stdin = int_to_stream_type(request.stdin);
    let stdout = int_to_stream_type(request.stdout);
    let stderr = int_to_stream_type(request.stderr);
    StartPlan { request, stdin, stdout, stderr }
}

/// What `finish` does for a spawn `outcome`: `old_m` is the table before,
/// `new_m` the table after, and `res` the answer.
pub open spec fn finished<C, R, W>(
    old_m: Map<Pid, ChildInfo<C, R, W>>,
    new_m: Map<Pid, ChildInfo<C, R, W>>,
    outcome: SpawnOutcome<C, R, W>,
    res: Result<StartResponse, HandlerError>,
) -> bool {
    match outcome {
        SpawnOutcome::Failed(m) => {
            &&& res == failed::<StartResponse>(Operation::Start, None, Failure::Os(m))
            &&& new_m == old_m
        },
        SpawnOutcome::Spawned { os_pid, child, stdin, stdout, stderr } => match os_pid {
            None => {
                &&& res == failed::<StartResponse>(
                    Operation::Start,
                    None,
                    Failure::Process(ProcessError::PidUnavailable),
                )
                &&& new_m == old_m
            },
            Some(p) => {
                &&& res == Ok::<StartResponse, HandlerError>(
                    StartResponse {
                        pid: p as Pid,
                        stdin: piped_fd(stdin, STDIN_FD),
                        stdout: piped_fd(stdout, STDOUT_FD),
                        stderr: piped_fd(stderr, STDERR_FD),
                    },
                )
                &&& new_m == old_m.insert(
                    p as Pid,
                    ChildInfo { child, stdin, stdout, stderr },
                )
            },
        },
    }
}

/// Answers a start request once the spawn is done: the child enters the
/// table under the pid that the system gave it, and the response reports
/// that pid and which streams are piped.
pub fn finish<C, R, W>(processes: &mut ProcessManager<C, R, W>, outcome: SpawnOutcome<C, R, W>) -> (res:
    Result<StartResponse, HandlerError>)
    ensures
        finished(old(processes)@, final(processes)@, outcome, res),
{
    match outcome {
        SpawnOutcome::Failed(m) => Err(
            HandlerError { operation: Operation::Start, pid: None, failure: Failure::Os(m) },
        ),
        SpawnOutcome::Spawned { os_pid, child, stdin, stdout, stderr } => {
            let stdin_fd = match &stdin {
                Some(_) => Some(STDIN_FD),
                None => None,
            };
            let stdout_fd = match &stdout {
                Some(_) => Some(STDOUT_FD),
                None => None,
            };
            let stderr_fd = match &stderr {
                Some(_) => Some(STDERR_FD),
                None => None,
            };
            match processes.add_process(os_pid, child, stdin, stdout, stderr) {
                Ok(pid) => Ok(
                    StartResponse { pid, stdin: stdin_fd, stdout: stdout_fd, stderr: stderr_fd },
                ),
                Err(e) => Err(
                    HandlerError {
                        operation: Operation::Start,
                        pid: None,
                        failure: Failure::Process(e),
                    },
                ),
            }
        },
    }
}

} // verus!
