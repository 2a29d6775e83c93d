//! Waiting for a child to end.
use crate::api::{WaitRequest, WaitResponse};
use crate::handler::{failed, Failure, HandlerError, Operation};
use crate::process_manager::{ChildInfo, Pid, ProcessError, ProcessManager};
use vstd::prelude::*;

verus! {

/// What came of waiting for a child.
pub enum WaitOutcome {
    /// The child ended, with its exit code if it had one.
    Exited(Option<i32>),
    /// Another request is already waiting for this child.
    Busy,
    /// The wait itself failed, with the system's message.
    Failed(String),
}

/// What `handle` answers for the wait request `r` in a table `m`: the pid,
/// or the refusal of a pid that is not in the table.
pub open spec fn handled<C, R, W>(
    m: Map<Pid, ChildInfo<C, R, W>>,
    r: WaitRequest,
    res: Result<Pid, HandlerError>,
) -> bool {
    if m.contains_key(r.pid) {
        res == Ok::<Pid, HandlerError>(r.pid)
    } else {
        res == failed::<Pid>(
            Operation::Wait,
            Some(r.pid),
            Failure::Process(ProcessError::NotFound(r.pid)),
        )
    }
}

/// The child to wait for: refused when the pid is not in the table.
pub fn handle<C, R, W>(request: &WaitRequest, processes: &ProcessManager<C, R, W>) -> (res: Result<
    Pid,
    HandlerError,
>)
    ensures
        handled(processes@, *request, res),
{
    if !processes.process_exists(request.pid) {
        return Err(
            HandlerError {
                operation: Operation::Wait,
                pid: Some(request.pid),
                failure: Failure::Process(ProcessError::NotFound(request.pid)),
            },
        );
    }
    Ok(request.pid)
}

/// Answers a wait request. A child that ended leaves the table, and its
/// exit code, or -1 without one, is reported; a child that another request
/// already waits for is reported as such; a failed wait leaves the table
/// as it was.
pub fn finish<C, R, W>(processes: &mut ProcessManager<C, R, W>, pid: Pid, outcome: WaitOutcome) -> (res:
    Result<WaitResponse, HandlerError>)
    ensures
        match outcome {
            WaitOutcome::Exited(code) => {
                &&& res == Ok::<WaitResponse, HandlerError>(
                    WaitResponse {
                        status: Some(
                            match code {
                                Some(c) => c,
                                None => -1i32,
                            },
                        ),
                        already_waits: None,
                    },
                )
                &&& final(processes)@ == old(processes)@.remove(pid)
            },
            WaitOutcome::Busy => {
                &&& res == Ok::<WaitResponse, HandlerError>(
                    WaitResponse { status: None, already_waits: Some(true) },
                )
                &&& final(processes)@ == old(processes)@
            },
            WaitOutcome::Failed(m) => {
                &&& res == failed::<WaitResponse>(Operation::Wait, Some(pid), Failure::Os(m))
                &&& final(processes)@ == old(processes)@
            },
        },
{
    match outcome {
        WaitOutcome::Exited(code) => {
            let status = processes.wait(pid, code);
            Ok(WaitResponse { status: Some(status), already_waits: None })
        },
        WaitOutcome::Busy => Ok(WaitResponse { status: None, already_waits: Some(true) }),
        WaitOutcome::Failed(m) => Err(
            HandlerError { operation: Operation::Wait, pid: Some(pid), failure: Failure::Os(m) },
        ),
    }
}

} // verus!
