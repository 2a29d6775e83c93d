//! Sending a signal to a child.
use crate::api::{SignalRequest, SignalResponse};
use crate::handler::{failed, Failure, HandlerError, Operation};
use crate::process_manager::{Pid, ProcessError, ProcessManager};
use crate::signal::Signal;
use crate::utils::{converts_signal, int_to_signal};
use vstd::prelude::*;

verus! {

/// Why a signal request is refused in a table `m`, if it is.
pub open spec fn signal_refusal<C, R, W>(m: Map<Pid, crate::process_manager::ChildInfo<C, R, W>>, r: SignalRequest) -> Option<Failure> {
    if !m.contains_key(r.pid) {
        Some(Failure::Process(ProcessError::NotFound(r.pid)))
    } else if r.pid > i32::MAX {
        Some(Failure::PidOutOfRange)
    } else {
        None
    }
}

/// What `handle` answers for the signal request `r` in a table `m`: the
/// refusal, or the pid as an `i32` and the signal the number is read as.
pub open spec fn handled<C, R, W>(
    m: Map<Pid, crate::process_manager::ChildInfo<C, R, W>>,
    r: SignalRequest,
    res: Result<(i32, Signal), HandlerError>,
) -> bool {
    match signal_refusal(m, r) {
        Some(f) => res == failed::<(i32, Signal)>(Operation::Signal, Some(r.pid), f),
        None => res matches Ok((pid, signal)) && pid == r.pid && converts_signal(r.signal, signal),
    }
}

/// The process id and the signal to send for a signal request: refused
/// when the pid is not in the table or does not fit in an `i32`.
pub fn handle<C, R, W>(request: &SignalRequest, processes: &ProcessManager<C, R, W>) -> (res: Result<
    (i32, Signal),
    HandlerError,
>)
    ensures
        handled(processes@, *request, res),
{
    if !processes.process_exists(request.pid) {
        return Err(
            HandlerError {
                operation: Operation::Signal,
                pid: Some(request.pid),
                failure: Failure::Process(ProcessError::NotFound(request.pid)),
            },
        );
    }
    if request.pid > i32::MAX as u64 {
        return Err(
            HandlerError {
                operation: Operation::Signal,
                pid: Some(request.pid),
                failure: Failure::PidOutOfRange,
            },
        );
    }
    Ok((request.pid as i32, int_to_signal(request.signal)))
}

/// Answers a signal request once the signal was sent, or refused by the
/// system.
pub fn finish(pid: Pid, outcome: Result<(), String>) -> (res: Result<SignalResponse, HandlerError>)
    ensures
        match outcome {
            Ok(_) => res == Ok::<SignalResponse, HandlerError>(SignalResponse {  }),
            Err(m) => res == failed::<SignalResponse>(Operation::Signal, Some(pid), Failure::Os(m)),
        },
{
    match outcome {
        Ok(_) => Ok(SignalResponse {  }),
        Err(m) => Err(
            HandlerError { operation: Operation::Signal, pid: Some(pid), failure: Failure::Os(m) },
        ),
    }
}

} // verus!
