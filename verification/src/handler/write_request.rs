//! Writing to a child's standard input.
use crate::api::{WriteRequest, WriteResponse};
use crate::handler::{failed, Failure, HandlerError, Operation};
use crate::process_manager::{writer_lookup, ChildInfo, Pid, ProcessManager};
use vstd::prelude::*;

verus! {

/// What `handle` answers for the write request `r` in a table `m`: the
/// writer found, or the refusal.
pub open spec fn handled<'a, C, R, W>(
    m: Map<Pid, ChildInfo<C, R, W>>,
    r: WriteRequest,
    res: Result<&'a W, HandlerError>,
) -> bool {
    match writer_lookup(m, r.pid, r.stream) {
        Ok(wr) => res matches Ok(w) && *w == wr,
        Err(e) => res == failed::<&'a W>(Operation::Write, Some(r.pid), Failure::Process(e)),
    }
}

/// The writer to write to: refused as `get_writer` refuses.
pub fn handle<'a, C, R, W>(request: &WriteRequest, processes: &'a ProcessManager<C, R, W>) -> (res:
    Result<&'a W, HandlerError>)
    ensures
        handled(processes@, *request, res),
{
    match processes.get_writer(request.pid, request.stream) {
        Ok(w) => Ok(w),
        Err(e) => Err(
            HandlerError {
                operation: Operation::Write,
                pid: Some(request.pid),
                failure: Failure::Process(e),
            },
        ),
    }
}

/// Answers a write request with the number of bytes that the write took;
/// a number above `u32::MAX` cannot be reported and fails the request.
pub fn finish(pid: Pid, outcome: Result<usize, String>) -> (res: Result<WriteResponse, HandlerError>)
    ensures
        match outcome {
            Ok(n) => if n <= u32::MAX {
                res == Ok::<WriteResponse, HandlerError>(WriteResponse { len: n as u32 })
            } else {
                res == failed::<WriteResponse>(Operation::Write, Some(pid), Failure::LengthOverflow)
            },
            Err(m) => res == failed::<WriteResponse>(Operation::Write, Some(pid), Failure::Os(m)),
        },
{
    match outcome {
        Ok(n) => {
            if n as u64 > u32::MAX as u64 {
                Err(
                    HandlerError {
                        operation: Operation::Write,
                        pid: Some(pid),
                        failure: Failure::LengthOverflow,
                    },
                )
            } else {
                Ok(WriteResponse { len: n as u32 })
            }
        },
        Err(m) => Err(
            HandlerError { operation: Operation::Write, pid: Some(pid), failure: Failure::Os(m) },
        ),
    }
}

} // verus!
