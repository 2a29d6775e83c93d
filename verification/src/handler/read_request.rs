//! Reading from a child's standard output or standard error.
use crate::api::{ReadRequest, ReadResponse};
use crate::handler::{failed, Failure, HandlerError, Operation};
use crate::process_manager::{reader_lookup, ChildInfo, Pid, ProcessManager};
use crate::utils::MAX_PACKET_SIZE;
use vstd::prelude::*;

verus! {

/// What a read request comes to in a table `m`: the reader and the
/// number of bytes to read, or why the request is refused. A length of 0
/// or above `MAX_PACKET_SIZE` is refused before the table is looked at.
pub open spec fn read_target<C, R, W>(m: Map<Pid, ChildInfo<C, R, W>>, r: ReadRequest) -> Result<
    (R, usize),
    Failure,
> {
    if r.len == 0 {
        Err(Failure::InvalidLength)
    } else if r.len > MAX_PACKET_SIZE {
        Err(Failure::LengthTooLarge)
    } else {
        match reader_lookup(m, r.pid, r.stream) {
            Ok(rd) => Ok((rd, r.len as usize)),
            Err(e) => Err(Failure::Process(e)),
        }
    }
}

/// What `handle` answers for the read request `r` in a table `m`: the
/// reader found and the length, or the refusal.
pub open spec fn handled<'a, C, R, W>(
    m: Map<Pid, ChildInfo<C, R, W>>,
    r: ReadRequest,
    res: Result<(&'a R, usize), HandlerError>,
) -> bool {
    match read_target(m, r) {
        Ok((rd, len)) => res matches Ok((reader, n)) && *reader == rd && n == len,
        Err(f) => res == failed::<(&'a R, usize)>(Operation::Read, Some(r.pid), f),
    }
}

/// The reader to read from and how many bytes to read at most.
pub fn handle<'a, C, R, W>(request: &ReadRequest, processes: &'a ProcessManager<C, R, W>) -> (res:
    Result<(&'a R, usize), HandlerError>)
    ensures
        handled(processes@, *request, res),
{
    let len = request.len as usize;
    if len == 0 {
        return Err(
            HandlerError {
                operation: Operation::Read,
                pid: Some(request.pid),
                failure: Failure::InvalidLength,
            },
        );
    }
    if len > MAX_PACKET_SIZE {
        return Err(
            HandlerError {
                operation: Operation::Read,
                pid: Some(request.pid),
                failure: Failure::LengthTooLarge,
            },
        );
    }
    match processes.get_reader(request.pid, request.stream) {
        Ok(reader) => Ok((reader, len)),
        Err(e) => Err(
            HandlerError {
                operation: Operation::Read,
                pid: Some(request.pid),
                failure: Failure::Process(e),
            },
        ),
    }
}

/// Answers a read request: of the buffer that the read filled, the first
/// `n` bytes, where `n` is what the read reported.
pub fn finish(pid: Pid, data: Vec<u8>, outcome: Result<usize, String>) -> (res: Result<
    ReadResponse,
    HandlerError,
>)
    ensures
        match outcome {
            Ok(n) => res matches Ok(r) && r.data@ == (if n <= data@.len() {
                data@.take(n as int)
            } else {
                data@
            }),
            Err(m) => res == failed::<ReadResponse>(Operation::Read, Some(pid), Failure::Os(m)),
        },
{
    match outcome {
        Ok(n) => {
            let mut data = data;
            data.truncate(n);
            Ok(ReadResponse { data })
        },
        Err(m) => Err(
            HandlerError { operation: Operation::Read, pid: Some(pid), failure: Failure::Os(m) },
        ),
    }
}

} // verus!
