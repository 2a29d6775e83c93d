//! Handling of one request.
//!
//! A request is handled in two steps. `handle_request_command` checks it
//! against the process table and either answers it at once or names the
//! one operation that the answer needs (starting a child, sending a
//! signal, waiting for a child, reading or writing a stream, forgetting a
//! child). The caller performs that operation and hands its outcome to the
//! `finish` function of the request's module, which gives the answer.
use crate::api::request::Command;
use crate::api::response;
use crate::api::{PsResponse, Response, WriteRequest};
use crate::process_manager::{writer_lookup, ChildInfo, Pid, ProcessError, ProcessManager};
use crate::signal::Signal;
use crate::utils::converts_signal;
use vstd::prelude::*;

pub mod close_request;
pub mod ps_request;
pub mod read_request;
pub mod signal_request;
pub mod start_request;
pub mod wait_request;
pub mod write_request;

use start_request::{stream_kind, valid_stdio, StartPlan};

verus! {

/// The kind of request that failed.
#[derive(Debug, Clone, Copy, PartialEq, Eq, Structural)]
pub enum Operation {
    Start,
    Signal,
    Wait,
    Read,
    Write,
    Ps,
    Close,
}

/// Why a request failed.
#[derive(Debug)]
pub enum Failure {
    /// The process table refused the lookup.
    Process(ProcessError),
    /// The pid does not fit in the operating system's pid type.
    PidOutOfRange,
    /// A read of zero bytes was asked for.
    InvalidLength,
    /// A read of more than `MAX_PACKET_SIZE` bytes was asked for.
    LengthTooLarge,
    /// More bytes were written than a response can report.
    LengthOverflow,
    /// The operating system refused the operation, with its message.
    Os(String),
}

/// A failed request: what was asked, for which child, and why it failed.
#[derive(Debug)]
pub struct HandlerError {
    pub operation: Operation,
    pub pid: Option<Pid>,
    pub failure: Failure,
}

/// The error of a failed request.
pub open spec fn failed<T>(operation: Operation, pid: Option<Pid>, failure: Failure) -> Result<
    T,
    HandlerError,
> {
    Err(HandlerError { operation, pid, failure })
}

/// The operation that a request needs before it can be answered.
pub enum Effect<'a, R, W> {
    /// Start a child as the plan says.
    Spawn(StartPlan),
    /// Send `signal` to the child `pid`, whose system pid is `target`.
    Kill { pid: Pid, target: i32, signal: Signal },
    /// Wait for the child `pid` to end.
    Wait { pid: Pid },
    /// Read at most `len` bytes from `reader`, a stream of the child `pid`.
    Read { pid: Pid, reader: &'a R, len: usize },
    /// Write `data` to `writer`, the standard input of the child `pid`.
    Write { pid: Pid, writer: &'a W, data: Vec<u8> },
    /// Forget the child `pid`.
    Close { pid: Pid },
}

/// What handling a request leads to.
pub enum Step<'a, R, W> {
    /// The answer, with nothing left to do.
    Done(response::Command),
    /// An operation to perform before the answer can be given.
    Perform(Effect<'a, R, W>),
}

/// Whether a request may be handed to `handle_request_command`: a start
/// request must name valid stream kinds.
pub open spec fn request_acceptable(request: Command) -> bool {
    request matches Command::Start(r) ==> valid_stdio(r)
}

/// The answer that a request's own handler gives, one variant per kind
/// of request. A close request's handler changes the table, so handling a
/// close request runs no handler yet: it names the close as the step.
pub enum HandlerAnswer<'a, R, W> {
    Start(StartPlan),
    Signal(Result<(i32, Signal), HandlerError>),
    Wait(Result<Pid, HandlerError>),
    Read(Result<(&'a R, usize), HandlerError>),
    Write(Result<&'a W, HandlerError>),
    Ps(PsResponse),
    Close,
}

/// Whether `answer` is what the handler of `request`'s own kind answers
/// for it in a table `m`, as that handler's `ensures` states.
pub open spec fn handler_answered<'a, C, R, W>(
    request: Command,
    m: Map<Pid, ChildInfo<C, R, W>>,
    answer: HandlerAnswer<'a, R, W>,
) -> bool {
    match (request, answer) {
        (Command::Start(r), HandlerAnswer::Start(h)) => start_request::handled(r, h),
        (Command::Signal(r), HandlerAnswer::Signal(h)) => signal_request::handled(m, r, h),
        (Command::Wait(r), HandlerAnswer::Wait(h)) => wait_request::handled(m, r, h),
        (Command::Read(r), HandlerAnswer::Read(h)) => read_request::handled(m, r, h),
        (Command::Write(r), HandlerAnswer::Write(h)) => write_request::handled(m, r, h),
        (Command::Ps(_), HandlerAnswer::Ps(h)) => ps_request::handled(m, h),
        (Command::Close(_), HandlerAnswer::Close) => true,
        _ => false,
    }
}

/// Whether `res` is the handler's `answer` put in the step of the same
/// kind: a refusal passes through as it is; an accepted request becomes
/// the operation of its kind, or, for a listing, the response of its
/// kind (with the same pids, in an order that may differ).
pub open spec fn step_from_answer<'a, R, W>(
    request: Command,
    answer: HandlerAnswer<'a, R, W>,
    res: Result<Step<'a, R, W>, HandlerError>,
) -> bool {
    match (request, answer) {
        (Command::Start(_), HandlerAnswer::Start(plan)) => res == Ok::<
            Step<'a, R, W>,
            HandlerError,
        >(Step::Perform(Effect::Spawn(plan))),
        (Command::Signal(r), HandlerAnswer::Signal(h)) => match h {
            Ok((target, signal)) => res == Ok::<Step<'a, R, W>, HandlerError>(
                Step::Perform(Effect::Kill { pid: r.pid, target, signal }),
            ),
            Err(e) => res == Err::<Step<'a, R, W>, HandlerError>(e),
        },
        (Command::Wait(_), HandlerAnswer::Wait(h)) => match h {
            Ok(pid) => res == Ok::<Step<'a, R, W>, HandlerError>(
                Step::Perform(Effect::Wait { pid }),
            ),
            Err(e) => res == Err::<Step<'a, R, W>, HandlerError>(e),
        },
        (Command::Read(r), HandlerAnswer::Read(h)) => match h {
            Ok((reader, len)) => res == Ok::<Step<'a, R, W>, HandlerError>(
                Step::Perform(Effect::Read { pid: r.pid, reader, len }),
            ),
            Err(e) => res == Err::<Step<'a, R, W>, HandlerError>(e),
        },
        (Command::Write(r), HandlerAnswer::Write(h)) => match h {
            Ok(writer) => res == Ok::<Step<'a, R, W>, HandlerError>(
                Step::Perform(Effect::Write { pid: r.pid, writer, data: r.data }),
            ),
            Err(e) => res == Err::<Step<'a, R, W>, HandlerError>(e),
        },
        (Command::Ps(_), HandlerAnswer::Ps(h)) => res matches Ok(
            Step::Done(response::Command::Ps(p)),
        ) && p.pid@.to_set() == h.pid@.to_set() && p.pid@.len() == h.pid@.len(),
        (Command::Close(r), HandlerAnswer::Close) => res == Ok::<Step<'a, R, W>, HandlerError>(
            Step::Perform(Effect::Close { pid: r.pid }),
        ),
        _ => false,
    }
}

/// What `handle_request_command` answers for `request` in a table `m`.
pub open spec fn dispatched<'a, C, R, W>(
    request: Command,
    m: Map<Pid, ChildInfo<C, R, W>>,
    res: Result<Step<'a, R, W>, HandlerError>,
) -> bool {
    match request {
        Command::Start(r) => res matches Ok(Step::Perform(Effect::Spawn(plan))) && plan.request
            == r && plan.stdin == stream_kind(r.stdin) && plan.stdout == stream_kind(r.stdout)
            && plan.stderr == stream_kind(r.stderr),
        Command::Signal(r) => match signal_request::signal_refusal(m, r) {
            Some(f) => res == failed::<Step<'a, R, W>>(Operation::Signal, Some(r.pid), f),
            None => res matches Ok(Step::Perform(Effect::Kill { pid, target, signal }))
                && pid == r.pid && target == r.pid && converts_signal(r.signal, signal),
        },
        Command::Wait(r) => if m.contains_key(r.pid) {
            res matches Ok(Step::Perform(Effect::Wait { pid })) && pid == r.pid
        } else {
            res == failed::<Step<'a, R, W>>(
                Operation::Wait,
                Some(r.pid),
                Failure::Process(ProcessError::NotFound(r.pid)),
            )
        },
        Command::Read(r) => match read_request::read_target(m, r) {
            Ok((rd, n)) => res matches Ok(Step::Perform(Effect::Read { pid, reader, len }))
                && pid == r.pid && *reader == rd && len == n,
            Err(f) => res == failed::<Step<'a, R, W>>(Operation::Read, Some(r.pid), f),
        },
        Command::Write(r) => match writer_lookup(m, r.pid, r.stream) {
            Ok(wr) => res matches Ok(Step::Perform(Effect::Write { pid, writer, data }))
                && pid == r.pid && *writer == wr && data == r.data,
            Err(e) => res == failed::<Step<'a, R, W>>(
                Operation::Write,
                Some(r.pid),
                Failure::Process(e),
            ),
        },
        Command::Ps(_) => res matches Ok(Step::Done(response::Command::Ps(p)))
            && p.pid@.to_set() == m.dom() && p.pid@.no_duplicates(),
        Command::Close(r) => res matches Ok(Step::Perform(Effect::Close { pid })) && pid
            == r.pid,
    }
}

/// Checks a request against the process table `processes` and says what
/// answers it or what must be done first; see the `handle` function of
/// each request's module for what each request comes to.
pub fn handle_request_command<'a, C, R, W>(
    request: Command,
    processes: &'a ProcessManager<C, R, W>,
) -> (res: Result<Step<'a, R, W>, HandlerError>)
    requires
        request_acceptable(request),
    ensures
        dispatched(request, processes@, res),
{
    match request {
        Command::Start(r) => Ok(Step::Perform(Effect::Spawn(start_request::handle(r)))),
        Command::Signal(r) => {
            let (target, signal) = signal_request::handle(&r, processes)?;
            Ok(Step::Perform(Effect::Kill { pid: r.pid, target, signal }))
        },
        Command::Wait(r) => {
            let pid = wait_request::handle(&r, processes)?;
            Ok(Step::Perform(Effect::Wait { pid }))
        },
        Command::Read(r) => {
            let (reader, len) = read_request::handle(&r, processes)?;
            Ok(Step::Perform(Effect::Read { pid: r.pid, reader, len }))
        },
        Command::Write(r) => {
            let writer = write_request::handle(&r, processes)?;
            let WriteRequest { pid, stream: _, data } = r;
            Ok(Step::Perform(Effect::Write { pid, writer, data }))
        },
        Command::Ps(r) => Ok(Step::Done(response::Command::Ps(ps_request::handle(&r, processes)))),
        Command::Close(r) => Ok(Step::Perform(Effect::Close { pid: r.pid })),
    }
}

/// The response to the request `request_id`: the answer, or no command
/// when the request failed.
pub fn respond(request_id: u32, result: Result<response::Command, HandlerError>) -> (r: Response)
    ensures
        r.request_id == request_id,
        match result {
            Ok(c) => r.command == Some(c),
            Err(_) => r.command is None,
        },
{
    match result {
        Ok(c) => Response { request_id, command: Some(c) },
        Err(_) => Response { request_id, command: None },
    }
}

} // verus!
