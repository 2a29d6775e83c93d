//! Properties that tie the operations of the library together.
use crate::api::{is_stream_code, stream_code, ReadRequest, SignalRequest, StartRequest, StartResponse, Stream};
use crate::handler::start_request;
use crate::handler::start_request::{valid_stdio, SpawnOutcome, StartPlan};
use crate::handler::read_request::read_target;
use crate::handler::signal_request::signal_refusal;
use crate::handler::start_request::piped_fd;
use crate::api::request::Command;
use crate::frame::{be_bytes, be_value, frame_size_result, FrameError};
use crate::handler::{dispatched, handler_answered, step_from_answer, Effect, Failure, HandlerAnswer, HandlerError, Step};
use crate::process_manager::{
    reader_lookup, writer_lookup, ChildInfo, Pid, ProcessError, STDERR_FD, STDIN_FD, STDOUT_FD,
};
use crate::signal::{is_signal_number, signal_number, Signal};
use crate::utils::{converts_signal, MAX_PACKET_SIZE};
use vstd::prelude::*;

verus! {

/// A child that enters the table is found there under its pid, and the
/// other children are found as before.
pub proof fn lemma_added_child_is_found<C, R, W>(
    m: Map<Pid, ChildInfo<C, R, W>>,
    pid: Pid,
    info: ChildInfo<C, R, W>,
    other: Pid,
)
    ensures
        m.insert(pid, info).contains_key(pid),
        m.insert(pid, info)[pid] == info,
        m.insert(pid, info).dom() == m.dom().insert(pid),
        other != pid ==> (m.insert(pid, info).contains_key(other) == m.contains_key(other)),
        other != pid && m.contains_key(other) ==> m.insert(pid, info)[other] == m[other],
{
    assert(m.insert(pid, info).dom() =~= m.dom().insert(pid));
}

/// A child that leaves the table (by a finished wait or a close) is no
/// longer found: every lookup of its pid is refused, and the other
/// children are found as before. Signal requests for it, and reads of
/// an acceptable length, are refused as for an unknown pid.
pub proof fn lemma_removed_child_is_gone<C, R, W>(
    m: Map<Pid, ChildInfo<C, R, W>>,
    pid: Pid,
    fd: i32,
    other: Pid,
    signal: i32,
    len: u32,
)
    ensures
        !m.remove(pid).contains_key(pid),
        reader_lookup(m.remove(pid), pid, fd) == Err::<R, ProcessError>(ProcessError::NotFound(pid)),
        writer_lookup(m.remove(pid), pid, fd) == Err::<W, ProcessError>(ProcessError::NotFound(pid)),
        m.remove(pid).dom() == m.dom().remove(pid),
        other != pid ==> (m.remove(pid).contains_key(other) == m.contains_key(other)),
        other != pid && m.contains_key(other) ==> m.remove(pid)[other] == m[other],
        signal_refusal(m.remove(pid), SignalRequest { pid, signal }) == Some(
            Failure::Process(ProcessError::NotFound(pid)),
        ),
        0 < len <= MAX_PACKET_SIZE ==> read_target(
            m.remove(pid),
            ReadRequest { pid, stream: fd, len },
        ) == Err::<(R, usize), Failure>(Failure::Process(ProcessError::NotFound(pid))),
{
    assert(m.remove(pid).dom() =~= m.dom().remove(pid));
}

/// For a child that was started with piped output, a read request that
/// names the descriptor that the start response reported, with an
/// acceptable length, reaches exactly that output stream.
pub proof fn lemma_started_child_output_is_readable<C, R, W>(
    m: Map<Pid, ChildInfo<C, R, W>>,
    pid: Pid,
    info: ChildInfo<C, R, W>,
    len: u32,
)
    requires
        0 < len <= MAX_PACKET_SIZE,
    ensures
        info.stdout matches Some(out) ==> read_target(
            m.insert(pid, info),
            ReadRequest { pid, stream: piped_fd(info.stdout, STDOUT_FD).unwrap(), len },
        ) == Ok::<(R, usize), Failure>((out, len as usize)),
        info.stderr matches Some(err) ==> read_target(
            m.insert(pid, info),
            ReadRequest { pid, stream: piped_fd(info.stderr, STDERR_FD).unwrap(), len },
        ) == Ok::<(R, usize), Failure>((err, len as usize)),
        info.stdout is None ==> read_target(
            m.insert(pid, info),
            ReadRequest { pid, stream: STDOUT_FD, len },
        ) == Err::<(R, usize), Failure>(Failure::Process(ProcessError::NotPiped(STDOUT_FD))),
        info.stderr is None ==> read_target(
            m.insert(pid, info),
            ReadRequest { pid, stream: STDERR_FD, len },
        ) == Err::<(R, usize), Failure>(Failure::Process(ProcessError::NotPiped(STDERR_FD))),
{
}

/// For a child that was started with piped input, the descriptor that the
/// start response reported reaches exactly that input stream.
pub proof fn lemma_started_child_input_is_writable<C, R, W>(
    m: Map<Pid, ChildInfo<C, R, W>>,
    pid: Pid,
    info: ChildInfo<C, R, W>,
)
    ensures
        info.stdin matches Some(inp) ==> writer_lookup(
            m.insert(pid, info),
            pid,
            piped_fd(info.stdin, STDIN_FD).unwrap(),
        ) == Ok::<W, ProcessError>(inp),
        info.stdin is None ==> writer_lookup(m.insert(pid, info), pid, STDIN_FD) == Err::<
            W,
            ProcessError,
        >(ProcessError::NotPiped(STDIN_FD)),
{
}

/// The table refuses reads of a length of 0 or above `MAX_PACKET_SIZE`
/// whatever it holds.
pub proof fn lemma_bad_read_length_refused<C, R, W>(m: Map<Pid, ChildInfo<C, R, W>>, r: ReadRequest)
    requires
        r.len == 0 || r.len > MAX_PACKET_SIZE,
    ensures
        read_target(m, r) is Err,
        read_target(m, r) matches Err(f) && (f is InvalidLength || f is LengthTooLarge),
{
}

/// A signal request for a child in the table with a pid that fits in an
/// `i32` is accepted, whatever signal number it names.
pub proof fn lemma_signal_to_known_child_accepted<C, R, W>(
    m: Map<Pid, ChildInfo<C, R, W>>,
    r: SignalRequest,
)
    requires
        m.contains_key(r.pid),
        r.pid <= i32::MAX,
    ensures
        signal_refusal(m, r) is None,
{
}

/// A number is read as one signal only.
pub proof fn lemma_converts_signal_unique(n: i32, s: Signal, t: Signal)
    requires
        converts_signal(n, s),
        converts_signal(n, t),
    ensures
        s == t,
{
}

/// Dispatch: `handle_request_command` answers each request exactly as the
/// handler of the request's own kind does, with that handler's answer put
/// in the step of the same kind (a refusal passing through unchanged), and
/// no other kind's handler is consulted. A listing may give the same pids
/// in another order; a close is named as the step, its handler being the
/// one that changes the table.
pub proof fn lemma_dispatch_is_the_handler<'a, C, R, W>(
    request: Command,
    m: Map<Pid, ChildInfo<C, R, W>>,
    answer: HandlerAnswer<'a, R, W>,
    res: Result<Step<'a, R, W>, HandlerError>,
)
    requires
        handler_answered(request, m, answer),
        dispatched(request, m, res),
    ensures
        step_from_answer(request, answer, res),
{
    match (request, answer) {
        (Command::Signal(r), HandlerAnswer::Signal(h)) => {
            if let (Ok((_, s)), Ok(Step::Perform(Effect::Kill { pid: _, target: _, signal }))) = (h, res) {
                lemma_converts_signal_unique(r.signal, s, signal);
            }
        },
        (Command::Ps(_), HandlerAnswer::Ps(h)) => {
            if let Ok(Step::Done(crate::api::response::Command::Ps(p))) = res {
                h.pid@.unique_seq_to_set();
                p.pid@.unique_seq_to_set();
            }
        },
        _ => {},
    }
}

/// Reading a signal's own number gives back that signal.
pub proof fn lemma_signal_round_trip(s: Signal, read: Signal)
    requires
        converts_signal(signal_number(s), read),
    ensures
        read == s,
{
    assert(is_signal_number(signal_number(s)));
}

/// Reading a stream kind's own wire number gives back that kind, and the
/// wire numbers are exactly 0, 1 and 2.
pub proof fn lemma_stream_round_trip(s: Stream, read: Stream)
    requires
        stream_code(read) == stream_code(s),
    ensures
        read == s,
        is_stream_code(stream_code(s)),
{
}

/// The signals carry their Linux numbers.
pub proof fn lemma_signal_numbers_are_linux()
    ensures
        signal_number(Signal::SIGHUP) == 1i32,
        signal_number(Signal::SIGINT) == 2i32,
        signal_number(Signal::SIGQUIT) == 3i32,
        signal_number(Signal::SIGILL) == 4i32,
        signal_number(Signal::SIGTRAP) == 5i32,
        signal_number(Signal::SIGABRT) == 6i32,
        signal_number(Signal::SIGBUS) == 7i32,
        signal_number(Signal::SIGFPE) == 8i32,
        signal_number(Signal::SIGKILL) == 9i32,
        signal_number(Signal::SIGUSR1) == 10i32,
        signal_number(Signal::SIGSEGV) == 11i32,
        signal_number(Signal::SIGUSR2) == 12i32,
        signal_number(Signal::SIGPIPE) == 13i32,
        signal_number(Signal::SIGALRM) == 14i32,
        signal_number(Signal::SIGTERM) == 15i32,
        signal_number(Signal::SIGCHLD) == 17i32,
        signal_number(Signal::SIGCONT) == 18i32,
        signal_number(Signal::SIGSTOP) == 19i32,
        signal_number(Signal::SIGTSTP) == 20i32,
        signal_number(Signal::SIGTTIN) == 21i32,
        signal_number(Signal::SIGTTOU) == 22i32,
        signal_number(Signal::SIGURG) == 23i32,
        signal_number(Signal::SIGXCPU) == 24i32,
        signal_number(Signal::SIGXFSZ) == 25i32,
        signal_number(Signal::SIGVTALRM) == 26i32,
        signal_number(Signal::SIGPROF) == 27i32,
        signal_number(Signal::SIGWINCH) == 28i32,
        signal_number(Signal::SIGIO) == 29i32,
        signal_number(Signal::SIGSYS) == 31i32,
{
}

/// A signal number on the wire is read as the signal with that Linux
/// number; 16, 30 and any number outside 1 to 31 are read as `SIGKILL`.
pub proof fn lemma_int_to_signal_follows_linux_numbering(n: i32, s: Signal)
    requires
        converts_signal(n, s),
    ensures
        n == 1i32 ==> s == Signal::SIGHUP,
        n == 2i32 ==> s == Signal::SIGINT,
        n == 3i32 ==> s == Signal::SIGQUIT,
        n == 4i32 ==> s == Signal::SIGILL,
        n == 5i32 ==> s == Signal::SIGTRAP,
        n == 6i32 ==> s == Signal::SIGABRT,
        n == 7i32 ==> s == Signal::SIGBUS,
        n == 8i32 ==> s == Signal::SIGFPE,
        n == 9i32 ==> s == Signal::SIGKILL,
        n == 10i32 ==> s == Signal::SIGUSR1,
        n == 11i32 ==> s == Signal::SIGSEGV,
        n == 12i32 ==> s == Signal::SIGUSR2,
        n == 13i32 ==> s == Signal::SIGPIPE,
        n == 14i32 ==> s == Signal::SIGALRM,
        n == 15i32 ==> s == Signal::SIGTERM,
        n == 17i32 ==> s == Signal::SIGCHLD,
        n == 18i32 ==> s == Signal::SIGCONT,
        n == 19i32 ==> s == Signal::SIGSTOP,
        n == 20i32 ==> s == Signal::SIGTSTP,
        n == 21i32 ==> s == Signal::SIGTTIN,
        n == 22i32 ==> s == Signal::SIGTTOU,
        n == 23i32 ==> s == Signal::SIGURG,
        n == 24i32 ==> s == Signal::SIGXCPU,
        n == 25i32 ==> s == Signal::SIGXFSZ,
        n == 26i32 ==> s == Signal::SIGVTALRM,
        n == 27i32 ==> s == Signal::SIGPROF,
        n == 28i32 ==> s == Signal::SIGWINCH,
        n == 29i32 ==> s == Signal::SIGIO,
        n == 31i32 ==> s == Signal::SIGSYS,
        n < 1 || n > 31 || n == 16 || n == 30 ==> s == Signal::SIGKILL,
{
}

/// The stream kinds have the wire numbers 0 (inherit), 1 (null device)
/// and 2 (pipe).
pub proof fn lemma_stream_wire_numbers()
    ensures
        stream_code(Stream::Inherit) == 0i32,
        stream_code(Stream::Null) == 1i32,
        stream_code(Stream::Pipe) == 2i32,
        forall|v: i32| is_stream_code(v) <==> (v == 0 || v == 1 || v == 2),
{
}

/// The descriptor numbers of the standard streams, and the largest frame.
pub proof fn lemma_fixed_numbers()
    ensures
        STDIN_FD == 0i32,
        STDOUT_FD == 1i32,
        STDERR_FD == 2i32,
        MAX_PACKET_SIZE == 1048576usize,
{
}

/// A start plan gives each stream the kind with the wire number that the
/// request names: 0 inherits the daemon's stream, 1 sends it to the null
/// device, 2 pipes it; a stream that the request does not name is
/// inherited.
pub proof fn lemma_start_plan_follows_wire_numbers(r: StartRequest, plan: StartPlan)
    requires
        valid_stdio(r),
        start_request::handled(r, plan),
    ensures
        r.stdin matches Some(v) ==> stream_code(plan.stdin) == v,
        r.stdout matches Some(v) ==> stream_code(plan.stdout) == v,
        r.stderr matches Some(v) ==> stream_code(plan.stderr) == v,
        r.stdin == Some(0i32) ==> plan.stdin == Stream::Inherit,
        r.stdin == Some(1i32) ==> plan.stdin == Stream::Null,
        r.stdin == Some(2i32) ==> plan.stdin == Stream::Pipe,
        r.stdout == Some(0i32) ==> plan.stdout == Stream::Inherit,
        r.stdout == Some(1i32) ==> plan.stdout == Stream::Null,
        r.stdout == Some(2i32) ==> plan.stdout == Stream::Pipe,
        r.stderr == Some(0i32) ==> plan.stderr == Stream::Inherit,
        r.stderr == Some(1i32) ==> plan.stderr == Stream::Null,
        r.stderr == Some(2i32) ==> plan.stderr == Stream::Pipe,
        r.stdin is None ==> plan.stdin == Stream::Inherit,
        r.stdout is None ==> plan.stdout == Stream::Inherit,
        r.stderr is None ==> plan.stderr == Stream::Inherit,
{
}

/// A start response reports the pid that the system gave the child, and
/// names a descriptor for a stream exactly when the spawned child has a
/// handle for it: 0 for standard input, 1 for standard output, 2 for
/// standard error. A spawn that failed, or gave no pid, is answered with
/// an error and leaves the table as it was.
pub proof fn lemma_start_response_names_exactly_the_piped_streams<C, R, W>(
    old_m: Map<Pid, ChildInfo<C, R, W>>,
    new_m: Map<Pid, ChildInfo<C, R, W>>,
    outcome: SpawnOutcome<C, R, W>,
    res: Result<StartResponse, HandlerError>,
)
    requires
        start_request::finished(old_m, new_m, outcome, res),
    ensures
        match outcome {
            SpawnOutcome::Spawned { os_pid: Some(p), child: _, stdin, stdout, stderr } => {
                &&& res matches Ok(resp)
                &&& resp.pid == p
                &&& (resp.stdin is Some <==> stdin is Some)
                &&& (resp.stdout is Some <==> stdout is Some)
                &&& (resp.stderr is Some <==> stderr is Some)
                &&& (stdin is Some ==> resp.stdin == Some(0i32))
                &&& (stdout is Some ==> resp.stdout == Some(1i32))
                &&& (stderr is Some ==> resp.stderr == Some(2i32))
                &&& new_m.contains_key(p as Pid)
            },
            _ => res is Err && new_m == old_m,
        },
{
}

/// A lookup of a known child answers by descriptor number: reads are
/// possible on 1 (standard output) and 2 (standard error), writes on 0
/// (standard input); any other number is refused as invalid, and a stream
/// that was not piped is refused as such.
pub proof fn lemma_lookup_by_descriptor<C, R, W>(m: Map<Pid, ChildInfo<C, R, W>>, pid: Pid, fd: i32)
    requires
        m.contains_key(pid),
    ensures
        fd != 1 && fd != 2 ==> reader_lookup(m, pid, fd) == Err::<R, ProcessError>(
            ProcessError::InvalidFd(fd),
        ),
        fd != 0 ==> writer_lookup(m, pid, fd) == Err::<W, ProcessError>(ProcessError::InvalidFd(fd)),
        fd == 1 ==> reader_lookup(m, pid, fd) == match m[pid].stdout {
            Some(r) => Ok::<R, ProcessError>(r),
            None => Err::<R, ProcessError>(ProcessError::NotPiped(1)),
        },
        fd == 2 ==> reader_lookup(m, pid, fd) == match m[pid].stderr {
            Some(r) => Ok::<R, ProcessError>(r),
            None => Err::<R, ProcessError>(ProcessError::NotPiped(2)),
        },
        fd == 0 ==> writer_lookup(m, pid, fd) == match m[pid].stdin {
            Some(w) => Ok::<W, ProcessError>(w),
            None => Err::<W, ProcessError>(ProcessError::NotPiped(0)),
        },
{
}

/// A signal request is checked against the table first: an unknown pid is
/// refused as not found whatever its value; a known pid above 2^31 - 1 is
/// refused as out of range; any other is accepted.
pub proof fn lemma_signal_checks_in_order<C, R, W>(m: Map<Pid, ChildInfo<C, R, W>>, r: SignalRequest)
    ensures
        !m.contains_key(r.pid) ==> signal_refusal(m, r) == Some(
            Failure::Process(ProcessError::NotFound(r.pid)),
        ),
        m.contains_key(r.pid) && r.pid > 2147483647 ==> signal_refusal(m, r) == Some(
            Failure::PidOutOfRange,
        ),
        m.contains_key(r.pid) && r.pid <= 2147483647 ==> signal_refusal(m, r) is None,
{
}

/// Frame headers are big-endian: the first byte is the most significant.
/// A header is accepted for lengths 1 to 1048576, refused as empty for 0
/// and as too large above.
pub proof fn lemma_frame_header_big_endian(b: Seq<u8>, n: u32)
    requires
        b.len() == 4,
    ensures
        be_value(b) == 16777216 * b[0] + 65536 * b[1] + 256 * b[2] + b[3],
        be_bytes(n).len() == 4,
        be_bytes(n)[0] == n / 16777216,
        be_bytes(n)[1] == (n / 65536) % 256,
        be_bytes(n)[2] == (n / 256) % 256,
        be_bytes(n)[3] == n % 256,
        n == 0 ==> frame_size_result(n) == Err::<usize, FrameError>(FrameError::Empty),
        n > 1048576 ==> frame_size_result(n) == Err::<usize, FrameError>(FrameError::TooLarge(n)),
        0 < n <= 1048576 ==> frame_size_result(n) == Ok::<usize, FrameError>(n as usize),
{
}

} // verus!
