//! Small conversions from wire values.
use crate::api::{is_stream_code, stream_code, Stream};
use crate::signal::{is_signal_number, signal_number, Signal};
use vstd::prelude::*;

verus! {

/// The largest frame, and the largest read, that the daemon accepts.
pub const MAX_PACKET_SIZE: usize = 1048576;

/// The stream kind that an optional wire number asks for; a stream that
/// is not given is inherited.
pub fn int_to_stream_type(stream: Option<i32>) -> (s: Stream)
    requires
        match stream {
            Some(v) => is_stream_code(v),
            None => true,
        },
    ensures
        match stream {
            Some(v) => stream_code(s) == v,
            None => s == Stream::Inherit,
        },
{
    match stream {
        Some(v) => match Stream::from_i32(v) {
            Some(s) => s,
            None => Stream::Inherit,
        },
        None => Stream::Inherit,
    }
}

/// Whether `s` is the signal that the number `n` is read as: the signal
/// with that number, or `SIGKILL` when no supported signal has it.
pub open spec fn converts_signal(n: i32, s: Signal) -> bool {
    &&& is_signal_number(n) ==> signal_number(s) == n
    &&& !is_signal_number(n) ==> s == Signal::SIGKILL
}

/// The signal with Linux number `signal`; a number that names none of the
/// supported signals gives `SIGKILL`.
pub fn int_to_signal(signal: i32) -> (s: Signal)
    ensures
        converts_signal(signal, s),
{
    match signal {
        1 => Signal::SIGHUP,
        2 => Signal::SIGINT,
        3 => Signal::SIGQUIT,
        4 => Signal::SIGILL,
        5 => Signal::SIGTRAP,
        6 => Signal::SIGABRT,
        7 => Signal::SIGBUS,
        8 => Signal::SIGFPE,
        9 => Signal::SIGKILL,
        10 => Signal::SIGUSR1,
        11 => Signal::SIGSEGV,
        12 => Signal::SIGUSR2,
        13 => Signal::SIGPIPE,
        14 => Signal::SIGALRM,
        15 => Signal::SIGTERM,
        17 => Signal::SIGCHLD,
        18 => Signal::SIGCONT,
        19 => Signal::SIGSTOP,
        20 => Signal::SIGTSTP,
        21 => Signal::SIGTTIN,
        22 => Signal::SIGTTOU,
        23 => Signal::SIGURG,
        24 => Signal::SIGXCPU,
        25 => Signal::SIGXFSZ,
        26 => Signal::SIGVTALRM,
        27 => Signal::SIGPROF,
        28 => Signal::SIGWINCH,
        29 => Signal::SIGIO,
        31 => Signal::SIGSYS,
        _ => Signal::SIGKILL,
    }
}

} // verus!
