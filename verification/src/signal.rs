//! The POSIX signals that clients can send to children, numbered as on Linux.
use vstd::prelude::*;

verus! {

#[allow(non_camel_case_types)]
#[derive(Debug, Clone, Copy, PartialEq, Eq, Structural)]
pub enum Signal {
    SIGHUP,
    SIGINT,
    SIGQUIT,
    SIGILL,
    SIGTRAP,
    SIGABRT,
    SIGBUS,
    SIGFPE,
    SIGKILL,
    SIGUSR1,
    SIGSEGV,
    SIGUSR2,
    SIGPIPE,
    SIGALRM,
    SIGTERM,
    SIGCHLD,
    SIGCONT,
    SIGSTOP,
    SIGTSTP,
    SIGTTIN,
    SIGTTOU,
    SIGURG,
    SIGXCPU,
    SIGXFSZ,
    SIGVTALRM,
    SIGPROF,
    SIGWINCH,
    SIGIO,
    SIGSYS,
}

/// The Linux number of a signal.
pub open spec fn signal_number(s: Signal) -> i32 {
    match s {
        Signal::SIGHUP => 1i32,
        Signal::SIGINT => 2i32,
        Signal::SIGQUIT => 3i32,
        Signal::SIGILL => 4i32,
        Signal::SIGTRAP => 5i32,
        Signal::SIGABRT => 6i32,
        Signal::SIGBUS => 7i32,
        Signal::SIGFPE => 8i32,
        Signal::SIGKILL => 9i32,
        Signal::SIGUSR1 => 10i32,
        Signal::SIGSEGV => 11i32,
        Signal::SIGUSR2 => 12i32,
        Signal::SIGPIPE => 13i32,
        Signal::SIGALRM => 14i32,
        Signal::SIGTERM => 15i32,
        Signal::SIGCHLD => 17i32,
        Signal::SIGCONT => 18i32,
        Signal::SIGSTOP => 19i32,
        Signal::SIGTSTP => 20i32,
        Signal::SIGTTIN => 21i32,
        Signal::SIGTTOU => 22i32,
        Signal::SIGURG => 23i32,
        Signal::SIGXCPU => 24i32,
        Signal::SIGXFSZ => 25i32,
        Signal::SIGVTALRM => 26i32,
        Signal::SIGPROF => 27i32,
        Signal::SIGWINCH => 28i32,
        Signal::SIGIO => 29i32,
        Signal::SIGSYS => 31i32,
    }
}

/// The numbers that name one of the signals above: 1 to 31, but for 16
/// and 30.
pub open spec fn is_signal_number(n: i32) -> bool {
    1 <= n <= 31 && n != 16 && n != 30
}

impl Signal {
    /// The Linux number of this signal.
    pub fn number(&self) -> (n: i32)
        ensures
            n == signal_number(*self),
    {
        match self {
            Signal::SIGHUP => 1,
            Signal::SIGINT => 2,
            Signal::SIGQUIT => 3,
            Signal::SIGILL => 4,
            Signal::SIGTRAP => 5,
            Signal::SIGABRT => 6,
            Signal::SIGBUS => 7,
            Signal::SIGFPE => 8,
            Signal::SIGKILL => 9,
            Signal::SIGUSR1 => 10,
            Signal::SIGSEGV => 11,
            Signal::SIGUSR2 => 12,
            Signal::SIGPIPE => 13,
            Signal::SIGALRM => 14,
            Signal::SIGTERM => 15,
            Signal::SIGCHLD => 17,
            Signal::SIGCONT => 18,
            Signal::SIGSTOP => 19,
            Signal::SIGTSTP => 20,
            Signal::SIGTTIN => 21,
            Signal::SIGTTOU => 22,
            Signal::SIGURG => 23,
            Signal::SIGXCPU => 24,
            Signal::SIGXFSZ => 25,
            Signal::SIGVTALRM => 26,
            Signal::SIGPROF => 27,
            Signal::SIGWINCH => 28,
            Signal::SIGIO => 29,
            Signal::SIGSYS => 31,
        }
    }
}

/// Every signal has a number in the range that `is_signal_number` names.
pub proof fn lemma_signal_number_in_range(s: Signal)
    ensures
        is_signal_number(signal_number(s)),
{
}

/// Distinct signals have distinct numbers.
pub proof fn lemma_signal_number_injective(s: Signal, t: Signal)
    ensures
        signal_number(s) == signal_number(t) <==> s == t,
{
}

} // verus!
