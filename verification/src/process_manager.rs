use std::collections::HashMap;
use vstd::prelude::*;

verus! {

broadcast use vstd::std_specs::hash::group_hash_axioms;

/// Process id as the daemon reports it to clients.
pub type Pid = u64;

/// File descriptor number of a child's standard input.
pub const STDIN_FD: i32 = 0;

/// File descriptor number of a child's standard output.
pub const STDOUT_FD: i32 = 1;

/// File descriptor number of a child's standard error.
pub const STDERR_FD: i32 = 2;

/// What the daemon keeps of one child: the child itself and the ends of
/// its standard streams that were piped to the daemon (`None` for a
/// stream that was inherited or sent to the null device).
pub struct ChildInfo<C, R, W> {
    pub child: C,
    pub stdin: Option<W>,
    pub stdout: Option<R>,
    pub stderr: Option<R>,
}

/// Why a lookup in the process table failed.
#[derive(Debug, Clone, Copy, PartialEq, Eq, Structural)]
pub enum ProcessError {
    /// The operating system gave no id for a freshly started child.
    PidUnavailable,
    /// No child with this pid is in the table.
    NotFound(Pid),
    /// The stream with this descriptor number was not piped.
    NotPiped(i32),
    /// The descriptor number names no stream that can be used this way.
    InvalidFd(i32),
}

/// The table of children started by the daemon, keyed by pid.
///
/// `C` is the child handle, `R` a readable stream end and `W` a writable
/// one; the table never looks inside them.
pub struct ProcessManager<C, R, W> {
    inner: HashMap<Pid, ChildInfo<C, R, W>>,
}

/// What `get_reader` answers for `pid` and `fd` in the table `m`.
pub open spec fn reader_lookup<C, R, W>(m: Map<Pid, ChildInfo<C, R, W>>, pid: Pid, fd: i32) -> Result<
    R,
    ProcessError,
> {
    if !m.contains_key(pid) {
        Err(ProcessError::NotFound(pid))
    } else if fd == STDOUT_FD {
        match m[pid].stdout {
            Some(r) => Ok(r),
            None => Err(ProcessError::NotPiped(fd)),
        }
    } else if fd == STDERR_FD {
        match m[pid].stderr {
            Some(r) => Ok(r),
            None => Err(ProcessError::NotPiped(fd)),
        }
    } else {
        Err(ProcessError::InvalidFd(fd))
    }
}

/// What `get_writer` answers for `pid` and `fd` in the table `m`.
pub open spec fn writer_lookup<C, R, W>(m: Map<Pid, ChildInfo<C, R, W>>, pid: Pid, fd: i32) -> Result<
    W,
    ProcessError,
> {
    if !m.contains_key(pid) {
        Err(ProcessError::NotFound(pid))
    } else if fd == STDIN_FD {
        match m[pid].stdin {
            Some(w) => Ok(w),
            None => Err(ProcessError::NotPiped(fd)),
        }
    } else {
        Err(ProcessError::InvalidFd(fd))
    }
}

impl<C, R, W> View for ProcessManager<C, R, W> {
    type V = Map<Pid, ChildInfo<C, R, W>>;

    closed spec fn view(&self) -> Map<Pid, ChildInfo<C, R, W>> {
        self.inner@
    }
}

/// An empty process table.
pub fn create<C, R, W>() -> (pm: ProcessManager<C, R, W>)
    ensures
        pm@ == Map::<Pid, ChildInfo<C, R, W>>::empty(),
{
    ProcessManager { inner: HashMap::new() }
}

impl<C, R, W> ProcessManager<C, R, W> {
    /// Records a freshly started child under the pid the operating system
    /// gave it. Without a pid the child is not recorded.
    pub fn add_process(
        &mut self,
        os_pid: Option<u32>,
        child: C,
        stdin: Option<W>,
        stdout: Option<R>,
        stderr: Option<R>,
    ) -> (res: Result<Pid, ProcessError>)
        ensures
            match os_pid {
                None => {
                    &&& res == Err::<Pid, ProcessError>(ProcessError::PidUnavailable)
                    &&& final(self)@ == old(self)@
                },
                Some(p) => {
                    &&& res == Ok::<Pid, ProcessError>(p as Pid)
                    &&& final(self)@ == old(self)@.insert(
                        p as Pid,
                        ChildInfo { child, stdin, stdout, stderr },
                    )
                },
            },
    {
        let pid: Pid = match os_pid {
            Some(p) => p as Pid,
            None => {
                return Err(ProcessError::PidUnavailable);
            },
        };
        let ci = ChildInfo { child, stdin, stdout, stderr };
        self.inner.insert(pid, ci);
        Ok(pid)
    }

    /// The entry of the child `pid`.
    pub fn pi(&self, pid: Pid) -> (res: Result<&ChildInfo<C, R, W>, ProcessError>)
        ensures
            match res {
                Ok(ci) => self@.contains_key(pid) && *ci == self@[pid],
                Err(e) => !self@.contains_key(pid) && e == ProcessError::NotFound(pid),
            },
    {
        match self.inner.get(&pid) {
            Some(ci) => Ok(ci),
            None => Err(ProcessError::NotFound(pid)),
        }
    }

    /// The readable end of the child's standard output (`fd` 1) or
    /// standard error (`fd` 2).
    pub fn get_reader(&self, pid: Pid, fd: i32) -> (res: Result<&R, ProcessError>)
        ensures
            match res {
                Ok(r) => reader_lookup(self@, pid, fd) == Ok::<R, ProcessError>(*r),
                Err(e) => reader_lookup(self@, pid, fd) == Err::<R, ProcessError>(e),
            },
    {
        let pi = self.pi(pid)?;
        if fd == STDOUT_FD {
            match &pi.stdout {
                Some(r) => Ok(r),
                None => Err(ProcessError::NotPiped(fd)),
            }
        } else if fd == STDERR_FD {
            match &pi.stderr {
                Some(r) => Ok(r),
                None => Err(ProcessError::NotPiped(fd)),
            }
        } else {
            Err(ProcessError::InvalidFd(fd))
        }
    }

    /// The writable end of the child's standard input (`fd` 0).
    pub fn get_writer(&self, pid: Pid, fd: i32) -> (res: Result<&W, ProcessError>)
        ensures
            match res {
                Ok(w) => writer_lookup(self@, pid, fd) == Ok::<W, ProcessError>(*w),
                Err(e) => writer_lookup(self@, pid, fd) == Err::<W, ProcessError>(e),
            },
    {
        let pi = self.pi(pid)?;
        if fd == STDIN_FD {
            match &pi.stdin {
                Some(w) => Ok(w),
                None => Err(ProcessError::NotPiped(fd)),
            }
        } else {
            Err(ProcessError::InvalidFd(fd))
        }
    }

    /// Whether a child with this pid is in the table.
    pub fn process_exists(&self, pid: Pid) -> (res: bool)
        ensures
            res == self@.contains_key(pid),
    {
        self.inner.contains_key(&pid)
    }

    /// The pids of all children in the table, each once, in no
    /// particular order.
    pub fn ps(&self) -> (res: Vec<Pid>)
        ensures
            res@.to_set() == self@.dom(),
            res@.no_duplicates(),
            res@.len() == self@.dom().len(),
    {
        let mut out: Vec<Pid> = Vec::new();
        let ghost keys = vstd::std_specs::iter::IteratorSpec::remaining(
            &vstd::std_specs::hash::spec_keys_iter(&self.inner),
        ).unref();
        for k in it: self.inner.keys()
            invariant
                it.seq().unref() == keys,
                out@ == keys.take(it.index() as int),
        {
            out.push(*k);
            proof {
                assert(keys.take(it.index() + 1 as int) =~= keys.take(it.index() as int).push(*k));
            }
        }
        proof {
            assert(keys.take(keys.len() as int) =~= keys);
        }
        out
    }

    /// Forgets the child `pid`; nothing happens if it is not in the table.
    pub fn remove(&mut self, pid: Pid)
        ensures
            final(self)@ == old(self)@.remove(pid),
    {
        self.inner.remove(&pid);
    }

    /// Ends the wait for the child `pid` with the exit code that the
    /// operating system reported (`None` when the child was ended by a
    /// signal): the child leaves the table, and the status reported to the
    /// client is the exit code, or -1 when there is none.
    pub fn wait(&mut self, pid: Pid, exit_code: Option<i32>) -> (status: i32)
        ensures
            final(self)@ == old(self)@.remove(pid),
            status == match exit_code {
                Some(c) => c,
                None => -1i32,
            },
    {
        self.inner.remove(&pid);
        match exit_code {
            Some(c) => c,
            None => -1,
        }
    }
}

} // verus!
