//! Listing the children.
use crate::api::{PsRequest, PsResponse};
use crate::process_manager::{ChildInfo, Pid, ProcessManager};
use vstd::prelude::*;

verus! {

/// Whether `res` is an answer that `handle` may give for a table `m`:
/// the pids in `m`, each once, in any order.
pub open spec fn handled<C, R, W>(m: Map<Pid, ChildInfo<C, R, W>>, res: PsResponse) -> bool {
    &&& res.pid@.to_set() == m.dom()
    &&& res.pid@.no_duplicates()
}

/// The pids of all children in the table, each once.
pub fn handle<C, R, W>(request: &PsRequest, processes: &ProcessManager<C, R, W>) -> (res: PsResponse)
    ensures
        handled(processes@, res),
{
    let pid = processes.ps();
    PsResponse { pid }
}

} // verus!
