//! Forgetting a child.
use crate::api::{CloseRequest, CloseResponse};
use crate::process_manager::ProcessManager;
use vstd::prelude::*;

verus! {

/// The child leaves the table; its streams are no longer reachable.
pub fn handle<C, R, W>(request: &CloseRequest, processes: &mut ProcessManager<C, R, W>) -> (res:
    CloseResponse)
    ensures
        final(processes)@ == old(processes)@.remove(request.pid),
{
    processes.remove(request.pid);
    CloseResponse {  }
}

} // verus!
