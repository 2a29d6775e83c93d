use crate::api::{
    CloseRequest, PsRequest, ReadRequest, SignalRequest, StartRequest, WaitRequest, WriteRequest,
};
use vstd::prelude::*;

verus! {

/// What a request asks the daemon to do.
pub enum Command {
    Start(StartRequest),
    Signal(SignalRequest),
    Wait(WaitRequest),
    Read(ReadRequest),
    Write(WriteRequest),
    Ps(PsRequest),
    Close(CloseRequest),
}

} // verus!
