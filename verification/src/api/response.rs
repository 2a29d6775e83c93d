use crate::api::{
    CloseResponse, ErrorResponse, PsResponse, ReadResponse, SignalResponse, StartResponse,
    WaitResponse, WriteResponse,
};
use vstd::prelude::*;

verus! {

/// What a response answers.
pub enum Command {
    Start(StartResponse),
    Signal(SignalResponse),
    Wait(WaitResponse),
    Read(ReadResponse),
    Write(WriteResponse),
    Ps(PsResponse),
    Close(CloseResponse),
    Error(ErrorResponse),
}

} // verus!
