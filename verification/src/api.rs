//! The messages that clients and the daemon exchange, as plain values.
use vstd::prelude::*;

pub mod request;
pub mod response;

verus! {

/// Where a child's standard stream goes.
#[derive(Debug, Clone, Copy, PartialEq, Eq, Structural)]
pub enum Stream {
    /// The child shares the daemon's stream.
    Inherit,
    /// The stream is connected to the null device.
    Null,
    /// The stream is piped to the daemon, which relays it to clients.
    Pipe,
}

/// The number that stands for a stream kind on the wire.
pub open spec fn stream_code(s: Stream) -> i32 {
    match s {
        Stream::Inherit => 0i32,
        Stream::Null => 1i32,
        Stream::Pipe => 2i32,
    }
}

/// Whether `v` is the wire number of some stream kind.
pub open spec fn is_stream_code(v: i32) -> bool {
    0 <= v <= 2
}

impl Stream {
    /// The wire number of this stream kind.
    pub fn as_i32(&self) -> (v: i32)
        ensures
            v == stream_code(*self),
    {
        match self {
            Stream::Inherit => 0,
            Stream::Null => 1,
            Stream::Pipe => 2,
        }
    }

    /// The stream kind with wire number `v`, if there is one.
    pub fn from_i32(v: i32) -> (s: Option<Stream>)
        ensures
            match s {
                Some(k) => is_stream_code(v) && stream_code(k) == v,
                None => !is_stream_code(v),
            },
    {
        if v == 0 {
            Some(Stream::Inherit)
        } else if v == 1 {
            Some(Stream::Null)
        } else if v == 2 {
            Some(Stream::Pipe)
        } else {
            None
        }
    }
}

/// A request as it comes from a client.
pub struct Request {
    /// Chosen by the client and echoed in the response.
    pub request_id: u32,
    pub command: Option<request::Command>,
}

/// A response as it goes back to a client.
pub struct Response {
    /// The id of the request that this answers.
    pub request_id: u32,
    /// `None` when the request failed.
    pub command: Option<response::Command>,
}

/// One environment change for a child: set `name` to `value`, or remove
/// `name` when there is no value.
pub struct EnvVar {
    pub name: Vec<u8>,
    pub value: Option<Vec<u8>>,
}

pub struct StartRequest {
    pub program: String,
    pub args: Vec<Vec<u8>>,
    pub env: Vec<EnvVar>,
    pub env_clear: Option<bool>,
    pub work_dir: Option<Vec<u8>>,
    pub uid: Option<u32>,
    pub gid: Option<u32>,
    pub stdin: Option<i32>,
    pub stdout: Option<i32>,
    pub stderr: Option<i32>,
}

/// The pid of the started child and, for each standard stream that is
/// piped, the descriptor number by which clients reach it.
#[derive(Debug, Clone, Copy, PartialEq, Eq, Structural)]
pub struct StartResponse {
    pub pid: u64,
    pub stdin: Option<i32>,
    pub stdout: Option<i32>,
    pub stderr: Option<i32>,
}

#[derive(Debug, Clone, Copy, PartialEq, Eq, Structural)]
pub struct SignalRequest {
    pub pid: u64,
    pub signal: i32,
}

#[derive(Debug, Clone, Copy, PartialEq, Eq, Structural)]
pub struct SignalResponse {}

#[derive(Debug, Clone, Copy, PartialEq, Eq, Structural)]
pub struct WaitRequest {
    pub pid: u64,
}

/// Either the exit status of the child, or `already_waits` when another
/// request is already waiting for it.
#[derive(Debug, Clone, Copy, PartialEq, Eq, Structural)]
pub struct WaitResponse {
    pub status: Option<i32>,
    pub already_waits: Option<bool>,
}

#[derive(Debug, Clone, Copy, PartialEq, Eq, Structural)]
pub struct ReadRequest {
    pub pid: u64,
    pub stream: i32,
    pub len: u32,
}

pub struct ReadResponse {
    pub data: Vec<u8>,
}

pub struct WriteRequest {
    pub pid: u64,
    pub stream: i32,
    pub data: Vec<u8>,
}

#[derive(Debug, Clone, Copy, PartialEq, Eq, Structural)]
pub struct WriteResponse {
    pub len: u32,
}

#[derive(Debug, Clone, Copy, PartialEq, Eq, Structural)]
pub struct PsRequest {}

pub struct PsResponse {
    pub pid: Vec<u64>,
}

#[derive(Debug, Clone, Copy, PartialEq, Eq, Structural)]
pub struct CloseRequest {
    pub pid: u64,
}

#[derive(Debug, Clone, Copy, PartialEq, Eq, Structural)]
pub struct CloseResponse {}

pub struct ErrorResponse {
    pub message: String,
}

} // verus!
