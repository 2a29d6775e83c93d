//! Framing of messages on a connection: each message travels as its length,
//! a big-endian 32-bit number, followed by that many bytes.
use crate::utils::MAX_PACKET_SIZE;
use vstd::prelude::*;

verus! {

/// Why a frame header was refused.
#[derive(Debug, Clone, Copy, PartialEq, Eq, Structural)]
pub enum FrameError {
    /// The announced length is above `MAX_PACKET_SIZE`.
    TooLarge(u32),
    /// The announced length is zero.
    Empty,
}

/// The number that four bytes spell, most significant byte first.
pub open spec fn be_value(b: Seq<u8>) -> int
    recommends
        b.len() == 4,
{
    b[0] * 16777216 + b[1] * 65536 + b[2] * 256 + b[3]
}

/// The four bytes that spell `n`, most significant byte first.
pub open spec fn be_bytes(n: u32) -> Seq<u8> {
    seq![
        (n / 16777216) as u8,
        ((n / 65536) % 256) as u8,
        ((n / 256) % 256) as u8,
        (n % 256) as u8,
    ]
}

/// What a header announcing `size` bytes is taken as: the length of the
/// message that follows, or the reason it is refused.
pub open spec fn frame_size_result(size: u32) -> Result<usize, FrameError> {
    if size > MAX_PACKET_SIZE {
        Err(FrameError::TooLarge(size))
    } else if size == 0 {
        Err(FrameError::Empty)
    } else {
        Ok(size as usize)
    }
}

/// The bytes that carry `payload` on a connection. A length that does not
/// fit in 32 bits is announced modulo 2^32.
pub open spec fn frame_bytes(payload: Seq<u8>) -> Seq<u8> {
    be_bytes((payload.len() % 4294967296) as u32) + payload
}

/// The number that the four header bytes spell.
pub fn be_u32(header: [u8; 4]) -> (n: u32)
    ensures
        n == be_value(header@),
{
    let b0 = header[0] as u32;
    let b1 = header[1] as u32;
    let b2 = header[2] as u32;
    let b3 = header[3] as u32;
    b0 * 16777216 + b1 * 65536 + b2 * 256 + b3
}

/// The four bytes that spell `n`, most significant byte first.
pub fn u32_be_bytes(n: u32) -> (b: [u8; 4])
    ensures
        b@ == be_bytes(n),
{
    let b: [u8; 4] = [
        (n / 16777216) as u8,
        ((n / 65536) % 256) as u8,
        ((n / 256) % 256) as u8,
        (n % 256) as u8,
    ];
    assert(b@ =~= be_bytes(n));
    b
}

/// Checks the length that a header announces.
pub fn check_frame_size(size: u32) -> (res: Result<usize, FrameError>)
    ensures
        res == frame_size_result(size),
{
    if size as usize > MAX_PACKET_SIZE {
        Err(FrameError::TooLarge(size))
    } else if size == 0 {
        Err(FrameError::Empty)
    } else {
        Ok(size as usize)
    }
}

/// Reads a frame header: the length of the message that follows, or why
/// the frame is refused.
pub fn decode_frame_header(header: [u8; 4]) -> (res: Result<usize, FrameError>)
    ensures
        res == frame_size_result(be_value(header@) as u32),
{
    let size = be_u32(header);
    check_frame_size(size)
}

/// The bytes that carry `payload`: its length, then the payload itself.
pub fn encode_frame(payload: &[u8]) -> (out: Vec<u8>)
    ensures
        out@ == frame_bytes(payload@),
{
    let n: u32 = (payload.len() as u64 % 4294967296) as u32;
    let header = u32_be_bytes(n);
    let mut out: Vec<u8> = Vec::new();
    out.push(header[0]);
    out.push(header[1]);
    out.push(header[2]);
    out.push(header[3]);
    let mut i: usize = 0;
    while i < payload.len()
        invariant
            i <= payload@.len(),
            out@ == be_bytes(n) + payload@.take(i as int),
        decreases payload@.len() - i,
    {
        out.push(payload[i]);
        i += 1;
        assert(payload@.take(i as int) =~= payload@.take(i - 1 as int).push(payload@[i - 1]));
    }
    assert(payload@.take(i as int) =~= payload@);
    assert(out@ =~= frame_bytes(payload@));
    out
}

/// Spelling a number in four bytes and reading them back gives the number.
pub proof fn lemma_be_value_of_bytes(n: u32)
    ensures
        be_value(be_bytes(n)) == n,
{
    let b = be_bytes(n);
    assert(b[0] * 16777216 + b[1] * 65536 + b[2] * 256 + b[3] == n) by (nonlinear_arith)
        requires
            b[0] == n / 16777216,
            b[1] == (n / 65536) % 256,
            b[2] == (n / 256) % 256,
            b[3] == n % 256,
            0 <= n < 4294967296,
    ;
}

/// Reading four bytes as a number and spelling it again gives the bytes.
pub proof fn lemma_bytes_of_be_value(b: Seq<u8>)
    requires
        b.len() == 4,
    ensures
        0 <= be_value(b) < 4294967296,
        be_bytes(be_value(b) as u32) == b,
{
    let v = be_value(b);
    assert(0 <= v < 4294967296);
    let n = v as u32;
    assert(n / 16777216 == b[0] && (n / 65536) % 256 == b[1] && (n / 256) % 256 == b[2] && n
        % 256 == b[3]) by (nonlinear_arith)
        requires
            n == b[0] * 16777216 + b[1] * 65536 + b[2] * 256 + b[3],
            0 <= b[0] < 256,
            0 <= b[1] < 256,
            0 <= b[2] < 256,
            0 <= b[3] < 256,
    ;
    assert(be_bytes(n) =~= b);
}

/// A message of acceptable length, framed and read back: the header
/// announces exactly its length and the message follows unchanged.
pub proof fn lemma_frame_round_trip(payload: Seq<u8>)
    requires
        0 < payload.len() <= MAX_PACKET_SIZE,
    ensures
        frame_bytes(payload).len() == payload.len() + 4,
        frame_size_result(be_value(frame_bytes(payload).take(4)) as u32) == Ok::<
            usize,
            FrameError,
        >(payload.len() as usize),
        frame_bytes(payload).skip(4) == payload,
{
    let n = (payload.len() % 4294967296) as u32;
    assert(n == payload.len());
    lemma_be_value_of_bytes(n);
    assert(frame_bytes(payload).take(4) =~= be_bytes(n));
    assert(frame_bytes(payload).skip(4) =~= payload);
}

} // verus!
