//! The host/guest message protocol: the messages, and their framing on the
//! wire as a 4-byte big-endian length followed by that many payload bytes.

use vstd::prelude::*;
use std::collections::HashMap;
use crate::text::{push_str, push_decimal, decimal};
use crate::types::{ContainerSpec, LogStream};

verus! {

/// The vsock port the guest agent listens on.
pub const QCKER_VSOCK_PORT: u32 = 7421;

/// The vsock context id of the host.
pub const VMADDR_CID_HOST: u32 = 2;

/// The largest payload a frame may carry, in bytes.
pub const MAX_MESSAGE_SIZE: usize = 64 * 1024 * 1024;

/// A request from the host to the guest agent.
#[derive(Debug, Clone)]
pub enum HostToVm {
    Ping,
    ContainerCreate { id: String, spec: ContainerSpec },
    ContainerStart { id: String },
    ContainerKill { id: String, signal: i32 },
    ContainerDelete { id: String, force: bool },
    ContainerExec {
        id: String,
        command: Vec<String>,
        tty: bool,
        interactive: bool,
        env: HashMap<String, String>,
    },
    ContainerAttach { id: String },
    ContainerStats { id: String },
    ContainerResize { id: String, width: u16, height: u16 },
    VmShutdown,
}

/// A message from the guest agent to the host.
#[derive(Debug, Clone)]
pub enum VmToHost {
    VmReady { version: String, arch: String },
    Pong,
    ContainerCreated { id: String, pid: u32 },
    ContainerStarted { id: String },
    ContainerExited { id: String, exit_code: i32, timestamp: String },
    ContainerStatsResponse {
        id: String,
        cpu_usage_ns: u64,
        memory_usage_bytes: u64,
        memory_limit_bytes: u64,
        network_rx_bytes: u64,
        network_tx_bytes: u64,
        pids: u64,
    },
    ContainerLog { id: String, stream: LogStream, data: String, timestamp: String },
    Error { request_type: String, message: String, code: String },
    VmShutdownComplete,
}

/// The number that four bytes encode, most significant first.
pub open spec fn be_u32_value(b: Seq<u8>) -> nat {
    b[0] as nat * 16777216 + b[1] as nat * 65536 + b[2] as nat * 256 + b[3] as nat
}

/// The four bytes that encode `n < 2^32`, most significant first.
pub open spec fn be_u32_bytes(n: nat) -> Seq<u8> {
    seq![(n / 16777216) as u8, ((n / 65536) % 256) as u8, ((n / 256) % 256) as u8, (n % 256) as u8]
}

/// The frame that carries `payload`.
pub open spec fn frame(payload: Seq<u8>) -> Seq<u8> {
    be_u32_bytes(payload.len()) + payload
}

/// Where the payload of the frame at the start of `data` lies, as (offset,
/// length): present when a length header is there, the length is at most
/// [`MAX_MESSAGE_SIZE`], and the whole payload has arrived.
pub open spec fn length_prefix(data: Seq<u8>) -> Option<(usize, usize)> {
    if data.len() < 4 {
        None
    } else {
        let len = be_u32_value(data);
        if len > MAX_MESSAGE_SIZE {
            None
        } else if data.len() >= 4 + len {
            Some((4usize, len as usize))
        } else {
            None
        }
    }
}

/// The text of the error for a payload of `len` bytes that is too large.
pub open spec fn too_large_text(len: nat) -> Seq<char> {
    "Message too large: "@ + decimal(len) + " bytes"@
}

/// Reads the frame header at the start of `data`.
pub fn parse_length_prefix(data: &[u8]) -> (r: Option<(usize, usize)>)
    ensures
        r == length_prefix(data@),
{
    if data.len() < 4 {
        return None;
    }
    let len: u64 = (data[0] as u64) * 16777216 + (data[1] as u64) * 65536 + (data[2] as u64) * 256
        + (data[3] as u64);
    if len > MAX_MESSAGE_SIZE as u64 {
        return None;
    }
    let len = len as usize;
    if data.len() >= 4 + len {
        Some((4, len))
    } else {
        None
    }
}

/// Frames an encoded message: refused when it is larger than
/// [`MAX_MESSAGE_SIZE`], else its length header followed by its bytes.
pub fn frame_message(payload: &[u8]) -> (r: Result<Vec<u8>, String>)
    ensures
        payload@.len() <= MAX_MESSAGE_SIZE ==> (r matches Ok(v) && v@ == frame(payload@)),
        payload@.len() > MAX_MESSAGE_SIZE ==> (r matches Err(e) && e@ == too_large_text(
            payload@.len(),
        )),
{
    let n = payload.len();
    if n > MAX_MESSAGE_SIZE {
        let mut e = String::new();
        push_str(&mut e, "Message too large: ");
        push_decimal(&mut e, n as u64);
        push_str(&mut e, " bytes");
        assert(e@ =~= too_large_text(payload@.len()));
        return Err(e);
    }
    let n64 = n as u64;
    let mut out: Vec<u8> = Vec::new();
    out.push((n64 / 16777216) as u8);
    out.push(((n64 / 65536) % 256) as u8);
    out.push(((n64 / 256) % 256) as u8);
    out.push((n64 % 256) as u8);
    let mut i: usize = 0;
    while i < n
        invariant
            n == payload@.len(),
            i <= n,
            out@ == be_u32_bytes(n as nat) + payload@.take(i as int),
        decreases n - i,
    {
        out.push(payload[i]);
        i += 1;
        assert(out@ =~= be_u32_bytes(n as nat) + payload@.take(i as int));
    }
    assert(payload@.take(n as int) =~= payload@);
    Ok(out)
}

/// The four bytes of a length below 2^32 read back to the length.
pub proof fn lemma_be_u32_roundtrip(n: nat)
    requires
        n < 4294967296,
    ensures
        be_u32_value(be_u32_bytes(n)) == n,
{
    let a = n / 16777216;
    let b = (n / 65536) % 256;
    let c = (n / 256) % 256;
    let d = n % 256;
    assert(a < 256 && b < 256 && c < 256 && d < 256) by (nonlinear_arith)
        requires
            n < 4294967296,
            a == n / 16777216,
            b == (n / 65536) % 256,
            c == (n / 256) % 256,
            d == n % 256,
    ;
    assert(a * 16777216 + b * 65536 + c * 256 + d == n) by (nonlinear_arith)
        requires
            a == n / 16777216,
            b == (n / 65536) % 256,
            c == (n / 256) % 256,
            d == n % 256,
    ;
    let s = be_u32_bytes(n);
    assert(s[0] as nat == a && s[1] as nat == b && s[2] as nat == c && s[3] as nat == d);
}

/// Reading the header of a frame, whatever follows it, finds exactly the
/// payload that was framed: its offset is 4 and its length that of the
/// payload, and the bytes there are the payload.
pub proof fn law_frame_roundtrip(payload: Seq<u8>, rest: Seq<u8>)
    requires
        payload.len() <= MAX_MESSAGE_SIZE,
    ensures
        length_prefix(frame(payload) + rest) == Some((4usize, payload.len() as usize)),
        (frame(payload) + rest).subrange(4, 4 + payload.len() as int) == payload,
{
    lemma_be_u32_roundtrip(payload.len());
    let data = frame(payload) + rest;
    assert(data[0] == be_u32_bytes(payload.len())[0]);
    assert(data[1] == be_u32_bytes(payload.len())[1]);
    assert(data[2] == be_u32_bytes(payload.len())[2]);
    assert(data[3] == be_u32_bytes(payload.len())[3]);
    assert(data.subrange(4, 4 + payload.len() as int) =~= payload);
}

/// A frame is never longer than a header plus [`MAX_MESSAGE_SIZE`] bytes,
/// and a data buffer holding fewer bytes than the frame it begins with
/// yields no payload.
pub proof fn law_incomplete_frame(payload: Seq<u8>, cut: int)
    requires
        payload.len() <= MAX_MESSAGE_SIZE,
        0 <= cut < frame(payload).len(),
    ensures
        length_prefix(frame(payload).take(cut)) is None,
        frame(payload).len() <= 4 + MAX_MESSAGE_SIZE,
{
    lemma_be_u32_roundtrip(payload.len());
    let f = frame(payload);
    let t = f.take(cut);
    if cut >= 4 {
        assert(t[0] == f[0] && t[1] == f[1] && t[2] == f[2] && t[3] == f[3]);
        assert(be_u32_value(t) == be_u32_value(f));
        assert(be_u32_value(f) == be_u32_value(be_u32_bytes(payload.len())));
    }
}

} // verus!
