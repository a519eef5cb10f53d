//! What the host-side vsock channel decides on its own: the length check of
//! an incoming frame header and the errors of a timed receive.

use vstd::prelude::*;
use crate::protocol::{MAX_MESSAGE_SIZE, be_u32_value};
use crate::text::{push_str, push_decimal, decimal, owned};

verus! {

/// Why a timed receive failed.
#[derive(Debug, Clone, PartialEq, Eq)]
pub enum RecvTimeoutError {
    /// Nothing arrived in time.
    Timeout,
    /// The channel failed; holds the text of the underlying I/O error.
    Io(String),
}

/// The text a receive error displays.
pub open spec fn recv_error_text(e: RecvTimeoutError) -> Seq<char> {
    match e {
        RecvTimeoutError::Timeout => "vsock receive timed out"@,
        RecvTimeoutError::Io(s) => "vsock IO error: "@ + s@,
    }
}

impl RecvTimeoutError {
    /// The text this error displays.
    pub fn message(&self) -> (r: String)
        ensures
            r@ == recv_error_text(*self),
    {
        match self {
            RecvTimeoutError::Timeout => owned("vsock receive timed out"),
            RecvTimeoutError::Io(s) => {
                let mut r = owned("vsock IO error: ");
                push_str(&mut r, s.as_str());
                r
            },
        }
    }
}

/// The text of the error for an announced length that is too large.
pub open spec fn oversized_text(len: nat) -> Seq<char> {
    "Message too large: "@ + decimal(len) + " bytes (max: "@ + decimal(MAX_MESSAGE_SIZE as nat)
        + " bytes)"@
}

/// Checks the length a received frame header announces: the length when it
/// is at most [`MAX_MESSAGE_SIZE`], else the error the receiver reports.
pub fn incoming_length(header: [u8; 4]) -> (r: Result<usize, String>)
    ensures
        be_u32_value(header@) <= MAX_MESSAGE_SIZE ==> r == Ok::<usize, String>(
            be_u32_value(header@) as usize,
        ),
        be_u32_value(header@) > MAX_MESSAGE_SIZE ==> (r matches Err(e) && e@ == oversized_text(
            be_u32_value(header@),
        )),
{
    let len: u64 = (header[0] as u64) * 16777216 + (header[1] as u64) * 65536 + (header[2] as u64)
        * 256 + (header[3] as u64);
    if len > MAX_MESSAGE_SIZE as u64 {
        let mut e = owned("Message too large: ");
        push_decimal(&mut e, len);
        push_str(&mut e, " bytes (max: ");
        push_decimal(&mut e, MAX_MESSAGE_SIZE as u64);
        push_str(&mut e, " bytes)");
        assert(e@ =~= oversized_text(be_u32_value(header@)));
        return Err(e);
    }
    Ok(len as usize)
}

} // verus!
