//! What every reply has in common: the camera's error frame, and the two
//! acknowledgements of a command.
//!
//! A reply opens with the byte `0x90`, by which camera 1 names itself as the
//! sender, and closes with the terminator `0xFF`. The high nibble of the second
//! byte tells what kind of reply it is, the low nibble names the camera's
//! command socket that the reply is about.

use vstd::prelude::*;
use crate::{ErrorKind, ViscaError};

verus! {

/// The byte that opens every reply.
pub const REPLY_ADDRESS: u8 = 0x90;

/// The byte that closes every reply.
pub const REPLY_TERMINATOR: u8 = 0xFF;

/// The second byte of the reply that carries the value asked for.
pub const REPLY_VALUE: u8 = 0x50;

/// Whether `bytes` has the frame of a reply that carries a value: `90 50 .. FF`.
pub open spec fn is_value_reply(bytes: Seq<u8>) -> bool {
    &&& bytes.len() >= 3
    &&& bytes[0] == REPLY_ADDRESS
    &&& bytes[1] == REPLY_VALUE
    &&& bytes.last() == REPLY_TERMINATOR
}

/// Whether `bytes` is the frame by which the camera refuses a request:
/// `90 6y ee FF`, with the socket `y` and the camera's error code `ee`.
pub open spec fn is_error_frame(bytes: Seq<u8>) -> bool {
    &&& bytes.len() == 4
    &&& bytes[0] == REPLY_ADDRESS
    &&& 0x60 <= bytes[1] <= 0x6F
    &&& bytes[3] == REPLY_TERMINATOR
}

/// The kind of failure that a reply is when it fits no template of its request.
pub open spec fn failure_kind(bytes: Seq<u8>) -> ErrorKind {
    if is_error_frame(bytes) {
        ErrorKind::Rejected
    } else {
        ErrorKind::Decode
    }
}

/// Tells the camera's error frame from every other reply.
pub fn error_frame(bytes: &[u8]) -> (r: bool)
    ensures
        r == is_error_frame(bytes@),
{
    bytes.len() == 4 && bytes[0] == REPLY_ADDRESS && 0x60 <= bytes[1] && bytes[1] <= 0x6F
        && bytes[3] == REPLY_TERMINATOR
}

/// The failure to report for a reply that fits no template of its request. The
/// reply is kept whole.
pub fn reply_failure(bytes: &[u8]) -> (e: ViscaError)
    ensures
        e@ == (failure_kind(bytes@), bytes@),
{
    if error_frame(bytes) {
        ViscaError::with_bytes(ErrorKind::Rejected, bytes)
    } else {
        ViscaError::with_bytes(ErrorKind::Decode, bytes)
    }
}

/// The camera's answer to a command that it did not refuse.
#[derive(Debug, Clone, Copy, PartialEq, Eq, Structural)]
pub enum Acknowledgement {
    /// `90 4y FF`: the command was taken up and waits in socket `y`.
    Accepted { socket: u8 },
    /// `90 5y FF`: the command in socket `y` was carried out.
    Completed { socket: u8 },
}

/// The acknowledgement that `bytes` is, if it is one.
pub open spec fn acknowledgement_of(bytes: Seq<u8>) -> Option<Acknowledgement> {
    if bytes.len() == 3 && bytes[0] == REPLY_ADDRESS && bytes[2] == REPLY_TERMINATOR {
        if 0x40 <= bytes[1] <= 0x4F {
            Some(Acknowledgement::Accepted { socket: (bytes[1] - 0x40) as u8 })
        } else if 0x50 <= bytes[1] <= 0x5F {
            Some(Acknowledgement::Completed { socket: (bytes[1] - 0x50) as u8 })
        } else {
            None
        }
    } else {
        None
    }
}

/// Decodes the reply to a command.
pub fn decode_acknowledgement(bytes: &[u8]) -> (r: Result<Acknowledgement, ViscaError>)
    ensures
        match r {
            Ok(a) => acknowledgement_of(bytes@) == Some(a),
            Err(e) => acknowledgement_of(bytes@) is None && e@ == (failure_kind(bytes@), bytes@),
        },
{
    if bytes.len() == 3 && bytes[0] == REPLY_ADDRESS && bytes[2] == REPLY_TERMINATOR {
        let second: u8 = bytes[1];
        if 0x40 <= second && second <= 0x4F {
            return Ok(Acknowledgement::Accepted { socket: second - 0x40 });
        }
        if 0x50 <= second && second <= 0x5F {
            return Ok(Acknowledgement::Completed { socket: second - 0x50 });
        }
    }
    Err(reply_failure(bytes))
}

/// An error frame is never an acknowledgement.
pub proof fn lemma_error_frame_is_no_acknowledgement(bytes: Seq<u8>)
    requires
        is_error_frame(bytes),
    ensures
        acknowledgement_of(bytes) is None,
{
}

} // verus!
