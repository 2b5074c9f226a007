//! The envelope in which a payload crosses the network.
//!
//! ```text
//! offset  size  field
//! 0       2     message type code
//! 2       2     payload length N
//! 4       4     sequence number
//! 8       N     payload
//! ```
//!
//! All integers stand most significant byte first. The envelope says nothing
//! of what the payload means.

use vstd::prelude::*;
use vstd::slice::{slice_subrange, slice_to_vec};
use crate::messages::{
    be_bytes_u16, be_bytes_u32, be_value_u16, be_value_u32, lemma_be_u16_bytes_of_value,
    lemma_be_u16_round_trip, lemma_be_u32_bytes_of_value, lemma_be_u32_round_trip, u16_from_be,
    u16_to_be, u32_from_be, u32_to_be, MessageType,
};
use crate::{ErrorKind, ViscaError};

verus! {

/// The bytes of an envelope before its payload.
pub const HEADER_LEN: usize = 8;

/// The longest payload whose length the envelope can state.
pub const MAX_PAYLOAD_LEN: usize = 0xFFFF;

/// An envelope taken apart.
#[derive(Debug, PartialEq, Eq)]
pub struct Envelope {
    pub message_type: MessageType,
    pub sequence: u32,
    pub payload: Vec<u8>,
}

impl View for Envelope {
    type V = (MessageType, u32, Seq<u8>);

    open spec fn view(&self) -> (MessageType, u32, Seq<u8>) {
        (self.message_type, self.sequence, self.payload@)
    }
}

/// The bytes on the wire for a payload of at most `MAX_PAYLOAD_LEN` bytes:
/// type code, payload length, sequence number, payload.
pub open spec fn framed(message_type: MessageType, sequence: u32, payload: Seq<u8>) -> Seq<u8> {
    be_bytes_u16(message_type.code()) + be_bytes_u16(payload.len() as u16) + be_bytes_u32(sequence)
        + payload
}

/// What a datagram holds when read as an envelope: its type, its sequence
/// number and its payload. `None` where it is shorter than a header, where its
/// type code is no type, or where its length field is not the number of bytes
/// that follow the header.
pub open spec fn unframed(datagram: Seq<u8>) -> Option<(MessageType, u32, Seq<u8>)> {
    if datagram.len() >= HEADER_LEN && be_value_u16(datagram[2], datagram[3]) == datagram.len()
        - HEADER_LEN {
        match MessageType::of_code(be_value_u16(datagram[0], datagram[1])) {
            Some(t) => Some(
                (
                    t,
                    be_value_u32(datagram[4], datagram[5], datagram[6], datagram[7]),
                    datagram.skip(HEADER_LEN as int),
                ),
            ),
            None => None,
        }
    } else {
        None
    }
}

/// Wraps a payload that the length field can state.
pub(crate) fn frame_within(message_type: MessageType, sequence: u32, payload: &[u8]) -> (v: Vec<u8>)
    requires
        payload@.len() <= MAX_PAYLOAD_LEN,
    ensures
        v@ == framed(message_type, sequence, payload@),
{
    let kind: [u8; 2] = message_type.to_be_bytes();
    let length: [u8; 2] = u16_to_be(payload.len() as u16);
    let number: [u8; 4] = u32_to_be(sequence);
    let mut v: Vec<u8> = Vec::new();
    v.extend_from_slice(kind.as_slice());
    v.extend_from_slice(length.as_slice());
    v.extend_from_slice(number.as_slice());
    v.extend_from_slice(payload);
    assert(v@ =~= framed(message_type, sequence, payload@));
    v
}

/// Wraps a payload for the wire. A payload too long for the length field is
/// refused.
pub fn frame(message_type: MessageType, sequence: u32, payload: &[u8]) -> (r: Result<
    Vec<u8>,
    ViscaError,
>)
    ensures
        match r {
            Ok(v) => payload@.len() <= MAX_PAYLOAD_LEN && v@ == framed(
                message_type,
                sequence,
                payload@,
            ),
            Err(e) => payload@.len() > MAX_PAYLOAD_LEN && e@ == (
                ErrorKind::Range,
                Seq::<u8>::empty(),
            ),
        },
{
    if payload.len() > MAX_PAYLOAD_LEN {
        Err(ViscaError::new(ErrorKind::Range))
    } else {
        Ok(frame_within(message_type, sequence, payload))
    }
}

/// Takes a datagram apart. What is no envelope comes back whole inside the
/// error.
pub fn unframe(datagram: &[u8]) -> (r: Result<Envelope, ViscaError>)
    ensures
        match r {
            Ok(envelope) => unframed(datagram@) == Some(envelope@),
            Err(e) => unframed(datagram@) is None && e@ == (ErrorKind::Decode, datagram@),
        },
{
    if datagram.len() < HEADER_LEN {
        return Err(ViscaError::with_bytes(ErrorKind::Decode, datagram));
    }
    let length: u16 = u16_from_be(datagram[2], datagram[3]);
    if length as usize != datagram.len() - HEADER_LEN {
        return Err(ViscaError::with_bytes(ErrorKind::Decode, datagram));
    }
    match MessageType::from_code(u16_from_be(datagram[0], datagram[1])) {
        Some(message_type) => {
            let sequence: u32 = u32_from_be(datagram[4], datagram[5], datagram[6], datagram[7]);
            let payload: Vec<u8> = slice_to_vec(slice_subrange(datagram, HEADER_LEN, datagram.len()));
            assert(payload@ =~= datagram@.skip(HEADER_LEN as int));
            Ok(Envelope { message_type, sequence, payload })
        },
        None => Err(ViscaError::with_bytes(ErrorKind::Decode, datagram)),
    }
}

/// Where each field of an envelope stands.
pub proof fn lemma_frame_layout(message_type: MessageType, sequence: u32, payload: Seq<u8>)
    requires
        payload.len() <= MAX_PAYLOAD_LEN,
    ensures
        framed(message_type, sequence, payload).len() == HEADER_LEN + payload.len(),
        framed(message_type, sequence, payload).subrange(0, 2) == be_bytes_u16(message_type.code()),
        framed(message_type, sequence, payload).subrange(2, 4) == be_bytes_u16(
            payload.len() as u16,
        ),
        framed(message_type, sequence, payload).subrange(4, 8) == be_bytes_u32(sequence),
        framed(message_type, sequence, payload).skip(8) == payload,
{
    let f = framed(message_type, sequence, payload);
    assert(f.subrange(0, 2) =~= be_bytes_u16(message_type.code()));
    assert(f.subrange(2, 4) =~= be_bytes_u16(payload.len() as u16));
    assert(f.subrange(4, 8) =~= be_bytes_u32(sequence));
    assert(f.skip(8) =~= payload);
}

/// Taking apart what was wrapped gives back the type, the sequence number and
/// the payload.
pub proof fn lemma_unframe_frame(message_type: MessageType, sequence: u32, payload: Seq<u8>)
    requires
        payload.len() <= MAX_PAYLOAD_LEN,
    ensures
        unframed(framed(message_type, sequence, payload)) == Some((message_type, sequence, payload)),
{
    let f = framed(message_type, sequence, payload);
    lemma_frame_layout(message_type, sequence, payload);
    lemma_be_u16_round_trip(message_type.code());
    lemma_be_u16_round_trip(payload.len() as u16);
    lemma_be_u32_round_trip(sequence);
    message_type.lemma_code_round_trip();
    assert(f[0] == be_bytes_u16(message_type.code())[0]);
    assert(f[1] == be_bytes_u16(message_type.code())[1]);
    assert(f[2] == be_bytes_u16(payload.len() as u16)[0]);
    assert(f[3] == be_bytes_u16(payload.len() as u16)[1]);
    assert(f[4] == be_bytes_u32(sequence)[0]);
    assert(f[5] == be_bytes_u32(sequence)[1]);
    assert(f[6] == be_bytes_u32(sequence)[2]);
    assert(f[7] == be_bytes_u32(sequence)[3]);
}

/// Wrapping what a datagram was taken apart into gives the datagram back: an
/// envelope has one reading, and only one datagram has that reading.
pub proof fn lemma_frame_unframe(datagram: Seq<u8>)
    requires
        unframed(datagram) is Some,
    ensures
        ({
            let (message_type, sequence, payload) = unframed(datagram)->Some_0;
            payload.len() <= MAX_PAYLOAD_LEN && framed(message_type, sequence, payload) == datagram
        }),
{
    let (message_type, sequence, payload) = unframed(datagram)->Some_0;
    MessageType::lemma_of_code_exact(be_value_u16(datagram[0], datagram[1]));
    lemma_be_u16_bytes_of_value(datagram[0], datagram[1]);
    lemma_be_u16_bytes_of_value(datagram[2], datagram[3]);
    lemma_be_u32_bytes_of_value(datagram[4], datagram[5], datagram[6], datagram[7]);
    assert(framed(message_type, sequence, payload) =~= datagram);
}

} // verus!
