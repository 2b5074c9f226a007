//! What a session with one camera decides: the number under which each
//! datagram goes out, and what to make of what comes back.
//!
//! A session sends one request at a time and reads at most one datagram for
//! it, so it matches no reply to a request by number. The socket is the
//! caller's. The caller takes each datagram to send from a [`Session`], sends
//! it, and hands what it then received, or that it received nothing, to
//! [`conclude_inquiry`] or [`conclude_command`].

use vstd::prelude::*;
use crate::envelope::{frame_within, framed, unframe, unframed, MAX_PAYLOAD_LEN};
use crate::messages::{MessageType, ViscaCommand, ViscaInquiry, ViscaMessage};
use crate::reply::{acknowledgement_of, failure_kind, Acknowledgement};
use crate::{ErrorKind, ViscaError};

verus! {

/// The payload that asks the camera to start counting sequence numbers anew.
pub const SEQUENCE_RESET: u8 = 0x01;

/// The sequence number that a camera expects next once it has started anew.
pub const SEQUENCE_AFTER_RESET: u32 = 1;

/// The sequence number that follows `sequence`. After the largest comes 0.
pub open spec fn next_sequence(sequence: u32) -> u32 {
    if sequence == u32::MAX {
        0
    } else {
        (sequence + 1) as u32
    }
}

/// The sequence number that a session which stood at `start` stands at after
/// `sends` datagrams.
pub open spec fn sequence_after(start: u32, sends: nat) -> u32 {
    ((start + sends) % 0x1_0000_0000) as u32
}

/// The counter is plain arithmetic modulo 2^32: every datagram moves it on by
/// one, and 2^32 datagrams bring it back to where it stood. A session that
/// starts at 0 therefore numbers its datagram after the 2^32nd with 0 again.
pub proof fn lemma_sequence_wraps(start: u32, sends: nat)
    ensures
        sequence_after(start, 0) == start,
        sequence_after(start, sends + 1) == next_sequence(sequence_after(start, sends)),
        sequence_after(start, sends + 0x1_0000_0000) == sequence_after(start, sends),
        sequence_after(0, 0x1_0000_0000) == 0,
{
}

/// The state of a session: the sequence number of the next datagram, and how
/// long to wait for a reply.
#[derive(Debug)]
pub struct Session {
    sequence: u32,
    timeout: Option<u64>,
}

impl Session {
    /// The number under which the next datagram goes out.
    pub closed spec fn sequence_number(&self) -> u32 {
        self.sequence
    }

    /// How many milliseconds a receive may take; `None` for no limit.
    pub closed spec fn read_timeout(&self) -> Option<u64> {
        self.timeout
    }

    /// A new session: it counts from 0 and waits without limit.
    pub fn new() -> (s: Session)
        ensures
            s.sequence_number() == 0,
            s.read_timeout() is None,
    {
        Session { sequence: 0, timeout: None }
    }

    /// A session that takes up counting at `sequence`, and waits without limit.
    pub fn resume(sequence: u32) -> (s: Session)
        ensures
            s.sequence_number() == sequence,
            s.read_timeout() is None,
    {
        Session { sequence, timeout: None }
    }

    /// The number under which the next datagram goes out.
    pub fn sequence(&self) -> (n: u32)
        ensures
            n == self.sequence_number(),
    {
        self.sequence
    }

    /// How many milliseconds a receive may take; `None` for no limit.
    pub fn timeout(&self) -> (t: Option<u64>)
        ensures
            t == self.read_timeout(),
    {
        self.timeout
    }

    /// Changes how long later receives may take. The counter stays.
    pub fn set_timeout(&mut self, timeout: Option<u64>)
        ensures
            final(self).read_timeout() == timeout,
            final(self).sequence_number() == old(self).sequence_number(),
    {
        self.timeout = timeout;
    }

    /// Wraps `payload` under the present sequence number and moves the counter
    /// on by one, from the largest number to 0. The counter moves whether or
    /// not the datagram is then sent with success. A payload too long for an
    /// envelope is refused, and the counter stays.
    pub fn next_frame(&mut self, message_type: MessageType, payload: &[u8]) -> (r: Result<
        Vec<u8>,
        ViscaError,
    >)
        ensures
            final(self).read_timeout() == old(self).read_timeout(),
            match r {
                Ok(v) => {
                    &&& payload@.len() <= MAX_PAYLOAD_LEN
                    &&& v@ == framed(message_type, old(self).sequence_number(), payload@)
                    &&& final(self).sequence_number() == next_sequence(old(self).sequence_number())
                },
                Err(e) => {
                    &&& payload@.len() > MAX_PAYLOAD_LEN
                    &&& e@ == (ErrorKind::Range, Seq::<u8>::empty())
                    &&& final(self).sequence_number() == old(self).sequence_number()
                },
            },
    {
        if payload.len() > MAX_PAYLOAD_LEN {
            Err(ViscaError::new(ErrorKind::Range))
        } else {
            Ok(self.number(message_type, payload))
        }
    }

    /// Wraps a payload that an envelope can hold under the present sequence
    /// number, and moves the counter on.
    fn number(&mut self, message_type: MessageType, payload: &[u8]) -> (v: Vec<u8>)
        requires
            payload@.len() <= MAX_PAYLOAD_LEN,
        ensures
            v@ == framed(message_type, old(self).sequence_number(), payload@),
            final(self).sequence_number() == next_sequence(old(self).sequence_number()),
            final(self).read_timeout() == old(self).read_timeout(),
    {
        let datagram: Vec<u8> = frame_within(message_type, self.sequence, payload);
        self.sequence = self.sequence.wrapping_add(1);
        datagram
    }

    /// Encodes a request and wraps it under the present sequence number. A
    /// request with a parameter out of range is refused, and the counter stays.
    pub fn request<M: ViscaMessage>(&mut self, message: &M) -> (r: Result<Vec<u8>, ViscaError>)
        ensures
            final(self).read_timeout() == old(self).read_timeout(),
            match r {
                Ok(v) => {
                    &&& message.in_range()
                    &&& v@ == framed(
                        message.message_type(),
                        old(self).sequence_number(),
                        message.encoding(),
                    )
                    &&& final(self).sequence_number() == next_sequence(old(self).sequence_number())
                },
                Err(e) => {
                    &&& !message.in_range()
                    &&& e@ == (ErrorKind::Range, Seq::<u8>::empty())
                    &&& final(self).sequence_number() == old(self).sequence_number()
                },
            },
    {
        match message.bytes() {
            Ok(payload) => {
                proof {
                    message.lemma_encoding_is_request();
                }
                Ok(self.number(message.msg_type(), payload.as_slice()))
            },
            Err(e) => Err(e),
        }
    }

    /// The datagram that asks the camera to start counting anew. It goes out on
    /// the control channel under the present sequence number. The counter of
    /// this session then stands at the number that the camera expects next
    /// once it has taken the reset, whatever the counter stood at before.
    pub fn reset_frame(&mut self) -> (v: Vec<u8>)
        ensures
            v@ == framed(
                MessageType::ControlCommand,
                old(self).sequence_number(),
                seq![SEQUENCE_RESET],
            ),
            final(self).sequence_number() == SEQUENCE_AFTER_RESET,
            final(self).read_timeout() == old(self).read_timeout(),
    {
        let payload: [u8; 1] = [SEQUENCE_RESET];
        assert(payload@ =~= seq![SEQUENCE_RESET]);
        let datagram: Vec<u8> = frame_within(
            MessageType::ControlCommand,
            self.sequence,
            payload.as_slice(),
        );
        self.sequence = SEQUENCE_AFTER_RESET;
        datagram
    }
}

/// What came of waiting for a reply.
#[derive(Debug, PartialEq, Eq)]
pub enum Received {
    /// One datagram, as it came off the socket.
    Datagram(Vec<u8>),
    /// Nothing came within the time allowed.
    TimedOut,
    /// The socket failed.
    Failed,
}

/// The payload of a datagram that is an envelope of type `Reply`.
pub open spec fn reply_payload_of(datagram: Seq<u8>) -> Option<Seq<u8>> {
    match unframed(datagram) {
        Some((message_type, _, payload)) => if message_type == MessageType::Reply {
            Some(payload)
        } else {
            None
        },
        None => None,
    }
}

/// What waiting for a reply amounts to before the reply is read: the payload
/// that came, or the failure that stands for everything else. `Err` of
/// `Timeout` where nothing came, of `Transport` where the socket failed, and of
/// `Decode`, with the datagram, where what came is no envelope of type `Reply`.
pub open spec fn payload_or_failure(received: Received) -> Result<Seq<u8>, (ErrorKind, Seq<u8>)> {
    match received {
        Received::Datagram(datagram) => match reply_payload_of(datagram@) {
            Some(payload) => Ok(payload),
            None => Err((ErrorKind::Decode, datagram@)),
        },
        Received::TimedOut => Err((ErrorKind::Timeout, Seq::<u8>::empty())),
        Received::Failed => Err((ErrorKind::Transport, Seq::<u8>::empty())),
    }
}

/// Unwraps what was received down to the payload of the reply.
pub fn reply_payload(received: &Received) -> (r: Result<Vec<u8>, ViscaError>)
    ensures
        match r {
            Ok(payload) => payload_or_failure(*received) == Ok::<Seq<u8>, (ErrorKind, Seq<u8>)>(
                payload@,
            ),
            Err(e) => payload_or_failure(*received) == Err::<Seq<u8>, (ErrorKind, Seq<u8>)>(e@),
        },
{
    match received {
        Received::Datagram(datagram) => {
            match unframe(datagram.as_slice()) {
                Ok(envelope) => {
                    if envelope.message_type == MessageType::Reply {
                        Ok(envelope.payload)
                    } else {
                        Err(ViscaError::with_bytes(ErrorKind::Decode, datagram.as_slice()))
                    }
                },
                Err(e) => Err(e),
            }
        },
        Received::TimedOut => Err(ViscaError::new(ErrorKind::Timeout)),
        Received::Failed => Err(ViscaError::new(ErrorKind::Transport)),
    }
}

/// Ends an inquiry: reads what was received as the reply to `inquiry`.
///
/// Nothing received, a failed socket and a datagram that is no reply envelope
/// are failures of their own kinds. The payload of a reply envelope is read by
/// the templates of `inquiry`; where it fits none, the failure is `Rejected`
/// for the camera's error frame and `Decode` for anything else, and carries
/// the payload.
pub fn conclude_inquiry<I: ViscaInquiry>(inquiry: &I, received: &Received) -> (r: Result<
    I::Reply,
    ViscaError,
>)
    ensures
        match payload_or_failure(*received) {
            Ok(payload) => match r {
                Ok(value) => inquiry.reply_of(payload) == Some(value),
                Err(e) => inquiry.reply_of(payload) is None && e@ == (
                    failure_kind(payload),
                    payload,
                ),
            },
            Err(failure) => r matches Err(e) && e@ == failure,
        },
{
    match reply_payload(received) {
        Ok(payload) => inquiry.parse_reply(payload.as_slice()),
        Err(e) => Err(e),
    }
}

/// Ends a command: reads what was received as the reply to `command`.
///
/// Nothing received, a failed socket and a datagram that is no reply envelope
/// are failures of their own kinds. The payload of a reply envelope is an
/// acknowledgement or a failure: `Rejected` for the camera's error frame,
/// `Decode` for anything else, with the payload.
pub fn conclude_command<C: ViscaCommand>(command: &C, received: &Received) -> (r: Result<
    Acknowledgement,
    ViscaError,
>)
    ensures
        match payload_or_failure(*received) {
            Ok(payload) => match r {
                Ok(a) => acknowledgement_of(payload) == Some(a),
                Err(e) => acknowledgement_of(payload) is None && e@ == (
                    failure_kind(payload),
                    payload,
                ),
            },
            Err(failure) => r matches Err(e) && e@ == failure,
        },
{
    match reply_payload(received) {
        Ok(payload) => command.parse_reply(payload.as_slice()),
        Err(e) => Err(e),
    }
}

} // verus!
