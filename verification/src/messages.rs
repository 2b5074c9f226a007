//! Numeric packing, the wire message types, and the traits that every catalogue
//! entry implements.
//!
//! VISCA carries a multi-bit parameter as a run of bytes that each hold one
//! nibble in their low four bits, most significant nibble first. The transport
//! envelope carries its integers as whole bytes, most significant byte first.
//! Both packings are defined here by plain arithmetic, and the executable
//! functions are proved against those definitions.

use vstd::prelude::*;
use crate::reply::{
    acknowledgement_of, decode_acknowledgement, failure_kind, is_error_frame, is_value_reply,
    Acknowledgement,
};
use crate::{ErrorKind, ViscaError};

verus! {

/// The address byte that opens every request: from the controller to camera 1.
pub const CAMERA_ADDRESS: u8 = 0x81;

/// The class byte of a command.
pub const CLASS_COMMAND: u8 = 0x01;

/// The class byte of an inquiry.
pub const CLASS_INQUIRY: u8 = 0x09;

/// The byte that closes every request and every reply.
pub const TERMINATOR: u8 = 0xFF;

/// No request of the catalogue is longer than this.
pub const MAX_REQUEST_LEN: usize = 16;

/// The kinds of message that the transport envelope tells apart.
#[derive(Debug, Clone, Copy, PartialEq, Eq, Structural)]
pub enum MessageType {
    Command,
    Inquiry,
    Reply,
    DevSettingCommand,
    ControlCommand,
    ControlReply,
}

impl MessageType {
    /// The 16-bit code that stands for this type on the wire.
    pub open spec fn code(self) -> u16 {
        match self {
            MessageType::Command => 0x0100,
            MessageType::Inquiry => 0x0110,
            MessageType::Reply => 0x0111,
            MessageType::DevSettingCommand => 0x0120,
            MessageType::ControlCommand => 0x0200,
            MessageType::ControlReply => 0x0201,
        }
    }

    /// The type that a wire code stands for, if it stands for one.
    pub open spec fn of_code(code: u16) -> Option<MessageType> {
        if code == 0x0100 {
            Some(MessageType::Command)
        } else if code == 0x0110 {
            Some(MessageType::Inquiry)
        } else if code == 0x0111 {
            Some(MessageType::Reply)
        } else if code == 0x0120 {
            Some(MessageType::DevSettingCommand)
        } else if code == 0x0200 {
            Some(MessageType::ControlCommand)
        } else if code == 0x0201 {
            Some(MessageType::ControlReply)
        } else {
            None
        }
    }

    /// The wire code of this type.
    pub fn wire_code(self) -> (c: u16)
        ensures
            c == self.code(),
    {
        match self {
            MessageType::Command => 0x0100,
            MessageType::Inquiry => 0x0110,
            MessageType::Reply => 0x0111,
            MessageType::DevSettingCommand => 0x0120,
            MessageType::ControlCommand => 0x0200,
            MessageType::ControlReply => 0x0201,
        }
    }

    /// The wire code of this type as two bytes, most significant first.
    pub fn to_be_bytes(self) -> (r: [u8; 2])
        ensures
            r@ == be_bytes_u16(self.code()),
    {
        u16_to_be(self.wire_code())
    }

    /// Reads a wire code back. `None` for a code that no type has.
    pub fn from_code(code: u16) -> (r: Option<MessageType>)
        ensures
            r == MessageType::of_code(code),
    {
        if code == 0x0100 {
            Some(MessageType::Command)
        } else if code == 0x0110 {
            Some(MessageType::Inquiry)
        } else if code == 0x0111 {
            Some(MessageType::Reply)
        } else if code == 0x0120 {
            Some(MessageType::DevSettingCommand)
        } else if code == 0x0200 {
            Some(MessageType::ControlCommand)
        } else if code == 0x0201 {
            Some(MessageType::ControlReply)
        } else {
            None
        }
    }

    /// Every type is found again from its code, so no two types share one.
    pub proof fn lemma_code_round_trip(self)
        ensures
            MessageType::of_code(self.code()) == Some(self),
    {
    }

    /// A code that is read as a type is the code of that type.
    pub proof fn lemma_of_code_exact(code: u16)
        ensures
            MessageType::of_code(code) matches Some(t) ==> t.code() == code,
    {
    }
}

/// What the catalogue promises of every request it encodes: the class byte that
/// goes with a message type.
pub open spec fn class_byte(t: MessageType) -> u8 {
    if t == MessageType::Inquiry {
        CLASS_INQUIRY
    } else {
        CLASS_COMMAND
    }
}

/// The shape of a request on the wire: the camera address, the class byte of
/// its type, at least one byte that names the operation, whatever parameters
/// there are, and the terminator.
pub open spec fn is_request(t: MessageType, payload: Seq<u8>) -> bool {
    &&& t == MessageType::Command || t == MessageType::Inquiry
    &&& 4 <= payload.len() <= MAX_REQUEST_LEN
    &&& payload[0] == CAMERA_ADDRESS
    &&& payload[1] == class_byte(t)
    &&& payload.last() == TERMINATOR
}

/// One operation of the camera with its parameters: a value that knows its own
/// bytes.
pub trait ViscaMessage {
    /// Whether every parameter lies within its documented range.
    spec fn in_range(&self) -> bool;

    /// The one byte sequence that stands for this request.
    spec fn encoding(&self) -> Seq<u8>;

    /// The envelope type under which this request travels.
    spec fn message_type(&self) -> MessageType;

    /// Encodes the request. A parameter outside its range is refused: nothing
    /// is masked or clipped into place.
    fn bytes(&self) -> (r: Result<Vec<u8>, ViscaError>)
        ensures
            match r {
                Ok(v) => self.in_range() && v@ == self.encoding(),
                Err(e) => !self.in_range() && e@ == (ErrorKind::Range, Seq::<u8>::empty()),
            },
    ;

    /// The envelope type under which this request travels.
    fn msg_type(&self) -> (t: MessageType)
        ensures
            t == self.message_type(),
    ;

    /// Whatever is encoded is a well-formed request.
    proof fn lemma_encoding_is_request(&self)
        requires
            self.in_range(),
        ensures
            is_request(self.message_type(), self.encoding()),
    ;

    /// The bytes tell the request: no two requests of one family, each with its
    /// parameters in range, have the same encoding.
    proof fn lemma_encoding_is_one_to_one(&self, other: &Self)
        requires
            self.in_range(),
            other.in_range(),
            self.encoding() == other.encoding(),
        ensures
            self == other,
    ;
}

/// A request that reads a setting. Its reply carries the value.
pub trait ViscaInquiry: ViscaMessage {
    /// What a reply to this inquiry decodes to.
    type Reply;

    /// The value that `bytes` carries when read as the reply to this inquiry.
    /// `None` where `bytes` fits no template of this inquiry.
    spec fn reply_of(&self, bytes: Seq<u8>) -> Option<Self::Reply>;

    /// Decodes the reply to this inquiry. What fits no template comes back
    /// whole inside the error: as `Rejected` where it is the camera's error
    /// frame, as `Decode` otherwise.
    fn parse_reply(&self, bytes: &[u8]) -> (r: Result<Self::Reply, ViscaError>)
        ensures
            match r {
                Ok(v) => self.reply_of(bytes@) == Some(v),
                Err(e) => self.reply_of(bytes@) is None && e@ == (failure_kind(bytes@), bytes@),
            },
    ;

    /// An inquiry travels as an inquiry. What it reads a value from has the
    /// frame of a reply that carries one, so nothing that the camera sends as
    /// an error frame is ever read as a value.
    proof fn lemma_inquiry(&self, bytes: Seq<u8>)
        ensures
            self.message_type() == MessageType::Inquiry,
            self.reply_of(bytes) is Some ==> is_value_reply(bytes),
            is_error_frame(bytes) ==> self.reply_of(bytes) is None,
    ;
}

/// A request that changes a setting or moves the camera. Its reply tells that
/// the camera took the command up, or that it carried it out.
pub trait ViscaCommand: ViscaMessage {
    /// Decodes the reply to this command. What is no acknowledgement comes back
    /// whole inside the error: as `Rejected` where it is the camera's error
    /// frame, as `Decode` otherwise.
    fn parse_reply(&self, bytes: &[u8]) -> (r: Result<Acknowledgement, ViscaError>)
        ensures
            match r {
                Ok(a) => acknowledgement_of(bytes@) == Some(a),
                Err(e) => acknowledgement_of(bytes@) is None && e@ == (failure_kind(bytes@), bytes@),
            },
    {
        decode_acknowledgement(bytes)
    }

    /// A command travels as a command.
    proof fn lemma_command(&self)
        ensures
            self.message_type() == MessageType::Command,
    ;
}

// ---------------------------------------------------------------------------
// Nibbles
// ---------------------------------------------------------------------------

/// The nibble of `val` with positional `weight`, where `weight` is the power of
/// sixteen that the nibble is multiplied by in `val` (1 for the lowest nibble).
#[verifier::opaque]
pub open spec fn nibble_of(val: nat, weight: nat) -> u8 {
    ((val / weight) % 16) as u8
}

/// The byte made of two nibbles; of each argument only the low four bits count.
pub open spec fn joined_u8(top: u8, bot: u8) -> u8 {
    ((top % 16) * 0x10 + bot % 16) as u8
}

/// The 16-bit value made of four nibbles, most significant first; of each
/// argument only the low four bits count.
pub open spec fn joined_u16(top: u8, midtop: u8, midbot: u8, bot: u8) -> u16 {
    ((top % 16) * 0x1000 + (midtop % 16) * 0x100 + (midbot % 16) * 0x10 + bot % 16) as u16
}

/// The 32-bit value made of eight nibbles, most significant first; of each
/// argument only the low four bits count.
pub open spec fn joined_u32(n7: u8, n6: u8, n5: u8, n4: u8, n3: u8, n2: u8, n1: u8, n0: u8) -> u32 {
    ((n7 % 16) * 0x1000_0000 + (n6 % 16) * 0x100_0000 + (n5 % 16) * 0x10_0000 + (n4 % 16) * 0x1_0000
        + (n3 % 16) * 0x1000 + (n2 % 16) * 0x100 + (n1 % 16) * 0x10 + n0 % 16) as u32
}

/// High nibble of a byte.
pub fn u8top(val: u8) -> (r: u8)
    ensures
        r == nibble_of(val as nat, 0x10),
{
    reveal(nibble_of);
    assert((val & 0xF0u8) >> 4u8 == (val / 0x10u8) % 16u8) by (bit_vector);
    (val & 0xF0) >> 4
}

/// Low nibble of a byte.
pub fn u8bot(val: u8) -> (r: u8)
    ensures
        r == nibble_of(val as nat, 1),
{
    reveal(nibble_of);
    assert(val & 0x0Fu8 == val % 16u8) by (bit_vector);
    val & 0x0F
}

/// Highest nibble of a 16-bit value.
pub fn u16top(val: u16) -> (r: u8)
    ensures
        r == nibble_of(val as nat, 0x1000),
{
    reveal(nibble_of);
    assert((val & 0xF000u16) >> 12u16 == (val / 0x1000u16) % 16u16) by (bit_vector);
    ((val & 0xF000) >> 12) as u8
}

/// Second highest nibble of a 16-bit value.
pub fn u16midtop(val: u16) -> (r: u8)
    ensures
        r == nibble_of(val as nat, 0x100),
{
    reveal(nibble_of);
    assert((val & 0x0F00u16) >> 8u16 == (val / 0x100u16) % 16u16) by (bit_vector);
    ((val & 0x0F00) >> 8) as u8
}

/// Second lowest nibble of a 16-bit value.
pub fn u16midbot(val: u16) -> (r: u8)
    ensures
        r == nibble_of(val as nat, 0x10),
{
    reveal(nibble_of);
    assert((val & 0x00F0u16) >> 4u16 == (val / 0x10u16) % 16u16) by (bit_vector);
    ((val & 0x00F0) >> 4) as u8
}

/// Lowest nibble of a 16-bit value.
pub fn u16bot(val: u16) -> (r: u8)
    ensures
        r == nibble_of(val as nat, 1),
{
    reveal(nibble_of);
    assert(val & 0x000Fu16 == val % 16u16) by (bit_vector);
    (val & 0x000F) as u8
}

/// Most significant nibble of a 32-bit value (bits 28 to 31).
pub fn u32byte8(val: u32) -> (r: u8)
    ensures
        r == nibble_of(val as nat, 0x1000_0000),
{
    reveal(nibble_of);
    assert((val & 0xF000_0000u32) >> 28u32 == (val / 0x1000_0000u32) % 16u32) by (bit_vector);
    ((val & 0xF000_0000) >> 28) as u8
}

/// The nibble in bits 24 to 27 of a 32-bit value.
pub fn u32byte6(val: u32) -> (r: u8)
    ensures
        r == nibble_of(val as nat, 0x100_0000),
{
    reveal(nibble_of);
    assert((val & 0x0F00_0000u32) >> 24u32 == (val / 0x100_0000u32) % 16u32) by (bit_vector);
    ((val & 0x0F00_0000) >> 24) as u8
}

/// The nibble in bits 20 to 23 of a 32-bit value.
pub fn u32byte5(val: u32) -> (r: u8)
    ensures
        r == nibble_of(val as nat, 0x10_0000),
{
    reveal(nibble_of);
    assert((val & 0x00F0_0000u32) >> 20u32 == (val / 0x10_0000u32) % 16u32) by (bit_vector);
    ((val & 0x00F0_0000) >> 20) as u8
}

/// The nibble in bits 16 to 19 of a 32-bit value.
pub fn u32byte4(val: u32) -> (r: u8)
    ensures
        r == nibble_of(val as nat, 0x1_0000),
{
    reveal(nibble_of);
    assert((val & 0x000F_0000u32) >> 16u32 == (val / 0x1_0000u32) % 16u32) by (bit_vector);
    ((val & 0x000F_0000) >> 16) as u8
}

/// The nibble in bits 12 to 15 of a 32-bit value.
pub fn u32byte3(val: u32) -> (r: u8)
    ensures
        r == nibble_of(val as nat, 0x1000),
{
    reveal(nibble_of);
    assert((val & 0x0000_F000u32) >> 12u32 == (val / 0x1000u32) % 16u32) by (bit_vector);
    ((val & 0x0000_F000) >> 12) as u8
}

/// The nibble in bits 8 to 11 of a 32-bit value.
pub fn u32byte2(val: u32) -> (r: u8)
    ensures
        r == nibble_of(val as nat, 0x100),
{
    reveal(nibble_of);
    assert((val & 0x0000_0F00u32) >> 8u32 == (val / 0x100u32) % 16u32) by (bit_vector);
    ((val & 0x0000_0F00) >> 8) as u8
}

/// The nibble in bits 4 to 7 of a 32-bit value.
pub fn u32byte1(val: u32) -> (r: u8)
    ensures
        r == nibble_of(val as nat, 0x10),
{
    reveal(nibble_of);
    assert((val & 0x0000_00F0u32) >> 4u32 == (val / 0x10u32) % 16u32) by (bit_vector);
    ((val & 0x0000_00F0) >> 4) as u8
}

/// Least significant nibble of a 32-bit value.
pub fn u32byte0(val: u32) -> (r: u8)
    ensures
        r == nibble_of(val as nat, 1),
{
    reveal(nibble_of);
    assert(val & 0x0000_000Fu32 == val % 16u32) by (bit_vector);
    (val & 0x0000_000F) as u8
}

/// Joins two nibbles into a byte. Bits above the low four of either argument
/// are dropped, never carried into the neighbouring nibble.
pub fn merge_u8(top: u8, bot: u8) -> (r: u8)
    ensures
        r == joined_u8(top, bot),
{
    assert(((top & 0x0Fu8) << 4u8) | (bot & 0x0Fu8) == (top % 16u8) * 0x10u8 + bot % 16u8)
        by (bit_vector);
    ((top & 0x0F) << 4) | (bot & 0x0F)
}

/// Joins four nibbles, most significant first, into a 16-bit value. Bits above
/// the low four of any argument are dropped.
pub fn merge_u16(top: u8, midtop: u8, midbot: u8, bot: u8) -> (r: u16)
    ensures
        r == joined_u16(top, midtop, midbot, bot),
{
    let top: u16 = (top % 16) as u16;
    let midtop: u16 = (midtop % 16) as u16;
    let midbot: u16 = (midbot % 16) as u16;
    let bot: u16 = (bot % 16) as u16;
    assert(top < 16 && midtop < 16 && midbot < 16 && bot < 16 ==> (top << 12u16) | (midtop << 8u16)
        | (midbot << 4u16) | bot == top * 0x1000u16 + midtop * 0x100u16 + midbot * 0x10u16 + bot)
        by (bit_vector);
    (top << 12) | (midtop << 8) | (midbot << 4) | bot
}

/// Joins eight nibbles, most significant first, into a 32-bit value. Bits above
/// the low four of any argument are dropped.
pub fn merge_u32(n7: u8, n6: u8, n5: u8, n4: u8, n3: u8, n2: u8, n1: u8, n0: u8) -> (r: u32)
    ensures
        r == joined_u32(n7, n6, n5, n4, n3, n2, n1, n0),
{
    let high: u16 = merge_u16(n7, n6, n5, n4);
    let low: u16 = merge_u16(n3, n2, n1, n0);
    (high as u32) * 0x1_0000 + low as u32
}

/// Splitting a byte into nibbles and joining them gives the byte back.
pub proof fn lemma_u8_round_trip(val: u8)
    ensures
        joined_u8(nibble_of(val as nat, 0x10), nibble_of(val as nat, 1)) == val,
{
    reveal(nibble_of);
}

/// Splitting a 16-bit value into nibbles and joining them gives the value back.
pub proof fn lemma_u16_round_trip(val: u16)
    ensures
        joined_u16(
            nibble_of(val as nat, 0x1000),
            nibble_of(val as nat, 0x100),
            nibble_of(val as nat, 0x10),
            nibble_of(val as nat, 1),
        ) == val,
{
    reveal(nibble_of);
    assert(((val / 0x1000u16) % 16u16) * 0x1000u16 + ((val / 0x100u16) % 16u16) * 0x100u16 + ((val
        / 0x10u16) % 16u16) * 0x10u16 + val % 16u16 == val) by (bit_vector);
}

/// Splitting a 32-bit value into nibbles and joining them gives the value back.
pub proof fn lemma_u32_round_trip(val: u32)
    ensures
        joined_u32(
            nibble_of(val as nat, 0x1000_0000),
            nibble_of(val as nat, 0x100_0000),
            nibble_of(val as nat, 0x10_0000),
            nibble_of(val as nat, 0x1_0000),
            nibble_of(val as nat, 0x1000),
            nibble_of(val as nat, 0x100),
            nibble_of(val as nat, 0x10),
            nibble_of(val as nat, 1),
        ) == val,
{
    reveal(nibble_of);
    assert(((val / 0x1000_0000u32) % 16u32) * 0x1000_0000u32 + ((val / 0x100_0000u32) % 16u32)
        * 0x100_0000u32 + ((val / 0x10_0000u32) % 16u32) * 0x10_0000u32 + ((val / 0x1_0000u32)
        % 16u32) * 0x1_0000u32 + ((val / 0x1000u32) % 16u32) * 0x1000u32 + ((val / 0x100u32)
        % 16u32) * 0x100u32 + ((val / 0x10u32) % 16u32) * 0x10u32 + val % 16u32 == val)
        by (bit_vector);
}

/// Joining two nibbles and splitting the byte gives the nibbles back, each
/// without the bits above its low four.
pub proof fn lemma_u8_nibbles_of_joined(top: u8, bot: u8)
    ensures
        nibble_of(joined_u8(top, bot) as nat, 0x10) == top % 16,
        nibble_of(joined_u8(top, bot) as nat, 1) == bot % 16,
{
    reveal(nibble_of);
}

/// Joining four nibbles and splitting the value gives the nibbles back, each
/// without the bits above its low four.
pub proof fn lemma_u16_nibbles_of_joined(top: u8, midtop: u8, midbot: u8, bot: u8)
    ensures
        nibble_of(joined_u16(top, midtop, midbot, bot) as nat, 0x1000) == top % 16,
        nibble_of(joined_u16(top, midtop, midbot, bot) as nat, 0x100) == midtop % 16,
        nibble_of(joined_u16(top, midtop, midbot, bot) as nat, 0x10) == midbot % 16,
        nibble_of(joined_u16(top, midtop, midbot, bot) as nat, 1) == bot % 16,
{
    reveal(nibble_of);
    let a: u16 = (top % 16) as u16;
    let b: u16 = (midtop % 16) as u16;
    let c: u16 = (midbot % 16) as u16;
    let d: u16 = (bot % 16) as u16;
    let v: u16 = joined_u16(top, midtop, midbot, bot);
    assert(v == a * 0x1000 + b * 0x100 + c * 0x10 + d);
    assert(a < 16 && b < 16 && c < 16 && d < 16 && v == a * 0x1000u16 + b * 0x100u16 + c * 0x10u16
        + d ==> (v / 0x1000u16) % 16u16 == a && (v / 0x100u16) % 16u16 == b && (v / 0x10u16)
        % 16u16 == c && v % 16u16 == d) by (bit_vector);
}

/// A byte is told by its two nibbles.
pub proof fn lemma_nibbles_tell_u8(a: u8, b: u8)
    requires
        nibble_of(a as nat, 0x10) == nibble_of(b as nat, 0x10),
        nibble_of(a as nat, 1) == nibble_of(b as nat, 1),
    ensures
        a == b,
{
    lemma_u8_round_trip(a);
    lemma_u8_round_trip(b);
}

/// A 16-bit value is told by its four nibbles.
pub proof fn lemma_nibbles_tell_u16(a: u16, b: u16)
    requires
        nibble_of(a as nat, 0x1000) == nibble_of(b as nat, 0x1000),
        nibble_of(a as nat, 0x100) == nibble_of(b as nat, 0x100),
        nibble_of(a as nat, 0x10) == nibble_of(b as nat, 0x10),
        nibble_of(a as nat, 1) == nibble_of(b as nat, 1),
    ensures
        a == b,
{
    lemma_u16_round_trip(a);
    lemma_u16_round_trip(b);
}

/// A value of twelve bits is told by its three low nibbles.
pub proof fn lemma_nibbles_tell_u12(a: u16, b: u16)
    requires
        a <= 0xFFF,
        b <= 0xFFF,
        nibble_of(a as nat, 0x100) == nibble_of(b as nat, 0x100),
        nibble_of(a as nat, 0x10) == nibble_of(b as nat, 0x10),
        nibble_of(a as nat, 1) == nibble_of(b as nat, 1),
    ensures
        a == b,
{
    assert(nibble_of(a as nat, 0x1000) == 0 && nibble_of(b as nat, 0x1000) == 0) by {
        reveal(nibble_of);
    }
    lemma_nibbles_tell_u16(a, b);
}

/// A value of twenty bits is told by its five low nibbles.
pub proof fn lemma_nibbles_tell_u20(a: u32, b: u32)
    requires
        a <= 0xF_FFFF,
        b <= 0xF_FFFF,
        nibble_of(a as nat, 0x1_0000) == nibble_of(b as nat, 0x1_0000),
        nibble_of(a as nat, 0x1000) == nibble_of(b as nat, 0x1000),
        nibble_of(a as nat, 0x100) == nibble_of(b as nat, 0x100),
        nibble_of(a as nat, 0x10) == nibble_of(b as nat, 0x10),
        nibble_of(a as nat, 1) == nibble_of(b as nat, 1),
    ensures
        a == b,
{
    assert(nibble_of(a as nat, 0x1000_0000) == 0 && nibble_of(a as nat, 0x100_0000) == 0
        && nibble_of(a as nat, 0x10_0000) == 0) by {
        reveal(nibble_of);
    }
    assert(nibble_of(b as nat, 0x1000_0000) == 0 && nibble_of(b as nat, 0x100_0000) == 0
        && nibble_of(b as nat, 0x10_0000) == 0) by {
        reveal(nibble_of);
    }
    lemma_u32_round_trip(a);
    lemma_u32_round_trip(b);
}

// ---------------------------------------------------------------------------
// Whole bytes
// ---------------------------------------------------------------------------

/// The two bytes of a 16-bit value, most significant first.
pub open spec fn be_bytes_u16(val: u16) -> Seq<u8> {
    seq![(val / 0x100) as u8, (val % 0x100) as u8]
}

/// The four bytes of a 32-bit value, most significant first.
pub open spec fn be_bytes_u32(val: u32) -> Seq<u8> {
    seq![
        (val / 0x100_0000) as u8,
        ((val / 0x1_0000) % 0x100) as u8,
        ((val / 0x100) % 0x100) as u8,
        (val % 0x100) as u8,
    ]
}

/// The 16-bit value that two bytes stand for, most significant first.
pub open spec fn be_value_u16(hi: u8, lo: u8) -> u16 {
    (hi * 0x100 + lo) as u16
}

/// The 32-bit value that four bytes stand for, most significant first.
pub open spec fn be_value_u32(b3: u8, b2: u8, b1: u8, b0: u8) -> u32 {
    (b3 * 0x100_0000 + b2 * 0x1_0000 + b1 * 0x100 + b0) as u32
}

/// Splits a 16-bit value into its two bytes, most significant first.
pub fn u16_to_be(val: u16) -> (r: [u8; 2])
    ensures
        r@ == be_bytes_u16(val),
{
    let r: [u8; 2] = [(val / 0x100) as u8, (val % 0x100) as u8];
    assert(r@ =~= be_bytes_u16(val));
    r
}

/// Splits a 32-bit value into its four bytes, most significant first.
pub fn u32_to_be(val: u32) -> (r: [u8; 4])
    ensures
        r@ == be_bytes_u32(val),
{
    let r: [u8; 4] = [
        (val / 0x100_0000) as u8,
        ((val / 0x1_0000) % 0x100) as u8,
        ((val / 0x100) % 0x100) as u8,
        (val % 0x100) as u8,
    ];
    assert(r@ =~= be_bytes_u32(val));
    r
}

/// Joins two bytes, most significant first, into a 16-bit value.
pub fn u16_from_be(hi: u8, lo: u8) -> (r: u16)
    ensures
        r == be_value_u16(hi, lo),
{
    (hi as u16) * 0x100 + lo as u16
}

/// Joins four bytes, most significant first, into a 32-bit value.
pub fn u32_from_be(b3: u8, b2: u8, b1: u8, b0: u8) -> (r: u32)
    ensures
        r == be_value_u32(b3, b2, b1, b0),
{
    (b3 as u32) * 0x100_0000 + (b2 as u32) * 0x1_0000 + (b1 as u32) * 0x100 + b0 as u32
}

/// Splitting a 16-bit value into bytes and joining them gives the value back.
pub proof fn lemma_be_u16_round_trip(val: u16)
    ensures
        be_value_u16(be_bytes_u16(val)[0], be_bytes_u16(val)[1]) == val,
{
}

/// Joining two bytes and splitting the value gives the bytes back.
pub proof fn lemma_be_u16_bytes_of_value(hi: u8, lo: u8)
    ensures
        be_bytes_u16(be_value_u16(hi, lo)) == seq![hi, lo],
{
    assert(be_bytes_u16(be_value_u16(hi, lo)) =~= seq![hi, lo]);
}

/// Splitting a 32-bit value into bytes and joining them gives the value back.
pub proof fn lemma_be_u32_round_trip(val: u32)
    ensures
        be_value_u32(
            be_bytes_u32(val)[0],
            be_bytes_u32(val)[1],
            be_bytes_u32(val)[2],
            be_bytes_u32(val)[3],
        ) == val,
{
    assert((val / 0x100_0000u32) * 0x100_0000u32 + ((val / 0x1_0000u32) % 0x100u32) * 0x1_0000u32
        + ((val / 0x100u32) % 0x100u32) * 0x100u32 + val % 0x100u32 == val) by (bit_vector);
}

/// Joining four bytes and splitting the value gives the bytes back.
pub proof fn lemma_be_u32_bytes_of_value(b3: u8, b2: u8, b1: u8, b0: u8)
    ensures
        be_bytes_u32(be_value_u32(b3, b2, b1, b0)) == seq![b3, b2, b1, b0],
{
    let v: u32 = be_value_u32(b3, b2, b1, b0);
    let (w3, w2, w1, w0) = (b3 as u32, b2 as u32, b1 as u32, b0 as u32);
    assert(v == w3 * 0x100_0000 + w2 * 0x1_0000 + w1 * 0x100 + w0);
    assert(w3 < 0x100 && w2 < 0x100 && w1 < 0x100 && w0 < 0x100 && v == w3 * 0x100_0000u32 + w2
        * 0x1_0000u32 + w1 * 0x100u32 + w0 ==> v / 0x100_0000u32 == w3 && (v / 0x1_0000u32)
        % 0x100u32 == w2 && (v / 0x100u32) % 0x100u32 == w1 && v % 0x100u32 == w0) by (bit_vector);
    assert(be_bytes_u32(v) =~= seq![b3, b2, b1, b0]);
}

} // verus!
