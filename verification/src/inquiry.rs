//! The inquiries of the camera: the bytes of each, and the templates by which
//! its reply is read.
//!
//! An inquiry is the camera address `0x81`, the class byte `0x09`, the bytes
//! that name the setting, and the terminator `0xFF`. It has no parameter. The
//! reply that carries the value opens with `0x90 0x50` and closes with `0xFF`;
//! what stands between depends on the setting that was asked for, so a reply
//! can only be read by the inquiry that it answers.

use vstd::prelude::*;
use crate::commands;
use crate::messages::{
    joined_u8, lemma_u8_round_trip, merge_u8, MessageType, ViscaInquiry, ViscaMessage,
    CAMERA_ADDRESS, CLASS_INQUIRY, TERMINATOR,
};
use crate::reply::{
    is_value_reply, reply_failure, REPLY_ADDRESS, REPLY_TERMINATOR, REPLY_VALUE,
};
use crate::ViscaError;

verus! {

/// The exposure modes that the camera reports.
#[derive(Debug, Clone, Copy, PartialEq, Eq, Structural)]
pub enum ExposureMode {
    FullAuto,
    Manual,
    ShutterPriority,
    IrisPriority,
    GainPriority,
}

/// What the reply to an exposure inquiry carries. Which form comes back is
/// fixed by the inquiry.
#[derive(Debug, Clone, Copy, PartialEq, Eq, Structural)]
pub enum ExposureValue {
    /// The exposure mode.
    Mode(ExposureMode),
    /// A switch: `true` for on.
    Switch(bool),
    /// A position, a level or a speed, as the camera numbers it.
    Level(u8),
    /// The three settings of the visibility enhancer.
    Enhancer { level: u8, brightness: u8, compensation: u8 },
}

/// Whether `bytes` is a reply of `len` bytes that carries a value.
pub open spec fn is_value_frame(bytes: Seq<u8>, len: nat) -> bool {
    bytes.len() == len && is_value_reply(bytes)
}

/// The template `90 50 mm FF`, where `mm` names an exposure mode.
pub open spec fn mode_reply(bytes: Seq<u8>) -> Option<ExposureValue> {
    if !is_value_frame(bytes, 4) {
        None
    } else if bytes[2] == 0x00 {
        Some(ExposureValue::Mode(ExposureMode::FullAuto))
    } else if bytes[2] == 0x03 {
        Some(ExposureValue::Mode(ExposureMode::Manual))
    } else if bytes[2] == 0x0A {
        Some(ExposureValue::Mode(ExposureMode::ShutterPriority))
    } else if bytes[2] == 0x0B {
        Some(ExposureValue::Mode(ExposureMode::IrisPriority))
    } else if bytes[2] == 0x0E {
        Some(ExposureValue::Mode(ExposureMode::GainPriority))
    } else {
        None
    }
}

/// The template `90 50 ss FF` of a switch, where `ss` is `on` for on and
/// `0x03` for off.
pub open spec fn switch_reply(bytes: Seq<u8>, on: u8) -> Option<ExposureValue> {
    if !is_value_frame(bytes, 4) {
        None
    } else if bytes[2] == on {
        Some(ExposureValue::Switch(true))
    } else if bytes[2] == 0x03 {
        Some(ExposureValue::Switch(false))
    } else {
        None
    }
}

/// The template `90 50 pp FF`: the value is the byte `pp`.
pub open spec fn byte_reply(bytes: Seq<u8>) -> Option<ExposureValue> {
    if is_value_frame(bytes, 4) {
        Some(ExposureValue::Level(bytes[2]))
    } else {
        None
    }
}

/// The template `90 50 0p 0q FF`: the value is the byte of the nibbles `p`, `q`.
pub open spec fn pair_reply(bytes: Seq<u8>) -> Option<ExposureValue> {
    if is_value_frame(bytes, 5) {
        Some(ExposureValue::Level(joined_u8(bytes[2], bytes[3])))
    } else {
        None
    }
}

/// The template `90 50 00 00 0p 0q FF`: the value is the byte of the nibbles
/// `p`, `q`.
pub open spec fn padded_pair_reply(bytes: Seq<u8>) -> Option<ExposureValue> {
    if is_value_frame(bytes, 7) && bytes[2] == 0x00 && bytes[3] == 0x00 {
        Some(ExposureValue::Level(joined_u8(bytes[4], bytes[5])))
    } else {
        None
    }
}

/// The template `90 50 00 0p 0q 0r 00 00 00 00 FF` of the visibility enhancer.
pub open spec fn enhancer_reply(bytes: Seq<u8>) -> Option<ExposureValue> {
    if is_value_frame(bytes, 11) && bytes[2] == 0x00 && bytes[6] == 0x00 && bytes[7] == 0x00
        && bytes[8] == 0x00 && bytes[9] == 0x00 {
        Some(
            ExposureValue::Enhancer {
                level: bytes[3],
                brightness: bytes[4],
                compensation: bytes[5],
            },
        )
    } else {
        None
    }
}

/// Tells whether `bytes` is a reply of `len` bytes that carries a value.
fn value_frame(bytes: &[u8], len: usize) -> (r: bool)
    ensures
        r == is_value_frame(bytes@, len as nat),
{
    bytes.len() == len && len >= 3 && bytes[0] == REPLY_ADDRESS && bytes[1] == REPLY_VALUE
        && bytes[len - 1] == REPLY_TERMINATOR
}

fn read_mode(bytes: &[u8]) -> (r: Option<ExposureValue>)
    ensures
        r == mode_reply(bytes@),
{
    if !value_frame(bytes, 4) {
        None
    } else if bytes[2] == 0x00 {
        Some(ExposureValue::Mode(ExposureMode::FullAuto))
    } else if bytes[2] == 0x03 {
        Some(ExposureValue::Mode(ExposureMode::Manual))
    } else if bytes[2] == 0x0A {
        Some(ExposureValue::Mode(ExposureMode::ShutterPriority))
    } else if bytes[2] == 0x0B {
        Some(ExposureValue::Mode(ExposureMode::IrisPriority))
    } else if bytes[2] == 0x0E {
        Some(ExposureValue::Mode(ExposureMode::GainPriority))
    } else {
        None
    }
}

fn read_switch(bytes: &[u8], on: u8) -> (r: Option<ExposureValue>)
    ensures
        r == switch_reply(bytes@, on),
{
    if !value_frame(bytes, 4) {
        None
    } else if bytes[2] == on {
        Some(ExposureValue::Switch(true))
    } else if bytes[2] == 0x03 {
        Some(ExposureValue::Switch(false))
    } else {
        None
    }
}

fn read_byte(bytes: &[u8]) -> (r: Option<ExposureValue>)
    ensures
        r == byte_reply(bytes@),
{
    if value_frame(bytes, 4) {
        Some(ExposureValue::Level(bytes[2]))
    } else {
        None
    }
}

fn read_pair(bytes: &[u8]) -> (r: Option<ExposureValue>)
    ensures
        r == pair_reply(bytes@),
{
    if value_frame(bytes, 5) {
        Some(ExposureValue::Level(merge_u8(bytes[2], bytes[3])))
    } else {
        None
    }
}

fn read_padded_pair(bytes: &[u8]) -> (r: Option<ExposureValue>)
    ensures
        r == padded_pair_reply(bytes@),
{
    if value_frame(bytes, 7) && bytes[2] == 0x00 && bytes[3] == 0x00 {
        Some(ExposureValue::Level(merge_u8(bytes[4], bytes[5])))
    } else {
        None
    }
}

fn read_enhancer(bytes: &[u8]) -> (r: Option<ExposureValue>)
    ensures
        r == enhancer_reply(bytes@),
{
    if value_frame(bytes, 11) && bytes[2] == 0x00 && bytes[6] == 0x00 && bytes[7] == 0x00
        && bytes[8] == 0x00 && bytes[9] == 0x00 {
        Some(
            ExposureValue::Enhancer {
                level: bytes[3],
                brightness: bytes[4],
                compensation: bytes[5],
            },
        )
    } else {
        None
    }
}

/// The exposure settings that can be asked for.
#[derive(Debug, Clone, Copy, PartialEq, Eq)]
pub enum Exposure {
    Mode,
    Iris,
    Gain,
    GainLimit,
    GainPoint,
    GainPointPosition,
    Shutter,
    MaxShutter,
    MinShutter,
    AESpeed,
    ExpCompOnOff,
    ExpCompLevel,
    BackLight,
    SpotLight,
    VisEnhanceOnOff,
    VisEnhanceLevel,
    LowLightBasisBrightnessOnOff,
    LowLightBasisBrightnessLevel,
    NDFilter,
}

impl ViscaMessage for Exposure {
    open spec fn in_range(&self) -> bool {
        true
    }

    open spec fn encoding(&self) -> Seq<u8> {
        match *self {
            Exposure::Mode => seq![0x81u8, 0x09, 0x04, 0x39, 0xFF],
            Exposure::Iris => seq![0x81u8, 0x09, 0x04, 0x4B, 0xFF],
            Exposure::Gain => seq![0x81u8, 0x09, 0x04, 0x4C, 0xFF],
            Exposure::GainLimit => seq![0x81u8, 0x09, 0x04, 0x2C, 0xFF],
            Exposure::GainPoint => seq![0x81u8, 0x09, 0x05, 0x0C, 0xFF],
            Exposure::GainPointPosition => seq![0x81u8, 0x09, 0x05, 0x4C, 0xFF],
            Exposure::Shutter => seq![0x81u8, 0x09, 0x04, 0x4A, 0xFF],
            Exposure::MaxShutter => seq![0x81u8, 0x09, 0x05, 0x2A, 0x00, 0xFF],
            Exposure::MinShutter => seq![0x81u8, 0x09, 0x05, 0x2A, 0x01, 0xFF],
            Exposure::AESpeed => seq![0x81u8, 0x09, 0x04, 0x5D, 0xFF],
            Exposure::ExpCompOnOff => seq![0x81u8, 0x09, 0x04, 0x3E, 0xFF],
            Exposure::ExpCompLevel => seq![0x81u8, 0x09, 0x04, 0x4E, 0xFF],
            Exposure::BackLight => seq![0x81u8, 0x09, 0x04, 0x33, 0xFF],
            Exposure::SpotLight => seq![0x81u8, 0x09, 0x04, 0x3A, 0xFF],
            Exposure::VisEnhanceOnOff => seq![0x81u8, 0x09, 0x04, 0x3D, 0xFF],
            Exposure::VisEnhanceLevel => seq![0x81u8, 0x09, 0x04, 0x2D, 0xFF],
            Exposure::LowLightBasisBrightnessOnOff => seq![0x81u8, 0x09, 0x05, 0x39, 0xFF],
            Exposure::LowLightBasisBrightnessLevel => seq![0x81u8, 0x09, 0x05, 0x49, 0xFF],
            Exposure::NDFilter => seq![0x81u8, 0x09, 0x7E, 0x01, 0x53, 0xFF],
        }
    }

    open spec fn message_type(&self) -> MessageType {
        MessageType::Inquiry
    }

    fn bytes(&self) -> (r: Result<Vec<u8>, ViscaError>) {
        let v: Vec<u8> = match *self {
            Exposure::Mode => vec![0x81, 0x09, 0x04, 0x39, 0xFF],
            Exposure::Iris => vec![0x81, 0x09, 0x04, 0x4B, 0xFF],
            Exposure::Gain => vec![0x81, 0x09, 0x04, 0x4C, 0xFF],
            Exposure::GainLimit => vec![0x81, 0x09, 0x04, 0x2C, 0xFF],
            Exposure::GainPoint => vec![0x81, 0x09, 0x05, 0x0C, 0xFF],
            Exposure::GainPointPosition => vec![0x81, 0x09, 0x05, 0x4C, 0xFF],
            Exposure::Shutter => vec![0x81, 0x09, 0x04, 0x4A, 0xFF],
            Exposure::MaxShutter => vec![0x81, 0x09, 0x05, 0x2A, 0x00, 0xFF],
            Exposure::MinShutter => vec![0x81, 0x09, 0x05, 0x2A, 0x01, 0xFF],
            Exposure::AESpeed => vec![0x81, 0x09, 0x04, 0x5D, 0xFF],
            Exposure::ExpCompOnOff => vec![0x81, 0x09, 0x04, 0x3E, 0xFF],
            Exposure::ExpCompLevel => vec![0x81, 0x09, 0x04, 0x4E, 0xFF],
            Exposure::BackLight => vec![0x81, 0x09, 0x04, 0x33, 0xFF],
            Exposure::SpotLight => vec![0x81, 0x09, 0x04, 0x3A, 0xFF],
            Exposure::VisEnhanceOnOff => vec![0x81, 0x09, 0x04, 0x3D, 0xFF],
            Exposure::VisEnhanceLevel => vec![0x81, 0x09, 0x04, 0x2D, 0xFF],
            Exposure::LowLightBasisBrightnessOnOff => vec![0x81, 0x09, 0x05, 0x39, 0xFF],
            Exposure::LowLightBasisBrightnessLevel => vec![0x81, 0x09, 0x05, 0x49, 0xFF],
            Exposure::NDFilter => vec![0x81, 0x09, 0x7E, 0x01, 0x53, 0xFF],
        };
        assert(v@ =~= self.encoding());
        Ok(v)
    }

    fn msg_type(&self) -> (t: MessageType) {
        MessageType::Inquiry
    }

    proof fn lemma_encoding_is_request(&self) {
    }

    proof fn lemma_encoding_is_one_to_one(&self, other: &Self) {
        let a = self.encoding();
        let b = other.encoding();
        assert(a.len() == b.len());
        assert(a[2] == b[2] && a[3] == b[3] && a[4] == b[4]);
    }
}

impl ViscaInquiry for Exposure {
    type Reply = ExposureValue;

    open spec fn reply_of(&self, bytes: Seq<u8>) -> Option<ExposureValue> {
        match *self {
            Exposure::Mode => mode_reply(bytes),
            Exposure::Iris => padded_pair_reply(bytes),
            Exposure::Gain => padded_pair_reply(bytes),
            Exposure::GainLimit => byte_reply(bytes),
            Exposure::GainPoint => switch_reply(bytes, 0x02),
            Exposure::GainPointPosition => pair_reply(bytes),
            Exposure::Shutter => padded_pair_reply(bytes),
            Exposure::MaxShutter => pair_reply(bytes),
            Exposure::MinShutter => pair_reply(bytes),
            Exposure::AESpeed => byte_reply(bytes),
            Exposure::ExpCompOnOff => switch_reply(bytes, 0x02),
            Exposure::ExpCompLevel => padded_pair_reply(bytes),
            Exposure::BackLight => switch_reply(bytes, 0x02),
            Exposure::SpotLight => switch_reply(bytes, 0x02),
            Exposure::VisEnhanceOnOff => switch_reply(bytes, 0x06),
            Exposure::VisEnhanceLevel => enhancer_reply(bytes),
            Exposure::LowLightBasisBrightnessOnOff => switch_reply(bytes, 0x02),
            Exposure::LowLightBasisBrightnessLevel => byte_reply(bytes),
            Exposure::NDFilter => byte_reply(bytes),
        }
    }

    fn parse_reply(&self, bytes: &[u8]) -> (r: Result<ExposureValue, ViscaError>) {
        let found: Option<ExposureValue> = match *self {
            Exposure::Mode => read_mode(bytes),
            Exposure::Iris => read_padded_pair(bytes),
            Exposure::Gain => read_padded_pair(bytes),
            Exposure::GainLimit => read_byte(bytes),
            Exposure::GainPoint => read_switch(bytes, 0x02),
            Exposure::GainPointPosition => read_pair(bytes),
            Exposure::Shutter => read_padded_pair(bytes),
            Exposure::MaxShutter => read_pair(bytes),
            Exposure::MinShutter => read_pair(bytes),
            Exposure::AESpeed => read_byte(bytes),
            Exposure::ExpCompOnOff => read_switch(bytes, 0x02),
            Exposure::ExpCompLevel => read_padded_pair(bytes),
            Exposure::BackLight => read_switch(bytes, 0x02),
            Exposure::SpotLight => read_switch(bytes, 0x02),
            Exposure::VisEnhanceOnOff => read_switch(bytes, 0x06),
            Exposure::VisEnhanceLevel => read_enhancer(bytes),
            Exposure::LowLightBasisBrightnessOnOff => read_switch(bytes, 0x02),
            Exposure::LowLightBasisBrightnessLevel => read_byte(bytes),
            Exposure::NDFilter => read_byte(bytes),
        };
        match found {
            Some(v) => Ok(v),
            None => Err(reply_failure(bytes)),
        }
    }

    proof fn lemma_inquiry(&self, bytes: Seq<u8>) {
    }
}

/// The setting that an exposure command sets and the value that it sets it to.
/// `None` for a command that sets no value of its own: a reset, a step up or
/// down, and the switch of the infrared cut filter, of which no inquiry asks.
pub open spec fn setting_of(command: commands::Exposure) -> Option<(Exposure, ExposureValue)> {
    match command {
        commands::Exposure::ModeFullAuto => Some(
            (Exposure::Mode, ExposureValue::Mode(ExposureMode::FullAuto)),
        ),
        commands::Exposure::ModeManual => Some(
            (Exposure::Mode, ExposureValue::Mode(ExposureMode::Manual)),
        ),
        commands::Exposure::ModeShutterPri => Some(
            (Exposure::Mode, ExposureValue::Mode(ExposureMode::ShutterPriority)),
        ),
        commands::Exposure::ModeIrisPri => Some(
            (Exposure::Mode, ExposureValue::Mode(ExposureMode::IrisPriority)),
        ),
        commands::Exposure::ModeGainPri => Some(
            (Exposure::Mode, ExposureValue::Mode(ExposureMode::GainPriority)),
        ),
        commands::Exposure::IrisDirect(p) => Some((Exposure::Iris, ExposureValue::Level(p))),
        commands::Exposure::GainDirect(p) => Some((Exposure::Gain, ExposureValue::Level(p))),
        commands::Exposure::GainLimit(p) => Some((Exposure::GainLimit, ExposureValue::Level(p))),
        commands::Exposure::GainPoint(p) => Some(
            (Exposure::GainPoint, ExposureValue::Switch(p == 2)),
        ),
        commands::Exposure::GainPointPos(p) => Some(
            (Exposure::GainPointPosition, ExposureValue::Level(p)),
        ),
        commands::Exposure::ShutterDirect(p) => Some((Exposure::Shutter, ExposureValue::Level(p))),
        commands::Exposure::MaxShutter(p) => Some((Exposure::MaxShutter, ExposureValue::Level(p))),
        commands::Exposure::MinShutter(p) => Some((Exposure::MinShutter, ExposureValue::Level(p))),
        commands::Exposure::AESpeed(p) => Some((Exposure::AESpeed, ExposureValue::Level(p))),
        commands::Exposure::ExpCompOnOff(p) => Some(
            (Exposure::ExpCompOnOff, ExposureValue::Switch(p == 2)),
        ),
        commands::Exposure::ExpCompDirect(p) => Some(
            (Exposure::ExpCompLevel, ExposureValue::Level(p)),
        ),
        commands::Exposure::BackLight(p) => Some(
            (Exposure::BackLight, ExposureValue::Switch(p == 2)),
        ),
        commands::Exposure::SpotLight(p) => Some(
            (Exposure::SpotLight, ExposureValue::Switch(p == 2)),
        ),
        commands::Exposure::VisEnhanceOn => Some(
            (Exposure::VisEnhanceOnOff, ExposureValue::Switch(true)),
        ),
        commands::Exposure::VisEnhanceOff => Some(
            (Exposure::VisEnhanceOnOff, ExposureValue::Switch(false)),
        ),
        commands::Exposure::VisEnhanceDirect(p, q, r) => Some(
            (
                Exposure::VisEnhanceLevel,
                ExposureValue::Enhancer { level: p, brightness: q, compensation: r },
            ),
        ),
        commands::Exposure::LowLightBasisBrightnessOnOff(p) => Some(
            (Exposure::LowLightBasisBrightnessOnOff, ExposureValue::Switch(p == 2)),
        ),
        commands::Exposure::LowLightBasisBrightnessDirect(p) => Some(
            (Exposure::LowLightBasisBrightnessLevel, ExposureValue::Level(p)),
        ),
        commands::Exposure::NDFilter(p) => Some((Exposure::NDFilter, ExposureValue::Level(p))),
        _ => None,
    }
}

/// An inquiry is the mirror of the command that sets what it asks for.
///
/// It names the setting by the bytes by which the command names it: where the
/// command is `81 01`, operation, parameters, `FF`, the inquiry is `81 09`,
/// the same operation, `FF`. And the reply carries the value as the command
/// does: read by the inquiry, `90 50` followed by the parameters and the
/// terminator of the command gives the value that the command set.
pub proof fn lemma_inquiry_mirrors_command(command: commands::Exposure)
    requires
        command.in_range(),
        setting_of(command) is Some,
    ensures
        ({
            let (inquiry, value) = setting_of(command)->Some_0;
            let operation = command.encoding().subrange(2, inquiry.encoding().len() - 1);
            let parameters = command.encoding().skip(inquiry.encoding().len() - 1);
            &&& inquiry.encoding() == seq![CAMERA_ADDRESS, CLASS_INQUIRY] + operation
                + seq![TERMINATOR]
            &&& inquiry.reply_of(seq![REPLY_ADDRESS, REPLY_VALUE] + parameters) == Some(value)
        }),
{
    let (inquiry, value) = setting_of(command)->Some_0;
    let operation = command.encoding().subrange(2, inquiry.encoding().len() - 1);
    let parameters = command.encoding().skip(inquiry.encoding().len() - 1);
    let reply = seq![REPLY_ADDRESS, REPLY_VALUE] + parameters;
    assert(inquiry.encoding() =~= seq![CAMERA_ADDRESS, CLASS_INQUIRY] + operation
        + seq![TERMINATOR]);
    match command {
        commands::Exposure::IrisDirect(p) => lemma_u8_round_trip(p),
        commands::Exposure::GainDirect(p) => lemma_u8_round_trip(p),
        commands::Exposure::GainPointPos(p) => lemma_u8_round_trip(p),
        commands::Exposure::ShutterDirect(p) => lemma_u8_round_trip(p),
        commands::Exposure::MaxShutter(p) => lemma_u8_round_trip(p),
        commands::Exposure::MinShutter(p) => lemma_u8_round_trip(p),
        commands::Exposure::ExpCompDirect(p) => lemma_u8_round_trip(p),
        _ => {},
    }
    assert(reply.len() == parameters.len() + 2);
    assert(forall|i: int| 0 <= i < parameters.len() ==> reply[i + 2] == parameters[i]);
}

} // verus!
