//! The commands of the camera, family by family: the bytes of each command and
//! the range of each parameter.
//!
//! A command is the camera address `0x81`, the class byte `0x01`, the bytes
//! that name the operation, the parameters, and the terminator `0xFF`. A
//! parameter stands as one byte, or is split into nibbles, most significant
//! first, one to a byte, as its operation has it. A parameter outside its range
//! is never encoded: `bytes` refuses it.

use vstd::prelude::*;
use crate::messages::{
    nibble_of, u16bot, u16midbot, u16midtop, u16top, u32byte0, u32byte1, u32byte2, u32byte3,
    u32byte4, u8bot, u8top, MessageType, ViscaCommand, ViscaMessage,
};
use crate::messages::{
    lemma_nibbles_tell_u12, lemma_nibbles_tell_u16, lemma_nibbles_tell_u20, lemma_nibbles_tell_u8,
};
use crate::{ErrorKind, ViscaError};

verus! {

/// The operation byte of a drive at a chosen speed: the direction in the high
/// nibble, the speed in the low one.
fn drive_byte(direction: u8, speed: u8) -> (r: u8)
    requires
        direction == 0x20 || direction == 0x30,
        speed <= 7,
    ensures
        r == direction + speed,
{
    let low: u8 = u8bot(speed);
    assert(low == speed) by {
        reveal(nibble_of);
    }
    assert(low <= 7 && (direction == 0x20 || direction == 0x30) ==> direction | low == direction
        + low) by (bit_vector);
    direction | low
}

/// Exposure: mode, iris, gain, shutter, compensation and the aids to it.
#[derive(Debug, Clone, Copy, PartialEq, Eq)]
pub enum Exposure {
    ModeFullAuto,
    ModeManual,
    ModeShutterPri,
    ModeIrisPri,
    ModeGainPri,
    IrisReset,
    IrisUp,
    IrisDown,
    /// Iris position 0x05 to 0x15.
    IrisDirect(u8),
    GainReset,
    GainUp,
    GainDown,
    /// Gain 0x00 (-3 dB) to 0x0C (33 dB).
    GainDirect(u8),
    /// Limit 4 (9 dB) to 9 (24 dB), or 0xFF for none.
    GainLimit(u8),
    /// 2 = on, 3 = off.
    GainPoint(u8),
    /// Position 0x01 (0 dB) to 0x09 (24 dB).
    GainPointPos(u8),
    ShutterReset,
    ShutterUp,
    ShutterDown,
    /// Shutter position 0x01 to 0x15.
    ShutterDirect(u8),
    /// Fastest shutter position, 0x03 to 0x15.
    MaxShutter(u8),
    /// Slowest shutter position, 0x03 to 0x15.
    MinShutter(u8),
    /// Speed 0x01 to 0x30.
    AESpeed(u8),
    /// 2 = on, 3 = off.
    ExpCompOnOff(u8),
    ExpCompReset,
    ExpCompUp,
    ExpCompDown,
    /// Level 0x00 to 0x0E.
    ExpCompDirect(u8),
    /// 2 = on, 3 = off.
    BackLight(u8),
    /// 2 = on, 3 = off.
    SpotLight(u8),
    /// Switches the visibility enhancer on. The switch is 6 here, not the usual 2.
    VisEnhanceOn,
    VisEnhanceOff,
    /// Effect level 0 (dark) to 6 (bright); brightness compensation 0 (very dark),
    /// 1 (dark), 2 (standard), 3 (bright); compensation level 0 (low), 1 (mid), 2 (high).
    VisEnhanceDirect(u8, u8, u8),
    /// 2 = on (night), 3 = off (day).
    IrCutFilterOnOff(u8),
    /// 2 = on, 3 = off.
    LowLightBasisBrightnessOnOff(u8),
    /// Level 0x04 to 0x0A.
    LowLightBasisBrightnessDirect(u8),
    /// 0 = off, 1 = 1/4, 2 = 1/16, 3 = 1/64.
    NDFilter(u8),
}

impl Exposure {
    /// Tells whether every parameter lies within its range.
    pub fn check_range(&self) -> (b: bool)
        ensures
            b == self.in_range(),
    {
        match *self {
            Exposure::IrisDirect(p) => 0x05 <= p && p <= 0x15,
            Exposure::GainDirect(p) => p <= 0x0C,
            Exposure::GainLimit(p) => (0x04 <= p && p <= 0x09) || p == 0xFF,
            Exposure::GainPoint(p) => p == 0x02 || p == 0x03,
            Exposure::GainPointPos(p) => 0x01 <= p && p <= 0x09,
            Exposure::ShutterDirect(p) => 0x01 <= p && p <= 0x15,
            Exposure::MaxShutter(p) => 0x03 <= p && p <= 0x15,
            Exposure::MinShutter(p) => 0x03 <= p && p <= 0x15,
            Exposure::AESpeed(p) => 0x01 <= p && p <= 0x30,
            Exposure::ExpCompOnOff(p) => p == 0x02 || p == 0x03,
            Exposure::ExpCompDirect(p) => p <= 0x0E,
            Exposure::BackLight(p) => p == 0x02 || p == 0x03,
            Exposure::SpotLight(p) => p == 0x02 || p == 0x03,
            Exposure::VisEnhanceDirect(p, q, r) => p <= 0x06 && q <= 0x03 && r <= 0x02,
            Exposure::IrCutFilterOnOff(p) => p == 0x02 || p == 0x03,
            Exposure::LowLightBasisBrightnessOnOff(p) => p == 0x02 || p == 0x03,
            Exposure::LowLightBasisBrightnessDirect(p) => 0x04 <= p && p <= 0x0A,
            Exposure::NDFilter(p) => p <= 0x03,
            _ => true,
        }
    }
}

impl ViscaMessage for Exposure {
    open spec fn in_range(&self) -> bool {
        match *self {
            Exposure::IrisDirect(p) => 0x05 <= p <= 0x15,
            Exposure::GainDirect(p) => p <= 0x0C,
            Exposure::GainLimit(p) => 0x04 <= p <= 0x09 || p == 0xFF,
            Exposure::GainPoint(p) => p == 0x02 || p == 0x03,
            Exposure::GainPointPos(p) => 0x01 <= p <= 0x09,
            Exposure::ShutterDirect(p) => 0x01 <= p <= 0x15,
            Exposure::MaxShutter(p) => 0x03 <= p <= 0x15,
            Exposure::MinShutter(p) => 0x03 <= p <= 0x15,
            Exposure::AESpeed(p) => 0x01 <= p <= 0x30,
            Exposure::ExpCompOnOff(p) => p == 0x02 || p == 0x03,
            Exposure::ExpCompDirect(p) => p <= 0x0E,
            Exposure::BackLight(p) => p == 0x02 || p == 0x03,
            Exposure::SpotLight(p) => p == 0x02 || p == 0x03,
            Exposure::VisEnhanceDirect(p, q, r) => p <= 0x06 && q <= 0x03 && r <= 0x02,
            Exposure::IrCutFilterOnOff(p) => p == 0x02 || p == 0x03,
            Exposure::LowLightBasisBrightnessOnOff(p) => p == 0x02 || p == 0x03,
            Exposure::LowLightBasisBrightnessDirect(p) => 0x04 <= p <= 0x0A,
            Exposure::NDFilter(p) => p <= 0x03,
            _ => true,
        }
    }

    open spec fn encoding(&self) -> Seq<u8> {
        match *self {
            Exposure::ModeFullAuto => seq![0x81u8, 0x01, 0x04, 0x39, 0x00, 0xFF],
            Exposure::ModeManual => seq![0x81u8, 0x01, 0x04, 0x39, 0x03, 0xFF],
            Exposure::ModeShutterPri => seq![0x81u8, 0x01, 0x04, 0x39, 0x0A, 0xFF],
            Exposure::ModeIrisPri => seq![0x81u8, 0x01, 0x04, 0x39, 0x0B, 0xFF],
            Exposure::ModeGainPri => seq![0x81u8, 0x01, 0x04, 0x39, 0x0E, 0xFF],
            Exposure::IrisReset => seq![0x81u8, 0x01, 0x04, 0x0B, 0x00, 0xFF],
            Exposure::IrisUp => seq![0x81u8, 0x01, 0x04, 0x0B, 0x02, 0xFF],
            Exposure::IrisDown => seq![0x81u8, 0x01, 0x04, 0x0B, 0x03, 0xFF],
            Exposure::IrisDirect(p) => seq![
                0x81u8,
                0x01,
                0x04,
                0x4B,
                0x00,
                0x00,
                nibble_of(p as nat, 0x10),
                nibble_of(p as nat, 1),
                0xFF,
            ],
            Exposure::GainReset => seq![0x81u8, 0x01, 0x04, 0x0C, 0x00, 0xFF],
            Exposure::GainUp => seq![0x81u8, 0x01, 0x04, 0x0C, 0x02, 0xFF],
            Exposure::GainDown => seq![0x81u8, 0x01, 0x04, 0x0C, 0x03, 0xFF],
            Exposure::GainDirect(p) => seq![
                0x81u8,
                0x01,
                0x04,
                0x4C,
                0x00,
                0x00,
                nibble_of(p as nat, 0x10),
                nibble_of(p as nat, 1),
                0xFF,
            ],
            Exposure::GainLimit(p) => seq![0x81u8, 0x01, 0x04, 0x2C, p, 0xFF],
            Exposure::GainPoint(p) => seq![0x81u8, 0x01, 0x05, 0x0C, p, 0xFF],
            Exposure::GainPointPos(p) => seq![
                0x81u8,
                0x01,
                0x05,
                0x4C,
                nibble_of(p as nat, 0x10),
                nibble_of(p as nat, 1),
                0xFF,
            ],
            Exposure::ShutterReset => seq![0x81u8, 0x01, 0x04, 0x0A, 0x00, 0xFF],
            Exposure::ShutterUp => seq![0x81u8, 0x01, 0x04, 0x0A, 0x02, 0xFF],
            Exposure::ShutterDown => seq![0x81u8, 0x01, 0x04, 0x0A, 0x03, 0xFF],
            Exposure::ShutterDirect(p) => seq![
                0x81u8,
                0x01,
                0x04,
                0x4A,
                0x00,
                0x00,
                nibble_of(p as nat, 0x10),
                nibble_of(p as nat, 1),
                0xFF,
            ],
            Exposure::MaxShutter(p) => seq![
                0x81u8,
                0x01,
                0x05,
                0x2A,
                0x00,
                nibble_of(p as nat, 0x10),
                nibble_of(p as nat, 1),
                0xFF,
            ],
            Exposure::MinShutter(p) => seq![
                0x81u8,
                0x01,
                0x05,
                0x2A,
                0x01,
                nibble_of(p as nat, 0x10),
                nibble_of(p as nat, 1),
                0xFF,
            ],
            Exposure::AESpeed(p) => seq![0x81u8, 0x01, 0x04, 0x5D, p, 0xFF],
            Exposure::ExpCompOnOff(p) => seq![0x81u8, 0x01, 0x04, 0x3E, p, 0xFF],
            Exposure::ExpCompReset => seq![0x81u8, 0x01, 0x04, 0x0E, 0x00, 0xFF],
            Exposure::ExpCompUp => seq![0x81u8, 0x01, 0x04, 0x0E, 0x02, 0xFF],
            Exposure::ExpCompDown => seq![0x81u8, 0x01, 0x04, 0x0E, 0x03, 0xFF],
            Exposure::ExpCompDirect(p) => seq![
                0x81u8,
                0x01,
                0x04,
                0x4E,
                0x00,
                0x00,
                nibble_of(p as nat, 0x10),
                nibble_of(p as nat, 1),
                0xFF,
            ],
            Exposure::BackLight(p) => seq![0x81u8, 0x01, 0x04, 0x33, p, 0xFF],
            Exposure::SpotLight(p) => seq![0x81u8, 0x01, 0x04, 0x3A, p, 0xFF],
            Exposure::VisEnhanceOn => seq![0x81u8, 0x01, 0x04, 0x3D, 0x06, 0xFF],
            Exposure::VisEnhanceOff => seq![0x81u8, 0x01, 0x04, 0x3D, 0x03, 0xFF],
            Exposure::VisEnhanceDirect(p, q, r) => seq![
                0x81u8,
                0x01,
                0x04,
                0x2D,
                0x00,
                p,
                q,
                r,
                0x00,
                0x00,
                0x00,
                0x00,
                0xFF,
            ],
            Exposure::IrCutFilterOnOff(p) => seq![0x81u8, 0x01, 0x04, 0x01, p, 0xFF],
            Exposure::LowLightBasisBrightnessOnOff(p) => seq![0x81u8, 0x01, 0x05, 0x39, p, 0xFF],
            Exposure::LowLightBasisBrightnessDirect(p) => seq![0x81u8, 0x01, 0x05, 0x49, p, 0xFF],
            Exposure::NDFilter(p) => seq![0x81u8, 0x01, 0x7E, 0x01, 0x53, p, 0xFF],
        }
    }

    open spec fn message_type(&self) -> MessageType {
        MessageType::Command
    }

    fn bytes(&self) -> (r: Result<Vec<u8>, ViscaError>) {
        if !self.check_range() {
            return Err(ViscaError::new(ErrorKind::Range));
        }
        let v: Vec<u8> = match *self {
            Exposure::ModeFullAuto => vec![0x81, 0x01, 0x04, 0x39, 0x00, 0xFF],
            Exposure::ModeManual => vec![0x81, 0x01, 0x04, 0x39, 0x03, 0xFF],
            Exposure::ModeShutterPri => vec![0x81, 0x01, 0x04, 0x39, 0x0A, 0xFF],
            Exposure::ModeIrisPri => vec![0x81, 0x01, 0x04, 0x39, 0x0B, 0xFF],
            Exposure::ModeGainPri => vec![0x81, 0x01, 0x04, 0x39, 0x0E, 0xFF],
            Exposure::IrisReset => vec![0x81, 0x01, 0x04, 0x0B, 0x00, 0xFF],
            Exposure::IrisUp => vec![0x81, 0x01, 0x04, 0x0B, 0x02, 0xFF],
            Exposure::IrisDown => vec![0x81, 0x01, 0x04, 0x0B, 0x03, 0xFF],
            Exposure::IrisDirect(p) => vec![
                0x81,
                0x01,
                0x04,
                0x4B,
                0x00,
                0x00,
                u8top(p),
                u8bot(p),
                0xFF,
            ],
            Exposure::GainReset => vec![0x81, 0x01, 0x04, 0x0C, 0x00, 0xFF],
            Exposure::GainUp => vec![0x81, 0x01, 0x04, 0x0C, 0x02, 0xFF],
            Exposure::GainDown => vec![0x81, 0x01, 0x04, 0x0C, 0x03, 0xFF],
            Exposure::GainDirect(p) => vec![
                0x81,
                0x01,
                0x04,
                0x4C,
                0x00,
                0x00,
                u8top(p),
                u8bot(p),
                0xFF,
            ],
            Exposure::GainLimit(p) => vec![0x81, 0x01, 0x04, 0x2C, p, 0xFF],
            Exposure::GainPoint(p) => vec![0x81, 0x01, 0x05, 0x0C, p, 0xFF],
            Exposure::GainPointPos(p) => vec![0x81, 0x01, 0x05, 0x4C, u8top(p), u8bot(p), 0xFF],
            Exposure::ShutterReset => vec![0x81, 0x01, 0x04, 0x0A, 0x00, 0xFF],
            Exposure::ShutterUp => vec![0x81, 0x01, 0x04, 0x0A, 0x02, 0xFF],
            Exposure::ShutterDown => vec![0x81, 0x01, 0x04, 0x0A, 0x03, 0xFF],
            Exposure::ShutterDirect(p) => vec![
                0x81,
                0x01,
                0x04,
                0x4A,
                0x00,
                0x00,
                u8top(p),
                u8bot(p),
                0xFF,
            ],
            Exposure::MaxShutter(p) => vec![0x81, 0x01, 0x05, 0x2A, 0x00, u8top(p), u8bot(p), 0xFF],
            Exposure::MinShutter(p) => vec![0x81, 0x01, 0x05, 0x2A, 0x01, u8top(p), u8bot(p), 0xFF],
            Exposure::AESpeed(p) => vec![0x81, 0x01, 0x04, 0x5D, p, 0xFF],
            Exposure::ExpCompOnOff(p) => vec![0x81, 0x01, 0x04, 0x3E, p, 0xFF],
            Exposure::ExpCompReset => vec![0x81, 0x01, 0x04, 0x0E, 0x00, 0xFF],
            Exposure::ExpCompUp => vec![0x81, 0x01, 0x04, 0x0E, 0x02, 0xFF],
            Exposure::ExpCompDown => vec![0x81, 0x01, 0x04, 0x0E, 0x03, 0xFF],
            Exposure::ExpCompDirect(p) => vec![
                0x81,
                0x01,
                0x04,
                0x4E,
                0x00,
                0x00,
                u8top(p),
                u8bot(p),
                0xFF,
            ],
            Exposure::BackLight(p) => vec![0x81, 0x01, 0x04, 0x33, p, 0xFF],
            Exposure::SpotLight(p) => vec![0x81, 0x01, 0x04, 0x3A, p, 0xFF],
            Exposure::VisEnhanceOn => vec![0x81, 0x01, 0x04, 0x3D, 0x06, 0xFF],
            Exposure::VisEnhanceOff => vec![0x81, 0x01, 0x04, 0x3D, 0x03, 0xFF],
            Exposure::VisEnhanceDirect(p, q, r) => vec![
                0x81,
                0x01,
                0x04,
                0x2D,
                0x00,
                p,
                q,
                r,
                0x00,
                0x00,
                0x00,
                0x00,
                0xFF,
            ],
            Exposure::IrCutFilterOnOff(p) => vec![0x81, 0x01, 0x04, 0x01, p, 0xFF],
            Exposure::LowLightBasisBrightnessOnOff(p) => vec![0x81, 0x01, 0x05, 0x39, p, 0xFF],
            Exposure::LowLightBasisBrightnessDirect(p) => vec![0x81, 0x01, 0x05, 0x49, p, 0xFF],
            Exposure::NDFilter(p) => vec![0x81, 0x01, 0x7E, 0x01, 0x53, p, 0xFF],
        };
        assert(v@ =~= self.encoding());
        Ok(v)
    }

    fn msg_type(&self) -> (t: MessageType) {
        MessageType::Command
    }

    proof fn lemma_encoding_is_request(&self) {
    }

    proof fn lemma_encoding_is_one_to_one(&self, other: &Self) {
        let a = self.encoding();
        let b = other.encoding();
        assert(a.len() == b.len());
        assert(a[2] == b[2] && a[3] == b[3] && a[4] == b[4] && a[5] == b[5] && a[6] == b[6]
            && a[7] == b[7] && a[8] == b[8] && a[9] == b[9] && a[10] == b[10] && a[11] == b[11]);
        match *self {
            Exposure::ModeFullAuto => {
                assert(*other is ModeFullAuto);
            },
            Exposure::ModeManual => {
                assert(*other is ModeManual);
            },
            Exposure::ModeShutterPri => {
                assert(*other is ModeShutterPri);
            },
            Exposure::ModeIrisPri => {
                assert(*other is ModeIrisPri);
            },
            Exposure::ModeGainPri => {
                assert(*other is ModeGainPri);
            },
            Exposure::IrisReset => {
                assert(*other is IrisReset);
            },
            Exposure::IrisUp => {
                assert(*other is IrisUp);
            },
            Exposure::IrisDown => {
                assert(*other is IrisDown);
            },
            Exposure::IrisDirect(p) => {
                assert(*other is IrisDirect);
                lemma_nibbles_tell_u8(p, other->IrisDirect_0);
            },
            Exposure::GainReset => {
                assert(*other is GainReset);
            },
            Exposure::GainUp => {
                assert(*other is GainUp);
            },
            Exposure::GainDown => {
                assert(*other is GainDown);
            },
            Exposure::GainDirect(p) => {
                assert(*other is GainDirect);
                lemma_nibbles_tell_u8(p, other->GainDirect_0);
            },
            Exposure::GainLimit(_) => {
                assert(*other is GainLimit);
            },
            Exposure::GainPoint(_) => {
                assert(*other is GainPoint);
            },
            Exposure::GainPointPos(p) => {
                assert(*other is GainPointPos);
                lemma_nibbles_tell_u8(p, other->GainPointPos_0);
            },
            Exposure::ShutterReset => {
                assert(*other is ShutterReset);
            },
            Exposure::ShutterUp => {
                assert(*other is ShutterUp);
            },
            Exposure::ShutterDown => {
                assert(*other is ShutterDown);
            },
            Exposure::ShutterDirect(p) => {
                assert(*other is ShutterDirect);
                lemma_nibbles_tell_u8(p, other->ShutterDirect_0);
            },
            Exposure::MaxShutter(p) => {
                assert(*other is MaxShutter);
                lemma_nibbles_tell_u8(p, other->MaxShutter_0);
            },
            Exposure::MinShutter(p) => {
                assert(*other is MinShutter);
                lemma_nibbles_tell_u8(p, other->MinShutter_0);
            },
            Exposure::AESpeed(_) => {
                assert(*other is AESpeed);
            },
            Exposure::ExpCompOnOff(_) => {
                assert(*other is ExpCompOnOff);
            },
            Exposure::ExpCompReset => {
                assert(*other is ExpCompReset);
            },
            Exposure::ExpCompUp => {
                assert(*other is ExpCompUp);
            },
            Exposure::ExpCompDown => {
                assert(*other is ExpCompDown);
            },
            Exposure::ExpCompDirect(p) => {
                assert(*other is ExpCompDirect);
                lemma_nibbles_tell_u8(p, other->ExpCompDirect_0);
            },
            Exposure::BackLight(_) => {
                assert(*other is BackLight);
            },
            Exposure::SpotLight(_) => {
                assert(*other is SpotLight);
            },
            Exposure::VisEnhanceOn => {
                assert(*other is VisEnhanceOn);
            },
            Exposure::VisEnhanceOff => {
                assert(*other is VisEnhanceOff);
            },
            Exposure::VisEnhanceDirect(_, _, _) => {
                assert(*other is VisEnhanceDirect);
            },
            Exposure::IrCutFilterOnOff(_) => {
                assert(*other is IrCutFilterOnOff);
            },
            Exposure::LowLightBasisBrightnessOnOff(_) => {
                assert(*other is LowLightBasisBrightnessOnOff);
            },
            Exposure::LowLightBasisBrightnessDirect(_) => {
                assert(*other is LowLightBasisBrightnessDirect);
            },
            Exposure::NDFilter(_) => {
                assert(*other is NDFilter);
            },
        }
    }
}

impl ViscaCommand for Exposure {
    proof fn lemma_command(&self) {
    }
}

/// Colour: white balance, the gains and the colour matrix.
#[derive(Debug, Clone, Copy, PartialEq, Eq)]
pub enum Colour {
    WBAuto1,
    WBIndoor,
    WBOutdoor,
    WBOnePush,
    WBAuto2,
    WBManual,
    OnePushTrigger,
    RGainReset,
    RGainUp,
    RGainDown,
    /// Gain 0x00 (-128) over 0x80 (0) to 0xFF (128).
    RGainDirect(u8),
    BGainReset,
    BGainUp,
    BGainDown,
    /// Gain 0x00 (-128) over 0x80 (0) to 0xFF (128).
    BGainDirect(u8),
    /// 1 (slow) to 5 (fast).
    Speed(u8),
    OffsetReset,
    OffsetUp,
    OffsetDown,
    /// Offset 0x00 (-7) over 0x07 (0) to 0x0E (+7).
    OffsetDirect(u8),
    /// 0 = off, 1 (weak) to 3 (strong).
    ChromaSuppress(u8),
    /// 2 = standard, 3 = off, 4 = high saturation, 5 = fluorescent light, 6 = movie,
    /// 7 = still, 8 = cinema, 9 = pro, 0x0A = ITU 709, 0x0B = black and white.
    MatrixSelect(u8),
    LevelReset,
    LevelUp,
    LevelDown,
    /// Level 0x00 to 0x0E.
    LevelDirect(u8),
    PhaseReset,
    PhaseUp,
    PhaseDown,
    /// Phase 0x00 (-14 degrees) to 0x0E (+14 degrees).
    PhaseDirect(u8),
    /// 0x00 (-99) over 0x63 (0) to 0xC6 (+99).
    RG(u8),
    /// 0x00 (-99) over 0x63 (0) to 0xC6 (+99).
    RB(u8),
    /// 0x00 (-99) over 0x63 (0) to 0xC6 (+99).
    GR(u8),
    /// 0x00 (-99) over 0x63 (0) to 0xC6 (+99).
    GB(u8),
    /// 0x00 (-99) over 0x63 (0) to 0xC6 (+99).
    BR(u8),
    /// 0x00 (-99) over 0x63 (0) to 0xC6 (+99).
    BG(u8),
}

impl Colour {
    /// Tells whether every parameter lies within its range.
    pub fn check_range(&self) -> (b: bool)
        ensures
            b == self.in_range(),
    {
        match *self {
            Colour::Speed(p) => 0x01 <= p && p <= 0x05,
            Colour::OffsetDirect(p) => p <= 0x0E,
            Colour::ChromaSuppress(p) => p <= 0x03,
            Colour::MatrixSelect(p) => 0x02 <= p && p <= 0x0B,
            Colour::LevelDirect(p) => p <= 0x0E,
            Colour::PhaseDirect(p) => p <= 0x0E,
            Colour::RG(p) => p <= 0xC6,
            Colour::RB(p) => p <= 0xC6,
            Colour::GR(p) => p <= 0xC6,
            Colour::GB(p) => p <= 0xC6,
            Colour::BR(p) => p <= 0xC6,
            Colour::BG(p) => p <= 0xC6,
            _ => true,
        }
    }
}

impl ViscaMessage for Colour {
    open spec fn in_range(&self) -> bool {
        match *self {
            Colour::Speed(p) => 0x01 <= p <= 0x05,
            Colour::OffsetDirect(p) => p <= 0x0E,
            Colour::ChromaSuppress(p) => p <= 0x03,
            Colour::MatrixSelect(p) => 0x02 <= p <= 0x0B,
            Colour::LevelDirect(p) => p <= 0x0E,
            Colour::PhaseDirect(p) => p <= 0x0E,
            Colour::RG(p) => p <= 0xC6,
            Colour::RB(p) => p <= 0xC6,
            Colour::GR(p) => p <= 0xC6,
            Colour::GB(p) => p <= 0xC6,
            Colour::BR(p) => p <= 0xC6,
            Colour::BG(p) => p <= 0xC6,
            _ => true,
        }
    }

    open spec fn encoding(&self) -> Seq<u8> {
        match *self {
            Colour::WBAuto1 => seq![0x81u8, 0x01, 0x04, 0x35, 0x00, 0xFF],
            Colour::WBIndoor => seq![0x81u8, 0x01, 0x04, 0x35, 0x01, 0xFF],
            Colour::WBOutdoor => seq![0x81u8, 0x01, 0x04, 0x35, 0x02, 0xFF],
            Colour::WBOnePush => seq![0x81u8, 0x01, 0x04, 0x35, 0x03, 0xFF],
            Colour::WBAuto2 => seq![0x81u8, 0x01, 0x04, 0x35, 0x04, 0xFF],
            Colour::WBManual => seq![0x81u8, 0x01, 0x04, 0x35, 0x05, 0xFF],
            Colour::OnePushTrigger => seq![0x81u8, 0x01, 0x04, 0x10, 0x05, 0xFF],
            Colour::RGainReset => seq![0x81u8, 0x01, 0x04, 0x03, 0x00, 0xFF],
            Colour::RGainUp => seq![0x81u8, 0x01, 0x04, 0x03, 0x02, 0xFF],
            Colour::RGainDown => seq![0x81u8, 0x01, 0x04, 0x03, 0x03, 0xFF],
            Colour::RGainDirect(p) => seq![
                0x81u8,
                0x01,
                0x04,
                0x43,
                0x00,
                0x00,
                nibble_of(p as nat, 0x10),
                nibble_of(p as nat, 1),
                0xFF,
            ],
            Colour::BGainReset => seq![0x81u8, 0x01, 0x04, 0x04, 0x00, 0xFF],
            Colour::BGainUp => seq![0x81u8, 0x01, 0x04, 0x04, 0x02, 0xFF],
            Colour::BGainDown => seq![0x81u8, 0x01, 0x04, 0x04, 0x03, 0xFF],
            Colour::BGainDirect(p) => seq![
                0x81u8,
                0x01,
                0x04,
                0x44,
                0x00,
                0x00,
                nibble_of(p as nat, 0x10),
                nibble_of(p as nat, 1),
                0xFF,
            ],
            Colour::Speed(p) => seq![0x81u8, 0x01, 0x04, 0x56, p, 0xFF],
            Colour::OffsetReset => seq![0x81u8, 0x01, 0x7E, 0x01, 0x2E, 0x00, 0x00, 0xFF],
            Colour::OffsetUp => seq![0x81u8, 0x01, 0x7E, 0x01, 0x2E, 0x00, 0x02, 0xFF],
            Colour::OffsetDown => seq![0x81u8, 0x01, 0x7E, 0x01, 0x2E, 0x00, 0x03, 0xFF],
            Colour::OffsetDirect(p) => seq![0x81u8, 0x01, 0x7E, 0x01, 0x2E, 0x01, p, 0xFF],
            Colour::ChromaSuppress(p) => seq![0x81u8, 0x01, 0x04, 0x5F, p, 0xFF],
            Colour::MatrixSelect(p) => seq![0x81u8, 0x01, 0x7E, 0x01, 0x3D, p, 0xFF],
            Colour::LevelReset => seq![0x81u8, 0x01, 0x04, 0x09, 0x00, 0xFF],
            Colour::LevelUp => seq![0x81u8, 0x01, 0x04, 0x09, 0x02, 0xFF],
            Colour::LevelDown => seq![0x81u8, 0x01, 0x04, 0x09, 0x03, 0xFF],
            Colour::LevelDirect(p) => seq![0x81u8, 0x01, 0x04, 0x49, 0x00, 0x00, 0x00, p, 0xFF],
            Colour::PhaseReset => seq![0x81u8, 0x01, 0x04, 0x0F, 0x00, 0xFF],
            Colour::PhaseUp => seq![0x81u8, 0x01, 0x04, 0x0F, 0x02, 0xFF],
            Colour::PhaseDown => seq![0x81u8, 0x01, 0x04, 0x0F, 0x03, 0xFF],
            Colour::PhaseDirect(p) => seq![0x81u8, 0x01, 0x04, 0x4F, 0x00, 0x00, 0x00, p, 0xFF],
            Colour::RG(p) => seq![
                0x81u8,
                0x01,
                0x7E,
                0x01,
                0x7A,
                nibble_of(p as nat, 0x10),
                nibble_of(p as nat, 1),
                0xFF,
            ],
            Colour::RB(p) => seq![
                0x81u8,
                0x01,
                0x7E,
                0x01,
                0x7B,
                nibble_of(p as nat, 0x10),
                nibble_of(p as nat, 1),
                0xFF,
            ],
            Colour::GR(p) => seq![
                0x81u8,
                0x01,
                0x7E,
                0x01,
                0x7C,
                nibble_of(p as nat, 0x10),
                nibble_of(p as nat, 1),
                0xFF,
            ],
            Colour::GB(p) => seq![
                0x81u8,
                0x01,
                0x7E,
                0x01,
                0x7D,
                nibble_of(p as nat, 0x10),
                nibble_of(p as nat, 1),
                0xFF,
            ],
            Colour::BR(p) => seq![
                0x81u8,
                0x01,
                0x7E,
                0x01,
                0x7E,
                nibble_of(p as nat, 0x10),
                nibble_of(p as nat, 1),
                0xFF,
            ],
            Colour::BG(p) => seq![
                0x81u8,
                0x01,
                0x7E,
                0x01,
                0x7F,
                nibble_of(p as nat, 0x10),
                nibble_of(p as nat, 1),
                0xFF,
            ],
        }
    }

    open spec fn message_type(&self) -> MessageType {
        MessageType::Command
    }

    fn bytes(&self) -> (r: Result<Vec<u8>, ViscaError>) {
        if !self.check_range() {
            return Err(ViscaError::new(ErrorKind::Range));
        }
        let v: Vec<u8> = match *self {
            Colour::WBAuto1 => vec![0x81, 0x01, 0x04, 0x35, 0x00, 0xFF],
            Colour::WBIndoor => vec![0x81, 0x01, 0x04, 0x35, 0x01, 0xFF],
            Colour::WBOutdoor => vec![0x81, 0x01, 0x04, 0x35, 0x02, 0xFF],
            Colour::WBOnePush => vec![0x81, 0x01, 0x04, 0x35, 0x03, 0xFF],
            Colour::WBAuto2 => vec![0x81, 0x01, 0x04, 0x35, 0x04, 0xFF],
            Colour::WBManual => vec![0x81, 0x01, 0x04, 0x35, 0x05, 0xFF],
            Colour::OnePushTrigger => vec![0x81, 0x01, 0x04, 0x10, 0x05, 0xFF],
            Colour::RGainReset => vec![0x81, 0x01, 0x04, 0x03, 0x00, 0xFF],
            Colour::RGainUp => vec![0x81, 0x01, 0x04, 0x03, 0x02, 0xFF],
            Colour::RGainDown => vec![0x81, 0x01, 0x04, 0x03, 0x03, 0xFF],
            Colour::RGainDirect(p) => vec![
                0x81,
                0x01,
                0x04,
                0x43,
                0x00,
                0x00,
                u8top(p),
                u8bot(p),
                0xFF,
            ],
            Colour::BGainReset => vec![0x81, 0x01, 0x04, 0x04, 0x00, 0xFF],
            Colour::BGainUp => vec![0x81, 0x01, 0x04, 0x04, 0x02, 0xFF],
            Colour::BGainDown => vec![0x81, 0x01, 0x04, 0x04, 0x03, 0xFF],
            Colour::BGainDirect(p) => vec![
                0x81,
                0x01,
                0x04,
                0x44,
                0x00,
                0x00,
                u8top(p),
                u8bot(p),
                0xFF,
            ],
            Colour::Speed(p) => vec![0x81, 0x01, 0x04, 0x56, p, 0xFF],
            Colour::OffsetReset => vec![0x81, 0x01, 0x7E, 0x01, 0x2E, 0x00, 0x00, 0xFF],
            Colour::OffsetUp => vec![0x81, 0x01, 0x7E, 0x01, 0x2E, 0x00, 0x02, 0xFF],
            Colour::OffsetDown => vec![0x81, 0x01, 0x7E, 0x01, 0x2E, 0x00, 0x03, 0xFF],
            Colour::OffsetDirect(p) => vec![0x81, 0x01, 0x7E, 0x01, 0x2E, 0x01, p, 0xFF],
            Colour::ChromaSuppress(p) => vec![0x81, 0x01, 0x04, 0x5F, p, 0xFF],
            Colour::MatrixSelect(p) => vec![0x81, 0x01, 0x7E, 0x01, 0x3D, p, 0xFF],
            Colour::LevelReset => vec![0x81, 0x01, 0x04, 0x09, 0x00, 0xFF],
            Colour::LevelUp => vec![0x81, 0x01, 0x04, 0x09, 0x02, 0xFF],
            Colour::LevelDown => vec![0x81, 0x01, 0x04, 0x09, 0x03, 0xFF],
            Colour::LevelDirect(p) => vec![0x81, 0x01, 0x04, 0x49, 0x00, 0x00, 0x00, p, 0xFF],
            Colour::PhaseReset => vec![0x81, 0x01, 0x04, 0x0F, 0x00, 0xFF],
            Colour::PhaseUp => vec![0x81, 0x01, 0x04, 0x0F, 0x02, 0xFF],
            Colour::PhaseDown => vec![0x81, 0x01, 0x04, 0x0F, 0x03, 0xFF],
            Colour::PhaseDirect(p) => vec![0x81, 0x01, 0x04, 0x4F, 0x00, 0x00, 0x00, p, 0xFF],
            Colour::RG(p) => vec![0x81, 0x01, 0x7E, 0x01, 0x7A, u8top(p), u8bot(p), 0xFF],
            Colour::RB(p) => vec![0x81, 0x01, 0x7E, 0x01, 0x7B, u8top(p), u8bot(p), 0xFF],
            Colour::GR(p) => vec![0x81, 0x01, 0x7E, 0x01, 0x7C, u8top(p), u8bot(p), 0xFF],
            Colour::GB(p) => vec![0x81, 0x01, 0x7E, 0x01, 0x7D, u8top(p), u8bot(p), 0xFF],
            Colour::BR(p) => vec![0x81, 0x01, 0x7E, 0x01, 0x7E, u8top(p), u8bot(p), 0xFF],
            Colour::BG(p) => vec![0x81, 0x01, 0x7E, 0x01, 0x7F, u8top(p), u8bot(p), 0xFF],
        };
        assert(v@ =~= self.encoding());
        Ok(v)
    }

    fn msg_type(&self) -> (t: MessageType) {
        MessageType::Command
    }

    proof fn lemma_encoding_is_request(&self) {
    }

    proof fn lemma_encoding_is_one_to_one(&self, other: &Self) {
        let a = self.encoding();
        let b = other.encoding();
        assert(a.len() == b.len());
        assert(a[2] == b[2] && a[3] == b[3] && a[4] == b[4] && a[5] == b[5] && a[6] == b[6]
            && a[7] == b[7]);
        match *self {
            Colour::WBAuto1 => {
                assert(*other is WBAuto1);
            },
            Colour::WBIndoor => {
                assert(*other is WBIndoor);
            },
            Colour::WBOutdoor => {
                assert(*other is WBOutdoor);
            },
            Colour::WBOnePush => {
                assert(*other is WBOnePush);
            },
            Colour::WBAuto2 => {
                assert(*other is WBAuto2);
            },
            Colour::WBManual => {
                assert(*other is WBManual);
            },
            Colour::OnePushTrigger => {
                assert(*other is OnePushTrigger);
            },
            Colour::RGainReset => {
                assert(*other is RGainReset);
            },
            Colour::RGainUp => {
                assert(*other is RGainUp);
            },
            Colour::RGainDown => {
                assert(*other is RGainDown);
            },
            Colour::RGainDirect(p) => {
                assert(*other is RGainDirect);
                lemma_nibbles_tell_u8(p, other->RGainDirect_0);
            },
            Colour::BGainReset => {
                assert(*other is BGainReset);
            },
            Colour::BGainUp => {
                assert(*other is BGainUp);
            },
            Colour::BGainDown => {
                assert(*other is BGainDown);
            },
            Colour::BGainDirect(p) => {
                assert(*other is BGainDirect);
                lemma_nibbles_tell_u8(p, other->BGainDirect_0);
            },
            Colour::Speed(_) => {
                assert(*other is Speed);
            },
            Colour::OffsetReset => {
                assert(*other is OffsetReset);
            },
            Colour::OffsetUp => {
                assert(*other is OffsetUp);
            },
            Colour::OffsetDown => {
                assert(*other is OffsetDown);
            },
            Colour::OffsetDirect(_) => {
                assert(*other is OffsetDirect);
            },
            Colour::ChromaSuppress(_) => {
                assert(*other is ChromaSuppress);
            },
            Colour::MatrixSelect(_) => {
                assert(*other is MatrixSelect);
            },
            Colour::LevelReset => {
                assert(*other is LevelReset);
            },
            Colour::LevelUp => {
                assert(*other is LevelUp);
            },
            Colour::LevelDown => {
                assert(*other is LevelDown);
            },
            Colour::LevelDirect(_) => {
                assert(*other is LevelDirect);
            },
            Colour::PhaseReset => {
                assert(*other is PhaseReset);
            },
            Colour::PhaseUp => {
                assert(*other is PhaseUp);
            },
            Colour::PhaseDown => {
                assert(*other is PhaseDown);
            },
            Colour::PhaseDirect(_) => {
                assert(*other is PhaseDirect);
            },
            Colour::RG(p) => {
                assert(*other is RG);
                lemma_nibbles_tell_u8(p, other->RG_0);
            },
            Colour::RB(p) => {
                assert(*other is RB);
                lemma_nibbles_tell_u8(p, other->RB_0);
            },
            Colour::GR(p) => {
                assert(*other is GR);
                lemma_nibbles_tell_u8(p, other->GR_0);
            },
            Colour::GB(p) => {
                assert(*other is GB);
                lemma_nibbles_tell_u8(p, other->GB_0);
            },
            Colour::BR(p) => {
                assert(*other is BR);
                lemma_nibbles_tell_u8(p, other->BR_0);
            },
            Colour::BG(p) => {
                assert(*other is BG);
                lemma_nibbles_tell_u8(p, other->BG_0);
            },
        }
    }
}

impl ViscaCommand for Colour {
    proof fn lemma_command(&self) {
    }
}

/// Detail (sharpness) settings.
///
/// The type names the operations of this family. The catalogue holds no bytes for
/// them, so the type implements neither [`ViscaMessage`] nor [`ViscaCommand`] and
/// a value of it cannot be sent.
#[derive(Debug, Clone, Copy, PartialEq, Eq)]
pub enum Detail {
    LevelReset,
    LevelUp,
    LevelDown,
    LevelDirect(u8),
    Mode(u8),
    Bandwidth(u8),
    Crispening(u8),
    HVBalance(u8),
    BWBalance(u8),
    Limit(u8),
    HighlightedTail(u8),
    Superlow(u8),
}

/// Knee settings.
///
/// The type names the operations of this family. The catalogue holds no bytes for
/// them, so the type implements neither [`ViscaMessage`] nor [`ViscaCommand`] and
/// a value of it cannot be sent.
#[derive(Debug, Clone, Copy, PartialEq, Eq)]
pub enum Knee {
    SettingOnOff,
    Mode(u8),
    Slope(u8),
    Point(u8),
}

/// Gamma and black level settings.
///
/// The type names the operations of this family. The catalogue holds no bytes for
/// them, so the type implements neither [`ViscaMessage`] nor [`ViscaCommand`] and
/// a value of it cannot be sent.
#[derive(Debug, Clone, Copy, PartialEq, Eq)]
pub enum Gamma {
    Mode(u8),
    Pattern(u8),
    Offset(u8),
    Level(u8),
    BlackGammaLevel(u8),
    BlackGammaRange(u8),
    BlackLevelReset,
    BlackLevelUp,
    BlackLevelDown,
    BlackLevelDirect(u8),
}

/// Picture profile selection.
///
/// The type names the operations of this family. The catalogue holds no bytes for
/// them, so the type implements neither [`ViscaMessage`] nor [`ViscaCommand`] and
/// a value of it cannot be sent.
#[derive(Debug, Clone, Copy, PartialEq, Eq)]
pub enum PictureProfile {
    Mode(u8),
}

/// Flicker reduction.
///
/// The type names the operations of this family. The catalogue holds no bytes for
/// them, so the type implements neither [`ViscaMessage`] nor [`ViscaCommand`] and
/// a value of it cannot be sent.
#[derive(Debug, Clone, Copy, PartialEq, Eq)]
pub enum FlickerReduction {
    Mode(u8),
}

/// Noise reduction.
///
/// The type names the operations of this family. The catalogue holds no bytes for
/// them, so the type implements neither [`ViscaMessage`] nor [`ViscaCommand`] and
/// a value of it cannot be sent.
#[derive(Debug, Clone, Copy, PartialEq, Eq)]
pub enum NoiseReduction {
    ModeLevel(u8),
    NR2d3dSetting(u8),
}

/// Zoom drive and zoom settings.
#[derive(Debug, Clone, Copy, PartialEq, Eq)]
pub enum Zoom {
    Stop,
    TeleStd,
    WideStd,
    /// Speed 0 (low) to 7 (high).
    TeleVar(u8),
    /// Speed 0 (low) to 7 (high).
    WideVar(u8),
    /// Position 0x0000 (wide) over 0x4000 (optical tele) to 0x6000 (the far end of
    /// clear image zoom).
    Direct(u16),
    ClearImageZoomOff,
    ClearImageZoomOn,
    /// 2 = double, 3 = off.
    TeleConvMode(u8),
}

impl Zoom {
    /// Tells whether every parameter lies within its range.
    pub fn check_range(&self) -> (b: bool)
        ensures
            b == self.in_range(),
    {
        match *self {
            Zoom::TeleVar(p) => p <= 0x07,
            Zoom::WideVar(p) => p <= 0x07,
            Zoom::Direct(p) => p <= 0x6000,
            Zoom::TeleConvMode(p) => p == 0x02 || p == 0x03,
            _ => true,
        }
    }
}

impl ViscaMessage for Zoom {
    open spec fn in_range(&self) -> bool {
        match *self {
            Zoom::TeleVar(p) => p <= 0x07,
            Zoom::WideVar(p) => p <= 0x07,
            Zoom::Direct(p) => p <= 0x6000,
            Zoom::TeleConvMode(p) => p == 0x02 || p == 0x03,
            _ => true,
        }
    }

    open spec fn encoding(&self) -> Seq<u8> {
        match *self {
            Zoom::Stop => seq![0x81u8, 0x01, 0x04, 0x07, 0x00, 0xFF],
            Zoom::TeleStd => seq![0x81u8, 0x01, 0x04, 0x07, 0x02, 0xFF],
            Zoom::WideStd => seq![0x81u8, 0x01, 0x04, 0x07, 0x03, 0xFF],
            Zoom::TeleVar(p) => seq![0x81u8, 0x01, 0x04, 0x07, (0x20 + p) as u8, 0xFF],
            Zoom::WideVar(p) => seq![0x81u8, 0x01, 0x04, 0x07, (0x30 + p) as u8, 0xFF],
            Zoom::Direct(p) => seq![
                0x81u8,
                0x01,
                0x04,
                0x47,
                nibble_of(p as nat, 0x1000),
                nibble_of(p as nat, 0x100),
                nibble_of(p as nat, 0x10),
                nibble_of(p as nat, 1),
                0xFF,
            ],
            Zoom::ClearImageZoomOff => seq![0x81u8, 0x01, 0x04, 0x06, 0x03, 0xFF],
            Zoom::ClearImageZoomOn => seq![0x81u8, 0x01, 0x04, 0x06, 0x04, 0xFF],
            Zoom::TeleConvMode(p) => seq![0x81u8, 0x01, 0x7E, 0x04, 0x36, p, 0xFF],
        }
    }

    open spec fn message_type(&self) -> MessageType {
        MessageType::Command
    }

    fn bytes(&self) -> (r: Result<Vec<u8>, ViscaError>) {
        if !self.check_range() {
            return Err(ViscaError::new(ErrorKind::Range));
        }
        let v: Vec<u8> = match *self {
            Zoom::Stop => vec![0x81, 0x01, 0x04, 0x07, 0x00, 0xFF],
            Zoom::TeleStd => vec![0x81, 0x01, 0x04, 0x07, 0x02, 0xFF],
            Zoom::WideStd => vec![0x81, 0x01, 0x04, 0x07, 0x03, 0xFF],
            Zoom::TeleVar(p) => vec![0x81, 0x01, 0x04, 0x07, drive_byte(0x20, p), 0xFF],
            Zoom::WideVar(p) => vec![0x81, 0x01, 0x04, 0x07, drive_byte(0x30, p), 0xFF],
            Zoom::Direct(p) => vec![
                0x81,
                0x01,
                0x04,
                0x47,
                u16top(p),
                u16midtop(p),
                u16midbot(p),
                u16bot(p),
                0xFF,
            ],
            Zoom::ClearImageZoomOff => vec![0x81, 0x01, 0x04, 0x06, 0x03, 0xFF],
            Zoom::ClearImageZoomOn => vec![0x81, 0x01, 0x04, 0x06, 0x04, 0xFF],
            Zoom::TeleConvMode(p) => vec![0x81, 0x01, 0x7E, 0x04, 0x36, p, 0xFF],
        };
        assert(v@ =~= self.encoding());
        Ok(v)
    }

    fn msg_type(&self) -> (t: MessageType) {
        MessageType::Command
    }

    proof fn lemma_encoding_is_request(&self) {
    }

    proof fn lemma_encoding_is_one_to_one(&self, other: &Self) {
        let a = self.encoding();
        let b = other.encoding();
        assert(a.len() == b.len());
        assert(a[2] == b[2] && a[3] == b[3] && a[4] == b[4] && a[5] == b[5] && a[6] == b[6]
            && a[7] == b[7]);
        match *self {
            Zoom::Stop => {
                assert(*other is Stop);
            },
            Zoom::TeleStd => {
                assert(*other is TeleStd);
            },
            Zoom::WideStd => {
                assert(*other is WideStd);
            },
            Zoom::TeleVar(_) => {
                assert(*other is TeleVar);
            },
            Zoom::WideVar(_) => {
                assert(*other is WideVar);
            },
            Zoom::Direct(p) => {
                assert(*other is Direct);
                lemma_nibbles_tell_u16(p, other->Direct_0);
            },
            Zoom::ClearImageZoomOff => {
                assert(*other is ClearImageZoomOff);
            },
            Zoom::ClearImageZoomOn => {
                assert(*other is ClearImageZoomOn);
            },
            Zoom::TeleConvMode(_) => {
                assert(*other is TeleConvMode);
            },
        }
    }
}

impl ViscaCommand for Zoom {
    proof fn lemma_command(&self) {
    }
}

/// Focus drive and focus settings.
#[derive(Debug, Clone, Copy, PartialEq, Eq)]
pub enum Focus {
    Auto,
    Manual,
    AutoManualToggle,
    Stop,
    FarStdSpeed,
    NearStdSpeed,
    /// Speed 0 (low) to 7 (high).
    FarVarSpeed(u8),
    /// Speed 0 (low) to 7 (high).
    NearVarSpeed(u8),
    /// Position 0x0000 (far) to 0xF000 (near).
    Direct(u16),
    OnePushTrig,
    FocusInf,
    /// Limit 0x1000 to 0xF000.
    NearLimit(u16),
    /// 2 = normal, 3 = low.
    AFSensitivity(u8),
    /// 0 = standard, 1 = infrared light.
    IRCorrection(u8),
}

impl Focus {
    /// Tells whether every parameter lies within its range.
    pub fn check_range(&self) -> (b: bool)
        ensures
            b == self.in_range(),
    {
        match *self {
            Focus::FarVarSpeed(p) => p <= 0x07,
            Focus::NearVarSpeed(p) => p <= 0x07,
            Focus::Direct(p) => p <= 0xF000,
            Focus::NearLimit(p) => 0x1000 <= p && p <= 0xF000,
            Focus::AFSensitivity(p) => p == 0x02 || p == 0x03,
            Focus::IRCorrection(p) => p == 0x00 || p == 0x01,
            _ => true,
        }
    }
}

impl ViscaMessage for Focus {
    open spec fn in_range(&self) -> bool {
        match *self {
            Focus::FarVarSpeed(p) => p <= 0x07,
            Focus::NearVarSpeed(p) => p <= 0x07,
            Focus::Direct(p) => p <= 0xF000,
            Focus::NearLimit(p) => 0x1000 <= p <= 0xF000,
            Focus::AFSensitivity(p) => p == 0x02 || p == 0x03,
            Focus::IRCorrection(p) => p == 0x00 || p == 0x01,
            _ => true,
        }
    }

    open spec fn encoding(&self) -> Seq<u8> {
        match *self {
            Focus::Auto => seq![0x81u8, 0x01, 0x04, 0x38, 0x02, 0xFF],
            Focus::Manual => seq![0x81u8, 0x01, 0x04, 0x38, 0x03, 0xFF],
            Focus::AutoManualToggle => seq![0x81u8, 0x01, 0x04, 0x38, 0x10, 0xFF],
            Focus::Stop => seq![0x81u8, 0x01, 0x04, 0x08, 0x00, 0xFF],
            Focus::FarStdSpeed => seq![0x81u8, 0x01, 0x04, 0x08, 0x02, 0xFF],
            Focus::NearStdSpeed => seq![0x81u8, 0x01, 0x04, 0x08, 0x03, 0xFF],
            Focus::FarVarSpeed(p) => seq![0x81u8, 0x01, 0x04, 0x08, (0x20 + p) as u8, 0xFF],
            Focus::NearVarSpeed(p) => seq![0x81u8, 0x01, 0x04, 0x08, (0x30 + p) as u8, 0xFF],
            Focus::Direct(p) => seq![
                0x81u8,
                0x01,
                0x04,
                0x48,
                nibble_of(p as nat, 0x1000),
                nibble_of(p as nat, 0x100),
                nibble_of(p as nat, 0x10),
                nibble_of(p as nat, 1),
                0xFF,
            ],
            Focus::OnePushTrig => seq![0x81u8, 0x01, 0x04, 0x18, 0x01, 0xFF],
            Focus::FocusInf => seq![0x81u8, 0x01, 0x04, 0x18, 0x02, 0xFF],
            Focus::NearLimit(p) => seq![
                0x81u8,
                0x01,
                0x04,
                0x28,
                nibble_of(p as nat, 0x1000),
                nibble_of(p as nat, 0x100),
                nibble_of(p as nat, 0x10),
                nibble_of(p as nat, 1),
                0xFF,
            ],
            Focus::AFSensitivity(p) => seq![0x81u8, 0x01, 0x04, 0x58, p, 0xFF],
            Focus::IRCorrection(p) => seq![0x81u8, 0x01, 0x04, 0x11, p, 0xFF],
        }
    }

    open spec fn message_type(&self) -> MessageType {
        MessageType::Command
    }

    fn bytes(&self) -> (r: Result<Vec<u8>, ViscaError>) {
        if !self.check_range() {
            return Err(ViscaError::new(ErrorKind::Range));
        }
        let v: Vec<u8> = match *self {
            Focus::Auto => vec![0x81, 0x01, 0x04, 0x38, 0x02, 0xFF],
            Focus::Manual => vec![0x81, 0x01, 0x04, 0x38, 0x03, 0xFF],
            Focus::AutoManualToggle => vec![0x81, 0x01, 0x04, 0x38, 0x10, 0xFF],
            Focus::Stop => vec![0x81, 0x01, 0x04, 0x08, 0x00, 0xFF],
            Focus::FarStdSpeed => vec![0x81, 0x01, 0x04, 0x08, 0x02, 0xFF],
            Focus::NearStdSpeed => vec![0x81, 0x01, 0x04, 0x08, 0x03, 0xFF],
            Focus::FarVarSpeed(p) => vec![0x81, 0x01, 0x04, 0x08, drive_byte(0x20, p), 0xFF],
            Focus::NearVarSpeed(p) => vec![0x81, 0x01, 0x04, 0x08, drive_byte(0x30, p), 0xFF],
            Focus::Direct(p) => vec![
                0x81,
                0x01,
                0x04,
                0x48,
                u16top(p),
                u16midtop(p),
                u16midbot(p),
                u16bot(p),
                0xFF,
            ],
            Focus::OnePushTrig => vec![0x81, 0x01, 0x04, 0x18, 0x01, 0xFF],
            Focus::FocusInf => vec![0x81, 0x01, 0x04, 0x18, 0x02, 0xFF],
            Focus::NearLimit(p) => vec![
                0x81,
                0x01,
                0x04,
                0x28,
                u16top(p),
                u16midtop(p),
                u16midbot(p),
                u16bot(p),
                0xFF,
            ],
            Focus::AFSensitivity(p) => vec![0x81, 0x01, 0x04, 0x58, p, 0xFF],
            Focus::IRCorrection(p) => vec![0x81, 0x01, 0x04, 0x11, p, 0xFF],
        };
        assert(v@ =~= self.encoding());
        Ok(v)
    }

    fn msg_type(&self) -> (t: MessageType) {
        MessageType::Command
    }

    proof fn lemma_encoding_is_request(&self) {
    }

    proof fn lemma_encoding_is_one_to_one(&self, other: &Self) {
        let a = self.encoding();
        let b = other.encoding();
        assert(a.len() == b.len());
        assert(a[2] == b[2] && a[3] == b[3] && a[4] == b[4] && a[5] == b[5] && a[6] == b[6]
            && a[7] == b[7]);
        match *self {
            Focus::Auto => {
                assert(*other is Auto);
            },
            Focus::Manual => {
                assert(*other is Manual);
            },
            Focus::AutoManualToggle => {
                assert(*other is AutoManualToggle);
            },
            Focus::Stop => {
                assert(*other is Stop);
            },
            Focus::FarStdSpeed => {
                assert(*other is FarStdSpeed);
            },
            Focus::NearStdSpeed => {
                assert(*other is NearStdSpeed);
            },
            Focus::FarVarSpeed(_) => {
                assert(*other is FarVarSpeed);
            },
            Focus::NearVarSpeed(_) => {
                assert(*other is NearVarSpeed);
            },
            Focus::Direct(p) => {
                assert(*other is Direct);
                lemma_nibbles_tell_u16(p, other->Direct_0);
            },
            Focus::OnePushTrig => {
                assert(*other is OnePushTrig);
            },
            Focus::FocusInf => {
                assert(*other is FocusInf);
            },
            Focus::NearLimit(p) => {
                assert(*other is NearLimit);
                lemma_nibbles_tell_u16(p, other->NearLimit_0);
            },
            Focus::AFSensitivity(_) => {
                assert(*other is AFSensitivity);
            },
            Focus::IRCorrection(_) => {
                assert(*other is IRCorrection);
            },
        }
    }
}

impl ViscaCommand for Focus {
    proof fn lemma_command(&self) {
    }
}

/// Pan positions at round angles. They are marks on a continuous scale: every
/// value between two of them is a position too. A position has twenty bits; the
/// angles to the right are the negatives of those to the left, as twenty-bit
/// two's complement.
#[derive(Debug, Clone, Copy, PartialEq, Eq)]
pub enum PanAngle {
    Centre,
    Left10,
    Left20,
    Left30,
    Left40,
    Left50,
    Left60,
    Left70,
    Left80,
    Left90,
    Left100,
    Left110,
    Left120,
    Left130,
    Left140,
    Left150,
    Left160,
    Left169,
    Left170,
    Right10,
    Right20,
    Right30,
    Right40,
    Right50,
    Right60,
    Right70,
    Right80,
    Right90,
    Right100,
    Right110,
    Right120,
    Right130,
    Right140,
    Right150,
    Right160,
    Right169,
    Right170,
}

impl PanAngle {
    /// The position that the camera knows this angle by.
    pub open spec fn position(self) -> u32 {
        match self {
            PanAngle::Centre => 0x00000,
            PanAngle::Left10 => 0x00937,
            PanAngle::Left20 => 0x0126E,
            PanAngle::Left30 => 0x01BA5,
            PanAngle::Left40 => 0x024DC,
            PanAngle::Left50 => 0x02E13,
            PanAngle::Left60 => 0x0374A,
            PanAngle::Left70 => 0x04081,
            PanAngle::Left80 => 0x049B8,
            PanAngle::Left90 => 0x052EF,
            PanAngle::Left100 => 0x05C26,
            PanAngle::Left110 => 0x0655D,
            PanAngle::Left120 => 0x06E94,
            PanAngle::Left130 => 0x077CB,
            PanAngle::Left140 => 0x08102,
            PanAngle::Left150 => 0x08A39,
            PanAngle::Left160 => 0x09370,
            PanAngle::Left169 => 0x09BBB,
            PanAngle::Left170 => 0x09CA7,
            PanAngle::Right10 => 0xFF6C9,
            PanAngle::Right20 => 0xFED92,
            PanAngle::Right30 => 0xFE45B,
            PanAngle::Right40 => 0xFDB24,
            PanAngle::Right50 => 0xFD1ED,
            PanAngle::Right60 => 0xFC8B6,
            PanAngle::Right70 => 0xFBF7F,
            PanAngle::Right80 => 0xFB648,
            PanAngle::Right90 => 0xFAD11,
            PanAngle::Right100 => 0xFA3DA,
            PanAngle::Right110 => 0xF9AA3,
            PanAngle::Right120 => 0xF916C,
            PanAngle::Right130 => 0xF8835,
            PanAngle::Right140 => 0xF7EFE,
            PanAngle::Right150 => 0xF75C7,
            PanAngle::Right160 => 0xF6C90,
            PanAngle::Right169 => 0xF6445,
            PanAngle::Right170 => 0xF6359,
        }
    }

    /// The position that the camera knows this angle by.
    pub fn value(self) -> (r: u32)
        ensures
            r == self.position(),
    {
        match self {
            PanAngle::Centre => 0x00000,
            PanAngle::Left10 => 0x00937,
            PanAngle::Left20 => 0x0126E,
            PanAngle::Left30 => 0x01BA5,
            PanAngle::Left40 => 0x024DC,
            PanAngle::Left50 => 0x02E13,
            PanAngle::Left60 => 0x0374A,
            PanAngle::Left70 => 0x04081,
            PanAngle::Left80 => 0x049B8,
            PanAngle::Left90 => 0x052EF,
            PanAngle::Left100 => 0x05C26,
            PanAngle::Left110 => 0x0655D,
            PanAngle::Left120 => 0x06E94,
            PanAngle::Left130 => 0x077CB,
            PanAngle::Left140 => 0x08102,
            PanAngle::Left150 => 0x08A39,
            PanAngle::Left160 => 0x09370,
            PanAngle::Left169 => 0x09BBB,
            PanAngle::Left170 => 0x09CA7,
            PanAngle::Right10 => 0xFF6C9,
            PanAngle::Right20 => 0xFED92,
            PanAngle::Right30 => 0xFE45B,
            PanAngle::Right40 => 0xFDB24,
            PanAngle::Right50 => 0xFD1ED,
            PanAngle::Right60 => 0xFC8B6,
            PanAngle::Right70 => 0xFBF7F,
            PanAngle::Right80 => 0xFB648,
            PanAngle::Right90 => 0xFAD11,
            PanAngle::Right100 => 0xFA3DA,
            PanAngle::Right110 => 0xF9AA3,
            PanAngle::Right120 => 0xF916C,
            PanAngle::Right130 => 0xF8835,
            PanAngle::Right140 => 0xF7EFE,
            PanAngle::Right150 => 0xF75C7,
            PanAngle::Right160 => 0xF6C90,
            PanAngle::Right169 => 0xF6445,
            PanAngle::Right170 => 0xF6359,
        }
    }

    /// The highest of the five nibbles of the position.
    pub fn top(self) -> (r: u8)
        ensures
            r == nibble_of(self.position() as nat, 0x1_0000),
    {
        u32byte4(self.value())
    }

    /// The second of the five nibbles of the position.
    pub fn midtop(self) -> (r: u8)
        ensures
            r == nibble_of(self.position() as nat, 0x1000),
    {
        u32byte3(self.value())
    }

    /// The third of the five nibbles of the position.
    pub fn midmid(self) -> (r: u8)
        ensures
            r == nibble_of(self.position() as nat, 0x100),
    {
        u32byte2(self.value())
    }

    /// The fourth of the five nibbles of the position.
    pub fn midbot(self) -> (r: u8)
        ensures
            r == nibble_of(self.position() as nat, 0x10),
    {
        u32byte1(self.value())
    }

    /// The lowest of the five nibbles of the position.
    pub fn bot(self) -> (r: u8)
        ensures
            r == nibble_of(self.position() as nat, 1),
    {
        u32byte0(self.value())
    }
}

/// Tilt positions at round angles. They are marks on a continuous scale: every
/// value between two of them is a position too. The angles downwards are the
/// negatives of those upwards, as sixteen-bit two's complement.
#[derive(Debug, Clone, Copy, PartialEq, Eq)]
pub enum TiltAngle {
    Centre,
    Up10,
    Up20,
    Up30,
    Up40,
    Up50,
    Up60,
    Up70,
    Up80,
    Up90,
    Down10,
    Down20,
    Down30,
}

impl TiltAngle {
    /// The position that the camera knows this angle by.
    pub open spec fn position(self) -> u16 {
        match self {
            TiltAngle::Centre => 0x0000,
            TiltAngle::Up10 => 0x0937,
            TiltAngle::Up20 => 0x126E,
            TiltAngle::Up30 => 0x1BA5,
            TiltAngle::Up40 => 0x24DC,
            TiltAngle::Up50 => 0x2E13,
            TiltAngle::Up60 => 0x374A,
            TiltAngle::Up70 => 0x4081,
            TiltAngle::Up80 => 0x49B8,
            TiltAngle::Up90 => 0x52EF,
            TiltAngle::Down10 => 0xF6C9,
            TiltAngle::Down20 => 0xED92,
            TiltAngle::Down30 => 0xE45B,
        }
    }

    /// The position that the camera knows this angle by.
    pub fn value(self) -> (r: u16)
        ensures
            r == self.position(),
    {
        match self {
            TiltAngle::Centre => 0x0000,
            TiltAngle::Up10 => 0x0937,
            TiltAngle::Up20 => 0x126E,
            TiltAngle::Up30 => 0x1BA5,
            TiltAngle::Up40 => 0x24DC,
            TiltAngle::Up50 => 0x2E13,
            TiltAngle::Up60 => 0x374A,
            TiltAngle::Up70 => 0x4081,
            TiltAngle::Up80 => 0x49B8,
            TiltAngle::Up90 => 0x52EF,
            TiltAngle::Down10 => 0xF6C9,
            TiltAngle::Down20 => 0xED92,
            TiltAngle::Down30 => 0xE45B,
        }
    }

    /// The highest of the four nibbles of the position.
    pub fn top(self) -> (r: u8)
        ensures
            r == nibble_of(self.position() as nat, 0x1000),
    {
        u16top(self.value())
    }

    /// The second of the four nibbles of the position.
    pub fn midtop(self) -> (r: u8)
        ensures
            r == nibble_of(self.position() as nat, 0x100),
    {
        u16midtop(self.value())
    }

    /// The third of the four nibbles of the position.
    pub fn midbot(self) -> (r: u8)
        ensures
            r == nibble_of(self.position() as nat, 0x10),
    {
        u16midbot(self.value())
    }

    /// The lowest of the four nibbles of the position.
    pub fn bot(self) -> (r: u8)
        ensures
            r == nibble_of(self.position() as nat, 1),
    {
        u16bot(self.value())
    }
}

/// Pan and tilt drive.
#[derive(Debug, Clone, Copy, PartialEq, Eq)]
pub enum PanTilt {
    /// Pan speed and tilt speed, each 0x01 (slow) to 0x18 (fast).
    Up(u8, u8),
    /// Pan speed and tilt speed, each 0x01 (slow) to 0x18 (fast).
    Down(u8, u8),
    /// Pan speed and tilt speed, each 0x01 (slow) to 0x18 (fast).
    Left(u8, u8),
    /// Pan speed and tilt speed, each 0x01 (slow) to 0x18 (fast).
    Right(u8, u8),
    /// Pan speed and tilt speed, each 0x01 (slow) to 0x18 (fast).
    UpLeft(u8, u8),
    /// Pan speed and tilt speed, each 0x01 (slow) to 0x18 (fast).
    UpRight(u8, u8),
    /// Pan speed and tilt speed, each 0x01 (slow) to 0x18 (fast).
    DownLeft(u8, u8),
    /// Pan speed and tilt speed, each 0x01 (slow) to 0x18 (fast).
    DownRight(u8, u8),
    /// Pan speed and tilt speed, each 0x01 (slow) to 0x18 (fast).
    Stop(u8, u8),
    /// Speed 0x01 (slow) to 0x18 (fast), then the pan position, a value of twenty
    /// bits, and the tilt position.
    AbsolutePos(u8, u32, u16),
    /// Speed 0x01 (slow) to 0x18 (fast), then the pan distance, a value of twenty
    /// bits, and the tilt distance.
    RelativePos(u8, u32, u16),
    Home,
    Reset,
    /// 1 = sharp, 2 = standard, 3 = gentle.
    RampCurve(u8),
    /// 2 = on, 3 = off.
    SlowMode(u8),
    /// The corner (1 = up right, 0 = down left), then the pan position, a value of
    /// twenty bits, and the tilt position.
    LimitSet(u8, u32, u16),
    /// The corner: 1 = up right, 0 = down left.
    LimitClear(u8),
}

impl PanTilt {
    /// Tells whether every parameter lies within its range.
    pub fn check_range(&self) -> (b: bool)
        ensures
            b == self.in_range(),
    {
        match *self {
            PanTilt::Up(v, w) => 0x01 <= v && v <= 0x18 && 0x01 <= w && w <= 0x18,
            PanTilt::Down(v, w) => 0x01 <= v && v <= 0x18 && 0x01 <= w && w <= 0x18,
            PanTilt::Left(v, w) => 0x01 <= v && v <= 0x18 && 0x01 <= w && w <= 0x18,
            PanTilt::Right(v, w) => 0x01 <= v && v <= 0x18 && 0x01 <= w && w <= 0x18,
            PanTilt::UpLeft(v, w) => 0x01 <= v && v <= 0x18 && 0x01 <= w && w <= 0x18,
            PanTilt::UpRight(v, w) => 0x01 <= v && v <= 0x18 && 0x01 <= w && w <= 0x18,
            PanTilt::DownLeft(v, w) => 0x01 <= v && v <= 0x18 && 0x01 <= w && w <= 0x18,
            PanTilt::DownRight(v, w) => 0x01 <= v && v <= 0x18 && 0x01 <= w && w <= 0x18,
            PanTilt::Stop(v, w) => 0x01 <= v && v <= 0x18 && 0x01 <= w && w <= 0x18,
            PanTilt::AbsolutePos(v, p, _) => 0x01 <= v && v <= 0x18 && p <= 0xF_FFFF,
            PanTilt::RelativePos(v, p, _) => 0x01 <= v && v <= 0x18 && p <= 0xF_FFFF,
            PanTilt::RampCurve(p) => 0x01 <= p && p <= 0x03,
            PanTilt::SlowMode(p) => p == 0x02 || p == 0x03,
            PanTilt::LimitSet(w, p, _) => (w == 0x00 || w == 0x01) && p <= 0xF_FFFF,
            PanTilt::LimitClear(w) => w == 0x00 || w == 0x01,
            _ => true,
        }
    }
}

impl ViscaMessage for PanTilt {
    open spec fn in_range(&self) -> bool {
        match *self {
            PanTilt::Up(v, w) => 0x01 <= v <= 0x18 && 0x01 <= w <= 0x18,
            PanTilt::Down(v, w) => 0x01 <= v <= 0x18 && 0x01 <= w <= 0x18,
            PanTilt::Left(v, w) => 0x01 <= v <= 0x18 && 0x01 <= w <= 0x18,
            PanTilt::Right(v, w) => 0x01 <= v <= 0x18 && 0x01 <= w <= 0x18,
            PanTilt::UpLeft(v, w) => 0x01 <= v <= 0x18 && 0x01 <= w <= 0x18,
            PanTilt::UpRight(v, w) => 0x01 <= v <= 0x18 && 0x01 <= w <= 0x18,
            PanTilt::DownLeft(v, w) => 0x01 <= v <= 0x18 && 0x01 <= w <= 0x18,
            PanTilt::DownRight(v, w) => 0x01 <= v <= 0x18 && 0x01 <= w <= 0x18,
            PanTilt::Stop(v, w) => 0x01 <= v <= 0x18 && 0x01 <= w <= 0x18,
            PanTilt::AbsolutePos(v, p, _) => 0x01 <= v <= 0x18 && p <= 0xF_FFFF,
            PanTilt::RelativePos(v, p, _) => 0x01 <= v <= 0x18 && p <= 0xF_FFFF,
            PanTilt::RampCurve(p) => 0x01 <= p <= 0x03,
            PanTilt::SlowMode(p) => p == 0x02 || p == 0x03,
            PanTilt::LimitSet(w, p, _) => (w == 0x00 || w == 0x01) && p <= 0xF_FFFF,
            PanTilt::LimitClear(w) => w == 0x00 || w == 0x01,
            _ => true,
        }
    }

    open spec fn encoding(&self) -> Seq<u8> {
        match *self {
            PanTilt::Up(v, w) => seq![0x81u8, 0x01, 0x06, 0x01, v, w, 0x03, 0x01, 0xFF],
            PanTilt::Down(v, w) => seq![0x81u8, 0x01, 0x06, 0x01, v, w, 0x03, 0x02, 0xFF],
            PanTilt::Left(v, w) => seq![0x81u8, 0x01, 0x06, 0x01, v, w, 0x01, 0x03, 0xFF],
            PanTilt::Right(v, w) => seq![0x81u8, 0x01, 0x06, 0x01, v, w, 0x02, 0x03, 0xFF],
            PanTilt::UpLeft(v, w) => seq![0x81u8, 0x01, 0x06, 0x01, v, w, 0x01, 0x01, 0xFF],
            PanTilt::UpRight(v, w) => seq![0x81u8, 0x01, 0x06, 0x01, v, w, 0x02, 0x01, 0xFF],
            PanTilt::DownLeft(v, w) => seq![0x81u8, 0x01, 0x06, 0x01, v, w, 0x01, 0x02, 0xFF],
            PanTilt::DownRight(v, w) => seq![0x81u8, 0x01, 0x06, 0x01, v, w, 0x02, 0x02, 0xFF],
            PanTilt::Stop(v, w) => seq![0x81u8, 0x01, 0x06, 0x01, v, w, 0x03, 0x03, 0xFF],
            PanTilt::AbsolutePos(v, p, t) => seq![
                0x81u8,
                0x01,
                0x06,
                0x02,
                v,
                0x00,
                nibble_of(p as nat, 0x1_0000),
                nibble_of(p as nat, 0x1000),
                nibble_of(p as nat, 0x100),
                nibble_of(p as nat, 0x10),
                nibble_of(p as nat, 1),
                nibble_of(t as nat, 0x1000),
                nibble_of(t as nat, 0x100),
                nibble_of(t as nat, 0x10),
                nibble_of(t as nat, 1),
                0xFF,
            ],
            PanTilt::RelativePos(v, p, t) => seq![
                0x81u8,
                0x01,
                0x06,
                0x03,
                v,
                0x00,
                nibble_of(p as nat, 0x1_0000),
                nibble_of(p as nat, 0x1000),
                nibble_of(p as nat, 0x100),
                nibble_of(p as nat, 0x10),
                nibble_of(p as nat, 1),
                nibble_of(t as nat, 0x1000),
                nibble_of(t as nat, 0x100),
                nibble_of(t as nat, 0x10),
                nibble_of(t as nat, 1),
                0xFF,
            ],
            PanTilt::Home => seq![0x81u8, 0x01, 0x06, 0x04, 0xFF],
            PanTilt::Reset => seq![0x81u8, 0x01, 0x06, 0x05, 0xFF],
            PanTilt::RampCurve(p) => seq![0x81u8, 0x01, 0x06, 0x31, p, 0xFF],
            PanTilt::SlowMode(p) => seq![0x81u8, 0x01, 0x06, 0x44, p, 0xFF],
            PanTilt::LimitSet(w, p, t) => seq![
                0x81u8,
                0x01,
                0x06,
                0x07,
                0x00,
                w,
                nibble_of(p as nat, 0x1_0000),
                nibble_of(p as nat, 0x1000),
                nibble_of(p as nat, 0x100),
                nibble_of(p as nat, 0x10),
                nibble_of(p as nat, 1),
                nibble_of(t as nat, 0x1000),
                nibble_of(t as nat, 0x100),
                nibble_of(t as nat, 0x10),
                nibble_of(t as nat, 1),
                0xFF,
            ],
            PanTilt::LimitClear(w) => seq![
                0x81u8,
                0x01,
                0x06,
                0x07,
                0x01,
                w,
                0x07,
                0x0F,
                0x0F,
                0x0F,
                0x0F,
                0x07,
                0x0F,
                0x0F,
                0x0F,
                0xFF,
            ],
        }
    }

    open spec fn message_type(&self) -> MessageType {
        MessageType::Command
    }

    fn bytes(&self) -> (r: Result<Vec<u8>, ViscaError>) {
        if !self.check_range() {
            return Err(ViscaError::new(ErrorKind::Range));
        }
        let v: Vec<u8> = match *self {
            PanTilt::Up(v, w) => vec![0x81, 0x01, 0x06, 0x01, v, w, 0x03, 0x01, 0xFF],
            PanTilt::Down(v, w) => vec![0x81, 0x01, 0x06, 0x01, v, w, 0x03, 0x02, 0xFF],
            PanTilt::Left(v, w) => vec![0x81, 0x01, 0x06, 0x01, v, w, 0x01, 0x03, 0xFF],
            PanTilt::Right(v, w) => vec![0x81, 0x01, 0x06, 0x01, v, w, 0x02, 0x03, 0xFF],
            PanTilt::UpLeft(v, w) => vec![0x81, 0x01, 0x06, 0x01, v, w, 0x01, 0x01, 0xFF],
            PanTilt::UpRight(v, w) => vec![0x81, 0x01, 0x06, 0x01, v, w, 0x02, 0x01, 0xFF],
            PanTilt::DownLeft(v, w) => vec![0x81, 0x01, 0x06, 0x01, v, w, 0x01, 0x02, 0xFF],
            PanTilt::DownRight(v, w) => vec![0x81, 0x01, 0x06, 0x01, v, w, 0x02, 0x02, 0xFF],
            PanTilt::Stop(v, w) => vec![0x81, 0x01, 0x06, 0x01, v, w, 0x03, 0x03, 0xFF],
            PanTilt::AbsolutePos(v, p, t) => vec![
                0x81,
                0x01,
                0x06,
                0x02,
                v,
                0x00,
                u32byte4(p),
                u32byte3(p),
                u32byte2(p),
                u32byte1(p),
                u32byte0(p),
                u16top(t),
                u16midtop(t),
                u16midbot(t),
                u16bot(t),
                0xFF,
            ],
            PanTilt::RelativePos(v, p, t) => vec![
                0x81,
                0x01,
                0x06,
                0x03,
                v,
                0x00,
                u32byte4(p),
                u32byte3(p),
                u32byte2(p),
                u32byte1(p),
                u32byte0(p),
                u16top(t),
                u16midtop(t),
                u16midbot(t),
                u16bot(t),
                0xFF,
            ],
            PanTilt::Home => vec![0x81, 0x01, 0x06, 0x04, 0xFF],
            PanTilt::Reset => vec![0x81, 0x01, 0x06, 0x05, 0xFF],
            PanTilt::RampCurve(p) => vec![0x81, 0x01, 0x06, 0x31, p, 0xFF],
            PanTilt::SlowMode(p) => vec![0x81, 0x01, 0x06, 0x44, p, 0xFF],
            PanTilt::LimitSet(w, p, t) => vec![
                0x81,
                0x01,
                0x06,
                0x07,
                0x00,
                w,
                u32byte4(p),
                u32byte3(p),
                u32byte2(p),
                u32byte1(p),
                u32byte0(p),
                u16top(t),
                u16midtop(t),
                u16midbot(t),
                u16bot(t),
                0xFF,
            ],
            PanTilt::LimitClear(w) => vec![
                0x81,
                0x01,
                0x06,
                0x07,
                0x01,
                w,
                0x07,
                0x0F,
                0x0F,
                0x0F,
                0x0F,
                0x07,
                0x0F,
                0x0F,
                0x0F,
                0xFF,
            ],
        };
        assert(v@ =~= self.encoding());
        Ok(v)
    }

    fn msg_type(&self) -> (t: MessageType) {
        MessageType::Command
    }

    proof fn lemma_encoding_is_request(&self) {
    }

    proof fn lemma_encoding_is_one_to_one(&self, other: &Self) {
        let a = self.encoding();
        let b = other.encoding();
        assert(a.len() == b.len());
        assert(a[2] == b[2] && a[3] == b[3] && a[4] == b[4] && a[5] == b[5] && a[6] == b[6]
            && a[7] == b[7] && a[8] == b[8] && a[9] == b[9] && a[10] == b[10] && a[11] == b[11]
            && a[12] == b[12] && a[13] == b[13] && a[14] == b[14]);
        match *self {
            PanTilt::Up(_, _) => {
                assert(*other is Up);
            },
            PanTilt::Down(_, _) => {
                assert(*other is Down);
            },
            PanTilt::Left(_, _) => {
                assert(*other is Left);
            },
            PanTilt::Right(_, _) => {
                assert(*other is Right);
            },
            PanTilt::UpLeft(_, _) => {
                assert(*other is UpLeft);
            },
            PanTilt::UpRight(_, _) => {
                assert(*other is UpRight);
            },
            PanTilt::DownLeft(_, _) => {
                assert(*other is DownLeft);
            },
            PanTilt::DownRight(_, _) => {
                assert(*other is DownRight);
            },
            PanTilt::Stop(_, _) => {
                assert(*other is Stop);
            },
            PanTilt::AbsolutePos(_, p, t) => {
                assert(*other is AbsolutePos);
                lemma_nibbles_tell_u20(p, other->AbsolutePos_1);
                lemma_nibbles_tell_u16(t, other->AbsolutePos_2);
            },
            PanTilt::RelativePos(_, p, t) => {
                assert(*other is RelativePos);
                lemma_nibbles_tell_u20(p, other->RelativePos_1);
                lemma_nibbles_tell_u16(t, other->RelativePos_2);
            },
            PanTilt::Home => {
                assert(*other is Home);
            },
            PanTilt::Reset => {
                assert(*other is Reset);
            },
            PanTilt::RampCurve(_) => {
                assert(*other is RampCurve);
            },
            PanTilt::SlowMode(_) => {
                assert(*other is SlowMode);
            },
            PanTilt::LimitSet(_, p, t) => {
                assert(*other is LimitSet);
                lemma_nibbles_tell_u20(p, other->LimitSet_1);
                lemma_nibbles_tell_u16(t, other->LimitSet_2);
            },
            PanTilt::LimitClear(_) => {
                assert(*other is LimitClear);
            },
        }
    }
}

impl ViscaCommand for PanTilt {
    proof fn lemma_command(&self) {
    }
}

/// Preset positions.
#[derive(Debug, Clone, Copy, PartialEq, Eq)]
pub enum Preset {
    /// Memory number. Clears what is stored under it.
    Reset(u8),
    /// Memory number. Stores the present position under it.
    Store(u8),
    /// Memory number. Moves to the position stored under it.
    Recall(u8),
    /// The preset number less one, 0x00 to 0x63, then the speed towards it, 0x01 to
    /// 0x18.
    PresetDriveSpeed(u8, u8),
    /// 0x00 = mode 1, 0x01 = mode 2, 0x10 = trace.
    PresetMode(u8),
}

impl Preset {
    /// Tells whether every parameter lies within its range.
    pub fn check_range(&self) -> (b: bool)
        ensures
            b == self.in_range(),
    {
        match *self {
            Preset::PresetDriveSpeed(p, q) => p <= 0x63 && 0x01 <= q && q <= 0x18,
            Preset::PresetMode(p) => p == 0x00 || p == 0x01 || p == 0x10,
            _ => true,
        }
    }
}

impl ViscaMessage for Preset {
    open spec fn in_range(&self) -> bool {
        match *self {
            Preset::PresetDriveSpeed(p, q) => p <= 0x63 && 0x01 <= q <= 0x18,
            Preset::PresetMode(p) => p == 0x00 || p == 0x01 || p == 0x10,
            _ => true,
        }
    }

    open spec fn encoding(&self) -> Seq<u8> {
        match *self {
            Preset::Reset(p) => seq![0x81u8, 0x01, 0x04, 0x3F, 0x00, p, 0xFF],
            Preset::Store(p) => seq![0x81u8, 0x01, 0x04, 0x3F, 0x01, p, 0xFF],
            Preset::Recall(p) => seq![0x81u8, 0x01, 0x04, 0x3F, 0x02, p, 0xFF],
            Preset::PresetDriveSpeed(p, q) => seq![0x81u8, 0x01, 0x7E, 0x01, 0x0B, p, q, 0xFF],
            Preset::PresetMode(p) => seq![0x81u8, 0x01, 0x7E, 0x04, 0x3D, p, 0xFF],
        }
    }

    open spec fn message_type(&self) -> MessageType {
        MessageType::Command
    }

    fn bytes(&self) -> (r: Result<Vec<u8>, ViscaError>) {
        if !self.check_range() {
            return Err(ViscaError::new(ErrorKind::Range));
        }
        let v: Vec<u8> = match *self {
            Preset::Reset(p) => vec![0x81, 0x01, 0x04, 0x3F, 0x00, p, 0xFF],
            Preset::Store(p) => vec![0x81, 0x01, 0x04, 0x3F, 0x01, p, 0xFF],
            Preset::Recall(p) => vec![0x81, 0x01, 0x04, 0x3F, 0x02, p, 0xFF],
            Preset::PresetDriveSpeed(p, q) => vec![0x81, 0x01, 0x7E, 0x01, 0x0B, p, q, 0xFF],
            Preset::PresetMode(p) => vec![0x81, 0x01, 0x7E, 0x04, 0x3D, p, 0xFF],
        };
        assert(v@ =~= self.encoding());
        Ok(v)
    }

    fn msg_type(&self) -> (t: MessageType) {
        MessageType::Command
    }

    proof fn lemma_encoding_is_request(&self) {
    }

    proof fn lemma_encoding_is_one_to_one(&self, other: &Self) {
        let a = self.encoding();
        let b = other.encoding();
        assert(a.len() == b.len());
        assert(a[2] == b[2] && a[3] == b[3] && a[4] == b[4] && a[5] == b[5] && a[6] == b[6]);
        match *self {
            Preset::Reset(_) => {
                assert(*other is Reset);
            },
            Preset::Store(_) => {
                assert(*other is Store);
            },
            Preset::Recall(_) => {
                assert(*other is Recall);
            },
            Preset::PresetDriveSpeed(_, _) => {
                assert(*other is PresetDriveSpeed);
            },
            Preset::PresetMode(_) => {
                assert(*other is PresetMode);
            },
        }
    }
}

impl ViscaCommand for Preset {
    proof fn lemma_command(&self) {
    }
}

/// Recording and replay of a pan, tilt and zoom trace.
///
/// The type names the operations of this family. The catalogue holds no bytes for
/// them, so the type implements neither [`ViscaMessage`] nor [`ViscaCommand`] and
/// a value of it cannot be sent.
#[derive(Debug, Clone, Copy, PartialEq, Eq)]
pub enum PTZTrace {
    RecStart(u8),
    RecStop,
    PlayPrepare(u8),
    PlayStart,
    Delete(u8),
}

/// Settings of the camera as a whole.
#[derive(Debug, Clone, Copy, PartialEq, Eq)]
pub enum System {
    /// 0x02 = on, 0x03 = off, 0x10 = toggle.
    IRReceive(u8),
    HPhaseUp,
    HPhaseDown,
    /// Phase 0x000 to 0x3BF.
    HPhaseDirect(u16),
    /// 2 = on, 3 = off.
    ImgFlipOnOff(u8),
    /// 1 = on, 0 = off.
    PanReverseOnOFf(u8),
    /// 1 = on, 0 = off.
    TiltReverseOnOff(u8),
    MenuDisplayOff,
}

impl System {
    /// Tells whether every parameter lies within its range.
    pub fn check_range(&self) -> (b: bool)
        ensures
            b == self.in_range(),
    {
        match *self {
            System::IRReceive(p) => p == 0x02 || p == 0x03 || p == 0x10,
            System::HPhaseDirect(p) => p <= 0x03BF,
            System::ImgFlipOnOff(p) => p == 0x02 || p == 0x03,
            System::PanReverseOnOFf(p) => p == 0x00 || p == 0x01,
            System::TiltReverseOnOff(p) => p == 0x00 || p == 0x01,
            _ => true,
        }
    }
}

impl ViscaMessage for System {
    open spec fn in_range(&self) -> bool {
        match *self {
            System::IRReceive(p) => p == 0x02 || p == 0x03 || p == 0x10,
            System::HPhaseDirect(p) => p <= 0x03BF,
            System::ImgFlipOnOff(p) => p == 0x02 || p == 0x03,
            System::PanReverseOnOFf(p) => p == 0x00 || p == 0x01,
            System::TiltReverseOnOff(p) => p == 0x00 || p == 0x01,
            _ => true,
        }
    }

    open spec fn encoding(&self) -> Seq<u8> {
        match *self {
            System::IRReceive(p) => seq![0x81u8, 0x01, 0x06, 0x08, p, 0xFF],
            System::HPhaseUp => seq![0x81u8, 0x01, 0x7E, 0x01, 0x3E, 0x00, 0x02, 0xFF],
            System::HPhaseDown => seq![0x81u8, 0x01, 0x7E, 0x01, 0x3E, 0x00, 0x03, 0xFF],
            System::HPhaseDirect(p) => seq![
                0x81u8,
                0x01,
                0x7E,
                0x01,
                0x5B,
                0x00,
                nibble_of(p as nat, 0x100),
                nibble_of(p as nat, 0x10),
                nibble_of(p as nat, 1),
                0xFF,
            ],
            System::ImgFlipOnOff(p) => seq![0x81u8, 0x01, 0x04, 0x66, p, 0xFF],
            System::PanReverseOnOFf(p) => seq![0x81u8, 0x01, 0x7E, 0x01, 0x06, 0x00, p, 0xFF],
            System::TiltReverseOnOff(p) => seq![0x81u8, 0x01, 0x7E, 0x01, 0x09, 0x00, p, 0xFF],
            System::MenuDisplayOff => seq![0x81u8, 0x01, 0x06, 0x06, 0x03, 0xFF],
        }
    }

    open spec fn message_type(&self) -> MessageType {
        MessageType::Command
    }

    fn bytes(&self) -> (r: Result<Vec<u8>, ViscaError>) {
        if !self.check_range() {
            return Err(ViscaError::new(ErrorKind::Range));
        }
        let v: Vec<u8> = match *self {
            System::IRReceive(p) => vec![0x81, 0x01, 0x06, 0x08, p, 0xFF],
            System::HPhaseUp => vec![0x81, 0x01, 0x7E, 0x01, 0x3E, 0x00, 0x02, 0xFF],
            System::HPhaseDown => vec![0x81, 0x01, 0x7E, 0x01, 0x3E, 0x00, 0x03, 0xFF],
            System::HPhaseDirect(p) => vec![
                0x81,
                0x01,
                0x7E,
                0x01,
                0x5B,
                0x00,
                u16midtop(p),
                u16midbot(p),
                u16bot(p),
                0xFF,
            ],
            System::ImgFlipOnOff(p) => vec![0x81, 0x01, 0x04, 0x66, p, 0xFF],
            System::PanReverseOnOFf(p) => vec![0x81, 0x01, 0x7E, 0x01, 0x06, 0x00, p, 0xFF],
            System::TiltReverseOnOff(p) => vec![0x81, 0x01, 0x7E, 0x01, 0x09, 0x00, p, 0xFF],
            System::MenuDisplayOff => vec![0x81, 0x01, 0x06, 0x06, 0x03, 0xFF],
        };
        assert(v@ =~= self.encoding());
        Ok(v)
    }

    fn msg_type(&self) -> (t: MessageType) {
        MessageType::Command
    }

    proof fn lemma_encoding_is_request(&self) {
    }

    proof fn lemma_encoding_is_one_to_one(&self, other: &Self) {
        let a = self.encoding();
        let b = other.encoding();
        assert(a.len() == b.len());
        assert(a[2] == b[2] && a[3] == b[3] && a[4] == b[4] && a[5] == b[5] && a[6] == b[6]
            && a[7] == b[7] && a[8] == b[8]);
        match *self {
            System::IRReceive(_) => {
                assert(*other is IRReceive);
            },
            System::HPhaseUp => {
                assert(*other is HPhaseUp);
            },
            System::HPhaseDown => {
                assert(*other is HPhaseDown);
            },
            System::HPhaseDirect(p) => {
                assert(*other is HPhaseDirect);
                lemma_nibbles_tell_u12(p, other->HPhaseDirect_0);
            },
            System::ImgFlipOnOff(_) => {
                assert(*other is ImgFlipOnOff);
            },
            System::PanReverseOnOFf(_) => {
                assert(*other is PanReverseOnOFf);
            },
            System::TiltReverseOnOff(_) => {
                assert(*other is TiltReverseOnOff);
            },
            System::MenuDisplayOff => {
                assert(*other is MenuDisplayOff);
            },
        }
    }
}

impl ViscaCommand for System {
    proof fn lemma_command(&self) {
    }
}

} // verus!
