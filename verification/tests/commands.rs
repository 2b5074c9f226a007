//! The bytes of every command, and the refusal of every parameter out of range.

use visca_ip::commands::{Colour, Exposure, Focus, PanAngle, PanTilt, Preset, System, TiltAngle, Zoom};
use visca_ip::messages::{MessageType, ViscaMessage};
use visca_ip::ErrorKind;

fn encoded<M: ViscaMessage>(message: M) -> Vec<u8> {
    match message.bytes() {
        Ok(bytes) => bytes,
        Err(e) => panic!("refused: {:?}", e),
    }
}

fn refused<M: ViscaMessage>(message: M) -> bool {
    match message.bytes() {
        Ok(_) => false,
        Err(e) => e.kind == ErrorKind::Range && e.raw.is_empty(),
    }
}

#[test]
fn exposure_commands_encode_to_their_bytes() {
    assert_eq!(encoded(Exposure::ModeFullAuto), vec![0x81, 0x01, 0x04, 0x39, 0x00, 0xFF]);
    assert_eq!(encoded(Exposure::ModeManual), vec![0x81, 0x01, 0x04, 0x39, 0x03, 0xFF]);
    assert_eq!(encoded(Exposure::ModeShutterPri), vec![0x81, 0x01, 0x04, 0x39, 0x0A, 0xFF]);
    assert_eq!(encoded(Exposure::ModeIrisPri), vec![0x81, 0x01, 0x04, 0x39, 0x0B, 0xFF]);
    assert_eq!(encoded(Exposure::ModeGainPri), vec![0x81, 0x01, 0x04, 0x39, 0x0E, 0xFF]);
    assert_eq!(encoded(Exposure::IrisReset), vec![0x81, 0x01, 0x04, 0x0B, 0x00, 0xFF]);
    assert_eq!(encoded(Exposure::IrisUp), vec![0x81, 0x01, 0x04, 0x0B, 0x02, 0xFF]);
    assert_eq!(encoded(Exposure::IrisDown), vec![0x81, 0x01, 0x04, 0x0B, 0x03, 0xFF]);
    assert_eq!(
        encoded(Exposure::IrisDirect(0x05)),
        vec![0x81, 0x01, 0x04, 0x4B, 0x00, 0x00, 0x00, 0x05, 0xFF]
    );
    assert_eq!(
        encoded(Exposure::IrisDirect(0x0D)),
        vec![0x81, 0x01, 0x04, 0x4B, 0x00, 0x00, 0x00, 0x0D, 0xFF]
    );
    assert_eq!(
        encoded(Exposure::IrisDirect(0x15)),
        vec![0x81, 0x01, 0x04, 0x4B, 0x00, 0x00, 0x01, 0x05, 0xFF]
    );
    assert_eq!(encoded(Exposure::GainReset), vec![0x81, 0x01, 0x04, 0x0C, 0x00, 0xFF]);
    assert_eq!(encoded(Exposure::GainUp), vec![0x81, 0x01, 0x04, 0x0C, 0x02, 0xFF]);
    assert_eq!(encoded(Exposure::GainDown), vec![0x81, 0x01, 0x04, 0x0C, 0x03, 0xFF]);
    assert_eq!(
        encoded(Exposure::GainDirect(0x00)),
        vec![0x81, 0x01, 0x04, 0x4C, 0x00, 0x00, 0x00, 0x00, 0xFF]
    );
    assert_eq!(
        encoded(Exposure::GainDirect(0x06)),
        vec![0x81, 0x01, 0x04, 0x4C, 0x00, 0x00, 0x00, 0x06, 0xFF]
    );
    assert_eq!(
        encoded(Exposure::GainDirect(0x0C)),
        vec![0x81, 0x01, 0x04, 0x4C, 0x00, 0x00, 0x00, 0x0C, 0xFF]
    );
    assert_eq!(encoded(Exposure::GainLimit(0x04)), vec![0x81, 0x01, 0x04, 0x2C, 0x04, 0xFF]);
    assert_eq!(encoded(Exposure::GainLimit(0x09)), vec![0x81, 0x01, 0x04, 0x2C, 0x09, 0xFF]);
    assert_eq!(encoded(Exposure::GainLimit(0xFF)), vec![0x81, 0x01, 0x04, 0x2C, 0xFF, 0xFF]);
    assert_eq!(encoded(Exposure::GainPoint(0x02)), vec![0x81, 0x01, 0x05, 0x0C, 0x02, 0xFF]);
    assert_eq!(encoded(Exposure::GainPoint(0x03)), vec![0x81, 0x01, 0x05, 0x0C, 0x03, 0xFF]);
    assert_eq!(
        encoded(Exposure::GainPointPos(0x01)),
        vec![0x81, 0x01, 0x05, 0x4C, 0x00, 0x01, 0xFF]
    );
    assert_eq!(
        encoded(Exposure::GainPointPos(0x05)),
        vec![0x81, 0x01, 0x05, 0x4C, 0x00, 0x05, 0xFF]
    );
    assert_eq!(
        encoded(Exposure::GainPointPos(0x09)),
        vec![0x81, 0x01, 0x05, 0x4C, 0x00, 0x09, 0xFF]
    );
    assert_eq!(encoded(Exposure::ShutterReset), vec![0x81, 0x01, 0x04, 0x0A, 0x00, 0xFF]);
    assert_eq!(encoded(Exposure::ShutterUp), vec![0x81, 0x01, 0x04, 0x0A, 0x02, 0xFF]);
    assert_eq!(encoded(Exposure::ShutterDown), vec![0x81, 0x01, 0x04, 0x0A, 0x03, 0xFF]);
    assert_eq!(
        encoded(Exposure::ShutterDirect(0x01)),
        vec![0x81, 0x01, 0x04, 0x4A, 0x00, 0x00, 0x00, 0x01, 0xFF]
    );
    assert_eq!(
        encoded(Exposure::ShutterDirect(0x0B)),
        vec![0x81, 0x01, 0x04, 0x4A, 0x00, 0x00, 0x00, 0x0B, 0xFF]
    );
    assert_eq!(
        encoded(Exposure::ShutterDirect(0x15)),
        vec![0x81, 0x01, 0x04, 0x4A, 0x00, 0x00, 0x01, 0x05, 0xFF]
    );
    assert_eq!(
        encoded(Exposure::MaxShutter(0x03)),
        vec![0x81, 0x01, 0x05, 0x2A, 0x00, 0x00, 0x03, 0xFF]
    );
    assert_eq!(
        encoded(Exposure::MaxShutter(0x0C)),
        vec![0x81, 0x01, 0x05, 0x2A, 0x00, 0x00, 0x0C, 0xFF]
    );
    assert_eq!(
        encoded(Exposure::MaxShutter(0x15)),
        vec![0x81, 0x01, 0x05, 0x2A, 0x00, 0x01, 0x05, 0xFF]
    );
    assert_eq!(
        encoded(Exposure::MinShutter(0x03)),
        vec![0x81, 0x01, 0x05, 0x2A, 0x01, 0x00, 0x03, 0xFF]
    );
    assert_eq!(
        encoded(Exposure::MinShutter(0x0C)),
        vec![0x81, 0x01, 0x05, 0x2A, 0x01, 0x00, 0x0C, 0xFF]
    );
    assert_eq!(
        encoded(Exposure::MinShutter(0x15)),
        vec![0x81, 0x01, 0x05, 0x2A, 0x01, 0x01, 0x05, 0xFF]
    );
    assert_eq!(encoded(Exposure::AESpeed(0x01)), vec![0x81, 0x01, 0x04, 0x5D, 0x01, 0xFF]);
    assert_eq!(encoded(Exposure::AESpeed(0x18)), vec![0x81, 0x01, 0x04, 0x5D, 0x18, 0xFF]);
    assert_eq!(encoded(Exposure::AESpeed(0x30)), vec![0x81, 0x01, 0x04, 0x5D, 0x30, 0xFF]);
    assert_eq!(encoded(Exposure::ExpCompOnOff(0x02)), vec![0x81, 0x01, 0x04, 0x3E, 0x02, 0xFF]);
    assert_eq!(encoded(Exposure::ExpCompOnOff(0x03)), vec![0x81, 0x01, 0x04, 0x3E, 0x03, 0xFF]);
    assert_eq!(encoded(Exposure::ExpCompReset), vec![0x81, 0x01, 0x04, 0x0E, 0x00, 0xFF]);
    assert_eq!(encoded(Exposure::ExpCompUp), vec![0x81, 0x01, 0x04, 0x0E, 0x02, 0xFF]);
    assert_eq!(encoded(Exposure::ExpCompDown), vec![0x81, 0x01, 0x04, 0x0E, 0x03, 0xFF]);
    assert_eq!(
        encoded(Exposure::ExpCompDirect(0x00)),
        vec![0x81, 0x01, 0x04, 0x4E, 0x00, 0x00, 0x00, 0x00, 0xFF]
    );
    assert_eq!(
        encoded(Exposure::ExpCompDirect(0x07)),
        vec![0x81, 0x01, 0x04, 0x4E, 0x00, 0x00, 0x00, 0x07, 0xFF]
    );
    assert_eq!(
        encoded(Exposure::ExpCompDirect(0x0E)),
        vec![0x81, 0x01, 0x04, 0x4E, 0x00, 0x00, 0x00, 0x0E, 0xFF]
    );
    assert_eq!(encoded(Exposure::BackLight(0x02)), vec![0x81, 0x01, 0x04, 0x33, 0x02, 0xFF]);
    assert_eq!(encoded(Exposure::BackLight(0x03)), vec![0x81, 0x01, 0x04, 0x33, 0x03, 0xFF]);
    assert_eq!(encoded(Exposure::SpotLight(0x02)), vec![0x81, 0x01, 0x04, 0x3A, 0x02, 0xFF]);
    assert_eq!(encoded(Exposure::SpotLight(0x03)), vec![0x81, 0x01, 0x04, 0x3A, 0x03, 0xFF]);
    assert_eq!(encoded(Exposure::VisEnhanceOn), vec![0x81, 0x01, 0x04, 0x3D, 0x06, 0xFF]);
    assert_eq!(encoded(Exposure::VisEnhanceOff), vec![0x81, 0x01, 0x04, 0x3D, 0x03, 0xFF]);
    assert_eq!(
        encoded(Exposure::VisEnhanceDirect(0x00, 0x00, 0x00)),
        vec![0x81, 0x01, 0x04, 0x2D, 0x00, 0x00, 0x00, 0x00, 0x00, 0x00, 0x00, 0x00, 0xFF]
    );
    assert_eq!(
        encoded(Exposure::VisEnhanceDirect(0x03, 0x01, 0x01)),
        vec![0x81, 0x01, 0x04, 0x2D, 0x00, 0x03, 0x01, 0x01, 0x00, 0x00, 0x00, 0x00, 0xFF]
    );
    assert_eq!(
        encoded(Exposure::VisEnhanceDirect(0x06, 0x03, 0x02)),
        vec![0x81, 0x01, 0x04, 0x2D, 0x00, 0x06, 0x03, 0x02, 0x00, 0x00, 0x00, 0x00, 0xFF]
    );
    assert_eq!(encoded(Exposure::IrCutFilterOnOff(0x02)), vec![0x81, 0x01, 0x04, 0x01, 0x02, 0xFF]);
    assert_eq!(encoded(Exposure::IrCutFilterOnOff(0x03)), vec![0x81, 0x01, 0x04, 0x01, 0x03, 0xFF]);
    assert_eq!(
        encoded(Exposure::LowLightBasisBrightnessOnOff(0x02)),
        vec![0x81, 0x01, 0x05, 0x39, 0x02, 0xFF]
    );
    assert_eq!(
        encoded(Exposure::LowLightBasisBrightnessOnOff(0x03)),
        vec![0x81, 0x01, 0x05, 0x39, 0x03, 0xFF]
    );
    assert_eq!(
        encoded(Exposure::LowLightBasisBrightnessDirect(0x04)),
        vec![0x81, 0x01, 0x05, 0x49, 0x04, 0xFF]
    );
    assert_eq!(
        encoded(Exposure::LowLightBasisBrightnessDirect(0x07)),
        vec![0x81, 0x01, 0x05, 0x49, 0x07, 0xFF]
    );
    assert_eq!(
        encoded(Exposure::LowLightBasisBrightnessDirect(0x0A)),
        vec![0x81, 0x01, 0x05, 0x49, 0x0A, 0xFF]
    );
    assert_eq!(encoded(Exposure::NDFilter(0x00)), vec![0x81, 0x01, 0x7E, 0x01, 0x53, 0x00, 0xFF]);
    assert_eq!(encoded(Exposure::NDFilter(0x01)), vec![0x81, 0x01, 0x7E, 0x01, 0x53, 0x01, 0xFF]);
    assert_eq!(encoded(Exposure::NDFilter(0x03)), vec![0x81, 0x01, 0x7E, 0x01, 0x53, 0x03, 0xFF]);
}

#[test]
fn exposure_commands_refuse_parameters_out_of_range() {
    assert!(refused(Exposure::IrisDirect(0x04)));
    assert!(refused(Exposure::IrisDirect(0x16)));
    assert!(refused(Exposure::IrisDirect(0xFF)));
    assert!(refused(Exposure::GainDirect(0x0D)));
    assert!(refused(Exposure::GainDirect(0xFF)));
    assert!(refused(Exposure::GainLimit(0x03)));
    assert!(refused(Exposure::GainLimit(0x0A)));
    assert!(refused(Exposure::GainLimit(0xFE)));
    assert!(refused(Exposure::GainPoint(0x00)));
    assert!(refused(Exposure::GainPoint(0x04)));
    assert!(refused(Exposure::GainPoint(0xFF)));
    assert!(refused(Exposure::GainPointPos(0x00)));
    assert!(refused(Exposure::GainPointPos(0x0A)));
    assert!(refused(Exposure::GainPointPos(0xFF)));
    assert!(refused(Exposure::ShutterDirect(0x00)));
    assert!(refused(Exposure::ShutterDirect(0x16)));
    assert!(refused(Exposure::ShutterDirect(0xFF)));
    assert!(refused(Exposure::MaxShutter(0x02)));
    assert!(refused(Exposure::MaxShutter(0x16)));
    assert!(refused(Exposure::MaxShutter(0xFF)));
    assert!(refused(Exposure::MinShutter(0x02)));
    assert!(refused(Exposure::MinShutter(0x16)));
    assert!(refused(Exposure::MinShutter(0xFF)));
    assert!(refused(Exposure::AESpeed(0x00)));
    assert!(refused(Exposure::AESpeed(0x31)));
    assert!(refused(Exposure::AESpeed(0xFF)));
    assert!(refused(Exposure::ExpCompOnOff(0x00)));
    assert!(refused(Exposure::ExpCompOnOff(0x04)));
    assert!(refused(Exposure::ExpCompOnOff(0xFF)));
    assert!(refused(Exposure::ExpCompDirect(0x0F)));
    assert!(refused(Exposure::ExpCompDirect(0xFF)));
    assert!(refused(Exposure::BackLight(0x00)));
    assert!(refused(Exposure::BackLight(0x04)));
    assert!(refused(Exposure::BackLight(0xFF)));
    assert!(refused(Exposure::SpotLight(0x00)));
    assert!(refused(Exposure::SpotLight(0x04)));
    assert!(refused(Exposure::SpotLight(0xFF)));
    assert!(refused(Exposure::VisEnhanceDirect(0x07, 0x00, 0x00)));
    assert!(refused(Exposure::VisEnhanceDirect(0xFF, 0x00, 0x00)));
    assert!(refused(Exposure::VisEnhanceDirect(0x00, 0x04, 0x00)));
    assert!(refused(Exposure::VisEnhanceDirect(0x00, 0xFF, 0x00)));
    assert!(refused(Exposure::VisEnhanceDirect(0x00, 0x00, 0x03)));
    assert!(refused(Exposure::VisEnhanceDirect(0x00, 0x00, 0xFF)));
    assert!(refused(Exposure::IrCutFilterOnOff(0x00)));
    assert!(refused(Exposure::IrCutFilterOnOff(0x04)));
    assert!(refused(Exposure::IrCutFilterOnOff(0xFF)));
    assert!(refused(Exposure::LowLightBasisBrightnessOnOff(0x00)));
    assert!(refused(Exposure::LowLightBasisBrightnessOnOff(0x04)));
    assert!(refused(Exposure::LowLightBasisBrightnessOnOff(0xFF)));
    assert!(refused(Exposure::LowLightBasisBrightnessDirect(0x03)));
    assert!(refused(Exposure::LowLightBasisBrightnessDirect(0x0B)));
    assert!(refused(Exposure::LowLightBasisBrightnessDirect(0xFF)));
    assert!(refused(Exposure::NDFilter(0x04)));
    assert!(refused(Exposure::NDFilter(0xFF)));
}

#[test]
fn colour_commands_encode_to_their_bytes() {
    assert_eq!(encoded(Colour::WBAuto1), vec![0x81, 0x01, 0x04, 0x35, 0x00, 0xFF]);
    assert_eq!(encoded(Colour::WBIndoor), vec![0x81, 0x01, 0x04, 0x35, 0x01, 0xFF]);
    assert_eq!(encoded(Colour::WBOutdoor), vec![0x81, 0x01, 0x04, 0x35, 0x02, 0xFF]);
    assert_eq!(encoded(Colour::WBOnePush), vec![0x81, 0x01, 0x04, 0x35, 0x03, 0xFF]);
    assert_eq!(encoded(Colour::WBAuto2), vec![0x81, 0x01, 0x04, 0x35, 0x04, 0xFF]);
    assert_eq!(encoded(Colour::WBManual), vec![0x81, 0x01, 0x04, 0x35, 0x05, 0xFF]);
    assert_eq!(encoded(Colour::OnePushTrigger), vec![0x81, 0x01, 0x04, 0x10, 0x05, 0xFF]);
    assert_eq!(encoded(Colour::RGainReset), vec![0x81, 0x01, 0x04, 0x03, 0x00, 0xFF]);
    assert_eq!(encoded(Colour::RGainUp), vec![0x81, 0x01, 0x04, 0x03, 0x02, 0xFF]);
    assert_eq!(encoded(Colour::RGainDown), vec![0x81, 0x01, 0x04, 0x03, 0x03, 0xFF]);
    assert_eq!(
        encoded(Colour::RGainDirect(0x00)),
        vec![0x81, 0x01, 0x04, 0x43, 0x00, 0x00, 0x00, 0x00, 0xFF]
    );
    assert_eq!(
        encoded(Colour::RGainDirect(0xA7)),
        vec![0x81, 0x01, 0x04, 0x43, 0x00, 0x00, 0x0A, 0x07, 0xFF]
    );
    assert_eq!(
        encoded(Colour::RGainDirect(0xFF)),
        vec![0x81, 0x01, 0x04, 0x43, 0x00, 0x00, 0x0F, 0x0F, 0xFF]
    );
    assert_eq!(encoded(Colour::BGainReset), vec![0x81, 0x01, 0x04, 0x04, 0x00, 0xFF]);
    assert_eq!(encoded(Colour::BGainUp), vec![0x81, 0x01, 0x04, 0x04, 0x02, 0xFF]);
    assert_eq!(encoded(Colour::BGainDown), vec![0x81, 0x01, 0x04, 0x04, 0x03, 0xFF]);
    assert_eq!(
        encoded(Colour::BGainDirect(0x00)),
        vec![0x81, 0x01, 0x04, 0x44, 0x00, 0x00, 0x00, 0x00, 0xFF]
    );
    assert_eq!(
        encoded(Colour::BGainDirect(0xA7)),
        vec![0x81, 0x01, 0x04, 0x44, 0x00, 0x00, 0x0A, 0x07, 0xFF]
    );
    assert_eq!(
        encoded(Colour::BGainDirect(0xFF)),
        vec![0x81, 0x01, 0x04, 0x44, 0x00, 0x00, 0x0F, 0x0F, 0xFF]
    );
    assert_eq!(encoded(Colour::Speed(0x01)), vec![0x81, 0x01, 0x04, 0x56, 0x01, 0xFF]);
    assert_eq!(encoded(Colour::Speed(0x03)), vec![0x81, 0x01, 0x04, 0x56, 0x03, 0xFF]);
    assert_eq!(encoded(Colour::Speed(0x05)), vec![0x81, 0x01, 0x04, 0x56, 0x05, 0xFF]);
    assert_eq!(encoded(Colour::OffsetReset), vec![0x81, 0x01, 0x7E, 0x01, 0x2E, 0x00, 0x00, 0xFF]);
    assert_eq!(encoded(Colour::OffsetUp), vec![0x81, 0x01, 0x7E, 0x01, 0x2E, 0x00, 0x02, 0xFF]);
    assert_eq!(encoded(Colour::OffsetDown), vec![0x81, 0x01, 0x7E, 0x01, 0x2E, 0x00, 0x03, 0xFF]);
    assert_eq!(
        encoded(Colour::OffsetDirect(0x00)),
        vec![0x81, 0x01, 0x7E, 0x01, 0x2E, 0x01, 0x00, 0xFF]
    );
    assert_eq!(
        encoded(Colour::OffsetDirect(0x07)),
        vec![0x81, 0x01, 0x7E, 0x01, 0x2E, 0x01, 0x07, 0xFF]
    );
    assert_eq!(
        encoded(Colour::OffsetDirect(0x0E)),
        vec![0x81, 0x01, 0x7E, 0x01, 0x2E, 0x01, 0x0E, 0xFF]
    );
    assert_eq!(encoded(Colour::ChromaSuppress(0x00)), vec![0x81, 0x01, 0x04, 0x5F, 0x00, 0xFF]);
    assert_eq!(encoded(Colour::ChromaSuppress(0x01)), vec![0x81, 0x01, 0x04, 0x5F, 0x01, 0xFF]);
    assert_eq!(encoded(Colour::ChromaSuppress(0x03)), vec![0x81, 0x01, 0x04, 0x5F, 0x03, 0xFF]);
    assert_eq!(encoded(Colour::MatrixSelect(0x02)), vec![0x81, 0x01, 0x7E, 0x01, 0x3D, 0x02, 0xFF]);
    assert_eq!(encoded(Colour::MatrixSelect(0x06)), vec![0x81, 0x01, 0x7E, 0x01, 0x3D, 0x06, 0xFF]);
    assert_eq!(encoded(Colour::MatrixSelect(0x0B)), vec![0x81, 0x01, 0x7E, 0x01, 0x3D, 0x0B, 0xFF]);
    assert_eq!(encoded(Colour::LevelReset), vec![0x81, 0x01, 0x04, 0x09, 0x00, 0xFF]);
    assert_eq!(encoded(Colour::LevelUp), vec![0x81, 0x01, 0x04, 0x09, 0x02, 0xFF]);
    assert_eq!(encoded(Colour::LevelDown), vec![0x81, 0x01, 0x04, 0x09, 0x03, 0xFF]);
    assert_eq!(
        encoded(Colour::LevelDirect(0x00)),
        vec![0x81, 0x01, 0x04, 0x49, 0x00, 0x00, 0x00, 0x00, 0xFF]
    );
    assert_eq!(
        encoded(Colour::LevelDirect(0x07)),
        vec![0x81, 0x01, 0x04, 0x49, 0x00, 0x00, 0x00, 0x07, 0xFF]
    );
    assert_eq!(
        encoded(Colour::LevelDirect(0x0E)),
        vec![0x81, 0x01, 0x04, 0x49, 0x00, 0x00, 0x00, 0x0E, 0xFF]
    );
    assert_eq!(encoded(Colour::PhaseReset), vec![0x81, 0x01, 0x04, 0x0F, 0x00, 0xFF]);
    assert_eq!(encoded(Colour::PhaseUp), vec![0x81, 0x01, 0x04, 0x0F, 0x02, 0xFF]);
    assert_eq!(encoded(Colour::PhaseDown), vec![0x81, 0x01, 0x04, 0x0F, 0x03, 0xFF]);
    assert_eq!(
        encoded(Colour::PhaseDirect(0x00)),
        vec![0x81, 0x01, 0x04, 0x4F, 0x00, 0x00, 0x00, 0x00, 0xFF]
    );
    assert_eq!(
        encoded(Colour::PhaseDirect(0x07)),
        vec![0x81, 0x01, 0x04, 0x4F, 0x00, 0x00, 0x00, 0x07, 0xFF]
    );
    assert_eq!(
        encoded(Colour::PhaseDirect(0x0E)),
        vec![0x81, 0x01, 0x04, 0x4F, 0x00, 0x00, 0x00, 0x0E, 0xFF]
    );
    assert_eq!(encoded(Colour::RG(0x00)), vec![0x81, 0x01, 0x7E, 0x01, 0x7A, 0x00, 0x00, 0xFF]);
    assert_eq!(encoded(Colour::RG(0x63)), vec![0x81, 0x01, 0x7E, 0x01, 0x7A, 0x06, 0x03, 0xFF]);
    assert_eq!(encoded(Colour::RG(0xC6)), vec![0x81, 0x01, 0x7E, 0x01, 0x7A, 0x0C, 0x06, 0xFF]);
    assert_eq!(encoded(Colour::RB(0x00)), vec![0x81, 0x01, 0x7E, 0x01, 0x7B, 0x00, 0x00, 0xFF]);
    assert_eq!(encoded(Colour::RB(0x63)), vec![0x81, 0x01, 0x7E, 0x01, 0x7B, 0x06, 0x03, 0xFF]);
    assert_eq!(encoded(Colour::RB(0xC6)), vec![0x81, 0x01, 0x7E, 0x01, 0x7B, 0x0C, 0x06, 0xFF]);
    assert_eq!(encoded(Colour::GR(0x00)), vec![0x81, 0x01, 0x7E, 0x01, 0x7C, 0x00, 0x00, 0xFF]);
    assert_eq!(encoded(Colour::GR(0x63)), vec![0x81, 0x01, 0x7E, 0x01, 0x7C, 0x06, 0x03, 0xFF]);
    assert_eq!(encoded(Colour::GR(0xC6)), vec![0x81, 0x01, 0x7E, 0x01, 0x7C, 0x0C, 0x06, 0xFF]);
    assert_eq!(encoded(Colour::GB(0x00)), vec![0x81, 0x01, 0x7E, 0x01, 0x7D, 0x00, 0x00, 0xFF]);
    assert_eq!(encoded(Colour::GB(0x63)), vec![0x81, 0x01, 0x7E, 0x01, 0x7D, 0x06, 0x03, 0xFF]);
    assert_eq!(encoded(Colour::GB(0xC6)), vec![0x81, 0x01, 0x7E, 0x01, 0x7D, 0x0C, 0x06, 0xFF]);
    assert_eq!(encoded(Colour::BR(0x00)), vec![0x81, 0x01, 0x7E, 0x01, 0x7E, 0x00, 0x00, 0xFF]);
    assert_eq!(encoded(Colour::BR(0x63)), vec![0x81, 0x01, 0x7E, 0x01, 0x7E, 0x06, 0x03, 0xFF]);
    assert_eq!(encoded(Colour::BR(0xC6)), vec![0x81, 0x01, 0x7E, 0x01, 0x7E, 0x0C, 0x06, 0xFF]);
    assert_eq!(encoded(Colour::BG(0x00)), vec![0x81, 0x01, 0x7E, 0x01, 0x7F, 0x00, 0x00, 0xFF]);
    assert_eq!(encoded(Colour::BG(0x63)), vec![0x81, 0x01, 0x7E, 0x01, 0x7F, 0x06, 0x03, 0xFF]);
    assert_eq!(encoded(Colour::BG(0xC6)), vec![0x81, 0x01, 0x7E, 0x01, 0x7F, 0x0C, 0x06, 0xFF]);
}

#[test]
fn colour_commands_refuse_parameters_out_of_range() {
    assert!(refused(Colour::Speed(0x00)));
    assert!(refused(Colour::Speed(0x06)));
    assert!(refused(Colour::Speed(0xFF)));
    assert!(refused(Colour::OffsetDirect(0x0F)));
    assert!(refused(Colour::OffsetDirect(0xFF)));
    assert!(refused(Colour::ChromaSuppress(0x04)));
    assert!(refused(Colour::ChromaSuppress(0xFF)));
    assert!(refused(Colour::MatrixSelect(0x01)));
    assert!(refused(Colour::MatrixSelect(0x0C)));
    assert!(refused(Colour::MatrixSelect(0xFF)));
    assert!(refused(Colour::LevelDirect(0x0F)));
    assert!(refused(Colour::LevelDirect(0xFF)));
    assert!(refused(Colour::PhaseDirect(0x0F)));
    assert!(refused(Colour::PhaseDirect(0xFF)));
    assert!(refused(Colour::RG(0xC7)));
    assert!(refused(Colour::RG(0xFF)));
    assert!(refused(Colour::RB(0xC7)));
    assert!(refused(Colour::RB(0xFF)));
    assert!(refused(Colour::GR(0xC7)));
    assert!(refused(Colour::GR(0xFF)));
    assert!(refused(Colour::GB(0xC7)));
    assert!(refused(Colour::GB(0xFF)));
    assert!(refused(Colour::BR(0xC7)));
    assert!(refused(Colour::BR(0xFF)));
    assert!(refused(Colour::BG(0xC7)));
    assert!(refused(Colour::BG(0xFF)));
}

#[test]
fn zoom_commands_encode_to_their_bytes() {
    assert_eq!(encoded(Zoom::Stop), vec![0x81, 0x01, 0x04, 0x07, 0x00, 0xFF]);
    assert_eq!(encoded(Zoom::TeleStd), vec![0x81, 0x01, 0x04, 0x07, 0x02, 0xFF]);
    assert_eq!(encoded(Zoom::WideStd), vec![0x81, 0x01, 0x04, 0x07, 0x03, 0xFF]);
    assert_eq!(encoded(Zoom::TeleVar(0x00)), vec![0x81, 0x01, 0x04, 0x07, 0x20, 0xFF]);
    assert_eq!(encoded(Zoom::TeleVar(0x03)), vec![0x81, 0x01, 0x04, 0x07, 0x23, 0xFF]);
    assert_eq!(encoded(Zoom::TeleVar(0x07)), vec![0x81, 0x01, 0x04, 0x07, 0x27, 0xFF]);
    assert_eq!(encoded(Zoom::WideVar(0x00)), vec![0x81, 0x01, 0x04, 0x07, 0x30, 0xFF]);
    assert_eq!(encoded(Zoom::WideVar(0x03)), vec![0x81, 0x01, 0x04, 0x07, 0x33, 0xFF]);
    assert_eq!(encoded(Zoom::WideVar(0x07)), vec![0x81, 0x01, 0x04, 0x07, 0x37, 0xFF]);
    assert_eq!(
        encoded(Zoom::Direct(0x0000)),
        vec![0x81, 0x01, 0x04, 0x47, 0x00, 0x00, 0x00, 0x00, 0xFF]
    );
    assert_eq!(
        encoded(Zoom::Direct(0x1A2B)),
        vec![0x81, 0x01, 0x04, 0x47, 0x01, 0x0A, 0x02, 0x0B, 0xFF]
    );
    assert_eq!(
        encoded(Zoom::Direct(0x6000)),
        vec![0x81, 0x01, 0x04, 0x47, 0x06, 0x00, 0x00, 0x00, 0xFF]
    );
    assert_eq!(encoded(Zoom::ClearImageZoomOff), vec![0x81, 0x01, 0x04, 0x06, 0x03, 0xFF]);
    assert_eq!(encoded(Zoom::ClearImageZoomOn), vec![0x81, 0x01, 0x04, 0x06, 0x04, 0xFF]);
    assert_eq!(encoded(Zoom::TeleConvMode(0x02)), vec![0x81, 0x01, 0x7E, 0x04, 0x36, 0x02, 0xFF]);
    assert_eq!(encoded(Zoom::TeleConvMode(0x03)), vec![0x81, 0x01, 0x7E, 0x04, 0x36, 0x03, 0xFF]);
}

#[test]
fn zoom_commands_refuse_parameters_out_of_range() {
    assert!(refused(Zoom::TeleVar(0x08)));
    assert!(refused(Zoom::TeleVar(0xFF)));
    assert!(refused(Zoom::WideVar(0x08)));
    assert!(refused(Zoom::WideVar(0xFF)));
    assert!(refused(Zoom::Direct(0x6001)));
    assert!(refused(Zoom::Direct(0xFFFF)));
    assert!(refused(Zoom::TeleConvMode(0x00)));
    assert!(refused(Zoom::TeleConvMode(0x04)));
    assert!(refused(Zoom::TeleConvMode(0xFF)));
}

#[test]
fn focus_commands_encode_to_their_bytes() {
    assert_eq!(encoded(Focus::Auto), vec![0x81, 0x01, 0x04, 0x38, 0x02, 0xFF]);
    assert_eq!(encoded(Focus::Manual), vec![0x81, 0x01, 0x04, 0x38, 0x03, 0xFF]);
    assert_eq!(encoded(Focus::AutoManualToggle), vec![0x81, 0x01, 0x04, 0x38, 0x10, 0xFF]);
    assert_eq!(encoded(Focus::Stop), vec![0x81, 0x01, 0x04, 0x08, 0x00, 0xFF]);
    assert_eq!(encoded(Focus::FarStdSpeed), vec![0x81, 0x01, 0x04, 0x08, 0x02, 0xFF]);
    assert_eq!(encoded(Focus::NearStdSpeed), vec![0x81, 0x01, 0x04, 0x08, 0x03, 0xFF]);
    assert_eq!(encoded(Focus::FarVarSpeed(0x00)), vec![0x81, 0x01, 0x04, 0x08, 0x20, 0xFF]);
    assert_eq!(encoded(Focus::FarVarSpeed(0x03)), vec![0x81, 0x01, 0x04, 0x08, 0x23, 0xFF]);
    assert_eq!(encoded(Focus::FarVarSpeed(0x07)), vec![0x81, 0x01, 0x04, 0x08, 0x27, 0xFF]);
    assert_eq!(encoded(Focus::NearVarSpeed(0x00)), vec![0x81, 0x01, 0x04, 0x08, 0x30, 0xFF]);
    assert_eq!(encoded(Focus::NearVarSpeed(0x03)), vec![0x81, 0x01, 0x04, 0x08, 0x33, 0xFF]);
    assert_eq!(encoded(Focus::NearVarSpeed(0x07)), vec![0x81, 0x01, 0x04, 0x08, 0x37, 0xFF]);
    assert_eq!(
        encoded(Focus::Direct(0x0000)),
        vec![0x81, 0x01, 0x04, 0x48, 0x00, 0x00, 0x00, 0x00, 0xFF]
    );
    assert_eq!(
        encoded(Focus::Direct(0x5C3D)),
        vec![0x81, 0x01, 0x04, 0x48, 0x05, 0x0C, 0x03, 0x0D, 0xFF]
    );
    assert_eq!(
        encoded(Focus::Direct(0xF000)),
        vec![0x81, 0x01, 0x04, 0x48, 0x0F, 0x00, 0x00, 0x00, 0xFF]
    );
    assert_eq!(encoded(Focus::OnePushTrig), vec![0x81, 0x01, 0x04, 0x18, 0x01, 0xFF]);
    assert_eq!(encoded(Focus::FocusInf), vec![0x81, 0x01, 0x04, 0x18, 0x02, 0xFF]);
    assert_eq!(
        encoded(Focus::NearLimit(0x1000)),
        vec![0x81, 0x01, 0x04, 0x28, 0x01, 0x00, 0x00, 0x00, 0xFF]
    );
    assert_eq!(
        encoded(Focus::NearLimit(0x5C3D)),
        vec![0x81, 0x01, 0x04, 0x28, 0x05, 0x0C, 0x03, 0x0D, 0xFF]
    );
    assert_eq!(
        encoded(Focus::NearLimit(0xF000)),
        vec![0x81, 0x01, 0x04, 0x28, 0x0F, 0x00, 0x00, 0x00, 0xFF]
    );
    assert_eq!(encoded(Focus::AFSensitivity(0x02)), vec![0x81, 0x01, 0x04, 0x58, 0x02, 0xFF]);
    assert_eq!(encoded(Focus::AFSensitivity(0x03)), vec![0x81, 0x01, 0x04, 0x58, 0x03, 0xFF]);
    assert_eq!(encoded(Focus::IRCorrection(0x00)), vec![0x81, 0x01, 0x04, 0x11, 0x00, 0xFF]);
    assert_eq!(encoded(Focus::IRCorrection(0x01)), vec![0x81, 0x01, 0x04, 0x11, 0x01, 0xFF]);
}

#[test]
fn focus_commands_refuse_parameters_out_of_range() {
    assert!(refused(Focus::FarVarSpeed(0x08)));
    assert!(refused(Focus::FarVarSpeed(0xFF)));
    assert!(refused(Focus::NearVarSpeed(0x08)));
    assert!(refused(Focus::NearVarSpeed(0xFF)));
    assert!(refused(Focus::Direct(0xF001)));
    assert!(refused(Focus::Direct(0xFFFF)));
    assert!(refused(Focus::NearLimit(0x0FFF)));
    assert!(refused(Focus::NearLimit(0xF001)));
    assert!(refused(Focus::NearLimit(0xFFFF)));
    assert!(refused(Focus::AFSensitivity(0x00)));
    assert!(refused(Focus::AFSensitivity(0x04)));
    assert!(refused(Focus::AFSensitivity(0xFF)));
    assert!(refused(Focus::IRCorrection(0x02)));
    assert!(refused(Focus::IRCorrection(0xFF)));
}

#[test]
fn pantilt_commands_encode_to_their_bytes() {
    assert_eq!(
        encoded(PanTilt::Up(0x01, 0x01)),
        vec![0x81, 0x01, 0x06, 0x01, 0x01, 0x01, 0x03, 0x01, 0xFF]
    );
    assert_eq!(
        encoded(PanTilt::Up(0x0C, 0x0C)),
        vec![0x81, 0x01, 0x06, 0x01, 0x0C, 0x0C, 0x03, 0x01, 0xFF]
    );
    assert_eq!(
        encoded(PanTilt::Up(0x18, 0x18)),
        vec![0x81, 0x01, 0x06, 0x01, 0x18, 0x18, 0x03, 0x01, 0xFF]
    );
    assert_eq!(
        encoded(PanTilt::Down(0x01, 0x01)),
        vec![0x81, 0x01, 0x06, 0x01, 0x01, 0x01, 0x03, 0x02, 0xFF]
    );
    assert_eq!(
        encoded(PanTilt::Down(0x0C, 0x0C)),
        vec![0x81, 0x01, 0x06, 0x01, 0x0C, 0x0C, 0x03, 0x02, 0xFF]
    );
    assert_eq!(
        encoded(PanTilt::Down(0x18, 0x18)),
        vec![0x81, 0x01, 0x06, 0x01, 0x18, 0x18, 0x03, 0x02, 0xFF]
    );
    assert_eq!(
        encoded(PanTilt::Left(0x01, 0x01)),
        vec![0x81, 0x01, 0x06, 0x01, 0x01, 0x01, 0x01, 0x03, 0xFF]
    );
    assert_eq!(
        encoded(PanTilt::Left(0x0C, 0x0C)),
        vec![0x81, 0x01, 0x06, 0x01, 0x0C, 0x0C, 0x01, 0x03, 0xFF]
    );
    assert_eq!(
        encoded(PanTilt::Left(0x18, 0x18)),
        vec![0x81, 0x01, 0x06, 0x01, 0x18, 0x18, 0x01, 0x03, 0xFF]
    );
    assert_eq!(
        encoded(PanTilt::Right(0x01, 0x01)),
        vec![0x81, 0x01, 0x06, 0x01, 0x01, 0x01, 0x02, 0x03, 0xFF]
    );
    assert_eq!(
        encoded(PanTilt::Right(0x0C, 0x0C)),
        vec![0x81, 0x01, 0x06, 0x01, 0x0C, 0x0C, 0x02, 0x03, 0xFF]
    );
    assert_eq!(
        encoded(PanTilt::Right(0x18, 0x18)),
        vec![0x81, 0x01, 0x06, 0x01, 0x18, 0x18, 0x02, 0x03, 0xFF]
    );
    assert_eq!(
        encoded(PanTilt::UpLeft(0x01, 0x01)),
        vec![0x81, 0x01, 0x06, 0x01, 0x01, 0x01, 0x01, 0x01, 0xFF]
    );
    assert_eq!(
        encoded(PanTilt::UpLeft(0x0C, 0x0C)),
        vec![0x81, 0x01, 0x06, 0x01, 0x0C, 0x0C, 0x01, 0x01, 0xFF]
    );
    assert_eq!(
        encoded(PanTilt::UpLeft(0x18, 0x18)),
        vec![0x81, 0x01, 0x06, 0x01, 0x18, 0x18, 0x01, 0x01, 0xFF]
    );
    assert_eq!(
        encoded(PanTilt::UpRight(0x01, 0x01)),
        vec![0x81, 0x01, 0x06, 0x01, 0x01, 0x01, 0x02, 0x01, 0xFF]
    );
    assert_eq!(
        encoded(PanTilt::UpRight(0x0C, 0x0C)),
        vec![0x81, 0x01, 0x06, 0x01, 0x0C, 0x0C, 0x02, 0x01, 0xFF]
    );
    assert_eq!(
        encoded(PanTilt::UpRight(0x18, 0x18)),
        vec![0x81, 0x01, 0x06, 0x01, 0x18, 0x18, 0x02, 0x01, 0xFF]
    );
    assert_eq!(
        encoded(PanTilt::DownLeft(0x01, 0x01)),
        vec![0x81, 0x01, 0x06, 0x01, 0x01, 0x01, 0x01, 0x02, 0xFF]
    );
    assert_eq!(
        encoded(PanTilt::DownLeft(0x0C, 0x0C)),
        vec![0x81, 0x01, 0x06, 0x01, 0x0C, 0x0C, 0x01, 0x02, 0xFF]
    );
    assert_eq!(
        encoded(PanTilt::DownLeft(0x18, 0x18)),
        vec![0x81, 0x01, 0x06, 0x01, 0x18, 0x18, 0x01, 0x02, 0xFF]
    );
    assert_eq!(
        encoded(PanTilt::DownRight(0x01, 0x01)),
        vec![0x81, 0x01, 0x06, 0x01, 0x01, 0x01, 0x02, 0x02, 0xFF]
    );
    assert_eq!(
        encoded(PanTilt::DownRight(0x0C, 0x0C)),
        vec![0x81, 0x01, 0x06, 0x01, 0x0C, 0x0C, 0x02, 0x02, 0xFF]
    );
    assert_eq!(
        encoded(PanTilt::DownRight(0x18, 0x18)),
        vec![0x81, 0x01, 0x06, 0x01, 0x18, 0x18, 0x02, 0x02, 0xFF]
    );
    assert_eq!(
        encoded(PanTilt::Stop(0x01, 0x01)),
        vec![0x81, 0x01, 0x06, 0x01, 0x01, 0x01, 0x03, 0x03, 0xFF]
    );
    assert_eq!(
        encoded(PanTilt::Stop(0x0C, 0x0C)),
        vec![0x81, 0x01, 0x06, 0x01, 0x0C, 0x0C, 0x03, 0x03, 0xFF]
    );
    assert_eq!(
        encoded(PanTilt::Stop(0x18, 0x18)),
        vec![0x81, 0x01, 0x06, 0x01, 0x18, 0x18, 0x03, 0x03, 0xFF]
    );
    assert_eq!(
        encoded(PanTilt::AbsolutePos(0x01, 0x00000, 0x0000)),
        vec![0x81, 0x01, 0x06, 0x02, 0x01, 0x00, 0x00, 0x00, 0x00, 0x00, 0x00, 0x00, 0x00, 0x00, 0x00, 0xFF]
    );
    assert_eq!(
        encoded(PanTilt::AbsolutePos(0x0C, 0xFC8B6, 0x1A2B)),
        vec![0x81, 0x01, 0x06, 0x02, 0x0C, 0x00, 0x0F, 0x0C, 0x08, 0x0B, 0x06, 0x01, 0x0A, 0x02, 0x0B, 0xFF]
    );
    assert_eq!(
        encoded(PanTilt::AbsolutePos(0x18, 0xFFFFF, 0xFFFF)),
        vec![0x81, 0x01, 0x06, 0x02, 0x18, 0x00, 0x0F, 0x0F, 0x0F, 0x0F, 0x0F, 0x0F, 0x0F, 0x0F, 0x0F, 0xFF]
    );
    assert_eq!(
        encoded(PanTilt::RelativePos(0x01, 0x00000, 0x0000)),
        vec![0x81, 0x01, 0x06, 0x03, 0x01, 0x00, 0x00, 0x00, 0x00, 0x00, 0x00, 0x00, 0x00, 0x00, 0x00, 0xFF]
    );
    assert_eq!(
        encoded(PanTilt::RelativePos(0x0C, 0xFC8B6, 0x1A2B)),
        vec![0x81, 0x01, 0x06, 0x03, 0x0C, 0x00, 0x0F, 0x0C, 0x08, 0x0B, 0x06, 0x01, 0x0A, 0x02, 0x0B, 0xFF]
    );
    assert_eq!(
        encoded(PanTilt::RelativePos(0x18, 0xFFFFF, 0xFFFF)),
        vec![0x81, 0x01, 0x06, 0x03, 0x18, 0x00, 0x0F, 0x0F, 0x0F, 0x0F, 0x0F, 0x0F, 0x0F, 0x0F, 0x0F, 0xFF]
    );
    assert_eq!(encoded(PanTilt::Home), vec![0x81, 0x01, 0x06, 0x04, 0xFF]);
    assert_eq!(encoded(PanTilt::Reset), vec![0x81, 0x01, 0x06, 0x05, 0xFF]);
    assert_eq!(encoded(PanTilt::RampCurve(0x01)), vec![0x81, 0x01, 0x06, 0x31, 0x01, 0xFF]);
    assert_eq!(encoded(PanTilt::RampCurve(0x02)), vec![0x81, 0x01, 0x06, 0x31, 0x02, 0xFF]);
    assert_eq!(encoded(PanTilt::RampCurve(0x03)), vec![0x81, 0x01, 0x06, 0x31, 0x03, 0xFF]);
    assert_eq!(encoded(PanTilt::SlowMode(0x02)), vec![0x81, 0x01, 0x06, 0x44, 0x02, 0xFF]);
    assert_eq!(encoded(PanTilt::SlowMode(0x03)), vec![0x81, 0x01, 0x06, 0x44, 0x03, 0xFF]);
    assert_eq!(
        encoded(PanTilt::LimitSet(0x00, 0x00000, 0x0000)),
        vec![0x81, 0x01, 0x06, 0x07, 0x00, 0x00, 0x00, 0x00, 0x00, 0x00, 0x00, 0x00, 0x00, 0x00, 0x00, 0xFF]
    );
    assert_eq!(
        encoded(PanTilt::LimitSet(0x01, 0xFC8B6, 0x1A2B)),
        vec![0x81, 0x01, 0x06, 0x07, 0x00, 0x01, 0x0F, 0x0C, 0x08, 0x0B, 0x06, 0x01, 0x0A, 0x02, 0x0B, 0xFF]
    );
    assert_eq!(
        encoded(PanTilt::LimitSet(0x01, 0xFFFFF, 0xFFFF)),
        vec![0x81, 0x01, 0x06, 0x07, 0x00, 0x01, 0x0F, 0x0F, 0x0F, 0x0F, 0x0F, 0x0F, 0x0F, 0x0F, 0x0F, 0xFF]
    );
    assert_eq!(
        encoded(PanTilt::LimitClear(0x00)),
        vec![0x81, 0x01, 0x06, 0x07, 0x01, 0x00, 0x07, 0x0F, 0x0F, 0x0F, 0x0F, 0x07, 0x0F, 0x0F, 0x0F, 0xFF]
    );
    assert_eq!(
        encoded(PanTilt::LimitClear(0x01)),
        vec![0x81, 0x01, 0x06, 0x07, 0x01, 0x01, 0x07, 0x0F, 0x0F, 0x0F, 0x0F, 0x07, 0x0F, 0x0F, 0x0F, 0xFF]
    );
}

#[test]
fn pantilt_commands_refuse_parameters_out_of_range() {
    assert!(refused(PanTilt::Up(0x00, 0x01)));
    assert!(refused(PanTilt::Up(0x19, 0x01)));
    assert!(refused(PanTilt::Up(0xFF, 0x01)));
    assert!(refused(PanTilt::Up(0x01, 0x00)));
    assert!(refused(PanTilt::Up(0x01, 0x19)));
    assert!(refused(PanTilt::Up(0x01, 0xFF)));
    assert!(refused(PanTilt::Down(0x00, 0x01)));
    assert!(refused(PanTilt::Down(0x19, 0x01)));
    assert!(refused(PanTilt::Down(0xFF, 0x01)));
    assert!(refused(PanTilt::Down(0x01, 0x00)));
    assert!(refused(PanTilt::Down(0x01, 0x19)));
    assert!(refused(PanTilt::Down(0x01, 0xFF)));
    assert!(refused(PanTilt::Left(0x00, 0x01)));
    assert!(refused(PanTilt::Left(0x19, 0x01)));
    assert!(refused(PanTilt::Left(0xFF, 0x01)));
    assert!(refused(PanTilt::Left(0x01, 0x00)));
    assert!(refused(PanTilt::Left(0x01, 0x19)));
    assert!(refused(PanTilt::Left(0x01, 0xFF)));
    assert!(refused(PanTilt::Right(0x00, 0x01)));
    assert!(refused(PanTilt::Right(0x19, 0x01)));
    assert!(refused(PanTilt::Right(0xFF, 0x01)));
    assert!(refused(PanTilt::Right(0x01, 0x00)));
    assert!(refused(PanTilt::Right(0x01, 0x19)));
    assert!(refused(PanTilt::Right(0x01, 0xFF)));
    assert!(refused(PanTilt::UpLeft(0x00, 0x01)));
    assert!(refused(PanTilt::UpLeft(0x19, 0x01)));
    assert!(refused(PanTilt::UpLeft(0xFF, 0x01)));
    assert!(refused(PanTilt::UpLeft(0x01, 0x00)));
    assert!(refused(PanTilt::UpLeft(0x01, 0x19)));
    assert!(refused(PanTilt::UpLeft(0x01, 0xFF)));
    assert!(refused(PanTilt::UpRight(0x00, 0x01)));
    assert!(refused(PanTilt::UpRight(0x19, 0x01)));
    assert!(refused(PanTilt::UpRight(0xFF, 0x01)));
    assert!(refused(PanTilt::UpRight(0x01, 0x00)));
    assert!(refused(PanTilt::UpRight(0x01, 0x19)));
    assert!(refused(PanTilt::UpRight(0x01, 0xFF)));
    assert!(refused(PanTilt::DownLeft(0x00, 0x01)));
    assert!(refused(PanTilt::DownLeft(0x19, 0x01)));
    assert!(refused(PanTilt::DownLeft(0xFF, 0x01)));
    assert!(refused(PanTilt::DownLeft(0x01, 0x00)));
    assert!(refused(PanTilt::DownLeft(0x01, 0x19)));
    assert!(refused(PanTilt::DownLeft(0x01, 0xFF)));
    assert!(refused(PanTilt::DownRight(0x00, 0x01)));
    assert!(refused(PanTilt::DownRight(0x19, 0x01)));
    assert!(refused(PanTilt::DownRight(0xFF, 0x01)));
    assert!(refused(PanTilt::DownRight(0x01, 0x00)));
    assert!(refused(PanTilt::DownRight(0x01, 0x19)));
    assert!(refused(PanTilt::DownRight(0x01, 0xFF)));
    assert!(refused(PanTilt::Stop(0x00, 0x01)));
    assert!(refused(PanTilt::Stop(0x19, 0x01)));
    assert!(refused(PanTilt::Stop(0xFF, 0x01)));
    assert!(refused(PanTilt::Stop(0x01, 0x00)));
    assert!(refused(PanTilt::Stop(0x01, 0x19)));
    assert!(refused(PanTilt::Stop(0x01, 0xFF)));
    assert!(refused(PanTilt::AbsolutePos(0x00, 0x00000, 0x0000)));
    assert!(refused(PanTilt::AbsolutePos(0x19, 0x00000, 0x0000)));
    assert!(refused(PanTilt::AbsolutePos(0xFF, 0x00000, 0x0000)));
    assert!(refused(PanTilt::AbsolutePos(0x01, 0x00100000, 0x0000)));
    assert!(refused(PanTilt::AbsolutePos(0x01, 0xFFFFFFFF, 0x0000)));
    assert!(refused(PanTilt::RelativePos(0x00, 0x00000, 0x0000)));
    assert!(refused(PanTilt::RelativePos(0x19, 0x00000, 0x0000)));
    assert!(refused(PanTilt::RelativePos(0xFF, 0x00000, 0x0000)));
    assert!(refused(PanTilt::RelativePos(0x01, 0x00100000, 0x0000)));
    assert!(refused(PanTilt::RelativePos(0x01, 0xFFFFFFFF, 0x0000)));
    assert!(refused(PanTilt::RampCurve(0x00)));
    assert!(refused(PanTilt::RampCurve(0x04)));
    assert!(refused(PanTilt::RampCurve(0xFF)));
    assert!(refused(PanTilt::SlowMode(0x00)));
    assert!(refused(PanTilt::SlowMode(0x04)));
    assert!(refused(PanTilt::SlowMode(0xFF)));
    assert!(refused(PanTilt::LimitSet(0x02, 0x00000, 0x0000)));
    assert!(refused(PanTilt::LimitSet(0xFF, 0x00000, 0x0000)));
    assert!(refused(PanTilt::LimitSet(0x00, 0x00100000, 0x0000)));
    assert!(refused(PanTilt::LimitSet(0x00, 0xFFFFFFFF, 0x0000)));
    assert!(refused(PanTilt::LimitClear(0x02)));
    assert!(refused(PanTilt::LimitClear(0xFF)));
}

#[test]
fn preset_commands_encode_to_their_bytes() {
    assert_eq!(encoded(Preset::Reset(0x00)), vec![0x81, 0x01, 0x04, 0x3F, 0x00, 0x00, 0xFF]);
    assert_eq!(encoded(Preset::Reset(0xA7)), vec![0x81, 0x01, 0x04, 0x3F, 0x00, 0xA7, 0xFF]);
    assert_eq!(encoded(Preset::Reset(0xFF)), vec![0x81, 0x01, 0x04, 0x3F, 0x00, 0xFF, 0xFF]);
    assert_eq!(encoded(Preset::Store(0x00)), vec![0x81, 0x01, 0x04, 0x3F, 0x01, 0x00, 0xFF]);
    assert_eq!(encoded(Preset::Store(0xA7)), vec![0x81, 0x01, 0x04, 0x3F, 0x01, 0xA7, 0xFF]);
    assert_eq!(encoded(Preset::Store(0xFF)), vec![0x81, 0x01, 0x04, 0x3F, 0x01, 0xFF, 0xFF]);
    assert_eq!(encoded(Preset::Recall(0x00)), vec![0x81, 0x01, 0x04, 0x3F, 0x02, 0x00, 0xFF]);
    assert_eq!(encoded(Preset::Recall(0xA7)), vec![0x81, 0x01, 0x04, 0x3F, 0x02, 0xA7, 0xFF]);
    assert_eq!(encoded(Preset::Recall(0xFF)), vec![0x81, 0x01, 0x04, 0x3F, 0x02, 0xFF, 0xFF]);
    assert_eq!(
        encoded(Preset::PresetDriveSpeed(0x00, 0x01)),
        vec![0x81, 0x01, 0x7E, 0x01, 0x0B, 0x00, 0x01, 0xFF]
    );
    assert_eq!(
        encoded(Preset::PresetDriveSpeed(0x31, 0x0C)),
        vec![0x81, 0x01, 0x7E, 0x01, 0x0B, 0x31, 0x0C, 0xFF]
    );
    assert_eq!(
        encoded(Preset::PresetDriveSpeed(0x63, 0x18)),
        vec![0x81, 0x01, 0x7E, 0x01, 0x0B, 0x63, 0x18, 0xFF]
    );
    assert_eq!(encoded(Preset::PresetMode(0x00)), vec![0x81, 0x01, 0x7E, 0x04, 0x3D, 0x00, 0xFF]);
    assert_eq!(encoded(Preset::PresetMode(0x01)), vec![0x81, 0x01, 0x7E, 0x04, 0x3D, 0x01, 0xFF]);
    assert_eq!(encoded(Preset::PresetMode(0x10)), vec![0x81, 0x01, 0x7E, 0x04, 0x3D, 0x10, 0xFF]);
}

#[test]
fn preset_commands_refuse_parameters_out_of_range() {
    assert!(refused(Preset::PresetDriveSpeed(0x64, 0x01)));
    assert!(refused(Preset::PresetDriveSpeed(0xFF, 0x01)));
    assert!(refused(Preset::PresetDriveSpeed(0x00, 0x00)));
    assert!(refused(Preset::PresetDriveSpeed(0x00, 0x19)));
    assert!(refused(Preset::PresetDriveSpeed(0x00, 0xFF)));
    assert!(refused(Preset::PresetMode(0x02)));
    assert!(refused(Preset::PresetMode(0x11)));
    assert!(refused(Preset::PresetMode(0xFF)));
}

#[test]
fn system_commands_encode_to_their_bytes() {
    assert_eq!(encoded(System::IRReceive(0x02)), vec![0x81, 0x01, 0x06, 0x08, 0x02, 0xFF]);
    assert_eq!(encoded(System::IRReceive(0x03)), vec![0x81, 0x01, 0x06, 0x08, 0x03, 0xFF]);
    assert_eq!(encoded(System::IRReceive(0x10)), vec![0x81, 0x01, 0x06, 0x08, 0x10, 0xFF]);
    assert_eq!(encoded(System::HPhaseUp), vec![0x81, 0x01, 0x7E, 0x01, 0x3E, 0x00, 0x02, 0xFF]);
    assert_eq!(encoded(System::HPhaseDown), vec![0x81, 0x01, 0x7E, 0x01, 0x3E, 0x00, 0x03, 0xFF]);
    assert_eq!(
        encoded(System::HPhaseDirect(0x0000)),
        vec![0x81, 0x01, 0x7E, 0x01, 0x5B, 0x00, 0x00, 0x00, 0x00, 0xFF]
    );
    assert_eq!(
        encoded(System::HPhaseDirect(0x02A7)),
        vec![0x81, 0x01, 0x7E, 0x01, 0x5B, 0x00, 0x02, 0x0A, 0x07, 0xFF]
    );
    assert_eq!(
        encoded(System::HPhaseDirect(0x03BF)),
        vec![0x81, 0x01, 0x7E, 0x01, 0x5B, 0x00, 0x03, 0x0B, 0x0F, 0xFF]
    );
    assert_eq!(encoded(System::ImgFlipOnOff(0x02)), vec![0x81, 0x01, 0x04, 0x66, 0x02, 0xFF]);
    assert_eq!(encoded(System::ImgFlipOnOff(0x03)), vec![0x81, 0x01, 0x04, 0x66, 0x03, 0xFF]);
    assert_eq!(
        encoded(System::PanReverseOnOFf(0x00)),
        vec![0x81, 0x01, 0x7E, 0x01, 0x06, 0x00, 0x00, 0xFF]
    );
    assert_eq!(
        encoded(System::PanReverseOnOFf(0x01)),
        vec![0x81, 0x01, 0x7E, 0x01, 0x06, 0x00, 0x01, 0xFF]
    );
    assert_eq!(
        encoded(System::TiltReverseOnOff(0x00)),
        vec![0x81, 0x01, 0x7E, 0x01, 0x09, 0x00, 0x00, 0xFF]
    );
    assert_eq!(
        encoded(System::TiltReverseOnOff(0x01)),
        vec![0x81, 0x01, 0x7E, 0x01, 0x09, 0x00, 0x01, 0xFF]
    );
    assert_eq!(encoded(System::MenuDisplayOff), vec![0x81, 0x01, 0x06, 0x06, 0x03, 0xFF]);
}

#[test]
fn system_commands_refuse_parameters_out_of_range() {
    assert!(refused(System::IRReceive(0x00)));
    assert!(refused(System::IRReceive(0x11)));
    assert!(refused(System::IRReceive(0xFF)));
    assert!(refused(System::HPhaseDirect(0x03C0)));
    assert!(refused(System::HPhaseDirect(0xFFFF)));
    assert!(refused(System::ImgFlipOnOff(0x00)));
    assert!(refused(System::ImgFlipOnOff(0x04)));
    assert!(refused(System::ImgFlipOnOff(0xFF)));
    assert!(refused(System::PanReverseOnOFf(0x02)));
    assert!(refused(System::PanReverseOnOFf(0xFF)));
    assert!(refused(System::TiltReverseOnOff(0x02)));
    assert!(refused(System::TiltReverseOnOff(0xFF)));
}

#[test]
fn zoom_stop_is_six_bytes() {
    assert_eq!(encoded(Zoom::Stop), vec![0x81, 0x01, 0x04, 0x07, 0x00, 0xFF]);
}

#[test]
fn iris_outside_five_to_twenty_one_is_a_range_error() {
    assert!(refused(Exposure::IrisDirect(0x04)));
    assert!(refused(Exposure::IrisDirect(0x16)));
    assert!(refused(Exposure::IrisDirect(0x00)));
    assert!(refused(Exposure::IrisDirect(0xFF)));
    assert!(Exposure::IrisDirect(0x05).check_range());
    assert!(Exposure::IrisDirect(0x15).check_range());
    assert!(!Exposure::IrisDirect(0x16).check_range());
}

#[test]
fn every_command_travels_as_a_command() {
    assert_eq!(Exposure::IrisUp.msg_type(), MessageType::Command);
    assert_eq!(Colour::WBAuto1.msg_type(), MessageType::Command);
    assert_eq!(Zoom::Direct(0x4000).msg_type(), MessageType::Command);
    assert_eq!(Focus::Auto.msg_type(), MessageType::Command);
    assert_eq!(PanTilt::Home.msg_type(), MessageType::Command);
    assert_eq!(Preset::Recall(3).msg_type(), MessageType::Command);
    assert_eq!(System::MenuDisplayOff.msg_type(), MessageType::Command);
}

#[test]
fn every_command_opens_with_address_and_class_and_closes_with_the_terminator() {
    let all: Vec<Vec<u8>> = vec![
        encoded(Exposure::VisEnhanceDirect(6, 3, 2)),
        encoded(Colour::RG(0xC6)),
        encoded(Zoom::TeleVar(7)),
        encoded(Focus::NearLimit(0x1000)),
        encoded(PanTilt::AbsolutePos(0x18, 0xFFFFF, 0xFFFF)),
        encoded(PanTilt::Home),
        encoded(Preset::PresetMode(0x10)),
        encoded(System::HPhaseDirect(0x3BF)),
    ];
    for bytes in all {
        assert!(bytes.len() >= 4 && bytes.len() <= 16);
        assert_eq!(bytes[0], 0x81);
        assert_eq!(bytes[1], 0x01);
        assert_eq!(bytes[bytes.len() - 1], 0xFF);
    }
}

#[test]
fn horizontal_phase_opens_with_one_address_byte() {
    assert_eq!(
        encoded(System::HPhaseDirect(0x2A7)),
        vec![0x81, 0x01, 0x7E, 0x01, 0x5B, 0x00, 0x02, 0x0A, 0x07, 0xFF]
    );
}

#[test]
fn pan_position_above_twenty_bits_is_refused_not_cut() {
    assert!(refused(PanTilt::AbsolutePos(0x0A, 0x10_0000, 0)));
    assert!(refused(PanTilt::RelativePos(0x0A, 0xFFFF_C8B6, 0)));
    assert!(refused(PanTilt::LimitSet(1, 0x10_0000, 0)));
    assert_eq!(
        encoded(PanTilt::AbsolutePos(0x0A, 0xFC8B6, 0x374A)),
        vec![
            0x81, 0x01, 0x06, 0x02, 0x0A, 0x00, 0x0F, 0x0C, 0x08, 0x0B, 0x06, 0x03, 0x07, 0x04,
            0x0A, 0xFF
        ]
    );
}

#[test]
fn distinct_commands_have_distinct_bytes() {
    let all: Vec<Vec<u8>> = vec![
        encoded(Zoom::Stop),
        encoded(Zoom::TeleStd),
        encoded(Zoom::WideStd),
        encoded(Zoom::TeleVar(0)),
        encoded(Zoom::TeleVar(7)),
        encoded(Zoom::WideVar(0)),
        encoded(Zoom::WideVar(7)),
        encoded(Zoom::Direct(0)),
        encoded(Zoom::Direct(1)),
        encoded(Zoom::ClearImageZoomOff),
        encoded(Zoom::ClearImageZoomOn),
        encoded(Zoom::TeleConvMode(2)),
        encoded(Zoom::TeleConvMode(3)),
    ];
    for i in 0..all.len() {
        for j in 0..all.len() {
            assert_eq!(all[i] == all[j], i == j);
        }
    }
}

#[test]
fn pan_angles_are_twenty_bit_positions() {
    assert_eq!(PanAngle::Centre.value(), 0x00000);
    assert_eq!(PanAngle::Left10.value(), 0x00937);
    assert_eq!(PanAngle::Left60.value(), 0x0374A);
    assert_eq!(PanAngle::Left170.value(), 0x09CA7);
    assert_eq!(PanAngle::Right10.value(), 0xFF6C9);
    assert_eq!(PanAngle::Right60.value(), 0xFC8B6);
    assert_eq!(PanAngle::Right169.value(), 0xF6445);
    assert_eq!(PanAngle::Right170.value(), 0xF6359);
    assert_eq!(PanAngle::Left90.value() + PanAngle::Right90.value(), 0x10_0000);
}

#[test]
fn pan_angle_splits_into_five_nibbles() {
    let angle = PanAngle::Right60;
    assert_eq!(
        [angle.top(), angle.midtop(), angle.midmid(), angle.midbot(), angle.bot()],
        [0x0F, 0x0C, 0x08, 0x0B, 0x06]
    );
    let angle = PanAngle::Left169;
    assert_eq!(
        [angle.top(), angle.midtop(), angle.midmid(), angle.midbot(), angle.bot()],
        [0x00, 0x09, 0x0B, 0x0B, 0x0B]
    );
}

#[test]
fn pan_angle_goes_into_a_position_command() {
    let bytes = encoded(PanTilt::AbsolutePos(
        0x10,
        PanAngle::Left30.value(),
        TiltAngle::Down20.value(),
    ));
    assert_eq!(
        bytes,
        vec![
            0x81, 0x01, 0x06, 0x02, 0x10, 0x00, 0x00, 0x01, 0x0B, 0x0A, 0x05, 0x0E, 0x0D, 0x09,
            0x02, 0xFF
        ]
    );
}

#[test]
fn tilt_angles_are_sixteen_bit_positions() {
    assert_eq!(TiltAngle::Centre.value(), 0x0000);
    assert_eq!(TiltAngle::Up10.value(), 0x0937);
    assert_eq!(TiltAngle::Up90.value(), 0x52EF);
    assert_eq!(TiltAngle::Down10.value(), 0xF6C9);
    assert_eq!(TiltAngle::Down30.value(), 0xE45B);
    assert_eq!(TiltAngle::Up20.value() as u32 + TiltAngle::Down20.value() as u32, 0x1_0000);
}

#[test]
fn tilt_angle_splits_into_four_nibbles() {
    let angle = TiltAngle::Down30;
    assert_eq!([angle.top(), angle.midtop(), angle.midbot(), angle.bot()], [0x0E, 0x04, 0x05, 0x0B]);
    let angle = TiltAngle::Up60;
    assert_eq!([angle.top(), angle.midtop(), angle.midbot(), angle.bot()], [0x03, 0x07, 0x04, 0x0A]);
}

#[test]
fn zoom_position_is_accepted_up_to_the_far_end_and_keeps_every_nibble() {
    for p in [0x0000u16, 0x0001, 0x0FFF, 0x1000, 0x4000, 0x5580, 0x5FFF, 0x6000] {
        let bytes = encoded(Zoom::Direct(p));
        assert_eq!(bytes.len(), 9);
        let back = (bytes[4] as u16) << 12
            | (bytes[5] as u16) << 8
            | (bytes[6] as u16) << 4
            | bytes[7] as u16;
        assert_eq!(back, p);
        assert!(bytes[4..8].iter().all(|b| *b <= 0x0F));
    }
    for p in [0x6001u16, 0x7000, 0x8000, 0xFFFF] {
        assert!(refused(Zoom::Direct(p)));
    }
}

#[test]
fn check_range_agrees_with_bytes_for_every_byte_parameter() {
    for p in 0..=0xFFu8 {
        assert_eq!(Exposure::GainLimit(p).check_range(), Exposure::GainLimit(p).bytes().is_ok());
        assert_eq!(Colour::MatrixSelect(p).check_range(), Colour::MatrixSelect(p).bytes().is_ok());
        assert_eq!(Zoom::TeleVar(p).check_range(), Zoom::TeleVar(p).bytes().is_ok());
        assert_eq!(Focus::IRCorrection(p).check_range(), Focus::IRCorrection(p).bytes().is_ok());
        assert_eq!(PanTilt::Up(p, 1).check_range(), PanTilt::Up(p, 1).bytes().is_ok());
        assert_eq!(Preset::PresetMode(p).check_range(), Preset::PresetMode(p).bytes().is_ok());
        assert_eq!(System::IRReceive(p).check_range(), System::IRReceive(p).bytes().is_ok());
    }
}
