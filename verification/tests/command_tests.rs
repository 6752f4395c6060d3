use automap::cc::{Button, Encoder, EncoderPosition, ParameterRequestType, RingMode, RowSelect};
use automap::cc::{RowSelectLhSet, RowSelectRhSet};
use automap::command::AutomapCommand;

#[test]
fn test_button_led() {
    let cmd = AutomapCommand::ButtonLed { button: Button::ButtonA3, on: true };
    assert_eq!(cmd.to_bytes(), vec![0xBF, 0x1A, 0x01]);
}

#[test]
fn test_encoder_ring_mode() {
    let cmd = AutomapCommand::EncoderRingMode {
        encoder: Encoder::Encoder1,
        mode: RingMode::ContinuousCw,
    };
    assert_eq!(cmd.to_bytes(), vec![0xBF, 0x78, 0x00]);
}

#[test]
fn test_encoder_ring_value() {
    let cmd = AutomapCommand::EncoderRingValue {
        encoder: Encoder::Encoder1,
        position: EncoderPosition::Pos5,
    };
    assert_eq!(cmd.to_bytes(), vec![0xBF, 0x70, 0x05]);
}

#[test]
fn test_encoder_ring_value_constants() {
    let cmd_min = AutomapCommand::EncoderRingValue {
        encoder: Encoder::Encoder2,
        position: EncoderPosition::MIN,
    };
    assert_eq!(cmd_min.to_bytes(), vec![0xBF, 0x71, 0x00]);

    let cmd_max = AutomapCommand::EncoderRingValue {
        encoder: Encoder::Encoder2,
        position: EncoderPosition::MAX,
    };
    assert_eq!(cmd_max.to_bytes(), vec![0xBF, 0x71, 0x0B]);

    let cmd_center = AutomapCommand::EncoderRingValue {
        encoder: Encoder::Encoder2,
        position: EncoderPosition::CENTER,
    };
    assert_eq!(cmd_center.to_bytes(), vec![0xBF, 0x71, 0x06]);
}

#[test]
fn test_all_leds_off() {
    let cmd = AutomapCommand::AllLedsOff;
    assert_eq!(cmd.to_bytes(), vec![0xBF, 0x4E, 0x00]);
}

#[test]
fn test_row_lh_bitmap() {
    let cmd = AutomapCommand::RowLhBitmap {
        rows: RowSelectLhSet::rs2().union(RowSelectLhSet::rs5()),
    };
    assert_eq!(cmd.to_bytes(), vec![0xBF, 0x60, 0x12]);
}

#[test]
fn test_row_rh_bitmap() {
    let cmd = AutomapCommand::RowRhBitmap {
        rows: RowSelectRhSet::rs6().union(RowSelectRhSet::rec()),
    };
    // RS6 (bit 0) + REC (bit 3) = 0x09
    assert_eq!(cmd.to_bytes(), vec![0xBF, 0x61, 0x09]);
}

#[test]
fn test_parameter_request() {
    let cmd = AutomapCommand::ParameterRequest {
        request_type: ParameterRequestType::UnitProductType,
    };
    assert_eq!(cmd.to_bytes(), vec![0xBF, 0x67, 0x00]);
}

#[test]
fn encode_into_appends() {
    let mut buf = vec![0x55u8];
    AutomapCommand::TransportLockSet { enabled: true }.encode_into(&mut buf);
    assert_eq!(buf, vec![0x55, 0xBF, 0x4F, 0x01]);
}

#[test]
fn echo_request_carries_value() {
    let cmd = AutomapCommand::EchoRequest { value: 0x2A };
    assert_eq!(cmd.to_bytes(), vec![0xBF, 0x63, 0x2A]);
}

#[test]
fn echo_request_masks_value_to_seven_bits() {
    // The value byte is a MIDI data byte: the encoder clears the top bit.
    let cmd = AutomapCommand::EchoRequest { value: 0xAA };
    assert_eq!(cmd.to_bytes(), vec![0xBF, 0x63, 0x2A]);
}

#[test]
fn row_select_led_addresses() {
    let cmd = AutomapCommand::RowSelectLed { row: RowSelect::R1, on: false };
    assert_eq!(cmd.to_bytes(), vec![0xBF, 0x56, 0x00]);
}
