use automap::cc::{
    AlertType, Attr1, Attr2, AutomapButton, Button, Encoder, PageButton, Pot, RowSelect,
    Slider, TransportButton,
};
use automap::event::{decode_clicks, AutomapEvent};
use automap::sysex::DecodeError;

#[test]
fn wrong_length_is_truncated() {
    assert_eq!(AutomapEvent::decode_event(&[0xBF, 0x1A]), Err(DecodeError::Truncated));
    assert_eq!(
        AutomapEvent::decode_event(&[0xBF, 0x1A, 0x01, 0x00]),
        Err(DecodeError::Truncated),
    );
}

#[test]
fn pot_and_slider_events() {
    assert_eq!(
        AutomapEvent::decode_event(&[0xBF, 0x0A, 0x42]),
        Ok(AutomapEvent::Pot { pot: Pot::Pot3, value: 0x42 }),
    );
    assert_eq!(
        AutomapEvent::decode_event(&[0xBF, 0x17, 0x00]),
        Ok(AutomapEvent::Slider { slider: Slider::Slider8, value: 0 }),
    );
}

#[test]
fn button_events() {
    assert_eq!(
        AutomapEvent::decode_event(&[0xBF, 0x1A, 0x01]),
        Ok(AutomapEvent::Button { button: Button::ButtonA3, pressed: true }),
    );
    assert_eq!(
        AutomapEvent::decode_event(&[0xBF, 0x37, 0x00]),
        Ok(AutomapEvent::Button { button: Button::ButtonD8, pressed: false }),
    );
}

#[test]
fn shared_range_dispatches_on_value() {
    // 0x48..=0x4D means a transport button for values 0/1, an Automap
    // button for 0x40/0x41, and falls back to Raw for anything else.
    assert_eq!(
        AutomapEvent::decode_event(&[0xBF, 0x48, 0x01]),
        Ok(AutomapEvent::TransportButton {
            button: TransportButton::ButtonD1Tl,
            pressed: true,
        }),
    );
    assert_eq!(
        AutomapEvent::decode_event(&[0xBF, 0x4D, 0x40]),
        Ok(AutomapEvent::AutomapButton {
            button: AutomapButton::AutomapButton6,
            pressed: false,
        }),
    );
    assert_eq!(
        AutomapEvent::decode_event(&[0xBF, 0x4A, 0x41]),
        Ok(AutomapEvent::AutomapButton {
            button: AutomapButton::AutomapButton3,
            pressed: true,
        }),
    );
    assert_eq!(
        AutomapEvent::decode_event(&[0xBF, 0x4A, 0x22]),
        Ok(AutomapEvent::Raw { cc: 0x4A, value: 0x22 }),
    );
}

#[test]
fn row_select_and_page_buttons() {
    assert_eq!(
        AutomapEvent::decode_event(&[0xBF, 0x54, 0x01]),
        Ok(AutomapEvent::RowSelect { row: RowSelect::L5, selected: true }),
    );
    assert_eq!(
        AutomapEvent::decode_event(&[0xBF, 0x57, 0x00]),
        Ok(AutomapEvent::RowSelect { row: RowSelect::R2, selected: false }),
    );
    assert_eq!(
        AutomapEvent::decode_event(&[0xBF, 0x5B, 0x01]),
        Ok(AutomapEvent::PageButton { button: PageButton::PageDnR, pressed: true }),
    );
}

#[test]
fn alerts_and_raw_fallback() {
    assert_eq!(
        AutomapEvent::decode_event(&[0xBF, 0x5C, 0x02]),
        Ok(AutomapEvent::Alert { alert_type: AlertType::OctaveChanged }),
    );
    // An out-of-range alert value falls back to Raw rather than failing.
    assert_eq!(
        AutomapEvent::decode_event(&[0xBF, 0x5C, 0x05]),
        Ok(AutomapEvent::Raw { cc: 0x5C, value: 0x05 }),
    );
    // An address outside every declared range is Raw as well.
    assert_eq!(
        AutomapEvent::decode_event(&[0xBF, 0x7A, 0x33]),
        Ok(AutomapEvent::Raw { cc: 0x7A, value: 0x33 }),
    );
}

#[test]
fn speed_dial_clicks() {
    // Bit 6 clear: clockwise, positive count from the low six bits.
    assert_eq!(decode_clicks(0x03), 3);
    // Bit 6 set: counter-clockwise, negated magnitude.
    assert_eq!(decode_clicks(0x43), -3);
    assert_eq!(decode_clicks(0x40), 0);
    assert_eq!(
        AutomapEvent::decode_event(&[0xBF, 0x66, 0x41]),
        Ok(AutomapEvent::SpeedDial { clicks: -1 }),
    );
    assert_eq!(
        AutomapEvent::decode_event(&[0xBF, 0x66, 0x02]),
        Ok(AutomapEvent::SpeedDial { clicks: 2 }),
    );
}

#[test]
fn touch_reports_by_nibble_and_bit6() {
    assert_eq!(
        AutomapEvent::decode_event(&[0xBF, 0x6C, 0x42]),
        Ok(AutomapEvent::EncoderTouch { encoder: Encoder::Encoder3, touched: true }),
    );
    assert_eq!(
        AutomapEvent::decode_event(&[0xBF, 0x6D, 0x05]),
        Ok(AutomapEvent::PotTouch { pot: Pot::Pot6, touched: false }),
    );
    assert_eq!(
        AutomapEvent::decode_event(&[0xBF, 0x6E, 0x47]),
        Ok(AutomapEvent::SliderTouch { slider: Slider::Slider8, touched: true }),
    );
}

#[test]
fn speed_dial_and_crossfade_touch() {
    // Controller 0x6F: bit 0 selects the sensor, bit 6 the touch state.
    assert_eq!(
        AutomapEvent::decode_event(&[0xBF, 0x6F, 0x40]),
        Ok(AutomapEvent::SpeedDialTouch { touched: true }),
    );
    assert_eq!(
        AutomapEvent::decode_event(&[0xBF, 0x6F, 0x00]),
        Ok(AutomapEvent::SpeedDialTouch { touched: false }),
    );
    assert_eq!(
        AutomapEvent::decode_event(&[0xBF, 0x6F, 0x41]),
        Ok(AutomapEvent::CrossFadeTouch { touched: true }),
    );
    assert_eq!(
        AutomapEvent::decode_event(&[0xBF, 0x6F, 0x01]),
        Ok(AutomapEvent::CrossFadeTouch { touched: false }),
    );
}

#[test]
fn pedals_tempo_and_responses() {
    assert_eq!(
        AutomapEvent::decode_event(&[0xBF, 0x40, 0x7F]),
        Ok(AutomapEvent::SustainPedal { pressed: true }),
    );
    assert_eq!(
        AutomapEvent::decode_event(&[0xBF, 0x40, 0x00]),
        Ok(AutomapEvent::SustainPedal { pressed: false }),
    );
    assert_eq!(
        AutomapEvent::decode_event(&[0xBF, 0x41, 0x50]),
        Ok(AutomapEvent::ExpressionPedal { value: 0x50 }),
    );
    assert_eq!(
        AutomapEvent::decode_event(&[0xBF, 0x5E, 0x10]),
        Ok(AutomapEvent::TempoMsb { value: 0x10 }),
    );
    assert_eq!(
        AutomapEvent::decode_event(&[0xBF, 0x5F, 0x22]),
        Ok(AutomapEvent::TempoLsb { value: 0x22 }),
    );
    assert_eq!(
        AutomapEvent::decode_event(&[0xBF, 0x63, 0x2A]),
        Ok(AutomapEvent::EchoResponse { value: 0x2A }),
    );
    assert_eq!(
        AutomapEvent::decode_event(&[0xBF, 0x67, 0x01]),
        Ok(AutomapEvent::ParameterResponse { response: 0x01 }),
    );
    assert_eq!(
        AutomapEvent::decode_event(&[0xBF, 0x4F, 0x01]),
        Ok(AutomapEvent::TransportLockStatus { enabled: true }),
    );
    assert_eq!(
        AutomapEvent::decode_event(&[0xBF, 0x60, 0x12]),
        Ok(AutomapEvent::RowLhBitmap { bits: 0x12 }),
    );
    assert_eq!(
        AutomapEvent::decode_event(&[0xBF, 0x01, 0x33]),
        Ok(AutomapEvent::ModWheel { cc: 0x01, value: 0x33 }),
    );
}

#[test]
fn control_attribute_bytes() {
    let a1 = Attr1::send_msb_first().union(Attr1::toggle_value());
    assert_eq!(a1.bits(), 0x09);
    assert_eq!(Attr1::send_2b_value().bits(), 0x02);
    assert_eq!(Attr1::send_on_release().bits(), 0x04);
    assert_eq!(Attr1::cyclic_button().bits(), 0x10);
    assert_eq!(Attr1::rawdata_mode().bits(), 0x40);
    assert_eq!(a1.intersection(Attr1::toggle_value()).bits(), 0x08);
    assert_eq!(Attr1::from_bits(0x51).bits(), 0x51);

    let a2 = Attr2::snapshot_skip().union(Attr2::potmode_pickup());
    assert_eq!(a2.bits(), 0x24);
    assert_eq!(Attr2::invert_value().bits(), 0x08);
    assert_eq!(Attr2::potmode_jump().bits(), 0x00);
    assert_eq!(Attr2::potmode_global().bits(), 0x40);
    assert_eq!(Attr2::potmode_template().bits(), 0x60);
    assert_eq!(Attr2::from_bits(0x64).intersection(Attr2::potmode_template()).bits(), 0x60);
}
