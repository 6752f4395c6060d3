//! Inbound device events: decoding a 3-byte CC triple into a typed event by
//! the controller-number address map, with secondary dispatch on the value
//! byte where two meanings share one address range.

use vstd::prelude::*;

use crate::cc::{
    AlertType, AutomapButton, Button, Encoder, PageButton, Pot, RowSelect, Slider,
    TransportButton,
};
use crate::sysex::DecodeError;

verus! {

/// An event reported by the device, decoded from one CC triple.
#[derive(Clone, Copy, Debug, PartialEq, Eq)]
pub enum AutomapEvent {
    ModWheel { cc: u8, value: u8 },
    Button { button: Button, pressed: bool },
    TransportButton { button: TransportButton, pressed: bool },
    AutomapButton { button: AutomapButton, pressed: bool },
    Encoder { encoder: Encoder, clicks: i8 },
    Pot { pot: Pot, value: i8 },
    Slider { slider: Slider, value: i8 },
    RowSelect { row: RowSelect, selected: bool },
    /// Left-hand row-select LED bitmap readback.
    RowLhBitmap { bits: u8 },
    /// Right-hand row-select LED bitmap readback.
    RowRhBitmap { bits: u8 },
    EncoderTouch { encoder: Encoder, touched: bool },
    PotTouch { pot: Pot, touched: bool },
    SliderTouch { slider: Slider, touched: bool },
    CrossFadeTouch { touched: bool },
    SpeedDialTouch { touched: bool },
    PageButton { button: PageButton, pressed: bool },
    SustainPedal { pressed: bool },
    ExpressionPedal { value: u8 },
    CrossFader { value: u8 },
    TouchpadX1 { value: u8 },
    TouchpadY1 { value: u8 },
    TouchpadX2 { value: u8 },
    TouchpadY2 { value: u8 },
    /// A configuration-change alert.
    Alert { alert_type: AlertType },
    SpeedDial { clicks: i8 },
    SpeedDialButton { pressed: bool },
    PreviewButton { pressed: bool },
    TransportLockStatus { enabled: bool },
    TempoMsb { value: u8 },
    TempoLsb { value: u8 },
    EchoResponse { value: u8 },
    ParameterResponse { response: u8 },
    /// A triple matching no declared address range, kept verbatim.
    Raw { cc: u8, value: u8 },
}

/// A value byte reinterpreted as a signed byte (two's complement).
pub open spec fn spec_byte_as_i8(v: u8) -> i8 {
    if v < 128 {
        v as i8
    } else {
        (v - 256) as i8
    }
}

/// The click count carried by a speed-dial or encoder value byte: bit 6
/// clear means clockwise (positive), set means counter-clockwise (the low
/// six bits negated).
pub open spec fn spec_decode_clicks(vv: u8) -> i8 {
    if vv & 0x40 == 0 {
        (vv & 0x3F) as i8
    } else {
        (0 - ((vv & 0x3F) as int)) as i8
    }
}

/// Reads the signed click count from a value byte.
pub fn decode_clicks(vv: u8) -> (r: i8)
    ensures
        r == spec_decode_clicks(vv),
{
    proof {
        assert(vv & 0x3F <= 0x3F) by (bit_vector);
    }
    let clockwise = (vv & 0x40) == 0;
    let clicks = vv & 0x3F;
    if clockwise {
        clicks as i8
    } else {
        -(clicks as i8)
    }
}

/// Whether decoding may read past a declared address range: the unassigned
/// row-select number 0x55, and touch reports whose low nibble names no
/// existing control, are outside the decoder's domain.
pub open spec fn event_input_trusted(nn: u8, vv: u8) -> bool {
    &&& nn != 0x55
    &&& ((nn == 0x6C || nn == 0x6D || nn == 0x6E) ==> (vv & 0x0F) < 8)
}

/// The event encoded by controller number `nn` and value byte `vv`.
pub open spec fn spec_event(nn: u8, vv: u8) -> AutomapEvent {
    if nn == 0x01 {
        AutomapEvent::ModWheel { cc: nn, value: vv }
    } else if 0x08 <= nn <= 0x0F {
        AutomapEvent::Pot { pot: Pot::spec_from_cc(nn), value: spec_byte_as_i8(vv) }
    } else if 0x10 <= nn <= 0x17 {
        AutomapEvent::Slider { slider: Slider::spec_from_cc(nn), value: spec_byte_as_i8(vv) }
    } else if 0x18 <= nn <= 0x37 {
        AutomapEvent::Button { button: Button::spec_from_cc(nn), pressed: vv != 0 }
    } else if nn == 0x40 {
        AutomapEvent::SustainPedal { pressed: vv == 0x7F }
    } else if nn == 0x41 {
        AutomapEvent::ExpressionPedal { value: vv }
    } else if nn == 0x42 {
        AutomapEvent::CrossFader { value: vv }
    } else if nn == 0x44 {
        AutomapEvent::TouchpadX1 { value: vv }
    } else if nn == 0x45 {
        AutomapEvent::TouchpadY1 { value: vv }
    } else if nn == 0x46 {
        AutomapEvent::TouchpadX2 { value: vv }
    } else if nn == 0x47 {
        AutomapEvent::TouchpadY2 { value: vv }
    } else if 0x48 <= nn <= 0x4D {
        if vv == 0x00 || vv == 0x01 {
            AutomapEvent::TransportButton {
                button: TransportButton::spec_from_cc(nn),
                pressed: vv != 0,
            }
        } else if vv == 0x40 || vv == 0x41 {
            AutomapEvent::AutomapButton {
                button: AutomapButton::spec_from_cc(nn),
                pressed: vv != 0x40,
            }
        } else {
            AutomapEvent::Raw { cc: nn, value: vv }
        }
    } else if nn == 0x4E {
        AutomapEvent::PreviewButton { pressed: vv != 0 }
    } else if nn == 0x4F {
        AutomapEvent::TransportLockStatus { enabled: vv != 0 }
    } else if 0x50 <= nn <= 0x57 {
        AutomapEvent::RowSelect { row: RowSelect::spec_from_cc(nn), selected: vv != 0 }
    } else if 0x58 <= nn <= 0x5B {
        AutomapEvent::PageButton { button: PageButton::spec_from_cc(nn), pressed: vv != 0 }
    } else if nn == 0x5C {
        if vv <= 0x04 {
            AutomapEvent::Alert { alert_type: AlertType::spec_from_val(vv) }
        } else {
            AutomapEvent::Raw { cc: nn, value: vv }
        }
    } else if nn == 0x5E {
        AutomapEvent::TempoMsb { value: vv }
    } else if nn == 0x5F {
        AutomapEvent::TempoLsb { value: vv }
    } else if nn == 0x60 {
        AutomapEvent::RowLhBitmap { bits: vv }
    } else if nn == 0x61 {
        AutomapEvent::RowRhBitmap { bits: vv }
    } else if nn == 0x63 {
        AutomapEvent::EchoResponse { value: vv }
    } else if nn == 0x65 {
        AutomapEvent::SpeedDialButton { pressed: vv != 0 }
    } else if nn == 0x66 {
        AutomapEvent::SpeedDial { clicks: spec_decode_clicks(vv) }
    } else if nn == 0x67 {
        AutomapEvent::ParameterResponse { response: vv }
    } else if nn == 0x6C {
        AutomapEvent::EncoderTouch {
            encoder: Encoder::spec_from_cc(((vv & 0x0F) + 0x78) as u8),
            touched: vv & 0x40 != 0,
        }
    } else if nn == 0x6D {
        AutomapEvent::PotTouch {
            pot: Pot::spec_from_cc(((vv & 0x0F) + 0x08) as u8),
            touched: vv & 0x40 != 0,
        }
    } else if nn == 0x6E {
        AutomapEvent::SliderTouch {
            slider: Slider::spec_from_cc(((vv & 0x0F) + 0x10) as u8),
            touched: vv & 0x40 != 0,
        }
    } else if nn == 0x6F {
        if vv & 0x01 == 0 {
            AutomapEvent::SpeedDialTouch { touched: vv & 0x40 != 0 }
        } else {
            AutomapEvent::CrossFadeTouch { touched: vv & 0x40 != 0 }
        }
    } else {
        AutomapEvent::Raw { cc: nn, value: vv }
    }
}

/// The result of decoding a buffer as an event: any length other than three
/// is rejected as truncated, every 3-byte triple yields an event.
pub open spec fn spec_decode_event(body: Seq<u8>) -> Result<AutomapEvent, DecodeError> {
    if body.len() != 3 {
        Err(DecodeError::Truncated)
    } else {
        Ok(spec_event(body[1], body[2]))
    }
}

impl AutomapEvent {
    /// Decodes one complete MIDI message as a device event. Only the length
    /// can be rejected; an unrecognized controller number decodes to `Raw`.
    /// The input is trusted to stay within the declared address map where a
    /// range is only partially assigned.
    pub fn decode_event(body: &[u8]) -> (r: Result<AutomapEvent, DecodeError>)
        requires
            body@.len() == 3 ==> event_input_trusted(body@[1], body@[2]),
        ensures
            r == spec_decode_event(body@),
    {
        if body.len() != 3 {
            return Err(DecodeError::Truncated);
        }
        let nn = body[1];
        let vv = body[2];
        proof {
            assert(vv & 0x0F <= 0x0F) by (bit_vector);
        }
        if nn == 0x01 {
            Ok(AutomapEvent::ModWheel { cc: nn, value: vv })
        } else if 0x08 <= nn && nn <= 0x0F {
            match Pot::from_cc(nn) {
                Some(pot) => Ok(AutomapEvent::Pot { pot, value: byte_as_i8(vv) }),
                None => Err(DecodeError::Invalid),
            }
        } else if 0x10 <= nn && nn <= 0x17 {
            match Slider::from_cc(nn) {
                Some(slider) => Ok(AutomapEvent::Slider { slider, value: byte_as_i8(vv) }),
                None => Err(DecodeError::Invalid),
            }
        } else if 0x18 <= nn && nn <= 0x37 {
            match Button::from_cc(nn) {
                Some(button) => Ok(AutomapEvent::Button { button, pressed: vv != 0 }),
                None => Err(DecodeError::Invalid),
            }
        } else if nn == 0x40 {
            Ok(AutomapEvent::SustainPedal { pressed: vv == 0x7F })
        } else if nn == 0x41 {
            Ok(AutomapEvent::ExpressionPedal { value: vv })
        } else if nn == 0x42 {
            Ok(AutomapEvent::CrossFader { value: vv })
        } else if nn == 0x44 {
            Ok(AutomapEvent::TouchpadX1 { value: vv })
        } else if nn == 0x45 {
            Ok(AutomapEvent::TouchpadY1 { value: vv })
        } else if nn == 0x46 {
            Ok(AutomapEvent::TouchpadX2 { value: vv })
        } else if nn == 0x47 {
            Ok(AutomapEvent::TouchpadY2 { value: vv })
        } else if 0x48 <= nn && nn <= 0x4D {
            if vv == 0x00 || vv == 0x01 {
                match TransportButton::from_cc(nn) {
                    Some(button) => Ok(
                        AutomapEvent::TransportButton { button, pressed: vv != 0 },
                    ),
                    None => Err(DecodeError::Invalid),
                }
            } else if vv == 0x40 || vv == 0x41 {
                match AutomapButton::from_cc(nn) {
                    Some(button) => Ok(
                        AutomapEvent::AutomapButton { button, pressed: vv != 0x40 },
                    ),
                    None => Err(DecodeError::Invalid),
                }
            } else {
                Ok(AutomapEvent::Raw { cc: nn, value: vv })
            }
        } else if nn == 0x4E {
            Ok(AutomapEvent::PreviewButton { pressed: vv != 0 })
        } else if nn == 0x4F {
            Ok(AutomapEvent::TransportLockStatus { enabled: vv != 0 })
        } else if 0x50 <= nn && nn <= 0x57 {
            match RowSelect::from_cc(nn) {
                Some(row) => Ok(AutomapEvent::RowSelect { row, selected: vv != 0 }),
                None => Err(DecodeError::Invalid),
            }
        } else if 0x58 <= nn && nn <= 0x5B {
            match PageButton::from_cc(nn) {
                Some(button) => Ok(AutomapEvent::PageButton { button, pressed: vv != 0 }),
                None => Err(DecodeError::Invalid),
            }
        } else if nn == 0x5C {
            match AlertType::from_val(vv) {
                Some(alert_type) => Ok(AutomapEvent::Alert { alert_type }),
                None => Ok(AutomapEvent::Raw { cc: nn, value: vv }),
            }
        } else if nn == 0x5E {
            Ok(AutomapEvent::TempoMsb { value: vv })
        } else if nn == 0x5F {
            Ok(AutomapEvent::TempoLsb { value: vv })
        } else if nn == 0x60 {
            Ok(AutomapEvent::RowLhBitmap { bits: vv })
        } else if nn == 0x61 {
            Ok(AutomapEvent::RowRhBitmap { bits: vv })
        } else if nn == 0x63 {
            Ok(AutomapEvent::EchoResponse { value: vv })
        } else if nn == 0x65 {
            Ok(AutomapEvent::SpeedDialButton { pressed: vv != 0 })
        } else if nn == 0x66 {
            Ok(AutomapEvent::SpeedDial { clicks: decode_clicks(vv) })
        } else if nn == 0x67 {
            Ok(AutomapEvent::ParameterResponse { response: vv })
        } else if nn == 0x6C {
            match Encoder::from_cc((vv & 0x0F) + 0x78) {
                Some(encoder) => Ok(AutomapEvent::EncoderTouch { encoder, touched: vv & 0x40 != 0 }),
                None => Err(DecodeError::Invalid),
            }
        } else if nn == 0x6D {
            match Pot::from_cc((vv & 0x0F) + 0x08) {
                Some(pot) => Ok(AutomapEvent::PotTouch { pot, touched: vv & 0x40 != 0 }),
                None => Err(DecodeError::Invalid),
            }
        } else if nn == 0x6E {
            match Slider::from_cc((vv & 0x0F) + 0x10) {
                Some(slider) => Ok(AutomapEvent::SliderTouch { slider, touched: vv & 0x40 != 0 }),
                None => Err(DecodeError::Invalid),
            }
        } else if nn == 0x6F {
            if vv & 0x01 == 0 {
                Ok(AutomapEvent::SpeedDialTouch { touched: vv & 0x40 != 0 })
            } else {
                Ok(AutomapEvent::CrossFadeTouch { touched: vv & 0x40 != 0 })
            }
        } else {
            Ok(AutomapEvent::Raw { cc: nn, value: vv })
        }
    }
}

/// Reinterprets a value byte as a signed byte (two's complement).
pub fn byte_as_i8(v: u8) -> (r: i8)
    ensures
        r == spec_byte_as_i8(v),
{
    if v < 128 {
        v as i8
    } else {
        -((255 - v) as i8) - 1
    }
}

/// A touch report on controller 0x6F selects its sensor by bit 0 of the
/// value byte: bit 0 clear is the speed dial, set is the cross-fader; the
/// touch state is bit 6 in both cases.
pub proof fn lemma_touch_report_dispatch(vv: u8)
    ensures
        vv & 0x01 == 0 ==> spec_decode_event(seq![0xBFu8, 0x6Fu8, vv]) == Ok::<
            AutomapEvent,
            DecodeError,
        >(AutomapEvent::SpeedDialTouch { touched: vv & 0x40 != 0 }),
        vv & 0x01 != 0 ==> spec_decode_event(seq![0xBFu8, 0x6Fu8, vv]) == Ok::<
            AutomapEvent,
            DecodeError,
        >(AutomapEvent::CrossFadeTouch { touched: vv & 0x40 != 0 }),
{
    let body = seq![0xBFu8, 0x6Fu8, vv];
    assert(body.len() == 3 && body[1] == 0x6F && body[2] == vv);
}

} // verus!
