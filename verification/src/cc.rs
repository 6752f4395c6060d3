//! The device's Control-Change address map: every physical control and LED
//! group, each with its controller number, plus the value encodings shared by
//! the command and event codecs.

use vstd::prelude::*;

verus! {

/// Status byte of every CC triple exchanged with the device (channel 16 CC).
pub const AUTOMAP_CC_STATUS: u8 = 0xBF;

/// Encoder ring LED display modes (value byte of the ring-mode command).
#[derive(Clone, Copy, Debug, PartialEq, Eq)]
pub enum RingMode {
    ContinuousCw,
    ContinuousAcw,
    CenteredBand,
    DoubleCenter,
    SingleLedCw,
}

impl RingMode {
    /// The value byte sent for this ring mode.
    pub open spec fn spec_val(self) -> u8 {
        match self {
            RingMode::ContinuousCw => 0x00,
            RingMode::ContinuousAcw => 0x10,
            RingMode::CenteredBand => 0x20,
            RingMode::DoubleCenter => 0x30,
            RingMode::SingleLedCw => 0x40,
        }
    }

    /// Returns the value byte sent for this ring mode.
    pub fn val(self) -> (r: u8)
        ensures
            r == self.spec_val(),
    {
        match self {
            RingMode::ContinuousCw => 0x00,
            RingMode::ContinuousAcw => 0x10,
            RingMode::CenteredBand => 0x20,
            RingMode::DoubleCenter => 0x30,
            RingMode::SingleLedCw => 0x40,
        }
    }
}

/// The eight pots, at controller numbers 0x08..=0x0F.
#[derive(Clone, Copy, Debug, PartialEq, Eq)]
pub enum Pot {
    Pot1,
    Pot2,
    Pot3,
    Pot4,
    Pot5,
    Pot6,
    Pot7,
    Pot8,
}

impl Pot {
    /// This pot's controller number.
    pub open spec fn spec_cc(self) -> u8 {
        match self {
            Pot::Pot1 => 0x08,
            Pot::Pot2 => 0x09,
            Pot::Pot3 => 0x0A,
            Pot::Pot4 => 0x0B,
            Pot::Pot5 => 0x0C,
            Pot::Pot6 => 0x0D,
            Pot::Pot7 => 0x0E,
            Pot::Pot8 => 0x0F,
        }
    }

    /// The pot at a controller number in 0x08..=0x0F.
    pub open spec fn spec_from_cc(n: u8) -> Pot {
        if n == 0x08 {
            Pot::Pot1
        } else if n == 0x09 {
            Pot::Pot2
        } else if n == 0x0A {
            Pot::Pot3
        } else if n == 0x0B {
            Pot::Pot4
        } else if n == 0x0C {
            Pot::Pot5
        } else if n == 0x0D {
            Pot::Pot6
        } else if n == 0x0E {
            Pot::Pot7
        } else {
            Pot::Pot8
        }
    }

    /// Returns this pot's controller number.
    pub fn cc(self) -> (r: u8)
        ensures
            r == self.spec_cc(),
    {
        match self {
            Pot::Pot1 => 0x08,
            Pot::Pot2 => 0x09,
            Pot::Pot3 => 0x0A,
            Pot::Pot4 => 0x0B,
            Pot::Pot5 => 0x0C,
            Pot::Pot6 => 0x0D,
            Pot::Pot7 => 0x0E,
            Pot::Pot8 => 0x0F,
        }
    }

    /// Looks a pot up by controller number; `None` outside 0x08..=0x0F.
    pub fn from_cc(n: u8) -> (r: Option<Pot>)
        ensures
            0x08 <= n <= 0x0F ==> r == Some(Pot::spec_from_cc(n)),
            !(0x08 <= n <= 0x0F) ==> r is None,
    {
        if 0x08 <= n && n <= 0x0F {
            Some(
                if n == 0x08 {
                    Pot::Pot1
                } else if n == 0x09 {
                    Pot::Pot2
                } else if n == 0x0A {
                    Pot::Pot3
                } else if n == 0x0B {
                    Pot::Pot4
                } else if n == 0x0C {
                    Pot::Pot5
                } else if n == 0x0D {
                    Pot::Pot6
                } else if n == 0x0E {
                    Pot::Pot7
                } else {
                    Pot::Pot8
                },
            )
        } else {
            None
        }
    }
}

/// The eight sliders, at controller numbers 0x10..=0x17.
#[derive(Clone, Copy, Debug, PartialEq, Eq)]
pub enum Slider {
    Slider1,
    Slider2,
    Slider3,
    Slider4,
    Slider5,
    Slider6,
    Slider7,
    Slider8,
}

impl Slider {
    /// This slider's controller number.
    pub open spec fn spec_cc(self) -> u8 {
        match self {
            Slider::Slider1 => 0x10,
            Slider::Slider2 => 0x11,
            Slider::Slider3 => 0x12,
            Slider::Slider4 => 0x13,
            Slider::Slider5 => 0x14,
            Slider::Slider6 => 0x15,
            Slider::Slider7 => 0x16,
            Slider::Slider8 => 0x17,
        }
    }

    /// The slider at a controller number in 0x10..=0x17.
    pub open spec fn spec_from_cc(n: u8) -> Slider {
        if n == 0x10 {
            Slider::Slider1
        } else if n == 0x11 {
            Slider::Slider2
        } else if n == 0x12 {
            Slider::Slider3
        } else if n == 0x13 {
            Slider::Slider4
        } else if n == 0x14 {
            Slider::Slider5
        } else if n == 0x15 {
            Slider::Slider6
        } else if n == 0x16 {
            Slider::Slider7
        } else {
            Slider::Slider8
        }
    }

    /// Returns this slider's controller number.
    pub fn cc(self) -> (r: u8)
        ensures
            r == self.spec_cc(),
    {
        match self {
            Slider::Slider1 => 0x10,
            Slider::Slider2 => 0x11,
            Slider::Slider3 => 0x12,
            Slider::Slider4 => 0x13,
            Slider::Slider5 => 0x14,
            Slider::Slider6 => 0x15,
            Slider::Slider7 => 0x16,
            Slider::Slider8 => 0x17,
        }
    }

    /// Looks a slider up by controller number; `None` outside 0x10..=0x17.
    pub fn from_cc(n: u8) -> (r: Option<Slider>)
        ensures
            0x10 <= n <= 0x17 ==> r == Some(Slider::spec_from_cc(n)),
            !(0x10 <= n <= 0x17) ==> r is None,
    {
        if 0x10 <= n && n <= 0x17 {
            Some(
                if n == 0x10 {
                    Slider::Slider1
                } else if n == 0x11 {
                    Slider::Slider2
                } else if n == 0x12 {
                    Slider::Slider3
                } else if n == 0x13 {
                    Slider::Slider4
                } else if n == 0x14 {
                    Slider::Slider5
                } else if n == 0x15 {
                    Slider::Slider6
                } else if n == 0x16 {
                    Slider::Slider7
                } else {
                    Slider::Slider8
                },
            )
        } else {
            None
        }
    }
}

/// The four rows of eight buttons (groups A..D), at 0x18..=0x37.
#[derive(Clone, Copy, Debug, PartialEq, Eq)]
pub enum Button {
    ButtonA1,
    ButtonA2,
    ButtonA3,
    ButtonA4,
    ButtonA5,
    ButtonA6,
    ButtonA7,
    ButtonA8,
    ButtonB1,
    ButtonB2,
    ButtonB3,
    ButtonB4,
    ButtonB5,
    ButtonB6,
    ButtonB7,
    ButtonB8,
    ButtonC1,
    ButtonC2,
    ButtonC3,
    ButtonC4,
    ButtonC5,
    ButtonC6,
    ButtonC7,
    ButtonC8,
    ButtonD1,
    ButtonD2,
    ButtonD3,
    ButtonD4,
    ButtonD5,
    ButtonD6,
    ButtonD7,
    ButtonD8,
}

impl Button {
    /// This button's controller number.
    pub open spec fn spec_cc(self) -> u8 {
        match self {
            Button::ButtonA1 => 0x18,
            Button::ButtonA2 => 0x19,
            Button::ButtonA3 => 0x1A,
            Button::ButtonA4 => 0x1B,
            Button::ButtonA5 => 0x1C,
            Button::ButtonA6 => 0x1D,
            Button::ButtonA7 => 0x1E,
            Button::ButtonA8 => 0x1F,
            Button::ButtonB1 => 0x20,
            Button::ButtonB2 => 0x21,
            Button::ButtonB3 => 0x22,
            Button::ButtonB4 => 0x23,
            Button::ButtonB5 => 0x24,
            Button::ButtonB6 => 0x25,
            Button::ButtonB7 => 0x26,
            Button::ButtonB8 => 0x27,
            Button::ButtonC1 => 0x28,
            Button::ButtonC2 => 0x29,
            Button::ButtonC3 => 0x2A,
            Button::ButtonC4 => 0x2B,
            Button::ButtonC5 => 0x2C,
            Button::ButtonC6 => 0x2D,
            Button::ButtonC7 => 0x2E,
            Button::ButtonC8 => 0x2F,
            Button::ButtonD1 => 0x30,
            Button::ButtonD2 => 0x31,
            Button::ButtonD3 => 0x32,
            Button::ButtonD4 => 0x33,
            Button::ButtonD5 => 0x34,
            Button::ButtonD6 => 0x35,
            Button::ButtonD7 => 0x36,
            Button::ButtonD8 => 0x37,
        }
    }

    /// The button at a controller number in 0x18..=0x37.
    pub open spec fn spec_from_cc(n: u8) -> Button {
        if n == 0x18 {
            Button::ButtonA1
        } else if n == 0x19 {
            Button::ButtonA2
        } else if n == 0x1A {
            Button::ButtonA3
        } else if n == 0x1B {
            Button::ButtonA4
        } else if n == 0x1C {
            Button::ButtonA5
        } else if n == 0x1D {
            Button::ButtonA6
        } else if n == 0x1E {
            Button::ButtonA7
        } else if n == 0x1F {
            Button::ButtonA8
        } else if n == 0x20 {
            Button::ButtonB1
        } else if n == 0x21 {
            Button::ButtonB2
        } else if n == 0x22 {
            Button::ButtonB3
        } else if n == 0x23 {
            Button::ButtonB4
        } else if n == 0x24 {
            Button::ButtonB5
        } else if n == 0x25 {
            Button::ButtonB6
        } else if n == 0x26 {
            Button::ButtonB7
        } else if n == 0x27 {
            Button::ButtonB8
        } else if n == 0x28 {
            Button::ButtonC1
        } else if n == 0x29 {
            Button::ButtonC2
        } else if n == 0x2A {
            Button::ButtonC3
        } else if n == 0x2B {
            Button::ButtonC4
        } else if n == 0x2C {
            Button::ButtonC5
        } else if n == 0x2D {
            Button::ButtonC6
        } else if n == 0x2E {
            Button::ButtonC7
        } else if n == 0x2F {
            Button::ButtonC8
        } else if n == 0x30 {
            Button::ButtonD1
        } else if n == 0x31 {
            Button::ButtonD2
        } else if n == 0x32 {
            Button::ButtonD3
        } else if n == 0x33 {
            Button::ButtonD4
        } else if n == 0x34 {
            Button::ButtonD5
        } else if n == 0x35 {
            Button::ButtonD6
        } else if n == 0x36 {
            Button::ButtonD7
        } else {
            Button::ButtonD8
        }
    }

    /// Returns this button's controller number.
    pub fn cc(self) -> (r: u8)
        ensures
            r == self.spec_cc(),
    {
        match self {
            Button::ButtonA1 => 0x18,
            Button::ButtonA2 => 0x19,
            Button::ButtonA3 => 0x1A,
            Button::ButtonA4 => 0x1B,
            Button::ButtonA5 => 0x1C,
            Button::ButtonA6 => 0x1D,
            Button::ButtonA7 => 0x1E,
            Button::ButtonA8 => 0x1F,
            Button::ButtonB1 => 0x20,
            Button::ButtonB2 => 0x21,
            Button::ButtonB3 => 0x22,
            Button::ButtonB4 => 0x23,
            Button::ButtonB5 => 0x24,
            Button::ButtonB6 => 0x25,
            Button::ButtonB7 => 0x26,
            Button::ButtonB8 => 0x27,
            Button::ButtonC1 => 0x28,
            Button::ButtonC2 => 0x29,
            Button::ButtonC3 => 0x2A,
            Button::ButtonC4 => 0x2B,
            Button::ButtonC5 => 0x2C,
            Button::ButtonC6 => 0x2D,
            Button::ButtonC7 => 0x2E,
            Button::ButtonC8 => 0x2F,
            Button::ButtonD1 => 0x30,
            Button::ButtonD2 => 0x31,
            Button::ButtonD3 => 0x32,
            Button::ButtonD4 => 0x33,
            Button::ButtonD5 => 0x34,
            Button::ButtonD6 => 0x35,
            Button::ButtonD7 => 0x36,
            Button::ButtonD8 => 0x37,
        }
    }

    /// Looks a button up by controller number; `None` outside 0x18..=0x37.
    pub fn from_cc(n: u8) -> (r: Option<Button>)
        ensures
            0x18 <= n <= 0x37 ==> r == Some(Button::spec_from_cc(n)),
            !(0x18 <= n <= 0x37) ==> r is None,
    {
        if 0x18 <= n && n <= 0x37 {
            Some(
                if n == 0x18 {
                    Button::ButtonA1
                } else if n == 0x19 {
                    Button::ButtonA2
                } else if n == 0x1A {
                    Button::ButtonA3
                } else if n == 0x1B {
                    Button::ButtonA4
                } else if n == 0x1C {
                    Button::ButtonA5
                } else if n == 0x1D {
                    Button::ButtonA6
                } else if n == 0x1E {
                    Button::ButtonA7
                } else if n == 0x1F {
                    Button::ButtonA8
                } else if n == 0x20 {
                    Button::ButtonB1
                } else if n == 0x21 {
                    Button::ButtonB2
                } else if n == 0x22 {
                    Button::ButtonB3
                } else if n == 0x23 {
                    Button::ButtonB4
                } else if n == 0x24 {
                    Button::ButtonB5
                } else if n == 0x25 {
                    Button::ButtonB6
                } else if n == 0x26 {
                    Button::ButtonB7
                } else if n == 0x27 {
                    Button::ButtonB8
                } else if n == 0x28 {
                    Button::ButtonC1
                } else if n == 0x29 {
                    Button::ButtonC2
                } else if n == 0x2A {
                    Button::ButtonC3
                } else if n == 0x2B {
                    Button::ButtonC4
                } else if n == 0x2C {
                    Button::ButtonC5
                } else if n == 0x2D {
                    Button::ButtonC6
                } else if n == 0x2E {
                    Button::ButtonC7
                } else if n == 0x2F {
                    Button::ButtonC8
                } else if n == 0x30 {
                    Button::ButtonD1
                } else if n == 0x31 {
                    Button::ButtonD2
                } else if n == 0x32 {
                    Button::ButtonD3
                } else if n == 0x33 {
                    Button::ButtonD4
                } else if n == 0x34 {
                    Button::ButtonD5
                } else if n == 0x35 {
                    Button::ButtonD6
                } else if n == 0x36 {
                    Button::ButtonD7
                } else {
                    Button::ButtonD8
                },
            )
        } else {
            None
        }
    }
}

/// The six transport buttons (rewind .. record), at 0x48..=0x4D when the
/// value byte is 0 or 1.
#[derive(Clone, Copy, Debug, PartialEq, Eq)]
pub enum TransportButton {
    ButtonD1Tl,
    ButtonD2Tl,
    ButtonD3Tl,
    ButtonD4Tl,
    ButtonD5Tl,
    ButtonD6Tl,
}

impl TransportButton {
    /// This transport button's controller number.
    pub open spec fn spec_cc(self) -> u8 {
        match self {
            TransportButton::ButtonD1Tl => 0x48,
            TransportButton::ButtonD2Tl => 0x49,
            TransportButton::ButtonD3Tl => 0x4A,
            TransportButton::ButtonD4Tl => 0x4B,
            TransportButton::ButtonD5Tl => 0x4C,
            TransportButton::ButtonD6Tl => 0x4D,
        }
    }

    /// The transport button at a controller number in 0x48..=0x4D.
    pub open spec fn spec_from_cc(n: u8) -> TransportButton {
        if n == 0x48 {
            TransportButton::ButtonD1Tl
        } else if n == 0x49 {
            TransportButton::ButtonD2Tl
        } else if n == 0x4A {
            TransportButton::ButtonD3Tl
        } else if n == 0x4B {
            TransportButton::ButtonD4Tl
        } else if n == 0x4C {
            TransportButton::ButtonD5Tl
        } else {
            TransportButton::ButtonD6Tl
        }
    }

    /// Returns this transport button's controller number.
    pub fn cc(self) -> (r: u8)
        ensures
            r == self.spec_cc(),
    {
        match self {
            TransportButton::ButtonD1Tl => 0x48,
            TransportButton::ButtonD2Tl => 0x49,
            TransportButton::ButtonD3Tl => 0x4A,
            TransportButton::ButtonD4Tl => 0x4B,
            TransportButton::ButtonD5Tl => 0x4C,
            TransportButton::ButtonD6Tl => 0x4D,
        }
    }

    /// Looks a transport button up by controller number; `None` outside
    /// 0x48..=0x4D.
    pub fn from_cc(n: u8) -> (r: Option<TransportButton>)
        ensures
            0x48 <= n <= 0x4D ==> r == Some(TransportButton::spec_from_cc(n)),
            !(0x48 <= n <= 0x4D) ==> r is None,
    {
        if 0x48 <= n && n <= 0x4D {
            Some(
                if n == 0x48 {
                    TransportButton::ButtonD1Tl
                } else if n == 0x49 {
                    TransportButton::ButtonD2Tl
                } else if n == 0x4A {
                    TransportButton::ButtonD3Tl
                } else if n == 0x4B {
                    TransportButton::ButtonD4Tl
                } else if n == 0x4C {
                    TransportButton::ButtonD5Tl
                } else {
                    TransportButton::ButtonD6Tl
                },
            )
        } else {
            None
        }
    }
}

/// The six Automap buttons, sharing 0x48..=0x4D with the transport buttons
/// but reported with value bytes 0x40/0x41.
#[derive(Clone, Copy, Debug, PartialEq, Eq)]
pub enum AutomapButton {
    AutomapButton1,
    AutomapButton2,
    AutomapButton3,
    AutomapButton4,
    AutomapButton5,
    AutomapButton6,
}

impl AutomapButton {
    /// This Automap button's controller number.
    pub open spec fn spec_cc(self) -> u8 {
        match self {
            AutomapButton::AutomapButton1 => 0x48,
            AutomapButton::AutomapButton2 => 0x49,
            AutomapButton::AutomapButton3 => 0x4A,
            AutomapButton::AutomapButton4 => 0x4B,
            AutomapButton::AutomapButton5 => 0x4C,
            AutomapButton::AutomapButton6 => 0x4D,
        }
    }

    /// The Automap button at a controller number in 0x48..=0x4D.
    pub open spec fn spec_from_cc(n: u8) -> AutomapButton {
        if n == 0x48 {
            AutomapButton::AutomapButton1
        } else if n == 0x49 {
            AutomapButton::AutomapButton2
        } else if n == 0x4A {
            AutomapButton::AutomapButton3
        } else if n == 0x4B {
            AutomapButton::AutomapButton4
        } else if n == 0x4C {
            AutomapButton::AutomapButton5
        } else {
            AutomapButton::AutomapButton6
        }
    }

    /// Returns this Automap button's controller number.
    pub fn cc(self) -> (r: u8)
        ensures
            r == self.spec_cc(),
    {
        match self {
            AutomapButton::AutomapButton1 => 0x48,
            AutomapButton::AutomapButton2 => 0x49,
            AutomapButton::AutomapButton3 => 0x4A,
            AutomapButton::AutomapButton4 => 0x4B,
            AutomapButton::AutomapButton5 => 0x4C,
            AutomapButton::AutomapButton6 => 0x4D,
        }
    }

    /// Looks an Automap button up by controller number; `None` outside
    /// 0x48..=0x4D.
    pub fn from_cc(n: u8) -> (r: Option<AutomapButton>)
        ensures
            0x48 <= n <= 0x4D ==> r == Some(AutomapButton::spec_from_cc(n)),
            !(0x48 <= n <= 0x4D) ==> r is None,
    {
        if 0x48 <= n && n <= 0x4D {
            Some(
                if n == 0x48 {
                    AutomapButton::AutomapButton1
                } else if n == 0x49 {
                    AutomapButton::AutomapButton2
                } else if n == 0x4A {
                    AutomapButton::AutomapButton3
                } else if n == 0x4B {
                    AutomapButton::AutomapButton4
                } else if n == 0x4C {
                    AutomapButton::AutomapButton5
                } else {
                    AutomapButton::AutomapButton6
                },
            )
        } else {
            None
        }
    }
}

/// The row-select buttons: five on the left half (0x50..=0x54) and two on
/// the right (0x56, 0x57). Controller 0x55 is unassigned.
#[derive(Clone, Copy, Debug, PartialEq, Eq)]
pub enum RowSelect {
    L1,
    L2,
    L3,
    L4,
    L5,
    R1,
    R2,
}

impl RowSelect {
    /// This row-select button's controller number.
    pub open spec fn spec_cc(self) -> u8 {
        match self {
            RowSelect::L1 => 0x50,
            RowSelect::L2 => 0x51,
            RowSelect::L3 => 0x52,
            RowSelect::L4 => 0x53,
            RowSelect::L5 => 0x54,
            RowSelect::R1 => 0x56,
            RowSelect::R2 => 0x57,
        }
    }

    /// The row-select button at an assigned controller number in
    /// 0x50..=0x57 (0x55 excluded).
    pub open spec fn spec_from_cc(n: u8) -> RowSelect {
        if n == 0x50 {
            RowSelect::L1
        } else if n == 0x51 {
            RowSelect::L2
        } else if n == 0x52 {
            RowSelect::L3
        } else if n == 0x53 {
            RowSelect::L4
        } else if n == 0x54 {
            RowSelect::L5
        } else if n == 0x56 {
            RowSelect::R1
        } else {
            RowSelect::R2
        }
    }

    /// Returns this row-select button's controller number.
    pub fn cc(self) -> (r: u8)
        ensures
            r == self.spec_cc(),
    {
        match self {
            RowSelect::L1 => 0x50,
            RowSelect::L2 => 0x51,
            RowSelect::L3 => 0x52,
            RowSelect::L4 => 0x53,
            RowSelect::L5 => 0x54,
            RowSelect::R1 => 0x56,
            RowSelect::R2 => 0x57,
        }
    }

    /// Looks a row-select button up by controller number; `None` outside the
    /// assigned numbers.
    pub fn from_cc(n: u8) -> (r: Option<RowSelect>)
        ensures
            0x50 <= n <= 0x57 && n != 0x55 ==> r == Some(RowSelect::spec_from_cc(n)),
            !(0x50 <= n <= 0x57 && n != 0x55) ==> r is None,
    {
        if 0x50 <= n && n <= 0x57 && n != 0x55 {
            Some(
                if n == 0x50 {
                    RowSelect::L1
                } else if n == 0x51 {
                    RowSelect::L2
                } else if n == 0x52 {
                    RowSelect::L3
                } else if n == 0x53 {
                    RowSelect::L4
                } else if n == 0x54 {
                    RowSelect::L5
                } else if n == 0x56 {
                    RowSelect::R1
                } else {
                    RowSelect::R2
                },
            )
        } else {
            None
        }
    }
}

/// The eight encoders, at controller numbers 0x78..=0x7F.
#[derive(Clone, Copy, Debug, PartialEq, Eq)]
pub enum Encoder {
    Encoder1,
    Encoder2,
    Encoder3,
    Encoder4,
    Encoder5,
    Encoder6,
    Encoder7,
    Encoder8,
}

impl Encoder {
    /// This encoder's controller number.
    pub open spec fn spec_cc(self) -> u8 {
        match self {
            Encoder::Encoder1 => 0x78,
            Encoder::Encoder2 => 0x79,
            Encoder::Encoder3 => 0x7A,
            Encoder::Encoder4 => 0x7B,
            Encoder::Encoder5 => 0x7C,
            Encoder::Encoder6 => 0x7D,
            Encoder::Encoder7 => 0x7E,
            Encoder::Encoder8 => 0x7F,
        }
    }

    /// The encoder at a controller number in 0x78..=0x7F.
    pub open spec fn spec_from_cc(n: u8) -> Encoder {
        if n == 0x78 {
            Encoder::Encoder1
        } else if n == 0x79 {
            Encoder::Encoder2
        } else if n == 0x7A {
            Encoder::Encoder3
        } else if n == 0x7B {
            Encoder::Encoder4
        } else if n == 0x7C {
            Encoder::Encoder5
        } else if n == 0x7D {
            Encoder::Encoder6
        } else if n == 0x7E {
            Encoder::Encoder7
        } else {
            Encoder::Encoder8
        }
    }

    /// Returns this encoder's controller number.
    pub fn cc(self) -> (r: u8)
        ensures
            r == self.spec_cc(),
    {
        match self {
            Encoder::Encoder1 => 0x78,
            Encoder::Encoder2 => 0x79,
            Encoder::Encoder3 => 0x7A,
            Encoder::Encoder4 => 0x7B,
            Encoder::Encoder5 => 0x7C,
            Encoder::Encoder6 => 0x7D,
            Encoder::Encoder7 => 0x7E,
            Encoder::Encoder8 => 0x7F,
        }
    }

    /// Looks an encoder up by controller number; `None` outside 0x78..=0x7F.
    pub fn from_cc(n: u8) -> (r: Option<Encoder>)
        ensures
            0x78 <= n <= 0x7F ==> r == Some(Encoder::spec_from_cc(n)),
            !(0x78 <= n <= 0x7F) ==> r is None,
    {
        if 0x78 <= n && n <= 0x7F {
            Some(
                if n == 0x78 {
                    Encoder::Encoder1
                } else if n == 0x79 {
                    Encoder::Encoder2
                } else if n == 0x7A {
                    Encoder::Encoder3
                } else if n == 0x7B {
                    Encoder::Encoder4
                } else if n == 0x7C {
                    Encoder::Encoder5
                } else if n == 0x7D {
                    Encoder::Encoder6
                } else if n == 0x7E {
                    Encoder::Encoder7
                } else {
                    Encoder::Encoder8
                },
            )
        } else {
            None
        }
    }
}

/// Fixed single-address controls and report bytes of the address map.
#[derive(Clone, Copy, Debug, PartialEq, Eq)]
pub enum Controls {
    SustainPedal,
    ExpressionPedal,
    TouchpadX1,
    TouchpadY1,
    TouchpadX2,
    TouchpadY2,
    ButtonD1TL,
    ButtonD2TL,
    ButtonD3TL,
    ButtonD4TL,
    ButtonD5TL,
    ButtonD6TL,
    AllLedsOff,
    TransportLock,
    PageUpL,
    PageDnL,
    PageUpR,
    PageDnR,
    Alerts,
    MSTempo,
    LSTempo,
    RowLhBitmap,
    RowRhBitmap,
    EchoRequest,
    ParamRequest,
    AvailableRowSelects,
    AvailableRowSelects2,
    SpeedDialButton,
    SpeedDial,
    EncodersTouch,
    PotsTouch,
    SlidersTouch,
    SpeedDialTouch,
    OffOnLine,
}

impl Controls {
    /// This control's controller number.
    pub open spec fn spec_cc(self) -> u8 {
        match self {
            Controls::SustainPedal => 0x40,
            Controls::ExpressionPedal => 0x41,
            Controls::TouchpadX1 => 0x44,
            Controls::TouchpadY1 => 0x45,
            Controls::TouchpadX2 => 0x46,
            Controls::TouchpadY2 => 0x47,
            Controls::ButtonD1TL => 0x48,
            Controls::ButtonD2TL => 0x49,
            Controls::ButtonD3TL => 0x4A,
            Controls::ButtonD4TL => 0x4B,
            Controls::ButtonD5TL => 0x4C,
            Controls::ButtonD6TL => 0x4D,
            Controls::AllLedsOff => 0x4E,
            Controls::TransportLock => 0x4F,
            Controls::PageUpL => 0x58,
            Controls::PageDnL => 0x59,
            Controls::PageUpR => 0x5A,
            Controls::PageDnR => 0x5B,
            Controls::Alerts => 0x5C,
            Controls::MSTempo => 0x5E,
            Controls::LSTempo => 0x5F,
            Controls::RowLhBitmap => 0x60,
            Controls::RowRhBitmap => 0x61,
            Controls::EchoRequest => 0x63,
            Controls::ParamRequest => 0x67,
            Controls::AvailableRowSelects => 0x68,
            Controls::AvailableRowSelects2 => 0x69,
            Controls::SpeedDialButton => 0x65,
            Controls::SpeedDial => 0x66,
            Controls::EncodersTouch => 0x6C,
            Controls::PotsTouch => 0x6D,
            Controls::SlidersTouch => 0x6E,
            Controls::SpeedDialTouch => 0x6F,
            Controls::OffOnLine => 0x6B,
        }
    }

    /// Returns this control's controller number.
    pub fn cc(self) -> (r: u8)
        ensures
            r == self.spec_cc(),
    {
        match self {
            Controls::SustainPedal => 0x40,
            Controls::ExpressionPedal => 0x41,
            Controls::TouchpadX1 => 0x44,
            Controls::TouchpadY1 => 0x45,
            Controls::TouchpadX2 => 0x46,
            Controls::TouchpadY2 => 0x47,
            Controls::ButtonD1TL => 0x48,
            Controls::ButtonD2TL => 0x49,
            Controls::ButtonD3TL => 0x4A,
            Controls::ButtonD4TL => 0x4B,
            Controls::ButtonD5TL => 0x4C,
            Controls::ButtonD6TL => 0x4D,
            Controls::AllLedsOff => 0x4E,
            Controls::TransportLock => 0x4F,
            Controls::PageUpL => 0x58,
            Controls::PageDnL => 0x59,
            Controls::PageUpR => 0x5A,
            Controls::PageDnR => 0x5B,
            Controls::Alerts => 0x5C,
            Controls::MSTempo => 0x5E,
            Controls::LSTempo => 0x5F,
            Controls::RowLhBitmap => 0x60,
            Controls::RowRhBitmap => 0x61,
            Controls::EchoRequest => 0x63,
            Controls::ParamRequest => 0x67,
            Controls::AvailableRowSelects => 0x68,
            Controls::AvailableRowSelects2 => 0x69,
            Controls::SpeedDialButton => 0x65,
            Controls::SpeedDial => 0x66,
            Controls::EncodersTouch => 0x6C,
            Controls::PotsTouch => 0x6D,
            Controls::SlidersTouch => 0x6E,
            Controls::SpeedDialTouch => 0x6F,
            Controls::OffOnLine => 0x6B,
        }
    }
}

/// The four LCD page buttons, at 0x58..=0x5B.
#[derive(Clone, Copy, Debug, PartialEq, Eq)]
pub enum PageButton {
    PageUpL,
    PageDnL,
    PageUpR,
    PageDnR,
}

impl PageButton {
    /// This page button's controller number.
    pub open spec fn spec_cc(self) -> u8 {
        match self {
            PageButton::PageUpL => 0x58,
            PageButton::PageDnL => 0x59,
            PageButton::PageUpR => 0x5A,
            PageButton::PageDnR => 0x5B,
        }
    }

    /// The page button at a controller number in 0x58..=0x5B.
    pub open spec fn spec_from_cc(n: u8) -> PageButton {
        if n == 0x58 {
            PageButton::PageUpL
        } else if n == 0x59 {
            PageButton::PageDnL
        } else if n == 0x5A {
            PageButton::PageUpR
        } else {
            PageButton::PageDnR
        }
    }

    /// Returns this page button's controller number.
    pub fn cc(self) -> (r: u8)
        ensures
            r == self.spec_cc(),
    {
        match self {
            PageButton::PageUpL => 0x58,
            PageButton::PageDnL => 0x59,
            PageButton::PageUpR => 0x5A,
            PageButton::PageDnR => 0x5B,
        }
    }

    /// Looks a page button up by controller number; `None` outside
    /// 0x58..=0x5B.
    pub fn from_cc(n: u8) -> (r: Option<PageButton>)
        ensures
            0x58 <= n <= 0x5B ==> r == Some(PageButton::spec_from_cc(n)),
            !(0x58 <= n <= 0x5B) ==> r is None,
    {
        if 0x58 <= n && n <= 0x5B {
            Some(
                if n == 0x58 {
                    PageButton::PageUpL
                } else if n == 0x59 {
                    PageButton::PageDnL
                } else if n == 0x5A {
                    PageButton::PageUpR
                } else {
                    PageButton::PageDnR
                },
            )
        } else {
            None
        }
    }
}

/// Configuration-change alerts reported by the device on controller 0x5C.
#[derive(Clone, Copy, Debug, PartialEq, Eq)]
pub enum AlertType {
    MidiChannelChanged,
    KeyboardTransposeChanged,
    OctaveChanged,
    AfterTouchChanged,
    VelocityCurveChanged,
}

impl AlertType {
    /// The value byte reporting this alert.
    pub open spec fn spec_val(self) -> u8 {
        match self {
            AlertType::MidiChannelChanged => 0x00,
            AlertType::KeyboardTransposeChanged => 0x01,
            AlertType::OctaveChanged => 0x02,
            AlertType::AfterTouchChanged => 0x03,
            AlertType::VelocityCurveChanged => 0x04,
        }
    }

    /// The alert reported by a value byte in 0x00..=0x04.
    pub open spec fn spec_from_val(v: u8) -> AlertType {
        if v == 0x00 {
            AlertType::MidiChannelChanged
        } else if v == 0x01 {
            AlertType::KeyboardTransposeChanged
        } else if v == 0x02 {
            AlertType::OctaveChanged
        } else if v == 0x03 {
            AlertType::AfterTouchChanged
        } else {
            AlertType::VelocityCurveChanged
        }
    }

    /// Returns the value byte reporting this alert.
    pub fn val(self) -> (r: u8)
        ensures
            r == self.spec_val(),
    {
        match self {
            AlertType::MidiChannelChanged => 0x00,
            AlertType::KeyboardTransposeChanged => 0x01,
            AlertType::OctaveChanged => 0x02,
            AlertType::AfterTouchChanged => 0x03,
            AlertType::VelocityCurveChanged => 0x04,
        }
    }

    /// Looks an alert up by value byte; `None` outside 0x00..=0x04.
    pub fn from_val(v: u8) -> (r: Option<AlertType>)
        ensures
            v <= 0x04 ==> r == Some(AlertType::spec_from_val(v)),
            v > 0x04 ==> r is None,
    {
        if v <= 0x04 {
            Some(
                if v == 0x00 {
                    AlertType::MidiChannelChanged
                } else if v == 0x01 {
                    AlertType::KeyboardTransposeChanged
                } else if v == 0x02 {
                    AlertType::OctaveChanged
                } else if v == 0x03 {
                    AlertType::AfterTouchChanged
                } else {
                    AlertType::VelocityCurveChanged
                },
            )
        } else {
            None
        }
    }
}

/// What a parameter request on controller 0x67 asks the device for.
#[derive(Clone, Copy, Debug, PartialEq, Eq)]
pub enum ParameterRequestType {
    UnitProductType,
    TransportLockState,
}

impl ParameterRequestType {
    /// The value byte sent for this request.
    pub open spec fn spec_val(self) -> u8 {
        match self {
            ParameterRequestType::UnitProductType => 0x00,
            ParameterRequestType::TransportLockState => 0x01,
        }
    }

    /// Returns the value byte sent for this request.
    pub fn val(self) -> (r: u8)
        ensures
            r == self.spec_val(),
    {
        match self {
            ParameterRequestType::UnitProductType => 0x00,
            ParameterRequestType::TransportLockState => 0x01,
        }
    }
}

/// Product identities a unit can report to a product-type request.
#[derive(Clone, Copy, Debug, PartialEq, Eq)]
pub enum ProductType {
    RemoteSLorSLMKII,
    ZeroSLorZeroMKII,
    Compact,
}

impl ProductType {
    /// The value byte reporting this product identity.
    pub open spec fn spec_val(self) -> u8 {
        match self {
            ProductType::RemoteSLorSLMKII => 0x00,
            ProductType::ZeroSLorZeroMKII => 0x01,
            ProductType::Compact => 0x02,
        }
    }

    /// Returns the value byte reporting this product identity.
    pub fn val(self) -> (r: u8)
        ensures
            r == self.spec_val(),
    {
        match self {
            ProductType::RemoteSLorSLMKII => 0x00,
            ProductType::ZeroSLorZeroMKII => 0x01,
            ProductType::Compact => 0x02,
        }
    }
}

/// A position on an encoder's ring of twelve LEDs: 0 is fully
/// counter-clockwise, 11 fully clockwise.
#[derive(Clone, Copy, Debug, PartialEq, Eq, PartialOrd, Ord)]
pub enum EncoderPosition {
    Pos0,
    Pos1,
    Pos2,
    Pos3,
    Pos4,
    Pos5,
    Pos6,
    Pos7,
    Pos8,
    Pos9,
    Pos10,
    Pos11,
}

impl EncoderPosition {
    /// Fully counter-clockwise.
    pub const MIN: EncoderPosition = EncoderPosition::Pos0;

    /// Fully clockwise.
    pub const MAX: EncoderPosition = EncoderPosition::Pos11;

    /// The centre of the ring.
    pub const CENTER: EncoderPosition = EncoderPosition::Pos6;

    /// The value byte sent for this ring position.
    pub open spec fn spec_val(self) -> u8 {
        match self {
            EncoderPosition::Pos0 => 0,
            EncoderPosition::Pos1 => 1,
            EncoderPosition::Pos2 => 2,
            EncoderPosition::Pos3 => 3,
            EncoderPosition::Pos4 => 4,
            EncoderPosition::Pos5 => 5,
            EncoderPosition::Pos6 => 6,
            EncoderPosition::Pos7 => 7,
            EncoderPosition::Pos8 => 8,
            EncoderPosition::Pos9 => 9,
            EncoderPosition::Pos10 => 10,
            EncoderPosition::Pos11 => 11,
        }
    }

    /// Returns the value byte sent for this ring position.
    pub fn val(self) -> (r: u8)
        ensures
            r == self.spec_val(),
    {
        match self {
            EncoderPosition::Pos0 => 0,
            EncoderPosition::Pos1 => 1,
            EncoderPosition::Pos2 => 2,
            EncoderPosition::Pos3 => 3,
            EncoderPosition::Pos4 => 4,
            EncoderPosition::Pos5 => 5,
            EncoderPosition::Pos6 => 6,
            EncoderPosition::Pos7 => 7,
            EncoderPosition::Pos8 => 8,
            EncoderPosition::Pos9 => 9,
            EncoderPosition::Pos10 => 10,
            EncoderPosition::Pos11 => 11,
        }
    }
}

/// The left-hand row-select LEDs as a bitmap: bits 0..=4 are RS1..=RS5.
#[derive(Clone, Copy, Debug, PartialEq, Eq)]
pub struct RowSelectLhSet {
    bits: u8,
}

impl View for RowSelectLhSet {
    type V = u8;

    closed spec fn view(&self) -> u8 {
        self.bits
    }
}

impl RowSelectLhSet {
    /// Builds a left-hand LED set directly from its bit pattern.
    pub fn from_bits(bits: u8) -> (r: RowSelectLhSet)
        ensures
            r@ == bits,
    {
        RowSelectLhSet { bits }
    }

    /// The RS1 LED alone.
    pub fn rs1() -> (r: RowSelectLhSet)
        ensures
            r@ == 0x01u8,
    {
        RowSelectLhSet { bits: 0x01 }
    }

    /// The RS2 LED alone.
    pub fn rs2() -> (r: RowSelectLhSet)
        ensures
            r@ == 0x02u8,
    {
        RowSelectLhSet { bits: 0x02 }
    }

    /// The RS3 LED alone.
    pub fn rs3() -> (r: RowSelectLhSet)
        ensures
            r@ == 0x04u8,
    {
        RowSelectLhSet { bits: 0x04 }
    }

    /// The RS4 LED alone.
    pub fn rs4() -> (r: RowSelectLhSet)
        ensures
            r@ == 0x08u8,
    {
        RowSelectLhSet { bits: 0x08 }
    }

    /// The RS5 LED alone.
    pub fn rs5() -> (r: RowSelectLhSet)
        ensures
            r@ == 0x10u8,
    {
        RowSelectLhSet { bits: 0x10 }
    }

    /// Returns the raw bit pattern of this LED set.
    pub fn bits(self) -> (r: u8)
        ensures
            r == self@,
    {
        self.bits
    }

    /// Returns the set lighting the LEDs of both operands.
    pub fn union(self, other: RowSelectLhSet) -> (r: RowSelectLhSet)
        ensures
            r@ == self@ | other@,
    {
        RowSelectLhSet { bits: self.bits | other.bits }
    }

    /// Returns the set lighting the LEDs common to both operands.
    pub fn intersection(self, other: RowSelectLhSet) -> (r: RowSelectLhSet)
        ensures
            r@ == self@ & other@,
    {
        RowSelectLhSet { bits: self.bits & other.bits }
    }
}

/// The right-hand row-select LEDs as a bitmap: bits 0..=2 are RS6..=RS8,
/// bit 3 the record LED.
#[derive(Clone, Copy, Debug, PartialEq, Eq)]
pub struct RowSelectRhSet {
    bits: u8,
}

impl View for RowSelectRhSet {
    type V = u8;

    closed spec fn view(&self) -> u8 {
        self.bits
    }
}

impl RowSelectRhSet {
    /// Builds a right-hand LED set directly from its bit pattern.
    pub fn from_bits(bits: u8) -> (r: RowSelectRhSet)
        ensures
            r@ == bits,
    {
        RowSelectRhSet { bits }
    }

    /// The RS6 LED alone.
    pub fn rs6() -> (r: RowSelectRhSet)
        ensures
            r@ == 0x01u8,
    {
        RowSelectRhSet { bits: 0x01 }
    }

    /// The RS7 LED alone.
    pub fn rs7() -> (r: RowSelectRhSet)
        ensures
            r@ == 0x02u8,
    {
        RowSelectRhSet { bits: 0x02 }
    }

    /// The RS8 LED alone.
    pub fn rs8() -> (r: RowSelectRhSet)
        ensures
            r@ == 0x04u8,
    {
        RowSelectRhSet { bits: 0x04 }
    }

    /// The record LED alone.
    pub fn rec() -> (r: RowSelectRhSet)
        ensures
            r@ == 0x08u8,
    {
        RowSelectRhSet { bits: 0x08 }
    }

    /// Returns the raw bit pattern of this LED set.
    pub fn bits(self) -> (r: u8)
        ensures
            r == self@,
    {
        self.bits
    }

    /// Returns the set lighting the LEDs of both operands.
    pub fn union(self, other: RowSelectRhSet) -> (r: RowSelectRhSet)
        ensures
            r@ == self@ | other@,
    {
        RowSelectRhSet { bits: self.bits | other.bits }
    }

    /// Returns the set lighting the LEDs common to both operands.
    pub fn intersection(self, other: RowSelectRhSet) -> (r: RowSelectRhSet)
        ensures
            r@ == self@ & other@,
    {
        RowSelectRhSet { bits: self.bits & other.bits }
    }
}

/// Control attribute byte 1 (template field CNATTR1): transmission and
/// button-behaviour flags, one bit per flag.
#[derive(Clone, Copy, Debug, PartialEq, Eq)]
pub struct Attr1 {
    bits: u8,
}

impl View for Attr1 {
    type V = u8;

    closed spec fn view(&self) -> u8 {
        self.bits
    }
}

impl Attr1 {
    /// Builds an attribute byte directly from its bit pattern.
    pub fn from_bits(bits: u8) -> (r: Attr1)
        ensures
            r@ == bits,
    {
        Attr1 { bits }
    }

    /// Send the most significant byte first.
    pub fn send_msb_first() -> (r: Attr1)
        ensures
            r@ == 0x01u8,
    {
        Attr1 { bits: 0x01 }
    }

    /// Send a two-byte value.
    pub fn send_2b_value() -> (r: Attr1)
        ensures
            r@ == 0x02u8,
    {
        Attr1 { bits: 0x02 }
    }

    /// Send on release as well.
    pub fn send_on_release() -> (r: Attr1)
        ensures
            r@ == 0x04u8,
    {
        Attr1 { bits: 0x04 }
    }

    /// The button toggles its value.
    pub fn toggle_value() -> (r: Attr1)
        ensures
            r@ == 0x08u8,
    {
        Attr1 { bits: 0x08 }
    }

    /// The button cycles through values.
    pub fn cyclic_button() -> (r: Attr1)
        ensures
            r@ == 0x10u8,
    {
        Attr1 { bits: 0x10 }
    }

    /// Raw-data mode.
    pub fn rawdata_mode() -> (r: Attr1)
        ensures
            r@ == 0x40u8,
    {
        Attr1 { bits: 0x40 }
    }

    /// Returns the raw bit pattern of this attribute byte.
    pub fn bits(self) -> (r: u8)
        ensures
            r == self@,
    {
        self.bits
    }

    /// Returns the attribute byte with the flags of both operands.
    pub fn union(self, other: Attr1) -> (r: Attr1)
        ensures
            r@ == self@ | other@,
    {
        Attr1 { bits: self.bits | other.bits }
    }

    /// Returns the attribute byte with the flags common to both operands.
    pub fn intersection(self, other: Attr1) -> (r: Attr1)
        ensures
            r@ == self@ & other@,
    {
        Attr1 { bits: self.bits & other.bits }
    }
}

/// Control attribute byte 2 (template field CNATTR2): snapshot and value
/// flags in the low bits, the pot pickup mode as a two-bit field at bits
/// 5..=6.
#[derive(Clone, Copy, Debug, PartialEq, Eq)]
pub struct Attr2 {
    bits: u8,
}

impl View for Attr2 {
    type V = u8;

    closed spec fn view(&self) -> u8 {
        self.bits
    }
}

impl Attr2 {
    /// Builds an attribute byte directly from its bit pattern.
    pub fn from_bits(bits: u8) -> (r: Attr2)
        ensures
            r@ == bits,
    {
        Attr2 { bits }
    }

    /// Skip this control in snapshots.
    pub fn snapshot_skip() -> (r: Attr2)
        ensures
            r@ == 0x04u8,
    {
        Attr2 { bits: 0x04 }
    }

    /// Invert the control's value.
    pub fn invert_value() -> (r: Attr2)
        ensures
            r@ == 0x08u8,
    {
        Attr2 { bits: 0x08 }
    }

    /// Pot mode: jump to the pot's position.
    pub fn potmode_jump() -> (r: Attr2)
        ensures
            r@ == 0x00u8,
    {
        Attr2 { bits: 0x00 }
    }

    /// Pot mode: pick the value up when the pot passes it.
    pub fn potmode_pickup() -> (r: Attr2)
        ensures
            r@ == 0x20u8,
    {
        Attr2 { bits: 0x20 }
    }

    /// Pot mode: follow the global setting.
    pub fn potmode_global() -> (r: Attr2)
        ensures
            r@ == 0x40u8,
    {
        Attr2 { bits: 0x40 }
    }

    /// Pot mode: follow the template's setting.
    pub fn potmode_template() -> (r: Attr2)
        ensures
            r@ == 0x60u8,
    {
        Attr2 { bits: 0x60 }
    }

    /// Returns the raw bit pattern of this attribute byte.
    pub fn bits(self) -> (r: u8)
        ensures
            r == self@,
    {
        self.bits
    }

    /// Returns the attribute byte with the flags of both operands.
    pub fn union(self, other: Attr2) -> (r: Attr2)
        ensures
            r@ == self@ | other@,
    {
        Attr2 { bits: self.bits | other.bits }
    }

    /// Returns the attribute byte with the flags common to both operands.
    pub fn intersection(self, other: Attr2) -> (r: Attr2)
        ensures
            r@ == self@ & other@,
    {
        Attr2 { bits: self.bits & other.bits }
    }
}

} // verus!
