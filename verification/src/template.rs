//! Template-memory field encodings: control types, LCD display hints, port
//! routing and MIDI channel selection bytes as stored in a device template.

use vstd::prelude::*;

verus! {

/// What kind of MIDI data a physical control emits (template field CNTYPE).
#[derive(Clone, Copy, Debug, PartialEq, Eq)]
pub enum ControlType {
    Spare,
    CC,
    NRPN,
    RPN,
    SysEx,
    MMC,
    NoteOn,
    NoteOff,
    BankSelect,
    ProgChange,
    PitchBend,
    DrumNote,
    TempChange,
    RealTime,
    TempGroup,
}

impl ControlType {
    /// The byte stored in template memory for this control type.
    pub open spec fn spec_code(self) -> u8 {
        match self {
            ControlType::Spare => 0,
            ControlType::CC => 1,
            ControlType::NRPN => 2,
            ControlType::RPN => 3,
            ControlType::SysEx => 4,
            ControlType::MMC => 5,
            ControlType::NoteOn => 6,
            ControlType::NoteOff => 7,
            ControlType::BankSelect => 8,
            ControlType::ProgChange => 9,
            ControlType::PitchBend => 10,
            ControlType::DrumNote => 11,
            ControlType::TempChange => 12,
            ControlType::RealTime => 13,
            ControlType::TempGroup => 14,
        }
    }

    /// Returns the template-memory byte for this control type.
    pub fn code(self) -> (r: u8)
        ensures
            r == self.spec_code(),
    {
        match self {
            ControlType::Spare => 0,
            ControlType::CC => 1,
            ControlType::NRPN => 2,
            ControlType::RPN => 3,
            ControlType::SysEx => 4,
            ControlType::MMC => 5,
            ControlType::NoteOn => 6,
            ControlType::NoteOff => 7,
            ControlType::BankSelect => 8,
            ControlType::ProgChange => 9,
            ControlType::PitchBend => 10,
            ControlType::DrumNote => 11,
            ControlType::TempChange => 12,
            ControlType::RealTime => 13,
            ControlType::TempGroup => 14,
        }
    }
}

/// How a control's value is drawn on the LCD (template field CNDISP).
/// A presentation hint only; it does not affect the MIDI data.
#[derive(Clone, Copy, Debug, PartialEq, Eq)]
pub enum DisplayType {
    Ft127,
    Ft6463,
    FtMmc,
    FtOffOn,
    FtBlank,
    FtLabel,
    FtRel1,
    FtRel2,
    FtNote,
    Ft16k,
    FtLabel2,
    FtLed,
    FtVpot,
}

impl DisplayType {
    /// The byte stored in template memory for this display hint.
    pub open spec fn spec_code(self) -> u8 {
        match self {
            DisplayType::Ft127 => 0,
            DisplayType::Ft6463 => 1,
            DisplayType::FtMmc => 2,
            DisplayType::FtOffOn => 3,
            DisplayType::FtBlank => 4,
            DisplayType::FtLabel => 5,
            DisplayType::FtRel1 => 6,
            DisplayType::FtRel2 => 7,
            DisplayType::FtNote => 8,
            DisplayType::Ft16k => 9,
            DisplayType::FtLabel2 => 15,
            DisplayType::FtLed => 16,
            DisplayType::FtVpot => 17,
        }
    }

    /// Returns the template-memory byte for this display hint.
    pub fn code(self) -> (r: u8)
        ensures
            r == self.spec_code(),
    {
        match self {
            DisplayType::Ft127 => 0,
            DisplayType::Ft6463 => 1,
            DisplayType::FtMmc => 2,
            DisplayType::FtOffOn => 3,
            DisplayType::FtBlank => 4,
            DisplayType::FtLabel => 5,
            DisplayType::FtRel1 => 6,
            DisplayType::FtRel2 => 7,
            DisplayType::FtNote => 8,
            DisplayType::Ft16k => 9,
            DisplayType::FtLabel2 => 15,
            DisplayType::FtLed => 16,
            DisplayType::FtVpot => 17,
        }
    }
}

/// Concrete CNPORTS "specific" routing codes (type bits already set).
#[derive(Clone, Copy, Debug, PartialEq, Eq)]
pub enum PortRoute {
    NoTransmit,
    MidiOut1,
    MidiOut2,
    Usb1,
    Usb2,
    Usb3Hidden,
    Usb1AndUsb3,
}

impl PortRoute {
    /// The CNPORTS byte for this routing code.
    pub open spec fn spec_code(self) -> u8 {
        match self {
            PortRoute::NoTransmit => 0x40,
            PortRoute::MidiOut1 => 0x41,
            PortRoute::MidiOut2 => 0x42,
            PortRoute::Usb1 => 0x44,
            PortRoute::Usb2 => 0x48,
            PortRoute::Usb3Hidden => 0x50,
            PortRoute::Usb1AndUsb3 => 0x54,
        }
    }

    /// Returns the CNPORTS byte for this routing code.
    pub fn code(self) -> (r: u8)
        ensures
            r == self.spec_code(),
    {
        match self {
            PortRoute::NoTransmit => 0x40,
            PortRoute::MidiOut1 => 0x41,
            PortRoute::MidiOut2 => 0x42,
            PortRoute::Usb1 => 0x44,
            PortRoute::Usb2 => 0x48,
            PortRoute::Usb3Hidden => 0x50,
            PortRoute::Usb1AndUsb3 => 0x54,
        }
    }
}

/// The top-bits selector of the CNPORTS byte.
#[derive(Clone, Copy, Debug, PartialEq, Eq)]
pub enum PortType {
    Common,
    Keyboard,
    Specific,
}

impl PortType {
    /// The selector's contribution to the CNPORTS byte (high bits).
    pub open spec fn spec_code(self) -> u8 {
        match self {
            PortType::Common => 0x00,
            PortType::Keyboard => 0x20,
            PortType::Specific => 0x40,
        }
    }

    /// Returns the selector's contribution to the CNPORTS byte.
    pub fn code(self) -> (r: u8)
        ensures
            r == self.spec_code(),
    {
        match self {
            PortType::Common => 0x00,
            PortType::Keyboard => 0x20,
            PortType::Specific => 0x40,
        }
    }
}

/// A set of output ports, one bit per port, for the low five bits of the
/// CNPORTS byte (meaningful when the selector is `PortType::Specific`).
#[derive(Clone, Copy, Debug, PartialEq, Eq)]
pub struct PortBits {
    bits: u8,
}

impl View for PortBits {
    type V = u8;

    closed spec fn view(&self) -> u8 {
        self.bits
    }
}

impl PortBits {
    /// Builds a port set directly from its bit pattern.
    pub fn from_bits(bits: u8) -> (r: PortBits)
        ensures
            r@ == bits,
    {
        PortBits { bits }
    }

    /// The first MIDI output alone.
    pub fn m1_out() -> (r: PortBits)
        ensures
            r@ == 0x01u8,
    {
        PortBits { bits: 0x01 }
    }

    /// The second MIDI output alone.
    pub fn m2_out() -> (r: PortBits)
        ensures
            r@ == 0x02u8,
    {
        PortBits { bits: 0x02 }
    }

    /// The first USB port alone.
    pub fn usb1() -> (r: PortBits)
        ensures
            r@ == 0x04u8,
    {
        PortBits { bits: 0x04 }
    }

    /// The second USB port alone.
    pub fn usb2() -> (r: PortBits)
        ensures
            r@ == 0x08u8,
    {
        PortBits { bits: 0x08 }
    }

    /// The hidden third USB port alone.
    pub fn usb3_hidden() -> (r: PortBits)
        ensures
            r@ == 0x10u8,
    {
        PortBits { bits: 0x10 }
    }

    /// Returns the raw bit pattern of this port set.
    pub fn bits(self) -> (r: u8)
        ensures
            r == self@,
    {
        self.bits
    }

    /// Returns the set holding the ports of both operands.
    pub fn union(self, other: PortBits) -> (r: PortBits)
        ensures
            r@ == self@ | other@,
    {
        PortBits { bits: self.bits | other.bits }
    }

    /// Returns the set holding the ports common to both operands.
    pub fn intersection(self, other: PortBits) -> (r: PortBits)
        ensures
            r@ == self@ & other@,
    {
        PortBits { bits: self.bits & other.bits }
    }
}

/// The CNPORTS byte built from a selector and a port set; only the low five
/// bits of the set are kept, per the template layout.
pub open spec fn spec_cnports(port_type: PortType, bits: u8) -> u8 {
    port_type.spec_code() | (bits & 0x1F)
}

/// Builds a CNPORTS byte from a selector and a port set.
pub fn cnports(port_type: PortType, bits: PortBits) -> (r: u8)
    ensures
        r == spec_cnports(port_type, bits@),
{
    port_type.code() | (bits.bits & 0x1F)
}

/// Which MIDI channel a control transmits on (template field CNMCHAN):
/// the common channel, the keyboard channel, or a specific channel 1..=16.
#[derive(Clone, Copy, Debug, PartialEq, Eq)]
pub enum ChannelSpec {
    Common,
    Keyboard,
    Channel(u8),
}

impl ChannelSpec {
    /// Whether the channel number, if any, is in the encodable range.
    pub open spec fn wf(self) -> bool {
        match self {
            ChannelSpec::Channel(n) => 1 <= n <= 16,
            _ => true,
        }
    }

    /// The CNMCHAN byte: 0x00 common, 0x20 keyboard, 0x40..=0x4F specific.
    pub open spec fn spec_byte(self) -> u8 {
        match self {
            ChannelSpec::Common => 0x00,
            ChannelSpec::Keyboard => 0x20,
            ChannelSpec::Channel(n) => (0x40 + (n - 1)) as u8,
        }
    }

    /// Encodes this channel selection as its CNMCHAN byte.
    pub fn to_byte(self) -> (r: u8)
        requires
            self.wf(),
        ensures
            r == self.spec_byte(),
    {
        match self {
            ChannelSpec::Common => 0x00,
            ChannelSpec::Keyboard => 0x20,
            ChannelSpec::Channel(n) => 0x40 + (n - 1),
        }
    }

    /// Decodes a CNMCHAN byte; returns `None` for any byte outside the three
    /// encoded forms.
    pub fn from_byte(b: u8) -> (r: Option<ChannelSpec>)
        ensures
            r == ChannelSpec::spec_from_byte(b),
    {
        if b == 0x00 {
            Some(ChannelSpec::Common)
        } else if b == 0x20 {
            Some(ChannelSpec::Keyboard)
        } else if 0x40 <= b && b <= 0x4F {
            Some(ChannelSpec::Channel((b - 0x40) + 1))
        } else {
            None
        }
    }

    /// The channel selection encoded by a CNMCHAN byte, if it is valid.
    pub open spec fn spec_from_byte(b: u8) -> Option<ChannelSpec> {
        if b == 0x00 {
            Some(ChannelSpec::Common)
        } else if b == 0x20 {
            Some(ChannelSpec::Keyboard)
        } else if 0x40 <= b <= 0x4F {
            Some(ChannelSpec::Channel(((b - 0x40) + 1) as u8))
        } else {
            None
        }
    }

    /// Encoding then decoding a well-formed channel selection returns it
    /// unchanged.
    pub proof fn lemma_byte_roundtrip(self)
        requires
            self.wf(),
        ensures
            ChannelSpec::spec_from_byte(self.spec_byte()) == Some(self),
    {
    }
}

} // verus!
