//! Outbound device commands and their encoding as 3-byte CC triples.

use vstd::prelude::*;

use crate::cc::{
    AUTOMAP_CC_STATUS, Button, Encoder, EncoderPosition, ParameterRequestType, RingMode,
    RowSelect, RowSelectLhSet, RowSelectRhSet,
};

verus! {

/// A command the host can send to the device, each one wire-encoded as a
/// single CC triple `[0xBF, controller, value]`.
#[derive(Clone, Copy, Debug, PartialEq, Eq)]
pub enum AutomapCommand {
    /// Turn a button LED on or off.
    ButtonLed { button: Button, on: bool },
    /// Turn a row-select LED on or off.
    RowSelectLed { row: RowSelect, on: bool },
    /// Set an encoder ring's display mode.
    EncoderRingMode { encoder: Encoder, mode: RingMode },
    /// Set an encoder ring's LED position; the ring-value address band sits
    /// 0x08 below the encoder's own controller number.
    EncoderRingValue { encoder: Encoder, position: EncoderPosition },
    /// Lock or unlock the transport buttons.
    TransportLockSet { enabled: bool },
    /// Turn every LED off.
    AllLedsOff,
    /// Set the left-hand row-select LEDs from a bitmap.
    RowLhBitmap { rows: RowSelectLhSet },
    /// Set the right-hand row-select LEDs from a bitmap.
    RowRhBitmap { rows: RowSelectRhSet },
    /// Ask the device for a parameter; it answers on the same controller.
    ParameterRequest { request_type: ParameterRequestType },
    /// Ask the device to echo a value back; only the low seven bits can
    /// cross the wire.
    EchoRequest { value: u8 },
}

impl AutomapCommand {
    /// The controller number this command is addressed to.
    pub open spec fn spec_cc(self) -> u8 {
        match self {
            AutomapCommand::ButtonLed { button, .. } => button.spec_cc(),
            AutomapCommand::RowSelectLed { row, .. } => row.spec_cc(),
            AutomapCommand::EncoderRingMode { encoder, .. } => encoder.spec_cc(),
            AutomapCommand::EncoderRingValue { encoder, .. } => (encoder.spec_cc() - 0x08) as u8,
            AutomapCommand::TransportLockSet { .. } => 0x4F,
            AutomapCommand::AllLedsOff => 0x4E,
            AutomapCommand::RowLhBitmap { .. } => 0x60,
            AutomapCommand::RowRhBitmap { .. } => 0x61,
            AutomapCommand::ParameterRequest { .. } => 0x67,
            AutomapCommand::EchoRequest { .. } => 0x63,
        }
    }

    /// The value byte this command carries.
    pub open spec fn spec_val(self) -> u8 {
        match self {
            AutomapCommand::ButtonLed { on, .. } => if on { 1 } else { 0 },
            AutomapCommand::RowSelectLed { on, .. } => if on { 1 } else { 0 },
            AutomapCommand::EncoderRingMode { mode, .. } => mode.spec_val(),
            AutomapCommand::EncoderRingValue { position, .. } => position.spec_val(),
            AutomapCommand::TransportLockSet { enabled } => if enabled { 1 } else { 0 },
            AutomapCommand::AllLedsOff => 0x00,
            AutomapCommand::RowLhBitmap { rows } => rows@ & 0x7F,
            AutomapCommand::RowRhBitmap { rows } => rows@ & 0x7F,
            AutomapCommand::ParameterRequest { request_type } => request_type.spec_val(),
            AutomapCommand::EchoRequest { value } => value & 0x7F,
        }
    }

    /// Every command's value byte is a 7-bit MIDI data byte: the encoder
    /// masks what could exceed it.
    pub proof fn lemma_value_byte_7bit(self)
        ensures
            self.spec_val() < 0x80,
    {
        match self {
            AutomapCommand::RowLhBitmap { rows } => {
                let b = rows@;
                assert(b & 0x7F < 0x80) by (bit_vector);
            },
            AutomapCommand::RowRhBitmap { rows } => {
                let b = rows@;
                assert(b & 0x7F < 0x80) by (bit_vector);
            },
            AutomapCommand::EchoRequest { value } => {
                assert(value & 0x7F < 0x80) by (bit_vector);
            },
            _ => {},
        }
    }

    /// The exact CC triple this command puts on the wire.
    pub open spec fn spec_bytes(self) -> Seq<u8> {
        seq![AUTOMAP_CC_STATUS, self.spec_cc(), self.spec_val()]
    }

    /// Appends this command's CC triple to `out`.
    pub fn encode_into(self, out: &mut Vec<u8>)
        ensures
            final(out)@ == old(out)@ + self.spec_bytes(),
    {
        let nn: u8 = match self {
            AutomapCommand::ButtonLed { button, .. } => button.cc(),
            AutomapCommand::RowSelectLed { row, .. } => row.cc(),
            AutomapCommand::EncoderRingMode { encoder, .. } => encoder.cc(),
            AutomapCommand::EncoderRingValue { encoder, .. } => encoder.cc() - 0x08,
            AutomapCommand::TransportLockSet { .. } => 0x4F,
            AutomapCommand::AllLedsOff => 0x4E,
            AutomapCommand::RowLhBitmap { .. } => 0x60,
            AutomapCommand::RowRhBitmap { .. } => 0x61,
            AutomapCommand::ParameterRequest { .. } => 0x67,
            AutomapCommand::EchoRequest { .. } => 0x63,
        };
        let vv: u8 = match self {
            AutomapCommand::ButtonLed { on, .. } => if on { 1 } else { 0 },
            AutomapCommand::RowSelectLed { on, .. } => if on { 1 } else { 0 },
            AutomapCommand::EncoderRingMode { mode, .. } => mode.val(),
            AutomapCommand::EncoderRingValue { position, .. } => position.val(),
            AutomapCommand::TransportLockSet { enabled } => if enabled { 1 } else { 0 },
            AutomapCommand::AllLedsOff => 0x00,
            AutomapCommand::RowLhBitmap { rows } => rows.bits() & 0x7F,
            AutomapCommand::RowRhBitmap { rows } => rows.bits() & 0x7F,
            AutomapCommand::ParameterRequest { request_type } => request_type.val(),
            AutomapCommand::EchoRequest { value } => value & 0x7F,
        };
        out.push(AUTOMAP_CC_STATUS);
        out.push(nn);
        out.push(vv);
        proof {
            assert(out@ =~= old(out)@ + self.spec_bytes());
        }
    }

    /// Returns this command's CC triple as a fresh buffer.
    pub fn to_bytes(self) -> (r: Vec<u8>)
        ensures
            r@ == self.spec_bytes(),
    {
        let mut buf = Vec::new();
        self.encode_into(&mut buf);
        buf
    }
}

} // verus!
