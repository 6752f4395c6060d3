//! Protocol codec for a USB-MIDI control surface.
//!
//! Three layers, composed bottom-up:
//! - `midi`: conversion between raw MIDI byte streams and 4-byte USB-MIDI
//!   event packets, and splitting a raw stream into complete messages.
//! - `sysex`: encoding and decoding of the two vendor SysEx message
//!   families (control-surface state and data-block/simulation).
//! - `command` / `event`: encoding outbound device commands and decoding
//!   inbound device events, each a 3-byte MIDI Control-Change triple, over
//!   the controller address map in `cc`.
//!
//! `template` holds the byte encodings of template-memory fields.
//!
//! All codec functions are pure transformations over byte buffers; the USB
//! transport itself lives outside this crate.

pub mod cc;
pub mod command;
pub mod event;
pub mod midi;
pub mod sysex;
pub mod template;
