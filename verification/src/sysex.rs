//! Vendor SysEx codec: one shared framing header and two message families,
//! the control-surface ("Automap") family and the data-block/simulation
//! family, each with its own payload grammar.

use vstd::prelude::*;

verus! {

/// SysEx end-of-exclusive marker, the last byte of every frame.
pub const EOX: u8 = 0xF7;

/// Protocol version announced in every encoded frame (BCD 1.2).
pub const PROTO_VER_MAIN: u8 = 0x12;

/// Beta sub-version announced in every encoded frame.
pub const PROTO_VER_BETA: u8 = 0x00;

/// The five-byte vendor identifier every frame must open with: the SysEx
/// start marker followed by the manufacturer bytes.
pub open spec fn vendor_id() -> Seq<u8> {
    seq![0xF0u8, 0x00u8, 0x20u8, 0x29u8, 0x03u8]
}

/// The two SysEx message families, selected by the family byte and the two
/// family-tag bytes of the header.
#[derive(Clone, Copy, Debug, PartialEq, Eq)]
pub enum ProtoFamily {
    /// Control-surface state: online/offline, LCD, firmware and template
    /// transfer (family byte 0x03, tags 0x02 0x00).
    Automap0303,
    /// Data-block access and input simulation (family byte 0x05, tags
    /// 0x00 0x00).
    DbSim0305,
}

/// Why a frame or message was rejected.
#[derive(Clone, Copy, Debug, PartialEq, Eq)]
pub enum DecodeError {
    /// The buffer does not carry the SysEx start and end markers.
    NotSysEx,
    /// The vendor identifier does not match.
    BadHeader,
    /// The family byte and tag bytes name no known family.
    BadFamily,
    /// A read ran past the end of the frame or payload.
    Truncated,
    /// A structurally present byte is outside its enumerated range.
    Invalid,
    /// The message is recognized but not handled.
    Unsupported,
}

/// Low seven bits of a 14-bit value, the first byte on the wire.
pub open spec fn spec_u14_lsb(v: u16) -> u8 {
    (v & 0x7F) as u8
}

/// High seven bits of a 14-bit value, the second byte on the wire.
pub open spec fn spec_u14_msb(v: u16) -> u8 {
    ((v >> 7) & 0x7F) as u8
}

/// The 14-bit value carried by two wire bytes, low seven bits first.
pub open spec fn spec_unpack_u14(lsb: u8, msb: u8) -> u16 {
    (lsb as u16) | ((msb as u16) << 7)
}

/// Splits a 14-bit value into its two wire bytes, low seven bits first.
/// Every offset and length field of the data-block family uses this packing.
pub fn pack_u14(v: u16) -> (r: (u8, u8))
    ensures
        r.0 == spec_u14_lsb(v),
        r.1 == spec_u14_msb(v),
        r.0 < 0x80,
        r.1 < 0x80,
{
    proof {
        assert(v & 0x7F < 0x80 && (v >> 7) & 0x7F < 0x80) by (bit_vector);
    }
    ((v & 0x7F) as u8, ((v >> 7) & 0x7F) as u8)
}

/// Reads the 14-bit value carried by two wire bytes, low seven bits first.
pub fn unpack_u14(lsb: u8, msb: u8) -> (r: u16)
    ensures
        r == spec_unpack_u14(lsb, msb),
{
    (lsb as u16) | ((msb as u16) << 7)
}

/// Packing a value below 0x4000 and unpacking the two bytes returns the
/// value unchanged; the bytes stay within the 7-bit MIDI data range.
pub proof fn lemma_u14_roundtrip(v: u16)
    requires
        v < 0x4000,
    ensures
        spec_unpack_u14(spec_u14_lsb(v), spec_u14_msb(v)) == v,
{
    assert(v < 0x4000 ==> ((((v & 0x7F) as u8) as u16) | (((((v >> 7) & 0x7F) as u8) as u16) << 7))
        == v) by (bit_vector);
}

/// Unpacking two 7-bit wire bytes and packing the value again returns the
/// same bytes, and the value stays below 0x4000.
pub proof fn lemma_u14_bytes_roundtrip(lsb: u8, msb: u8)
    requires
        lsb < 0x80,
        msb < 0x80,
    ensures
        spec_unpack_u14(lsb, msb) < 0x4000,
        spec_u14_lsb(spec_unpack_u14(lsb, msb)) == lsb,
        spec_u14_msb(spec_unpack_u14(lsb, msb)) == msb,
{
    assert(lsb < 0x80 && msb < 0x80 ==> ((lsb as u16) | ((msb as u16) << 7)) < 0x4000)
        by (bit_vector);
    assert(lsb < 0x80 && msb < 0x80 ==>

        ((((lsb as u16) | ((msb as u16) << 7)) & 0x7F) as u8) == lsb) by (bit_vector);
    assert(lsb < 0x80 && msb < 0x80 ==>

        (((((lsb as u16) | ((msb as u16) << 7)) >> 7) & 0x7F) as u8) == msb) by (bit_vector);
}

/// The four LCD text lines addressable by a cursor operation.
#[derive(Clone, Copy, Debug, PartialEq, Eq)]
pub enum LcdLine {
    LeftTop,
    RightTop,
    LeftBottom,
    RightBottom,
}

impl LcdLine {
    /// The line's operand byte (1..=4).
    pub open spec fn spec_code(self) -> u8 {
        match self {
            LcdLine::LeftTop => 1,
            LcdLine::RightTop => 2,
            LcdLine::LeftBottom => 3,
            LcdLine::RightBottom => 4,
        }
    }

    /// The line selected by an operand byte in 1..=4.
    pub open spec fn spec_from_code(b: u8) -> LcdLine {
        if b == 1 {
            LcdLine::LeftTop
        } else if b == 2 {
            LcdLine::RightTop
        } else if b == 3 {
            LcdLine::LeftBottom
        } else {
            LcdLine::RightBottom
        }
    }
}

/// What an LCD clear operation erases. Every variant is a single code byte
/// except `FromCursorCount`, which carries a character count.
#[derive(Clone, Copy, Debug, PartialEq, Eq)]
pub enum LcdClear {
    BothDisplays,
    BothTopLines,
    BothBottomLines,
    LeftAll,
    RightAll,
    LeftTopLine,
    LeftBottomLine,
    RightTopLine,
    RightBottomLine,
    FromCursorCount(u8),
}

impl LcdClear {
    /// The operand bytes of this clear operation: its code byte, plus the
    /// count byte for a clear-from-cursor.
    pub open spec fn spec_bytes(self) -> Seq<u8> {
        match self {
            LcdClear::BothDisplays => seq![0x01u8],
            LcdClear::BothTopLines => seq![0x02u8],
            LcdClear::BothBottomLines => seq![0x03u8],
            LcdClear::LeftAll => seq![0x04u8],
            LcdClear::RightAll => seq![0x05u8],
            LcdClear::LeftTopLine => seq![0x06u8],
            LcdClear::LeftBottomLine => seq![0x07u8],
            LcdClear::RightTopLine => seq![0x08u8],
            LcdClear::RightBottomLine => seq![0x09u8],
            LcdClear::FromCursorCount(n) => seq![0x0Au8, n],
        }
    }

    /// The single-byte clear operation with code byte `b` in 1..=9.
    pub open spec fn spec_from_code(b: u8) -> LcdClear {
        if b == 0x01 {
            LcdClear::BothDisplays
        } else if b == 0x02 {
            LcdClear::BothTopLines
        } else if b == 0x03 {
            LcdClear::BothBottomLines
        } else if b == 0x04 {
            LcdClear::LeftAll
        } else if b == 0x05 {
            LcdClear::RightAll
        } else if b == 0x06 {
            LcdClear::LeftTopLine
        } else if b == 0x07 {
            LcdClear::LeftBottomLine
        } else if b == 0x08 {
            LcdClear::RightTopLine
        } else {
            LcdClear::RightBottomLine
        }
    }
}

/// One operation of the LCD sub-stream inside an `LcdText` message,
/// consumed left to right until the payload is exhausted.
#[derive(Clone, Debug, PartialEq, Eq)]
pub enum LcdOp {
    /// Tag 0x00, no operand.
    End,
    /// Tag 0x01: column, then line (1..=4).
    Cursor { col: u8, line: LcdLine },
    /// Tag 0x02, then the clear operation's bytes.
    Clear(LcdClear),
    /// Tag 0x03, one boolean byte.
    CursorBlink(bool),
    /// Tag 0x04: text bytes up to an 0x00 terminator (terminator consumed,
    /// not part of the text).
    Text(Vec<u8>),
    /// Any other tag, kept verbatim. The operand length of an unknown tag
    /// cannot be known, so decoding records an empty payload and cannot
    /// resynchronize; encoding appends the payload unchanged.
    Unknown(u8, Vec<u8>),
}

/// Mathematical shape of an `LcdOp`, with byte sequences in place of
/// buffers.
pub enum LcdOpView {
    End,
    Cursor { col: u8, line: LcdLine },
    Clear(LcdClear),
    CursorBlink(bool),
    Text(Seq<u8>),
    Unknown(u8, Seq<u8>),
}

impl View for LcdOp {
    type V = LcdOpView;

    open spec fn view(&self) -> LcdOpView {
        match self {
            LcdOp::End => LcdOpView::End,
            LcdOp::Cursor { col, line } => LcdOpView::Cursor { col: *col, line: *line },
            LcdOp::Clear(c) => LcdOpView::Clear(*c),
            LcdOp::CursorBlink(on) => LcdOpView::CursorBlink(*on),
            LcdOp::Text(t) => LcdOpView::Text(t@),
            LcdOp::Unknown(tag, data) => LcdOpView::Unknown(*tag, data@),
        }
    }
}

impl DeepView for LcdOp {
    type V = LcdOpView;

    open spec fn deep_view(&self) -> LcdOpView {
        self.view()
    }
}

/// A complete message of the Automap family: the main command byte after
/// the family header, with its payload.
#[derive(Clone, Debug, PartialEq, Eq)]
pub enum AutomapSysEx {
    /// 0x01: announce the online/offline state.
    OnlineOffline { online: bool },
    /// 0x02: a stream of LCD operations executed in order.
    LcdText(Vec<LcdOp>),
    /// 0x03: request a globals download to RAM (no payload).
    GlobalsDownloadRam,
    /// 0x04: prepare an operating-system download (no payload).
    PrepareOsDownload,
    /// 0x05: upload globals (opaque payload).
    UploadGlobals { data: Vec<u8> },
    /// 0x06: request a globals download to RAM and flash (no payload).
    GlobalsDownloadRamAndFlash,
    /// 0x07: upload a template (opaque payload).
    UploadTemplate { data: Vec<u8> },
    /// 0x08: upload an operating system (opaque payload).
    UploadOs { data: Vec<u8> },
    /// Any other command byte, kept verbatim for forward compatibility.
    Unknown { cmd: u8, data: Vec<u8> },
}

/// Mathematical shape of an `AutomapSysEx` message.
pub enum AutomapSysExView {
    OnlineOffline { online: bool },
    LcdText(Seq<LcdOpView>),
    GlobalsDownloadRam,
    PrepareOsDownload,
    UploadGlobals { data: Seq<u8> },
    GlobalsDownloadRamAndFlash,
    UploadTemplate { data: Seq<u8> },
    UploadOs { data: Seq<u8> },
    Unknown { cmd: u8, data: Seq<u8> },
}

impl View for AutomapSysEx {
    type V = AutomapSysExView;

    open spec fn view(&self) -> AutomapSysExView {
        match self {
            AutomapSysEx::OnlineOffline { online } => AutomapSysExView::OnlineOffline {
                online: *online,
            },
            AutomapSysEx::LcdText(ops) => AutomapSysExView::LcdText(ops.deep_view()),
            AutomapSysEx::GlobalsDownloadRam => AutomapSysExView::GlobalsDownloadRam,
            AutomapSysEx::PrepareOsDownload => AutomapSysExView::PrepareOsDownload,
            AutomapSysEx::UploadGlobals { data } => AutomapSysExView::UploadGlobals {
                data: data@,
            },
            AutomapSysEx::GlobalsDownloadRamAndFlash => AutomapSysExView::GlobalsDownloadRamAndFlash,
            AutomapSysEx::UploadTemplate { data } => AutomapSysExView::UploadTemplate {
                data: data@,
            },
            AutomapSysEx::UploadOs { data } => AutomapSysExView::UploadOs { data: data@ },
            AutomapSysEx::Unknown { cmd, data } => AutomapSysExView::Unknown {
                cmd: *cmd,
                data: data@,
            },
        }
    }
}

/// Which block of device memory a data-block operation addresses.
#[derive(Clone, Copy, Debug, PartialEq, Eq)]
pub enum DbTarget {
    /// A control's template entry; addressed with a channel number.
    Control,
    /// The current template's header.
    TemplateHeader,
    /// The global settings block.
    Globals,
}

impl DbTarget {
    /// The sub-byte selecting this target in a write (change) message.
    pub open spec fn spec_write_code(self) -> u8 {
        match self {
            DbTarget::Control => 0x00,
            DbTarget::TemplateHeader => 0x01,
            DbTarget::Globals => 0x02,
        }
    }

    /// The sub-byte selecting this target in a read (request) or response
    /// message.
    pub open spec fn spec_read_code(self) -> u8 {
        match self {
            DbTarget::Control => 0x03,
            DbTarget::TemplateHeader => 0x04,
            DbTarget::Globals => 0x05,
        }
    }
}

/// A simulated low-level user action (main byte 0x66).
#[derive(Clone, Debug, PartialEq, Eq)]
pub enum SimCmd {
    /// 0x01: press or release a button (1-based number).
    Button { number_1_based: u8, pressed: bool },
    /// 0x02: move a pot or slider to a value (0..=127).
    PotSlider { number_1_based: u8, value: u8 },
    /// 0x03: turn an encoder by a signed click count, clamped to
    /// -64..=63 on encode.
    Encoder { number_1_based: u8, clicks_signed: i8 },
    /// 0x04: ask for the LCD text (no payload).
    LcdTextRequest,
    /// 0x05: LCD text answer (no payload).
    LcdTextResponse,
    /// 0x06: ask for the LED bitmap (no payload).
    LedBitmapRequest,
    /// 0x07: LED bitmap answer (no payload).
    LedBitmapResponse,
    /// 0x08: strike a key with a velocity.
    Key { number_1_based: u8, velocity: u8 },
    /// 0x09: touch the touchpad at a position.
    TouchpadXY { x: u8, y: u8 },
    /// 0x0A: strike a drum pad with a value.
    Drumpad { number_1_based: u8, value: u8 },
    /// 0x0B: press or release the sustain pedal.
    SustainPedal { pressed: bool },
    /// 0x0C: touch a sensor (1..=26, or 127 for none).
    TouchSensor { sensor_1_to_26_or_127: u8 },
    /// Any other sub-command byte, kept verbatim with its payload.
    Unknown(u8, Vec<u8>),
}

/// Mathematical shape of a `SimCmd`.
pub enum SimCmdView {
    Button { number_1_based: u8, pressed: bool },
    PotSlider { number_1_based: u8, value: u8 },
    Encoder { number_1_based: u8, clicks_signed: i8 },
    LcdTextRequest,
    LcdTextResponse,
    LedBitmapRequest,
    LedBitmapResponse,
    Key { number_1_based: u8, velocity: u8 },
    TouchpadXY { x: u8, y: u8 },
    Drumpad { number_1_based: u8, value: u8 },
    SustainPedal { pressed: bool },
    TouchSensor { sensor_1_to_26_or_127: u8 },
    Unknown(u8, Seq<u8>),
}

impl View for SimCmd {
    type V = SimCmdView;

    open spec fn view(&self) -> SimCmdView {
        match self {
            SimCmd::Button { number_1_based, pressed } => SimCmdView::Button {
                number_1_based: *number_1_based,
                pressed: *pressed,
            },
            SimCmd::PotSlider { number_1_based, value } => SimCmdView::PotSlider {
                number_1_based: *number_1_based,
                value: *value,
            },
            SimCmd::Encoder { number_1_based, clicks_signed } => SimCmdView::Encoder {
                number_1_based: *number_1_based,
                clicks_signed: *clicks_signed,
            },
            SimCmd::LcdTextRequest => SimCmdView::LcdTextRequest,
            SimCmd::LcdTextResponse => SimCmdView::LcdTextResponse,
            SimCmd::LedBitmapRequest => SimCmdView::LedBitmapRequest,
            SimCmd::LedBitmapResponse => SimCmdView::LedBitmapResponse,
            SimCmd::Key { number_1_based, velocity } => SimCmdView::Key {
                number_1_based: *number_1_based,
                velocity: *velocity,
            },
            SimCmd::TouchpadXY { x, y } => SimCmdView::TouchpadXY { x: *x, y: *y },
            SimCmd::Drumpad { number_1_based, value } => SimCmdView::Drumpad {
                number_1_based: *number_1_based,
                value: *value,
            },
            SimCmd::SustainPedal { pressed } => SimCmdView::SustainPedal { pressed: *pressed },
            SimCmd::TouchSensor { sensor_1_to_26_or_127 } => SimCmdView::TouchSensor {
                sensor_1_to_26_or_127: *sensor_1_to_26_or_127,
            },
            SimCmd::Unknown(sc, bytes) => SimCmdView::Unknown(*sc, bytes@),
        }
    }
}

/// A high-level device action (main byte 0x6A), one code byte.
#[derive(Clone, Copy, Debug, PartialEq, Eq)]
pub enum SimHighLevel {
    SaveGlobalsToFlash,
    SaveCurrentTemplateToFlash,
    UpdateOctaveLeds,
    ForcePlayMode,
    SendCurrentTemplateToHost,
    /// Any other code byte, kept verbatim.
    Unknown(u8),
}

impl SimHighLevel {
    /// The code byte of this action.
    pub open spec fn spec_code(self) -> u8 {
        match self {
            SimHighLevel::SaveGlobalsToFlash => 0x00,
            SimHighLevel::SaveCurrentTemplateToFlash => 0x01,
            SimHighLevel::UpdateOctaveLeds => 0x02,
            SimHighLevel::ForcePlayMode => 0x03,
            SimHighLevel::SendCurrentTemplateToHost => 0x04,
            SimHighLevel::Unknown(n) => n,
        }
    }

    /// The action selected by a code byte.
    pub open spec fn spec_from_code(b: u8) -> SimHighLevel {
        if b == 0x00 {
            SimHighLevel::SaveGlobalsToFlash
        } else if b == 0x01 {
            SimHighLevel::SaveCurrentTemplateToFlash
        } else if b == 0x02 {
            SimHighLevel::UpdateOctaveLeds
        } else if b == 0x03 {
            SimHighLevel::ForcePlayMode
        } else if b == 0x04 {
            SimHighLevel::SendCurrentTemplateToHost
        } else {
            SimHighLevel::Unknown(b)
        }
    }
}

/// A complete message of the data-block/simulation family.
#[derive(Clone, Debug, PartialEq, Eq)]
pub enum DbSimMsg {
    /// Main 0x68, sub 0x00..=0x02: write bytes to a target at a 14-bit
    /// offset. For `Control` a 1-based channel number precedes the offset.
    DbWrite { target: DbTarget, cn: Option<u8>, offset: u16, data: Vec<u8> },
    /// Main 0x68, sub 0x03..=0x05: read a 14-bit length from a target at a
    /// 14-bit offset. For `Control` a channel number precedes the offset.
    DbRead { target: DbTarget, cn: Option<u8>, offset: u16, len: u16 },
    /// Main 0x69: a response echoing the target and offset, carrying the
    /// bytes read.
    DbData { target: DbTarget, cn: Option<u8>, offset: u16, data: Vec<u8> },
    /// Main 0x66: inject a synthetic user action.
    Simulate(SimCmd),
    /// Main 0x6A: a high-level device action.
    HighLevel(SimHighLevel),
}

/// Mathematical shape of a `DbSimMsg`.
pub enum DbSimMsgView {
    DbWrite { target: DbTarget, cn: Option<u8>, offset: u16, data: Seq<u8> },
    DbRead { target: DbTarget, cn: Option<u8>, offset: u16, len: u16 },
    DbData { target: DbTarget, cn: Option<u8>, offset: u16, data: Seq<u8> },
    Simulate(SimCmdView),
    HighLevel(SimHighLevel),
}

impl View for DbSimMsg {
    type V = DbSimMsgView;

    open spec fn view(&self) -> DbSimMsgView {
        match self {
            DbSimMsg::DbWrite { target, cn, offset, data } => DbSimMsgView::DbWrite {
                target: *target,
                cn: *cn,
                offset: *offset,
                data: data@,
            },
            DbSimMsg::DbRead { target, cn, offset, len } => DbSimMsgView::DbRead {
                target: *target,
                cn: *cn,
                offset: *offset,
                len: *len,
            },
            DbSimMsg::DbData { target, cn, offset, data } => DbSimMsgView::DbData {
                target: *target,
                cn: *cn,
                offset: *offset,
                data: data@,
            },
            DbSimMsg::Simulate(cmd) => DbSimMsgView::Simulate(cmd@),
            DbSimMsg::HighLevel(h) => DbSimMsgView::HighLevel(*h),
        }
    }
}

/// A decoded frame of either family.
#[derive(Clone, Debug, PartialEq, Eq)]
pub enum DecodedMsg {
    Automap(AutomapSysEx),
    DbSim(DbSimMsg),
}

/// Mathematical shape of a `DecodedMsg`.
pub enum DecodedMsgView {
    Automap(AutomapSysExView),
    DbSim(DbSimMsgView),
}

impl View for DecodedMsg {
    type V = DecodedMsgView;

    open spec fn view(&self) -> DecodedMsgView {
        match self {
            DecodedMsg::Automap(m) => DecodedMsgView::Automap(m@),
            DecodedMsg::DbSim(m) => DecodedMsgView::DbSim(m@),
        }
    }
}

/// Wire bytes of one LCD operation.
pub open spec fn spec_lcd_op_bytes(op: LcdOpView) -> Seq<u8> {
    match op {
        LcdOpView::End => seq![0x00u8],
        LcdOpView::Cursor { col, line } => seq![0x01u8, col, line.spec_code()],
        LcdOpView::Clear(c) => seq![0x02u8] + c.spec_bytes(),
        LcdOpView::CursorBlink(on) => seq![0x03u8, if on { 1u8 } else { 0u8 }],
        LcdOpView::Text(t) => seq![0x04u8] + t + seq![0x00u8],
        LcdOpView::Unknown(tag, data) => seq![tag] + data,
    }
}

/// Wire bytes of an LCD operation stream, in order.
pub open spec fn spec_lcd_ops_bytes(ops: Seq<LcdOpView>) -> Seq<u8>
    decreases ops.len(),
{
    if ops.len() == 0 {
        Seq::empty()
    } else {
        spec_lcd_op_bytes(ops[0]) + spec_lcd_ops_bytes(ops.skip(1))
    }
}

/// Payload of an Automap message: the main command byte, then the
/// command's own bytes.
pub open spec fn spec_automap_body(m: AutomapSysExView) -> Seq<u8> {
    match m {
        AutomapSysExView::OnlineOffline { online } => seq![
            0x01u8,
            if online { 1u8 } else { 0u8 },
        ],
        AutomapSysExView::LcdText(ops) => seq![0x02u8] + spec_lcd_ops_bytes(ops),
        AutomapSysExView::GlobalsDownloadRam => seq![0x03u8],
        AutomapSysExView::PrepareOsDownload => seq![0x04u8],
        AutomapSysExView::UploadGlobals { data } => seq![0x05u8] + data,
        AutomapSysExView::GlobalsDownloadRamAndFlash => seq![0x06u8],
        AutomapSysExView::UploadTemplate { data } => seq![0x07u8] + data,
        AutomapSysExView::UploadOs { data } => seq![0x08u8] + data,
        AutomapSysExView::Unknown { cmd, data } => seq![cmd] + data,
    }
}

/// A complete encoded Automap frame: vendor identifier, family byte 0x03,
/// the fixed protocol version, family tags 0x02 0x00, the body, and the
/// end-of-exclusive marker.
pub open spec fn spec_automap_frame(m: AutomapSysExView) -> Seq<u8> {
    vendor_id() + seq![0x03u8, PROTO_VER_MAIN, PROTO_VER_BETA, 0x02u8, 0x00u8]
        + spec_automap_body(m) + seq![EOX]
}

/// A channel-number field: one byte when present, nothing otherwise.
pub open spec fn spec_cn_bytes(cn: Option<u8>) -> Seq<u8> {
    match cn {
        Some(c) => seq![c],
        None => Seq::empty(),
    }
}

/// An encoder click count clamped to -64..=63 and reinterpreted as an
/// unsigned byte (two's complement).
pub open spec fn spec_clamped_clicks_byte(clicks: i8) -> u8 {
    let c: int = if clicks < -64 {
        -64
    } else if clicks > 63 {
        63
    } else {
        clicks as int
    };
    if c >= 0 {
        c as u8
    } else {
        (c + 256) as u8
    }
}

/// Payload bytes of a simulated action, after the 0x66 main byte.
pub open spec fn spec_sim_bytes(cmd: SimCmdView) -> Seq<u8> {
    match cmd {
        SimCmdView::Button { number_1_based, pressed } => seq![
            0x01u8,
            number_1_based,
            if pressed { 1u8 } else { 0u8 },
        ],
        SimCmdView::PotSlider { number_1_based, value } => seq![0x02u8, number_1_based, value],
        SimCmdView::Encoder { number_1_based, clicks_signed } => seq![
            0x03u8,
            number_1_based,
            spec_clamped_clicks_byte(clicks_signed),
        ],
        SimCmdView::LcdTextRequest => seq![0x04u8],
        SimCmdView::LcdTextResponse => seq![0x05u8],
        SimCmdView::LedBitmapRequest => seq![0x06u8],
        SimCmdView::LedBitmapResponse => seq![0x07u8],
        SimCmdView::Key { number_1_based, velocity } => seq![0x08u8, number_1_based, velocity],
        SimCmdView::TouchpadXY { x, y } => seq![0x09u8, x, y],
        SimCmdView::Drumpad { number_1_based, value } => seq![0x0Au8, number_1_based, value],
        SimCmdView::SustainPedal { pressed } => seq![
            0x0Bu8,
            1u8,
            if pressed { 1u8 } else { 0u8 },
        ],
        SimCmdView::TouchSensor { sensor_1_to_26_or_127 } => seq![0x0Cu8, sensor_1_to_26_or_127],
        SimCmdView::Unknown(sc, bytes) => seq![sc] + bytes,
    }
}

/// Payload of a data-block/simulation message: the main byte, then the
/// message's own bytes.
pub open spec fn spec_dbsim_body(m: DbSimMsgView) -> Seq<u8> {
    match m {
        DbSimMsgView::DbWrite { target, cn, offset, data } => seq![
            0x68u8,
            target.spec_write_code(),
        ] + spec_cn_bytes(cn) + seq![spec_u14_lsb(offset), spec_u14_msb(offset)] + data,
        DbSimMsgView::DbRead { target, cn, offset, len } => seq![0x68u8, target.spec_read_code()]
            + spec_cn_bytes(cn) + seq![
            spec_u14_lsb(offset),
            spec_u14_msb(offset),
            spec_u14_lsb(len),
            spec_u14_msb(len),
        ],
        DbSimMsgView::DbData { target, cn, offset, data } => seq![0x69u8, target.spec_read_code()]
            + spec_cn_bytes(cn) + seq![spec_u14_lsb(offset), spec_u14_msb(offset)] + data,
        DbSimMsgView::Simulate(cmd) => seq![0x66u8] + spec_sim_bytes(cmd),
        DbSimMsgView::HighLevel(h) => seq![0x6Au8, h.spec_code()],
    }
}

/// A complete encoded data-block/simulation frame: vendor identifier,
/// family byte 0x05, the caller's version bytes, family tags 0x00 0x00, the
/// body, and the end-of-exclusive marker.
pub open spec fn spec_dbsim_frame(m: DbSimMsgView, ver_main: u8, ver_beta: u8) -> Seq<u8> {
    vendor_id() + seq![0x05u8, ver_main, ver_beta, 0x00u8, 0x00u8] + spec_dbsim_body(m)
        + seq![EOX]
}

/// Prepends a decoded operation to a decoded tail, passing an error
/// through.
pub open spec fn cons_op(op: LcdOpView, r: Result<Seq<LcdOpView>, DecodeError>) -> Result<
    Seq<LcdOpView>,
    DecodeError,
> {
    match r {
        Ok(t) => Ok(seq![op] + t),
        Err(e) => Err(e),
    }
}

/// The LCD operations decoded from a payload, consumed left to right until
/// it is exhausted: a read past the end is `Truncated`, an out-of-range
/// cursor line or clear code is `Invalid`, and an unknown tag yields an
/// `Unknown` operation with an empty payload (its operand length cannot be
/// known, so the stream cannot be resynchronized).
pub open spec fn spec_decode_lcd_ops(s: Seq<u8>) -> Result<Seq<LcdOpView>, DecodeError>
    decreases s.len(),
{
    if s.len() == 0 {
        Ok(Seq::empty())
    } else {
        let t = s[0];
        if t == 0x00 {
            cons_op(LcdOpView::End, spec_decode_lcd_ops(s.skip(1)))
        } else if t == 0x01 {
            if s.len() < 3 {
                Err(DecodeError::Truncated)
            } else if !(1 <= s[2] <= 4) {
                Err(DecodeError::Invalid)
            } else {
                cons_op(
                    LcdOpView::Cursor { col: s[1], line: LcdLine::spec_from_code(s[2]) },
                    spec_decode_lcd_ops(s.skip(3)),
                )
            }
        } else if t == 0x02 {
            if s.len() < 2 {
                Err(DecodeError::Truncated)
            } else if s[1] == 0x0A {
                if s.len() < 3 {
                    Err(DecodeError::Truncated)
                } else {
                    cons_op(
                        LcdOpView::Clear(LcdClear::FromCursorCount(s[2])),
                        spec_decode_lcd_ops(s.skip(3)),
                    )
                }
            } else if 1 <= s[1] <= 9 {
                cons_op(
                    LcdOpView::Clear(LcdClear::spec_from_code(s[1])),
                    spec_decode_lcd_ops(s.skip(2)),
                )
            } else {
                Err(DecodeError::Invalid)
            }
        } else if t == 0x03 {
            if s.len() < 2 {
                Err(DecodeError::Truncated)
            } else {
                cons_op(LcdOpView::CursorBlink(s[1] != 0), spec_decode_lcd_ops(s.skip(2)))
            }
        } else if t == 0x04 {
            let n = crate::midi::byte_pos(s.skip(1), 0x00);
            if n >= s.len() - 1 {
                Err(DecodeError::Truncated)
            } else {
                cons_op(
                    LcdOpView::Text(s.skip(1).take(n as int)),
                    spec_decode_lcd_ops(s.skip(2 + n as int)),
                )
            }
        } else {
            cons_op(LcdOpView::Unknown(t, Seq::empty()), spec_decode_lcd_ops(s.skip(1)))
        }
    }
}

/// The Automap message decoded from a frame body (main command byte and
/// payload): commands 0x01..=0x08 by their grammar, anything else kept as
/// `Unknown`.
pub open spec fn spec_decode_automap(body: Seq<u8>) -> Result<AutomapSysExView, DecodeError> {
    if body.len() == 0 {
        Err(DecodeError::Truncated)
    } else {
        let cmd = body[0];
        let rest = body.skip(1);
        if cmd == 0x01 {
            Ok(AutomapSysExView::OnlineOffline { online: rest.len() > 0 && rest[0] != 0 })
        } else if cmd == 0x02 {
            match spec_decode_lcd_ops(rest) {
                Ok(ops) => Ok(AutomapSysExView::LcdText(ops)),
                Err(e) => Err(e),
            }
        } else if cmd == 0x03 {
            Ok(AutomapSysExView::GlobalsDownloadRam)
        } else if cmd == 0x04 {
            Ok(AutomapSysExView::PrepareOsDownload)
        } else if cmd == 0x05 {
            Ok(AutomapSysExView::UploadGlobals { data: rest })
        } else if cmd == 0x06 {
            Ok(AutomapSysExView::GlobalsDownloadRamAndFlash)
        } else if cmd == 0x07 {
            Ok(AutomapSysExView::UploadTemplate { data: rest })
        } else if cmd == 0x08 {
            Ok(AutomapSysExView::UploadOs { data: rest })
        } else {
            Ok(AutomapSysExView::Unknown { cmd, data: rest })
        }
    }
}

/// The simulated action decoded from the bytes after the 0x66 main byte:
/// the sub-command byte, then its fixed payload; an unknown sub-command
/// keeps the remaining bytes verbatim.
pub open spec fn spec_decode_sim(s: Seq<u8>) -> Result<SimCmdView, DecodeError> {
    if s.len() == 0 {
        Err(DecodeError::Truncated)
    } else {
        let sc = s[0];
        let p = s.skip(1);
        if sc == 0x01 {
            if p.len() < 2 {
                Err(DecodeError::Truncated)
            } else {
                Ok(SimCmdView::Button { number_1_based: p[0], pressed: p[1] != 0 })
            }
        } else if sc == 0x02 {
            if p.len() < 2 {
                Err(DecodeError::Truncated)
            } else {
                Ok(SimCmdView::PotSlider { number_1_based: p[0], value: p[1] })
            }
        } else if sc == 0x03 {
            if p.len() < 2 {
                Err(DecodeError::Truncated)
            } else {
                Ok(
                    SimCmdView::Encoder {
                        number_1_based: p[0],
                        clicks_signed: crate::event::spec_byte_as_i8(p[1]),
                    },
                )
            }
        } else if sc == 0x04 {
            Ok(SimCmdView::LcdTextRequest)
        } else if sc == 0x05 {
            Ok(SimCmdView::LcdTextResponse)
        } else if sc == 0x06 {
            Ok(SimCmdView::LedBitmapRequest)
        } else if sc == 0x07 {
            Ok(SimCmdView::LedBitmapResponse)
        } else if sc == 0x08 {
            if p.len() < 2 {
                Err(DecodeError::Truncated)
            } else {
                Ok(SimCmdView::Key { number_1_based: p[0], velocity: p[1] })
            }
        } else if sc == 0x09 {
            if p.len() < 2 {
                Err(DecodeError::Truncated)
            } else {
                Ok(SimCmdView::TouchpadXY { x: p[0], y: p[1] })
            }
        } else if sc == 0x0A {
            if p.len() < 2 {
                Err(DecodeError::Truncated)
            } else {
                Ok(SimCmdView::Drumpad { number_1_based: p[0], value: p[1] })
            }
        } else if sc == 0x0B {
            if p.len() < 2 {
                Err(DecodeError::Truncated)
            } else {
                Ok(SimCmdView::SustainPedal { pressed: p[1] != 0 })
            }
        } else if sc == 0x0C {
            if p.len() < 1 {
                Err(DecodeError::Truncated)
            } else {
                Ok(SimCmdView::TouchSensor { sensor_1_to_26_or_127: p[0] })
            }
        } else {
            Ok(SimCmdView::Unknown(sc, p))
        }
    }
}

/// The target and channel-number expectation selected by a write sub-byte
/// (0x00..=0x02).
pub open spec fn spec_write_target(sub: u8) -> DbTarget {
    if sub == 0x00 {
        DbTarget::Control
    } else if sub == 0x01 {
        DbTarget::TemplateHeader
    } else {
        DbTarget::Globals
    }
}

/// The target selected by a read or response sub-byte (0x03..=0x05).
pub open spec fn spec_read_target(sub: u8) -> DbTarget {
    if sub == 0x03 {
        DbTarget::Control
    } else if sub == 0x04 {
        DbTarget::TemplateHeader
    } else {
        DbTarget::Globals
    }
}

/// The data-block/simulation message decoded from a frame body (main byte
/// and payload).
pub open spec fn spec_decode_dbsim(body: Seq<u8>) -> Result<DbSimMsgView, DecodeError> {
    if body.len() == 0 {
        Err(DecodeError::Truncated)
    } else {
        let main = body[0];
        let s = body.skip(1);
        if main == 0x68 {
            if s.len() == 0 {
                Err(DecodeError::Truncated)
            } else {
                let sub = s[0];
                let s1 = s.skip(1);
                if sub <= 0x02 {
                    let target = spec_write_target(sub);
                    if sub == 0x00 && s1.len() == 0 {
                        Err(DecodeError::Truncated)
                    } else {
                        let cn: Option<u8> = if sub == 0x00 {
                            Some(s1[0])
                        } else {
                            None
                        };
                        let s2 = if sub == 0x00 {
                            s1.skip(1)
                        } else {
                            s1
                        };
                        if s2.len() < 2 {
                            Err(DecodeError::Truncated)
                        } else {
                            Ok(
                                DbSimMsgView::DbWrite {
                                    target,
                                    cn,
                                    offset: spec_unpack_u14(s2[0], s2[1]),
                                    data: s2.skip(2),
                                },
                            )
                        }
                    }
                } else if sub <= 0x05 {
                    let target = spec_read_target(sub);
                    if sub == 0x03 && s1.len() == 0 {
                        Err(DecodeError::Truncated)
                    } else {
                        let cn: Option<u8> = if sub == 0x03 {
                            Some(s1[0])
                        } else {
                            None
                        };
                        let s2 = if sub == 0x03 {
                            s1.skip(1)
                        } else {
                            s1
                        };
                        if s2.len() < 4 {
                            Err(DecodeError::Truncated)
                        } else {
                            Ok(
                                DbSimMsgView::DbRead {
                                    target,
                                    cn,
                                    offset: spec_unpack_u14(s2[0], s2[1]),
                                    len: spec_unpack_u14(s2[2], s2[3]),
                                },
                            )
                        }
                    }
                } else {
                    Err(DecodeError::Invalid)
                }
            }
        } else if main == 0x69 {
            if s.len() == 0 {
                Err(DecodeError::Truncated)
            } else {
                let sub = s[0];
                let s1 = s.skip(1);
                if !(0x03 <= sub <= 0x05) {
                    Err(DecodeError::Invalid)
                } else if sub == 0x03 && s1.len() == 0 {
                    Err(DecodeError::Truncated)
                } else {
                    let target = spec_read_target(sub);
                    let cn: Option<u8> = if sub == 0x03 {
                        Some(s1[0])
                    } else {
                        None
                    };
                    let s2 = if sub == 0x03 {
                        s1.skip(1)
                    } else {
                        s1
                    };
                    if s2.len() < 2 {
                        Err(DecodeError::Truncated)
                    } else {
                        Ok(
                            DbSimMsgView::DbData {
                                target,
                                cn,
                                offset: spec_unpack_u14(s2[0], s2[1]),
                                data: s2.skip(2),
                            },
                        )
                    }
                }
            }
        } else if main == 0x66 {
            match spec_decode_sim(s) {
                Ok(cmd) => Ok(DbSimMsgView::Simulate(cmd)),
                Err(e) => Err(e),
            }
        } else if main == 0x6A {
            if s.len() == 0 {
                Err(DecodeError::Truncated)
            } else {
                Ok(DbSimMsgView::HighLevel(SimHighLevel::spec_from_code(s[0])))
            }
        } else {
            Err(DecodeError::Invalid)
        }
    }
}

/// The framing header's verdict on a buffer: the family, the two version
/// bytes and the body (between the tag bytes and the end-of-exclusive
/// marker), or the framing error. Rejections are checked in this order:
/// missing SysEx markers, a frame shorter than twelve bytes, a vendor
/// identifier mismatch, an unknown family.
pub open spec fn spec_split_header(f: Seq<u8>) -> Result<
    (ProtoFamily, u8, u8, Seq<u8>),
    DecodeError,
> {
    if f.len() == 0 || f[0] != 0xF0 || f[f.len() - 1] != EOX {
        Err(DecodeError::NotSysEx)
    } else if f.len() < 12 {
        Err(DecodeError::Truncated)
    } else if f.subrange(0, 5) != vendor_id() {
        Err(DecodeError::BadHeader)
    } else if f[5] == 0x03 && f[8] == 0x02 && f[9] == 0x00 {
        Ok((ProtoFamily::Automap0303, f[6], f[7], f.subrange(10, f.len() - 1)))
    } else if f[5] == 0x05 && f[8] == 0x00 && f[9] == 0x00 {
        Ok((ProtoFamily::DbSim0305, f[6], f[7], f.subrange(10, f.len() - 1)))
    } else {
        Err(DecodeError::BadFamily)
    }
}

/// The full decoding of a frame: header validation and family dispatch,
/// then the family's own grammar on the body.
pub open spec fn spec_decode_frame(f: Seq<u8>) -> Result<
    (ProtoFamily, u8, u8, DecodedMsgView),
    DecodeError,
> {
    match spec_split_header(f) {
        Err(e) => Err(e),
        Ok((family, vm, vb, body)) => match family {
            ProtoFamily::Automap0303 => match spec_decode_automap(body) {
                Ok(m) => Ok((family, vm, vb, DecodedMsgView::Automap(m))),
                Err(e) => Err(e),
            },
            ProtoFamily::DbSim0305 => match spec_decode_dbsim(body) {
                Ok(m) => Ok((family, vm, vb, DecodedMsgView::DbSim(m))),
                Err(e) => Err(e),
            },
        },
    }
}

/// Appends every byte of `data` to `out`.
fn push_all(out: &mut Vec<u8>, data: &[u8])
    ensures
        final(out)@ == old(out)@ + data@,
{
    let mut j: usize = 0;
    proof {
        assert(old(out)@ + data@.take(0) =~= old(out)@);
    }
    while j < data.len()
        invariant
            j <= data@.len(),
            out@ == old(out)@ + data@.take(j as int),
        decreases data@.len() - j,
    {
        out.push(data[j]);
        proof {
            assert(old(out)@ + data@.take(j as int + 1) =~= out@);
        }
        j = j + 1;
    }
    proof {
        assert(data@.take(data@.len() as int) =~= data@);
    }
}

impl LcdOp {
    /// Appends this operation's wire bytes to `out`.
    pub fn encode_into(&self, out: &mut Vec<u8>)
        ensures
            final(out)@ == old(out)@ + spec_lcd_op_bytes(self@),
    {
        match self {
            LcdOp::End => {
                out.push(0x00);
                proof {
                    assert(out@ =~= old(out)@ + spec_lcd_op_bytes(self@));
                }
            },
            LcdOp::Cursor { col, line } => {
                let lc: u8 = match line {
                    LcdLine::LeftTop => 1,
                    LcdLine::RightTop => 2,
                    LcdLine::LeftBottom => 3,
                    LcdLine::RightBottom => 4,
                };
                out.push(0x01);
                out.push(*col);
                out.push(lc);
                proof {
                    assert(out@ =~= old(out)@ + spec_lcd_op_bytes(self@));
                }
            },
            LcdOp::Clear(code) => {
                out.push(0x02);
                match code {
                    LcdClear::FromCursorCount(n) => {
                        out.push(0x0A);
                        out.push(*n);
                    },
                    LcdClear::BothDisplays => out.push(0x01),
                    LcdClear::BothTopLines => out.push(0x02),
                    LcdClear::BothBottomLines => out.push(0x03),
                    LcdClear::LeftAll => out.push(0x04),
                    LcdClear::RightAll => out.push(0x05),
                    LcdClear::LeftTopLine => out.push(0x06),
                    LcdClear::LeftBottomLine => out.push(0x07),
                    LcdClear::RightTopLine => out.push(0x08),
                    LcdClear::RightBottomLine => out.push(0x09),
                }
                proof {
                    assert(out@ =~= old(out)@ + spec_lcd_op_bytes(self@));
                }
            },
            LcdOp::CursorBlink(on) => {
                out.push(0x03);
                out.push(if *on { 1 } else { 0 });
                proof {
                    assert(out@ =~= old(out)@ + spec_lcd_op_bytes(self@));
                }
            },
            LcdOp::Text(bytes) => {
                out.push(0x04);
                push_all(out, bytes.as_slice());
                out.push(0x00);
                proof {
                    assert(out@ =~= old(out)@ + spec_lcd_op_bytes(self@));
                }
            },
            LcdOp::Unknown(tag, data) => {
                out.push(*tag);
                push_all(out, data.as_slice());
                proof {
                    assert(out@ =~= old(out)@ + spec_lcd_op_bytes(self@));
                }
            },
        }
    }
}

impl AutomapSysEx {
    /// Appends this message's complete frame (header, body, terminator) to
    /// `out`.
    pub fn encode_into(&self, out: &mut Vec<u8>)
        ensures
            final(out)@ == old(out)@ + spec_automap_frame(self@),
    {
        out.push(0xF0);
        out.push(0x00);
        out.push(0x20);
        out.push(0x29);
        out.push(0x03);
        out.push(0x03);
        out.push(PROTO_VER_MAIN);
        out.push(PROTO_VER_BETA);
        out.push(0x02);
        out.push(0x00);
        match self {
            AutomapSysEx::OnlineOffline { online } => {
                out.push(0x01);
                out.push(if *online { 0x01 } else { 0x00 });
            },
            AutomapSysEx::LcdText(ops) => {
                out.push(0x02);
                let ghost base = out@;
                let ghost vops = ops.deep_view();
                proof {
                    assert(vops.skip(0) =~= vops);
                }
                let mut idx: usize = 0;
                while idx < ops.len()
                    invariant
                        idx <= ops@.len(),
                        vops == ops.deep_view(),
                        vops.len() == ops@.len(),
                        base + spec_lcd_ops_bytes(vops) == out@ + spec_lcd_ops_bytes(
                            vops.skip(idx as int),
                        ),
                    decreases ops@.len() - idx,
                {
                    let ghost outp = out@;
                    let op = &ops[idx];
                    op.encode_into(out);
                    proof {
                        assert(vops.skip(idx as int)[0] == vops[idx as int]);
                        assert(vops[idx as int] == ops@[idx as int].deep_view());
                        assert(spec_lcd_ops_bytes(vops.skip(idx as int)) == spec_lcd_op_bytes(
                            vops[idx as int],
                        ) + spec_lcd_ops_bytes(vops.skip(idx as int).skip(1)));
                        assert(vops.skip(idx as int).skip(1) =~= vops.skip(idx as int + 1));
                        assert(outp + (spec_lcd_op_bytes(vops[idx as int]) + spec_lcd_ops_bytes(
                            vops.skip(idx as int + 1),
                        )) =~= out@ + spec_lcd_ops_bytes(vops.skip(idx as int + 1)));
                    }
                    idx = idx + 1;
                }
                proof {
                    assert(spec_lcd_ops_bytes(vops.skip(vops.len() as int)) == Seq::<u8>::empty());
                    assert(out@ + Seq::<u8>::empty() =~= out@);
                }
            },
            AutomapSysEx::GlobalsDownloadRam => out.push(0x03),
            AutomapSysEx::PrepareOsDownload => out.push(0x04),
            AutomapSysEx::UploadGlobals { data } => {
                out.push(0x05);
                push_all(out, data.as_slice());
            },
            AutomapSysEx::GlobalsDownloadRamAndFlash => out.push(0x06),
            AutomapSysEx::UploadTemplate { data } => {
                out.push(0x07);
                push_all(out, data.as_slice());
            },
            AutomapSysEx::UploadOs { data } => {
                out.push(0x08);
                push_all(out, data.as_slice());
            },
            AutomapSysEx::Unknown { cmd, data } => {
                out.push(*cmd);
                push_all(out, data.as_slice());
            },
        }
        out.push(EOX);
        proof {
            assert(out@ =~= old(out)@ + spec_automap_frame(self@));
        }
    }

    /// Returns this message's complete encoded frame as a fresh buffer.
    pub fn to_bytes(self) -> (r: Vec<u8>)
        ensures
            r@ == spec_automap_frame(self@),
    {
        let mut buf = Vec::new();
        self.encode_into(&mut buf);
        buf
    }
}

impl DbSimMsg {
    /// Appends this message's complete frame (header with the given version
    /// bytes, body, terminator) to `out`.
    #[verifier::rlimit(100)]
    #[verifier::spinoff_prover]
    pub fn encode_into(&self, out: &mut Vec<u8>, ver_main: u8, ver_beta: u8)
        ensures
            final(out)@ == old(out)@ + spec_dbsim_frame(self@, ver_main, ver_beta),
    {
        out.push(0xF0);
        out.push(0x00);
        out.push(0x20);
        out.push(0x29);
        out.push(0x03);
        out.push(0x05);
        out.push(ver_main);
        out.push(ver_beta);
        out.push(0x00);
        out.push(0x00);
        match self {
            DbSimMsg::DbWrite { target, cn, offset, data } => {
                out.push(0x68);
                out.push(
                    match target {
                        DbTarget::Control => 0x00,
                        DbTarget::TemplateHeader => 0x01,
                        DbTarget::Globals => 0x02,
                    },
                );
                if let Some(c) = cn {
                    out.push(*c);
                }
                let (lsb, msb) = pack_u14(*offset);
                out.push(lsb);
                out.push(msb);
                push_all(out, data.as_slice());
            },
            DbSimMsg::DbRead { target, cn, offset, len } => {
                out.push(0x68);
                out.push(
                    match target {
                        DbTarget::Control => 0x03,
                        DbTarget::TemplateHeader => 0x04,
                        DbTarget::Globals => 0x05,
                    },
                );
                if let Some(c) = cn {
                    out.push(*c);
                }
                let (olsb, omsb) = pack_u14(*offset);
                let (llsb, lmsb) = pack_u14(*len);
                out.push(olsb);
                out.push(omsb);
                out.push(llsb);
                out.push(lmsb);
            },
            DbSimMsg::DbData { target, cn, offset, data } => {
                out.push(0x69);
                out.push(
                    match target {
                        DbTarget::Control => 0x03,
                        DbTarget::TemplateHeader => 0x04,
                        DbTarget::Globals => 0x05,
                    },
                );
                if let Some(c) = cn {
                    out.push(*c);
                }
                let (lsb, msb) = pack_u14(*offset);
                out.push(lsb);
                out.push(msb);
                push_all(out, data.as_slice());
            },
            DbSimMsg::Simulate(cmd) => {
                out.push(0x66);
                match cmd {
                    SimCmd::Button { number_1_based, pressed } => {
                        out.push(0x01);
                        out.push(*number_1_based);
                        out.push(if *pressed { 1 } else { 0 });
                    },
                    SimCmd::PotSlider { number_1_based, value } => {
                        out.push(0x02);
                        out.push(*number_1_based);
                        out.push(*value);
                    },
                    SimCmd::Encoder { number_1_based, clicks_signed } => {
                        // The unit expects an unsigned byte; the signed click
                        // count is clamped to -64..=63 and reinterpreted.
                        out.push(0x03);
                        out.push(*number_1_based);
                        let c: i8 = if *clicks_signed < -64 {
                            -64
                        } else if *clicks_signed > 63 {
                            63
                        } else {
                            *clicks_signed
                        };
                        let byte: u8 = if c >= 0 {
                            c as u8
                        } else {
                            ((c as i16) + 256) as u8
                        };
                        out.push(byte);
                        proof {
                            assert(byte == spec_clamped_clicks_byte(*clicks_signed));
                        }
                    },
                    SimCmd::LcdTextRequest => out.push(0x04),
                    SimCmd::LcdTextResponse => out.push(0x05),
                    SimCmd::LedBitmapRequest => out.push(0x06),
                    SimCmd::LedBitmapResponse => out.push(0x07),
                    SimCmd::Key { number_1_based, velocity } => {
                        out.push(0x08);
                        out.push(*number_1_based);
                        out.push(*velocity);
                    },
                    SimCmd::TouchpadXY { x, y } => {
                        out.push(0x09);
                        out.push(*x);
                        out.push(*y);
                    },
                    SimCmd::Drumpad { number_1_based, value } => {
                        out.push(0x0A);
                        out.push(*number_1_based);
                        out.push(*value);
                    },
                    SimCmd::SustainPedal { pressed } => {
                        out.push(0x0B);
                        out.push(1);
                        out.push(if *pressed { 1 } else { 0 });
                    },
                    SimCmd::TouchSensor { sensor_1_to_26_or_127 } => {
                        out.push(0x0C);
                        out.push(*sensor_1_to_26_or_127);
                    },
                    SimCmd::Unknown(sc, bytes) => {
                        out.push(*sc);
                        push_all(out, bytes.as_slice());
                    },
                }
            },
            DbSimMsg::HighLevel(h) => {
                out.push(0x6A);
                out.push(
                    match h {
                        SimHighLevel::SaveGlobalsToFlash => 0x00,
                        SimHighLevel::SaveCurrentTemplateToFlash => 0x01,
                        SimHighLevel::UpdateOctaveLeds => 0x02,
                        SimHighLevel::ForcePlayMode => 0x03,
                        SimHighLevel::SendCurrentTemplateToHost => 0x04,
                        SimHighLevel::Unknown(n) => *n,
                    },
                );
            },
        }
        out.push(EOX);
        proof {
            assert(out@ =~= old(out)@ + spec_dbsim_frame(self@, ver_main, ver_beta));
        }
    }

    /// Returns this message's complete encoded frame, under the fixed
    /// protocol version, as a fresh buffer.
    pub fn to_bytes(&self) -> (r: Vec<u8>)
        ensures
            r@ == spec_dbsim_frame(self@, PROTO_VER_MAIN, PROTO_VER_BETA),
    {
        let mut buf = Vec::new();
        self.encode_into(&mut buf, PROTO_VER_MAIN, PROTO_VER_BETA);
        buf
    }
}

/// Appends a decoded operation sequence to an accumulator, passing an
/// error through.
pub open spec fn cons_all(acc: Seq<LcdOpView>, r: Result<Seq<LcdOpView>, DecodeError>) -> Result<
    Seq<LcdOpView>,
    DecodeError,
> {
    match r {
        Ok(t) => Ok(acc + t),
        Err(e) => Err(e),
    }
}

/// Decodes the LCD operation sub-stream of an `LcdText` payload.
#[verifier::rlimit(100)]
fn decode_lcd_ops(s: &[u8]) -> (r: Result<Vec<LcdOp>, DecodeError>)
    ensures
        match r {
            Ok(ops) => spec_decode_lcd_ops(s@) == Ok::<Seq<LcdOpView>, DecodeError>(
                ops.deep_view(),
            ),
            Err(e) => spec_decode_lcd_ops(s@) == Err::<Seq<LcdOpView>, DecodeError>(e),
        },
{
    let mut out: Vec<LcdOp> = Vec::new();
    let mut p: usize = 0;
    proof {
        assert(s@.skip(0) =~= s@);
        assert(out.deep_view() =~= Seq::<LcdOpView>::empty());
        if spec_decode_lcd_ops(s@) is Ok {
            assert(Seq::<LcdOpView>::empty() + spec_decode_lcd_ops(s@)->Ok_0
                =~= spec_decode_lcd_ops(s@)->Ok_0);
        }
    }
    while p < s.len()
        invariant
            p <= s@.len(),
            spec_decode_lcd_ops(s@) == cons_all(
                out.deep_view(),
                spec_decode_lcd_ops(s@.skip(p as int)),
            ),
        decreases s@.len() - p,
    {
        let ghost rest = s@.skip(p as int);
        let ghost pre = out.deep_view();
        proof {
            assert(rest[0] == s@[p as int]);
        }
        let t = s[p];
        let ghost opv: LcdOpView;
        let ghost consumed: nat;
        if t == 0x00 {
            out.push(LcdOp::End);
            proof {
                opv = LcdOpView::End;
                consumed = 1;
            }
            p = p + 1;
        } else if t == 0x01 {
            if s.len() - p < 3 {
                return Err(DecodeError::Truncated);
            }
            let col = s[p + 1];
            let lb = s[p + 2];
            proof {
                assert(rest[1] == s@[p + 1] && rest[2] == s@[p + 2]);
            }
            if !(1 <= lb && lb <= 4) {
                return Err(DecodeError::Invalid);
            }
            let line = if lb == 1 {
                LcdLine::LeftTop
            } else if lb == 2 {
                LcdLine::RightTop
            } else if lb == 3 {
                LcdLine::LeftBottom
            } else {
                LcdLine::RightBottom
            };
            out.push(LcdOp::Cursor { col, line });
            proof {
                opv = LcdOpView::Cursor { col, line };
                consumed = 3;
            }
            p = p + 3;
        } else if t == 0x02 {
            if s.len() - p < 2 {
                return Err(DecodeError::Truncated);
            }
            let code = s[p + 1];
            proof {
                assert(rest[1] == s@[p + 1]);
            }
            if code == 0x0A {
                if s.len() - p < 3 {
                    return Err(DecodeError::Truncated);
                }
                let n = s[p + 2];
                proof {
                    assert(rest[2] == s@[p + 2]);
                }
                out.push(LcdOp::Clear(LcdClear::FromCursorCount(n)));
                proof {
                    opv = LcdOpView::Clear(LcdClear::FromCursorCount(n));
                    consumed = 3;
                }
                p = p + 3;
            } else if 1 <= code && code <= 9 {
                let c = if code == 0x01 {
                    LcdClear::BothDisplays
                } else if code == 0x02 {
                    LcdClear::BothTopLines
                } else if code == 0x03 {
                    LcdClear::BothBottomLines
                } else if code == 0x04 {
                    LcdClear::LeftAll
                } else if code == 0x05 {
                    LcdClear::RightAll
                } else if code == 0x06 {
                    LcdClear::LeftTopLine
                } else if code == 0x07 {
                    LcdClear::LeftBottomLine
                } else if code == 0x08 {
                    LcdClear::RightTopLine
                } else {
                    LcdClear::RightBottomLine
                };
                out.push(LcdOp::Clear(c));
                proof {
                    opv = LcdOpView::Clear(c);
                    consumed = 2;
                }
                p = p + 2;
            } else {
                return Err(DecodeError::Invalid);
            }
        } else if t == 0x03 {
            if s.len() - p < 2 {
                return Err(DecodeError::Truncated);
            }
            let on = s[p + 1] != 0;
            proof {
                assert(rest[1] == s@[p + 1]);
            }
            out.push(LcdOp::CursorBlink(on));
            proof {
                opv = LcdOpView::CursorBlink(on);
                consumed = 2;
            }
            p = p + 2;
        } else if t == 0x04 {
            // Text runs to the next 0x00, which is consumed as terminator.
            let mut j: usize = p + 1;
            while j < s.len() && s[j] != 0x00
                invariant
                    p + 1 <= j <= s@.len(),
                    forall|k: int| p + 1 <= k < j ==> s@[k] != 0x00,
                decreases s@.len() - j,
            {
                j = j + 1;
            }
            proof {
                let u = s@.skip(p as int + 1);
                assert(rest.skip(1) =~= u);
                if j < s.len() {
                    let k = (j - p - 1) as nat;
                    assert forall|m: int| 0 <= m < k implies u[m] != 0x00 by {
                        assert(u[m] == s@[p + 1 + m]);
                    }
                    assert(u[k as int] == s@[j as int]);
                    crate::midi::lemma_byte_pos_unique(u, 0x00, k);
                } else {
                    assert forall|m: int| 0 <= m < u.len() implies u[m] != 0x00 by {
                        assert(u[m] == s@[p + 1 + m]);
                    }
                    crate::midi::lemma_byte_pos_unique(u, 0x00, u.len());
                }
            }
            if j == s.len() {
                return Err(DecodeError::Truncated);
            }
            let text = crate::midi::copy_range(s, p + 1, j);
            proof {
                assert(text@ =~= rest.skip(1).take(j - p - 1));
            }
            out.push(LcdOp::Text(text));
            proof {
                opv = LcdOpView::Text(s@.subrange(p as int + 1, j as int));
                consumed = (j + 1 - p) as nat;
            }
            p = j + 1;
        } else {
            out.push(LcdOp::Unknown(t, Vec::new()));
            proof {
                opv = LcdOpView::Unknown(t, Seq::empty());
                consumed = 1;
            }
            p = p + 1;
        }
        proof {
            let r2 = spec_decode_lcd_ops(s@.skip(p as int));
            assert(rest.skip(consumed as int) =~= s@.skip(p as int));
            assert(spec_decode_lcd_ops(rest) == cons_op(opv, r2));
            assert(out.deep_view() =~~= pre.push(opv));
            if r2 is Ok {
                assert(pre + (seq![opv] + r2->Ok_0) =~= pre.push(opv) + r2->Ok_0);
            }
            assert(cons_all(pre, cons_op(opv, r2)) == cons_all(out.deep_view(), r2));
        }
    }
    proof {
        assert(s@.skip(p as int).len() == 0);
        assert(out.deep_view() + Seq::<LcdOpView>::empty() =~= out.deep_view());
    }
    Ok(out)
}

/// Decodes an Automap frame body (main command byte and payload).
fn decode_automap(body: &[u8]) -> (r: Result<AutomapSysEx, DecodeError>)
    ensures
        match r {
            Ok(m) => spec_decode_automap(body@) == Ok::<AutomapSysExView, DecodeError>(m@),
            Err(e) => spec_decode_automap(body@) == Err::<AutomapSysExView, DecodeError>(e),
        },
{
    if body.len() == 0 {
        return Err(DecodeError::Truncated);
    }
    let cmd = body[0];
    proof {
        assert(body@.skip(1) =~= body@.subrange(1, body@.len() as int));
    }
    if cmd == 0x01 {
        let online = body.len() > 1 && body[1] != 0;
        proof {
            if body@.len() > 1 {
                assert(body@.skip(1)[0] == body@[1]);
            }
        }
        Ok(AutomapSysEx::OnlineOffline { online })
    } else if cmd == 0x02 {
        let rest = &body[1..body.len()];
        proof {
            assert(rest@ =~= body@.skip(1));
        }
        match decode_lcd_ops(rest) {
            Ok(ops) => Ok(AutomapSysEx::LcdText(ops)),
            Err(e) => Err(e),
        }
    } else if cmd == 0x03 {
        Ok(AutomapSysEx::GlobalsDownloadRam)
    } else if cmd == 0x04 {
        Ok(AutomapSysEx::PrepareOsDownload)
    } else if cmd == 0x05 {
        let data = crate::midi::copy_range(body, 1, body.len());
        proof {
            assert(data@ =~= body@.skip(1));
        }
        Ok(AutomapSysEx::UploadGlobals { data })
    } else if cmd == 0x06 {
        Ok(AutomapSysEx::GlobalsDownloadRamAndFlash)
    } else if cmd == 0x07 {
        let data = crate::midi::copy_range(body, 1, body.len());
        proof {
            assert(data@ =~= body@.skip(1));
        }
        Ok(AutomapSysEx::UploadTemplate { data })
    } else if cmd == 0x08 {
        let data = crate::midi::copy_range(body, 1, body.len());
        proof {
            assert(data@ =~= body@.skip(1));
        }
        Ok(AutomapSysEx::UploadOs { data })
    } else {
        let data = crate::midi::copy_range(body, 1, body.len());
        proof {
            assert(data@ =~= body@.skip(1));
        }
        Ok(AutomapSysEx::Unknown { cmd, data })
    }
}

/// Decodes a simulated action (the bytes after the 0x66 main byte).
fn decode_sim(s: &[u8]) -> (r: Result<SimCmd, DecodeError>)
    ensures
        match r {
            Ok(cmd) => spec_decode_sim(s@) == Ok::<SimCmdView, DecodeError>(cmd@),
            Err(e) => spec_decode_sim(s@) == Err::<SimCmdView, DecodeError>(e),
        },
{
    if s.len() == 0 {
        return Err(DecodeError::Truncated);
    }
    let sc = s[0];
    proof {
        assert(s@.skip(1).len() == s@.len() - 1);
        if s@.len() > 1 {
            assert(s@.skip(1)[0] == s@[1]);
        }
        if s@.len() > 2 {
            assert(s@.skip(1)[1] == s@[2]);
        }
    }
    if sc == 0x01 {
        if s.len() < 3 {
            return Err(DecodeError::Truncated);
        }
        Ok(SimCmd::Button { number_1_based: s[1], pressed: s[2] != 0 })
    } else if sc == 0x02 {
        if s.len() < 3 {
            return Err(DecodeError::Truncated);
        }
        Ok(SimCmd::PotSlider { number_1_based: s[1], value: s[2] })
    } else if sc == 0x03 {
        if s.len() < 3 {
            return Err(DecodeError::Truncated);
        }
        Ok(SimCmd::Encoder {
            number_1_based: s[1],
            clicks_signed: crate::event::byte_as_i8(s[2]),
        })
    } else if sc == 0x04 {
        Ok(SimCmd::LcdTextRequest)
    } else if sc == 0x05 {
        Ok(SimCmd::LcdTextResponse)
    } else if sc == 0x06 {
        Ok(SimCmd::LedBitmapRequest)
    } else if sc == 0x07 {
        Ok(SimCmd::LedBitmapResponse)
    } else if sc == 0x08 {
        if s.len() < 3 {
            return Err(DecodeError::Truncated);
        }
        Ok(SimCmd::Key { number_1_based: s[1], velocity: s[2] })
    } else if sc == 0x09 {
        if s.len() < 3 {
            return Err(DecodeError::Truncated);
        }
        Ok(SimCmd::TouchpadXY { x: s[1], y: s[2] })
    } else if sc == 0x0A {
        if s.len() < 3 {
            return Err(DecodeError::Truncated);
        }
        Ok(SimCmd::Drumpad { number_1_based: s[1], value: s[2] })
    } else if sc == 0x0B {
        if s.len() < 3 {
            return Err(DecodeError::Truncated);
        }
        Ok(SimCmd::SustainPedal { pressed: s[2] != 0 })
    } else if sc == 0x0C {
        if s.len() < 2 {
            return Err(DecodeError::Truncated);
        }
        Ok(SimCmd::TouchSensor { sensor_1_to_26_or_127: s[1] })
    } else {
        let bytes = crate::midi::copy_range(s, 1, s.len());
        proof {
            assert(bytes@ =~= s@.skip(1));
        }
        Ok(SimCmd::Unknown(sc, bytes))
    }
}

/// Decodes a data-block/simulation frame body (main byte and payload).
#[verifier::rlimit(100)]
fn decode_dbsim(body: &[u8]) -> (r: Result<DbSimMsg, DecodeError>)
    ensures
        match r {
            Ok(m) => spec_decode_dbsim(body@) == Ok::<DbSimMsgView, DecodeError>(m@),
            Err(e) => spec_decode_dbsim(body@) == Err::<DbSimMsgView, DecodeError>(e),
        },
{
    if body.len() == 0 {
        return Err(DecodeError::Truncated);
    }
    let main = body[0];
    let s = &body[1..body.len()];
    proof {
        assert(s@ =~= body@.skip(1));
    }
    if main == 0x68 {
        if s.len() == 0 {
            return Err(DecodeError::Truncated);
        }
        let sub = s[0];
        let s1 = &s[1..s.len()];
        proof {
            assert(s1@ =~= s@.skip(1));
        }
        if sub <= 0x02 {
            let target = if sub == 0x00 {
                DbTarget::Control
            } else if sub == 0x01 {
                DbTarget::TemplateHeader
            } else {
                DbTarget::Globals
            };
            let cn: Option<u8>;
            let s2: &[u8];
            if sub == 0x00 {
                if s1.len() == 0 {
                    return Err(DecodeError::Truncated);
                }
                cn = Some(s1[0]);
                s2 = &s1[1..s1.len()];
                proof {
                    assert(s2@ =~= s1@.skip(1));
                }
            } else {
                cn = None;
                s2 = s1;
            }
            if s2.len() < 2 {
                return Err(DecodeError::Truncated);
            }
            let offset = unpack_u14(s2[0], s2[1]);
            let data = crate::midi::copy_range(s2, 2, s2.len());
            proof {
                assert(data@ =~= s2@.skip(2));
            }
            Ok(DbSimMsg::DbWrite { target, cn, offset, data })
        } else if sub <= 0x05 {
            let target = if sub == 0x03 {
                DbTarget::Control
            } else if sub == 0x04 {
                DbTarget::TemplateHeader
            } else {
                DbTarget::Globals
            };
            let cn: Option<u8>;
            let s2: &[u8];
            if sub == 0x03 {
                if s1.len() == 0 {
                    return Err(DecodeError::Truncated);
                }
                cn = Some(s1[0]);
                s2 = &s1[1..s1.len()];
                proof {
                    assert(s2@ =~= s1@.skip(1));
                }
            } else {
                cn = None;
                s2 = s1;
            }
            if s2.len() < 4 {
                return Err(DecodeError::Truncated);
            }
            let offset = unpack_u14(s2[0], s2[1]);
            let len = unpack_u14(s2[2], s2[3]);
            Ok(DbSimMsg::DbRead { target, cn, offset, len })
        } else {
            Err(DecodeError::Invalid)
        }
    } else if main == 0x69 {
        if s.len() == 0 {
            return Err(DecodeError::Truncated);
        }
        let sub = s[0];
        let s1 = &s[1..s.len()];
        proof {
            assert(s1@ =~= s@.skip(1));
        }
        if !(0x03 <= sub && sub <= 0x05) {
            return Err(DecodeError::Invalid);
        }
        let target = if sub == 0x03 {
            DbTarget::Control
        } else if sub == 0x04 {
            DbTarget::TemplateHeader
        } else {
            DbTarget::Globals
        };
        let cn: Option<u8>;
        let s2: &[u8];
        if sub == 0x03 {
            if s1.len() == 0 {
                return Err(DecodeError::Truncated);
            }
            cn = Some(s1[0]);
            s2 = &s1[1..s1.len()];
            proof {
                assert(s2@ =~= s1@.skip(1));
            }
        } else {
            cn = None;
            s2 = s1;
        }
        if s2.len() < 2 {
            return Err(DecodeError::Truncated);
        }
        let offset = unpack_u14(s2[0], s2[1]);
        let data = crate::midi::copy_range(s2, 2, s2.len());
        proof {
            assert(data@ =~= s2@.skip(2));
        }
        Ok(DbSimMsg::DbData { target, cn, offset, data })
    } else if main == 0x66 {
        match decode_sim(s) {
            Ok(cmd) => Ok(DbSimMsg::Simulate(cmd)),
            Err(e) => Err(e),
        }
    } else if main == 0x6A {
        if s.len() == 0 {
            return Err(DecodeError::Truncated);
        }
        let sub = s[0];
        let hl = if sub == 0x00 {
            SimHighLevel::SaveGlobalsToFlash
        } else if sub == 0x01 {
            SimHighLevel::SaveCurrentTemplateToFlash
        } else if sub == 0x02 {
            SimHighLevel::UpdateOctaveLeds
        } else if sub == 0x03 {
            SimHighLevel::ForcePlayMode
        } else if sub == 0x04 {
            SimHighLevel::SendCurrentTemplateToHost
        } else {
            SimHighLevel::Unknown(sub)
        };
        Ok(DbSimMsg::HighLevel(hl))
    } else {
        Err(DecodeError::Invalid)
    }
}

/// Decodes a complete frame: validates the header, dispatches on the
/// family, and decodes the body by the family's grammar. Returns the
/// family, the frame's two version bytes and the decoded message.
pub fn decode_frame(frame: &[u8]) -> (r: Result<(ProtoFamily, u8, u8, DecodedMsg), DecodeError>)
    ensures
        match r {
            Ok(v) => spec_decode_frame(frame@) == Ok::<
                (ProtoFamily, u8, u8, DecodedMsgView),
                DecodeError,
            >((v.0, v.1, v.2, v.3@)),
            Err(e) => spec_decode_frame(frame@) == Err::<
                (ProtoFamily, u8, u8, DecodedMsgView),
                DecodeError,
            >(e),
        },
{
    if frame.len() == 0 || frame[0] != 0xF0 || frame[frame.len() - 1] != EOX {
        return Err(DecodeError::NotSysEx);
    }
    if frame.len() < 12 {
        return Err(DecodeError::Truncated);
    }
    if frame[1] != 0x00 || frame[2] != 0x20 || frame[3] != 0x29 || frame[4] != 0x03 {
        proof {
            let v = frame@.subrange(0, 5);
            assert(v[1] == frame@[1] && v[2] == frame@[2] && v[3] == frame@[3] && v[4]
                == frame@[4]);
            assert(v != vendor_id());
        }
        return Err(DecodeError::BadHeader);
    }
    proof {
        assert(frame@.subrange(0, 5) =~= vendor_id());
    }
    let fam = frame[5];
    let vm = frame[6];
    let vb = frame[7];
    let ta = frame[8];
    let tb = frame[9];
    let body = &frame[10..frame.len() - 1];
    proof {
        assert(body@ =~= frame@.subrange(10, frame@.len() - 1));
    }
    if fam == 0x03 && ta == 0x02 && tb == 0x00 {
        match decode_automap(body) {
            Ok(m) => Ok((ProtoFamily::Automap0303, vm, vb, DecodedMsg::Automap(m))),
            Err(e) => Err(e),
        }
    } else if fam == 0x05 && ta == 0x00 && tb == 0x00 {
        match decode_dbsim(body) {
            Ok(m) => Ok((ProtoFamily::DbSim0305, vm, vb, DecodedMsg::DbSim(m))),
            Err(e) => Err(e),
        }
    } else {
        Err(DecodeError::BadFamily)
    }
}

/// Which LCD operations survive a decode of their own encoding: text must
/// be free of the 0x00 terminator, and an unknown tag must really be
/// unknown (above 0x04) and carry no payload, since the decoder cannot know
/// an unknown operand's length.
pub open spec fn lcd_op_roundtrips(op: LcdOpView) -> bool {
    match op {
        LcdOpView::Text(t) => forall|i: int| 0 <= i < t.len() ==> t[i] != 0x00,
        LcdOpView::Unknown(tag, data) => tag > 0x04 && data.len() == 0,
        _ => true,
    }
}

/// Which Automap messages survive a decode of their own encoding: an
/// unknown command byte must lie outside the assigned range 0x01..=0x08,
/// and every LCD operation must itself round-trip.
pub open spec fn automap_roundtrips(m: AutomapSysExView) -> bool {
    match m {
        AutomapSysExView::LcdText(ops) => forall|i: int|
            0 <= i < ops.len() ==> lcd_op_roundtrips(ops[i]),
        AutomapSysExView::Unknown { cmd, .. } => !(0x01 <= cmd <= 0x08),
        _ => true,
    }
}

/// Decoding an encoded LCD operation in front of any remaining bytes
/// consumes exactly the operation and goes on with the rest.
proof fn lemma_lcd_op_step(op: LcdOpView, rest: Seq<u8>)
    requires
        lcd_op_roundtrips(op),
    ensures
        spec_decode_lcd_ops(spec_lcd_op_bytes(op) + rest) == cons_op(
            op,
            spec_decode_lcd_ops(rest),
        ),
{
    let s = spec_lcd_op_bytes(op) + rest;
    assert(s.len() == spec_lcd_op_bytes(op).len() + rest.len());
    match op {
        LcdOpView::End => {
            assert(op == LcdOpView::End);
            assert(s[0] == 0x00);
            assert(s.skip(1) =~= rest);
            assert(spec_decode_lcd_ops(s) == cons_op(op, spec_decode_lcd_ops(rest)));
        },
        LcdOpView::Cursor { col, line } => {
            assert(s[0] == 0x01 && s[1] == col && s[2] == line.spec_code());
            assert(1 <= line.spec_code() <= 4);
            assert(LcdLine::spec_from_code(line.spec_code()) == line);
            assert(s.skip(3) =~= rest);
            assert(spec_decode_lcd_ops(s) == cons_op(op, spec_decode_lcd_ops(rest)));
        },
        LcdOpView::Clear(c) => {
            match c {
                LcdClear::FromCursorCount(n) => {
                    assert(s[0] == 0x02 && s[1] == 0x0A && s[2] == n);
                    assert(s.skip(3) =~= rest);
                    assert(spec_decode_lcd_ops(s) == cons_op(op, spec_decode_lcd_ops(rest)));
                },
                _ => {
                    assert(s[0] == 0x02 && s[1] == c.spec_bytes()[0]);
                    assert(1 <= s[1] <= 9);
                    assert(LcdClear::spec_from_code(c.spec_bytes()[0]) == c);
                    assert(s.skip(2) =~= rest);
                    assert(spec_decode_lcd_ops(s) == cons_op(op, spec_decode_lcd_ops(rest)));
                },
            }
        },
        LcdOpView::CursorBlink(on) => {
            assert(s[0] == 0x03 && s[1] == if on { 1u8 } else { 0u8 });
            assert(s.skip(2) =~= rest);
            assert(spec_decode_lcd_ops(s) == cons_op(op, spec_decode_lcd_ops(rest)));
        },
        LcdOpView::Text(t) => {
            let u = s.skip(1);
            assert(u =~= t + seq![0x00u8] + rest);
            assert forall|m: int| 0 <= m < t.len() implies u[m] != 0x00 by {
                assert(u[m] == t[m]);
            }
            assert(u[t.len() as int] == 0x00);
            crate::midi::lemma_byte_pos_unique(u, 0x00, t.len());
            assert(u.take(t.len() as int) =~= t);
            assert(s.skip(2 + t.len() as int) =~= rest);
            assert(spec_decode_lcd_ops(s) == cons_op(op, spec_decode_lcd_ops(rest)));
        },
        LcdOpView::Unknown(tag, data) => {
            assert(data =~= Seq::<u8>::empty());
            assert(spec_lcd_op_bytes(op) =~= seq![tag]);
            assert(s[0] == tag);
            assert(s.skip(1) =~= rest);
            assert(spec_decode_lcd_ops(s) == cons_op(op, spec_decode_lcd_ops(rest)));
        },
    }
}

/// Decoding the encoding of a round-trippable LCD operation stream yields
/// the stream itself.
pub proof fn lemma_lcd_ops_roundtrip(ops: Seq<LcdOpView>)
    requires
        forall|i: int| 0 <= i < ops.len() ==> lcd_op_roundtrips(ops[i]),
    ensures
        spec_decode_lcd_ops(spec_lcd_ops_bytes(ops)) == Ok::<Seq<LcdOpView>, DecodeError>(ops),
    decreases ops.len(),
{
    if ops.len() == 0 {
        assert(spec_lcd_ops_bytes(ops).len() == 0);
        assert(ops =~= Seq::<LcdOpView>::empty());
    } else {
        assert forall|i: int| 0 <= i < ops.skip(1).len() implies lcd_op_roundtrips(
            ops.skip(1)[i],
        ) by {
            assert(ops.skip(1)[i] == ops[i + 1]);
        }
        lemma_lcd_ops_roundtrip(ops.skip(1));
        lemma_lcd_op_step(ops[0], spec_lcd_ops_bytes(ops.skip(1)));
        assert(seq![ops[0]] + ops.skip(1) =~= ops);
    }
}

/// Round-trip law for the Automap family: decoding the encoded frame of
/// any constructible message returns the message, under the fixed protocol
/// version, whenever the message's payload is one the decoder can
/// re-delimit (`automap_roundtrips`).
pub proof fn lemma_sysex_roundtrip(m: AutomapSysExView)
    requires
        automap_roundtrips(m),
    ensures
        spec_decode_frame(spec_automap_frame(m)) == Ok::<
            (ProtoFamily, u8, u8, DecodedMsgView),
            DecodeError,
        >((ProtoFamily::Automap0303, PROTO_VER_MAIN, PROTO_VER_BETA, DecodedMsgView::Automap(m))),
{
    let f = spec_automap_frame(m);
    let body = spec_automap_body(m);
    assert(body.len() >= 1);
    assert(f.len() == 11 + body.len());
    assert(f[0] == 0xF0);
    assert(f[f.len() - 1] == EOX);
    assert(f.subrange(0, 5) =~= vendor_id());
    assert(f[5] == 0x03 && f[6] == PROTO_VER_MAIN && f[7] == PROTO_VER_BETA && f[8] == 0x02 && f[9]
        == 0x00);
    assert(f.subrange(10, f.len() - 1) =~= body);
    assert(spec_split_header(f) == Ok::<(ProtoFamily, u8, u8, Seq<u8>), DecodeError>(
        (ProtoFamily::Automap0303, PROTO_VER_MAIN, PROTO_VER_BETA, body),
    ));
    match m {
        AutomapSysExView::OnlineOffline { online } => {
            assert(body.skip(1) =~= seq![if online { 1u8 } else { 0u8 }]);
        },
        AutomapSysExView::LcdText(ops) => {
            assert(body.skip(1) =~= spec_lcd_ops_bytes(ops));
            lemma_lcd_ops_roundtrip(ops);
        },
        AutomapSysExView::GlobalsDownloadRam => {},
        AutomapSysExView::PrepareOsDownload => {},
        AutomapSysExView::UploadGlobals { data } => {
            assert(body.skip(1) =~= data);
        },
        AutomapSysExView::GlobalsDownloadRamAndFlash => {},
        AutomapSysExView::UploadTemplate { data } => {
            assert(body.skip(1) =~= data);
        },
        AutomapSysExView::UploadOs { data } => {
            assert(body.skip(1) =~= data);
        },
        AutomapSysExView::Unknown { cmd, data } => {
            assert(body[0] == cmd);
            assert(body.skip(1) =~= data);
        },
    }
}

/// Framing rejections, pinned to their error: a frame with intact markers
/// and length but a vendor identifier wrong in any single byte is
/// `BadHeader`; an eleven-byte frame with intact markers is `Truncated`;
/// an intact header whose family byte says 0x03 but whose tag bytes are
/// not 0x02 0x00 is `BadFamily`.
pub proof fn lemma_frame_rejections(f: Seq<u8>)
    ensures
        (f.len() >= 12 && f[0] == 0xF0 && f[f.len() - 1] == EOX && (exists|i: int|
            1 <= i < 5 && f[i] != vendor_id()[i])) ==> spec_decode_frame(f) == Err::<
            (ProtoFamily, u8, u8, DecodedMsgView),
            DecodeError,
        >(DecodeError::BadHeader),
        (f.len() == 11 && f[0] == 0xF0 && f[10] == EOX) ==> spec_decode_frame(f) == Err::<
            (ProtoFamily, u8, u8, DecodedMsgView),
            DecodeError,
        >(DecodeError::Truncated),
        (f.len() >= 12 && f[0] == 0xF0 && f[f.len() - 1] == EOX && f.subrange(0, 5) == vendor_id()
            && f[5] == 0x03 && !(f[8] == 0x02 && f[9] == 0x00)) ==> spec_decode_frame(f) == Err::<
            (ProtoFamily, u8, u8, DecodedMsgView),
            DecodeError,
        >(DecodeError::BadFamily),
{
    if f.len() >= 12 && f[0] == 0xF0 && f[f.len() - 1] == EOX && (exists|i: int|
        1 <= i < 5 && f[i] != vendor_id()[i]) {
        let i = choose|i: int| 1 <= i < 5 && f[i] != vendor_id()[i];
        assert(f.subrange(0, 5)[i] == f[i]);
        assert(f.subrange(0, 5) != vendor_id());
    }
}

/// Which data-block/simulation messages survive a decode of their own
/// encoding: a channel number exactly when the target is `Control`, offsets
/// and lengths within 14 bits, encoder clicks within the clamping range,
/// and unknown codes outside their assigned ranges.
pub open spec fn dbsim_roundtrips(m: DbSimMsgView) -> bool {
    match m {
        DbSimMsgView::DbWrite { target, cn, offset, .. } => (cn is Some <==> target
            == DbTarget::Control) && offset < 0x4000,
        DbSimMsgView::DbRead { target, cn, offset, len } => (cn is Some <==> target
            == DbTarget::Control) && offset < 0x4000 && len < 0x4000,
        DbSimMsgView::DbData { target, cn, offset, .. } => (cn is Some <==> target
            == DbTarget::Control) && offset < 0x4000,
        DbSimMsgView::Simulate(cmd) => match cmd {
            SimCmdView::Encoder { clicks_signed, .. } => -64 <= clicks_signed <= 63,
            SimCmdView::Unknown(sc, _) => !(0x01 <= sc <= 0x0C),
            _ => true,
        },
        DbSimMsgView::HighLevel(h) => match h {
            SimHighLevel::Unknown(n) => n > 0x04,
            _ => true,
        },
    }
}

/// Round-trip law for the data-block/simulation family: decoding the
/// encoded frame of any constructible message returns the message, with the
/// version bytes it was encoded under, whenever the message is one the
/// decoder can re-delimit (`dbsim_roundtrips`).
pub proof fn lemma_dbsim_roundtrip(m: DbSimMsgView, ver_main: u8, ver_beta: u8)
    requires
        dbsim_roundtrips(m),
    ensures
        spec_decode_frame(spec_dbsim_frame(m, ver_main, ver_beta)) == Ok::<
            (ProtoFamily, u8, u8, DecodedMsgView),
            DecodeError,
        >((ProtoFamily::DbSim0305, ver_main, ver_beta, DecodedMsgView::DbSim(m))),
{
    let f = spec_dbsim_frame(m, ver_main, ver_beta);
    let body = spec_dbsim_body(m);
    assert(body.len() >= 2);
    assert(f.len() == 11 + body.len());
    assert(f[0] == 0xF0);
    assert(f[f.len() - 1] == EOX);
    assert(f.subrange(0, 5) =~= vendor_id());
    assert(f[5] == 0x05 && f[6] == ver_main && f[7] == ver_beta && f[8] == 0x00 && f[9] == 0x00);
    assert(f.subrange(10, f.len() - 1) =~= body);
    assert(spec_split_header(f) == Ok::<(ProtoFamily, u8, u8, Seq<u8>), DecodeError>(
        (ProtoFamily::DbSim0305, ver_main, ver_beta, body),
    ));
    let s = body.skip(1);
    match m {
        DbSimMsgView::DbWrite { target, cn, offset, data } => {
            let sub = target.spec_write_code();
            assert(s[0] == sub);
            let s1 = s.skip(1);
            if target == DbTarget::Control {
                let c = cn->0;
                assert(spec_cn_bytes(cn) =~= seq![c]);
                assert(s1[0] == c);
                let s2 = s1.skip(1);
                assert(s2 =~= seq![spec_u14_lsb(offset), spec_u14_msb(offset)] + data);
                lemma_u14_roundtrip(offset);
                assert(s2.skip(2) =~= data);
            } else {
                assert(spec_cn_bytes(cn) =~= Seq::<u8>::empty());
                assert(s1 =~= seq![spec_u14_lsb(offset), spec_u14_msb(offset)] + data);
                lemma_u14_roundtrip(offset);
                assert(s1.skip(2) =~= data);
            }
        },
        DbSimMsgView::DbRead { target, cn, offset, len } => {
            let sub = target.spec_read_code();
            assert(s[0] == sub);
            let s1 = s.skip(1);
            let tail = seq![
                spec_u14_lsb(offset),
                spec_u14_msb(offset),
                spec_u14_lsb(len),
                spec_u14_msb(len),
            ];
            lemma_u14_roundtrip(offset);
            lemma_u14_roundtrip(len);
            if target == DbTarget::Control {
                let c = cn->0;
                assert(spec_cn_bytes(cn) =~= seq![c]);
                assert(s1[0] == c);
                assert(s1.skip(1) =~= tail);
            } else {
                assert(spec_cn_bytes(cn) =~= Seq::<u8>::empty());
                assert(s1 =~= tail);
            }
        },
        DbSimMsgView::DbData { target, cn, offset, data } => {
            let sub = target.spec_read_code();
            assert(s[0] == sub);
            assert(0x03 <= sub <= 0x05);
            let s1 = s.skip(1);
            if target == DbTarget::Control {
                let c = cn->0;
                assert(spec_cn_bytes(cn) =~= seq![c]);
                assert(s1[0] == c);
                let s2 = s1.skip(1);
                assert(s2 =~= seq![spec_u14_lsb(offset), spec_u14_msb(offset)] + data);
                lemma_u14_roundtrip(offset);
                assert(s2.skip(2) =~= data);
            } else {
                assert(spec_cn_bytes(cn) =~= Seq::<u8>::empty());
                assert(s1 =~= seq![spec_u14_lsb(offset), spec_u14_msb(offset)] + data);
                lemma_u14_roundtrip(offset);
                assert(s1.skip(2) =~= data);
            }
        },
        DbSimMsgView::Simulate(cmd) => {
            assert(s =~= spec_sim_bytes(cmd));
            match cmd {
                SimCmdView::Encoder { number_1_based, clicks_signed } => {
                    let b = spec_clamped_clicks_byte(clicks_signed);
                    assert(s.skip(1) =~= seq![number_1_based, b]);
                    assert(crate::event::spec_byte_as_i8(b) == clicks_signed);
                },
                SimCmdView::Unknown(sc, bytes) => {
                    assert(s.skip(1) =~= bytes);
                },
                _ => {
                    assert(s.skip(1) =~= spec_sim_bytes(cmd).skip(1));
                },
            }
        },
        DbSimMsgView::HighLevel(h) => {
            assert(s[0] == h.spec_code());
            assert(SimHighLevel::spec_from_code(h.spec_code()) == h);
        },
    }
}

} // verus!
