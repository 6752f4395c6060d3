use automap::sysex::{
    decode_frame, pack_u14, unpack_u14, AutomapSysEx, DbSimMsg, DbTarget, DecodeError,
    DecodedMsg, LcdClear, LcdLine, LcdOp, ProtoFamily, SimCmd, SimHighLevel,
};

#[test]
fn roundtrip_lcd() {
    let msg = AutomapSysEx::LcdText(vec![
        LcdOp::Clear(LcdClear::LeftAll),
        LcdOp::Cursor { col: 9, line: LcdLine::LeftTop },
        LcdOp::Text(b"Hello".to_vec()),
        LcdOp::End,
    ]);
    let mut buf = Vec::new();
    msg.encode_into(&mut buf);
    let (_, _, _, DecodedMsg::Automap(r)) = decode_frame(&buf).unwrap() else {
        panic!()
    };
    assert_eq!(r, msg);
}

#[test]
fn lcd_frame_exact_bytes() {
    let msg = AutomapSysEx::OnlineOffline { online: true };
    assert_eq!(
        msg.to_bytes(),
        vec![0xF0, 0x00, 0x20, 0x29, 0x03, 0x03, 0x12, 0x00, 0x02, 0x00, 0x01, 0x01, 0xF7],
    );
}

#[test]
fn roundtrip_online_offline_and_uploads() {
    for msg in [
        AutomapSysEx::OnlineOffline { online: false },
        AutomapSysEx::GlobalsDownloadRam,
        AutomapSysEx::PrepareOsDownload,
        AutomapSysEx::GlobalsDownloadRamAndFlash,
        AutomapSysEx::UploadGlobals { data: vec![1, 2, 3] },
        AutomapSysEx::UploadTemplate { data: vec![] },
        AutomapSysEx::UploadOs { data: vec![0x7F, 0x00, 0x7F] },
        AutomapSysEx::Unknown { cmd: 0x55, data: vec![9, 8, 7] },
    ] {
        let bytes = msg.clone().to_bytes();
        let (family, vm, vb, decoded) = decode_frame(&bytes).unwrap();
        assert_eq!(family, ProtoFamily::Automap0303);
        assert_eq!((vm, vb), (0x12, 0x00));
        assert_eq!(decoded, DecodedMsg::Automap(msg));
    }
}

#[test]
fn not_sysex_without_markers() {
    assert_eq!(decode_frame(&[]), Err(DecodeError::NotSysEx));
    assert_eq!(decode_frame(&[0xBF, 0x1A, 0x01]), Err(DecodeError::NotSysEx));
    // Starts with 0xF0 but does not end with 0xF7.
    let mut frame = AutomapSysEx::GlobalsDownloadRam.to_bytes();
    frame.pop();
    assert_eq!(decode_frame(&frame), Err(DecodeError::NotSysEx));
}

#[test]
fn truncated_eleven_byte_frame() {
    let frame = [0xF0, 0x00, 0x20, 0x29, 0x03, 0x03, 0x12, 0x00, 0x02, 0x00, 0xF7];
    assert_eq!(frame.len(), 11);
    assert_eq!(decode_frame(&frame), Err(DecodeError::Truncated));
}

#[test]
fn bad_header_on_any_vendor_byte() {
    let good = AutomapSysEx::OnlineOffline { online: true }.to_bytes();
    for i in 1..5 {
        let mut frame = good.clone();
        frame[i] ^= 0x01;
        assert_eq!(decode_frame(&frame), Err(DecodeError::BadHeader), "byte {i}");
    }
}

#[test]
fn bad_family_on_mismatched_tags() {
    let mut frame = AutomapSysEx::OnlineOffline { online: true }.to_bytes();
    // Family byte 0x03 with tag bytes other than (0x02, 0x00).
    frame[8] = 0x03;
    assert_eq!(decode_frame(&frame), Err(DecodeError::BadFamily));
    let mut frame2 = AutomapSysEx::OnlineOffline { online: true }.to_bytes();
    frame2[9] = 0x01;
    assert_eq!(decode_frame(&frame2), Err(DecodeError::BadFamily));
    // An unknown family byte is rejected the same way.
    let mut frame3 = AutomapSysEx::OnlineOffline { online: true }.to_bytes();
    frame3[5] = 0x04;
    assert_eq!(decode_frame(&frame3), Err(DecodeError::BadFamily));
}

#[test]
fn lcd_text_missing_terminator_is_truncated() {
    // 0x04 opens a text run; no 0x00 terminator follows.
    let frame = [
        0xF0, 0x00, 0x20, 0x29, 0x03, 0x03, 0x12, 0x00, 0x02, 0x00, 0x02, 0x04, 0x41, 0x42,
        0xF7,
    ];
    assert_eq!(decode_frame(&frame), Err(DecodeError::Truncated));
}

#[test]
fn lcd_bad_cursor_line_is_invalid() {
    // Cursor op with line 5 (valid lines are 1..=4).
    let frame = [
        0xF0, 0x00, 0x20, 0x29, 0x03, 0x03, 0x12, 0x00, 0x02, 0x00, 0x02, 0x01, 0x00, 0x05,
        0xF7,
    ];
    assert_eq!(decode_frame(&frame), Err(DecodeError::Invalid));
}

#[test]
fn lcd_bad_clear_code_is_invalid() {
    // Clear op with code 0x0B (valid codes are 0x01..=0x0A).
    let frame = [
        0xF0, 0x00, 0x20, 0x29, 0x03, 0x03, 0x12, 0x00, 0x02, 0x00, 0x02, 0x02, 0x0B, 0xF7,
    ];
    assert_eq!(decode_frame(&frame), Err(DecodeError::Invalid));
}

#[test]
fn lcd_clear_from_cursor_carries_count() {
    let msg = AutomapSysEx::LcdText(vec![LcdOp::Clear(LcdClear::FromCursorCount(7))]);
    let bytes = msg.clone().to_bytes();
    assert_eq!(
        bytes,
        vec![0xF0, 0x00, 0x20, 0x29, 0x03, 0x03, 0x12, 0x00, 0x02, 0x00, 0x02, 0x02, 0x0A, 0x07, 0xF7],
    );
    let (_, _, _, decoded) = decode_frame(&bytes).unwrap();
    assert_eq!(decoded, DecodedMsg::Automap(msg));
}

#[test]
fn lcd_unknown_tag_decodes_with_empty_payload() {
    // An unknown LCD tag cannot be resynchronized: it decodes to an Unknown
    // op with no payload, and the operand byte is then parsed as a new tag.
    let frame = [
        0xF0, 0x00, 0x20, 0x29, 0x03, 0x03, 0x12, 0x00, 0x02, 0x00, 0x02, 0x7E, 0x00, 0xF7,
    ];
    let (_, _, _, DecodedMsg::Automap(AutomapSysEx::LcdText(ops))) =
        decode_frame(&frame).unwrap()
    else {
        panic!()
    };
    assert_eq!(ops, vec![LcdOp::Unknown(0x7E, vec![]), LcdOp::End]);
}

#[test]
fn u14_packing() {
    assert_eq!(pack_u14(0x2000), (0x00, 0x40));
    assert_eq!(pack_u14(0x007F), (0x7F, 0x00));
    assert_eq!(unpack_u14(0x00, 0x40), 0x2000);
    for v in [0u16, 1, 127, 128, 0x1234, 0x3FFF] {
        let (lsb, msb) = pack_u14(v);
        assert!(lsb < 0x80 && msb < 0x80);
        assert_eq!(unpack_u14(lsb, msb), v);
    }
}

#[test]
fn dbsim_write_exact_bytes() {
    let msg = DbSimMsg::DbWrite {
        target: DbTarget::Control,
        cn: Some(3),
        offset: 0x0185,
        data: vec![0xAA, 0xBB],
    };
    let mut buf = Vec::new();
    msg.encode_into(&mut buf, 0x12, 0x00);
    assert_eq!(
        buf,
        vec![
            0xF0, 0x00, 0x20, 0x29, 0x03, 0x05, 0x12, 0x00, 0x00, 0x00, 0x68, 0x00, 0x03,
            0x05, 0x03, 0xAA, 0xBB, 0xF7,
        ],
    );
}

#[test]
fn dbsim_roundtrip_through_decode_frame() {
    for msg in [
        DbSimMsg::DbWrite { target: DbTarget::Globals, cn: None, offset: 10, data: vec![1] },
        DbSimMsg::DbRead { target: DbTarget::Control, cn: Some(1), offset: 0x3FFF, len: 8 },
        DbSimMsg::DbRead { target: DbTarget::TemplateHeader, cn: None, offset: 0, len: 0x2001 },
        DbSimMsg::DbData { target: DbTarget::Globals, cn: None, offset: 5, data: vec![7, 7] },
        DbSimMsg::Simulate(SimCmd::Button { number_1_based: 4, pressed: true }),
        DbSimMsg::Simulate(SimCmd::PotSlider { number_1_based: 2, value: 99 }),
        DbSimMsg::Simulate(SimCmd::Key { number_1_based: 60, velocity: 100 }),
        DbSimMsg::Simulate(SimCmd::TouchpadXY { x: 10, y: 20 }),
        DbSimMsg::Simulate(SimCmd::Drumpad { number_1_based: 1, value: 127 }),
        DbSimMsg::Simulate(SimCmd::SustainPedal { pressed: false }),
        DbSimMsg::Simulate(SimCmd::TouchSensor { sensor_1_to_26_or_127: 127 }),
        DbSimMsg::Simulate(SimCmd::LcdTextRequest),
        DbSimMsg::Simulate(SimCmd::LcdTextResponse),
        DbSimMsg::Simulate(SimCmd::LedBitmapRequest),
        DbSimMsg::Simulate(SimCmd::LedBitmapResponse),
        DbSimMsg::Simulate(SimCmd::Unknown(0x20, vec![1, 2])),
        DbSimMsg::HighLevel(SimHighLevel::SaveGlobalsToFlash),
        DbSimMsg::HighLevel(SimHighLevel::SendCurrentTemplateToHost),
        DbSimMsg::HighLevel(SimHighLevel::Unknown(0x11)),
    ] {
        let bytes = msg.to_bytes();
        let (family, vm, vb, decoded) = decode_frame(&bytes).unwrap();
        assert_eq!(family, ProtoFamily::DbSim0305);
        assert_eq!((vm, vb), (0x12, 0x00));
        assert_eq!(decoded, DecodedMsg::DbSim(msg));
    }
}

#[test]
fn dbsim_encoder_clicks_clamped() {
    let far = DbSimMsg::Simulate(SimCmd::Encoder { number_1_based: 1, clicks_signed: 100 });
    let bytes = far.to_bytes();
    // Clamped to +63.
    assert_eq!(bytes[13], 0x3F);
    let back = DbSimMsg::Simulate(SimCmd::Encoder { number_1_based: 1, clicks_signed: -100 });
    let bytes = back.to_bytes();
    // Clamped to -64, reinterpreted as an unsigned byte.
    assert_eq!(bytes[13], 0xC0);
    // Within range the count is kept, and the decoder reads it back signed.
    let three = DbSimMsg::Simulate(SimCmd::Encoder { number_1_based: 2, clicks_signed: -3 });
    let (_, _, _, decoded) = decode_frame(&three.to_bytes()).unwrap();
    assert_eq!(decoded, DecodedMsg::DbSim(three));
}

#[test]
fn dbsim_bad_main_byte_is_invalid() {
    let frame = [
        0xF0, 0x00, 0x20, 0x29, 0x03, 0x05, 0x12, 0x00, 0x00, 0x00, 0x11, 0xF7,
    ];
    assert_eq!(decode_frame(&frame), Err(DecodeError::Invalid));
}

#[test]
fn dbsim_bad_sub_byte_is_invalid() {
    // Change/Request with sub-byte 0x06 (valid sub-bytes are 0x00..=0x05).
    let frame = [
        0xF0, 0x00, 0x20, 0x29, 0x03, 0x05, 0x12, 0x00, 0x00, 0x00, 0x68, 0x06, 0xF7,
    ];
    assert_eq!(decode_frame(&frame), Err(DecodeError::Invalid));
    // Response with a write sub-byte is likewise rejected.
    let frame2 = [
        0xF0, 0x00, 0x20, 0x29, 0x03, 0x05, 0x12, 0x00, 0x00, 0x00, 0x69, 0x00, 0xF7,
    ];
    assert_eq!(decode_frame(&frame2), Err(DecodeError::Invalid));
}

#[test]
fn dbsim_short_payload_is_truncated() {
    // A write to Control needs a channel byte and a two-byte offset.
    let frame = [
        0xF0, 0x00, 0x20, 0x29, 0x03, 0x05, 0x12, 0x00, 0x00, 0x00, 0x68, 0x00, 0x03, 0xF7,
    ];
    assert_eq!(decode_frame(&frame), Err(DecodeError::Truncated));
    // A simulate message without its sub-command byte is also truncated.
    let frame3 = [
        0xF0, 0x00, 0x20, 0x29, 0x03, 0x05, 0x12, 0x00, 0x00, 0x00, 0x66, 0xF7,
    ];
    assert_eq!(decode_frame(&frame3), Err(DecodeError::Truncated));
}
