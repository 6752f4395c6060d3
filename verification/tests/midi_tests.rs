use automap::midi::{split_midi_messages, usbmidi_pack, usbmidi_unpack};

#[test]
fn pack_cc_triple() {
    let midi = vec![0xB0, 0x07, 0x7F];
    assert_eq!(usbmidi_pack(&midi), vec![0x0B, 0xB0, 0x07, 0x7F]);
}

#[test]
fn pack_realtime_byte() {
    assert_eq!(usbmidi_pack(&[0xF8]), vec![0x0F, 0xF8, 0x00, 0x00]);
    // 0xF9 and 0xFD are not real-time here; they pack as one-byte messages
    // with the status high nibble as CIN.
    assert_eq!(usbmidi_pack(&[0xF9]), vec![0x0F, 0xF9, 0x00, 0x00]);
}

#[test]
fn pack_short_sysex_single_packet() {
    // A complete two-byte SysEx uses the two-byte system-common CIN.
    assert_eq!(usbmidi_pack(&[0xF0, 0xF7]), vec![0x06, 0xF0, 0xF7, 0x00]);
    // Three bytes use CIN 0x07.
    assert_eq!(usbmidi_pack(&[0xF0, 0x41, 0xF7]), vec![0x07, 0xF0, 0x41, 0xF7]);
}

#[test]
fn pack_long_sysex_chunked() {
    // Seven bytes: two full chunks with CIN 0x04, then the terminator alone
    // with the one-byte CIN 0x05.
    let midi = vec![0xF0, 1, 2, 3, 4, 5, 0xF7];
    assert_eq!(
        usbmidi_pack(&midi),
        vec![0x04, 0xF0, 1, 2, 0x04, 3, 4, 5, 0x05, 0xF7, 0, 0],
    );
}

#[test]
fn pack_drops_incomplete_trailing_message() {
    // A note-on needs three bytes; only two remain.
    let midi = vec![0xB0, 0x07, 0x7F, 0x90, 0x40];
    assert_eq!(usbmidi_pack(&midi), vec![0x0B, 0xB0, 0x07, 0x7F]);
}

#[test]
fn pack_two_byte_message() {
    // Program change uses two bytes and CIN 0x0C.
    assert_eq!(usbmidi_pack(&[0xC1, 0x05]), vec![0x0C, 0xC1, 0x05, 0x00]);
}

#[test]
fn unpack_by_cin() {
    let packets = vec![0x0B, 0xBF, 0x1A, 0x01, 0x0C, 0xC1, 0x05, 0x00, 0x0F, 0xF8, 0, 0];
    assert_eq!(usbmidi_unpack(&packets), vec![0xBF, 0x1A, 0x01, 0xC1, 0x05, 0xF8]);
}

#[test]
fn unpack_ignores_unknown_cin() {
    // CIN 0x0 and 0x1 carry no data.
    let packets = vec![0x00, 0x11, 0x22, 0x33, 0x01, 0x44, 0x55, 0x66];
    assert_eq!(usbmidi_unpack(&packets), Vec::<u8>::new());
}

#[test]
fn unpack_ignores_partial_trailing_group() {
    // Six bytes: one complete group, then a two-byte remainder that is
    // ignored, never an error.
    let packets = vec![0x0B, 0xBF, 0x4E, 0x00, 0x0B, 0xBF];
    assert_eq!(usbmidi_unpack(&packets), vec![0xBF, 0x4E, 0x00]);
    // Fewer than four bytes yield nothing at all.
    assert_eq!(usbmidi_unpack(&[0x0B, 0xBF, 0x4E]), Vec::<u8>::new());
}

#[test]
fn split_messages_by_status() {
    let raw = vec![0xBF, 0x1A, 0x01, 0xF8, 0xC1, 0x05, 0xF0, 0x41, 0x42, 0xF7];
    assert_eq!(
        split_midi_messages(&raw),
        vec![
            vec![0xBF, 0x1A, 0x01],
            vec![0xF8],
            vec![0xC1, 0x05],
            vec![0xF0, 0x41, 0x42, 0xF7],
        ],
    );
}

#[test]
fn split_skips_noise_and_drops_incomplete_tail() {
    // Leading data bytes are noise; the final note-on is incomplete.
    let raw = vec![0x10, 0x20, 0xBF, 0x4E, 0x00, 0x90, 0x40];
    assert_eq!(split_midi_messages(&raw), vec![vec![0xBF, 0x4E, 0x00]]);
}

#[test]
fn split_accepts_unterminated_sysex() {
    let raw = vec![0xF0, 0x01, 0x02];
    assert_eq!(split_midi_messages(&raw), vec![vec![0xF0, 0x01, 0x02]]);
}

#[test]
fn transport_roundtrip_recovers_messages() {
    // Pack, unpack, then split: the original message sequence comes back,
    // for streams of complete channel messages and terminated SysEx.
    let msgs: Vec<Vec<u8>> = vec![
        vec![0xBF, 0x1A, 0x01],
        vec![0xF0, 0x00, 0x20, 0x29, 0x03, 0x03, 0x12, 0x00, 0x02, 0x00, 0x03, 0xF7],
        vec![0xC1, 0x05],
        vec![0x91, 0x3C, 0x64],
        vec![0xF0, 0xF7],
    ];
    let raw: Vec<u8> = msgs.concat();
    let unpacked = usbmidi_unpack(&usbmidi_pack(&raw));
    assert_eq!(unpacked, raw);
    assert_eq!(split_midi_messages(&unpacked), msgs);
}

#[test]
fn transport_roundtrip_fails_on_system_common() {
    // The asymmetric CIN table loses the data bytes of 0xF1..0xF3 messages:
    // these statuses are excluded from the round-trip law.
    let raw = vec![0xF1, 0x04];
    let unpacked = usbmidi_unpack(&usbmidi_pack(&raw));
    assert_eq!(unpacked, vec![0xF1]);
}
