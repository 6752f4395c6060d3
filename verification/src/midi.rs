//! USB-MIDI transport codec: packing a raw MIDI byte stream into 4-byte
//! USB-MIDI event packets, unpacking packets back into raw bytes, and
//! splitting a raw stream into complete messages.
//!
//! A packet is `[CIN, d0, d1, d2]`: the low nibble of the first byte (the
//! Code Index Number) fixes how many of the following bytes are payload; the
//! high nibble is the cable number, always zero here.

use vstd::prelude::*;

verus! {

/// Whether a byte is a System Real-Time status handled as a one-byte
/// message (0xF8..=0xFF except the reserved 0xF9 and 0xFD).
pub open spec fn is_realtime(b: u8) -> bool {
    0xF8 <= b && b != 0xF9 && b != 0xFD
}

/// Total length of the MIDI message opened by status byte `b` (status byte
/// included): Program Change, Channel Pressure and Song Select take two
/// bytes, Song Position and the channel voice messages three, everything
/// else one.
pub open spec fn msg_need(b: u8) -> nat {
    if (0xC0 <= b && b <= 0xDF) || b == 0xF1 || b == 0xF3 {
        2
    } else if b == 0xF2 {
        3
    } else if (0x80 <= b && b <= 0xBF) || (0xE0 <= b && b <= 0xEF) {
        3
    } else {
        1
    }
}

/// Index of the first occurrence of `b` in `s`, or `s.len()` if absent.
pub open spec fn byte_pos(s: Seq<u8>, b: u8) -> nat
    decreases s.len(),
{
    if s.len() == 0 {
        0
    } else if s[0] == b {
        0
    } else {
        1 + byte_pos(s.skip(1), b)
    }
}

/// Any position whose prefix is free of `b` and which is either the end or
/// an occurrence of `b` is exactly `byte_pos`.
pub proof fn lemma_byte_pos_unique(s: Seq<u8>, b: u8, k: nat)
    requires
        k <= s.len(),
        forall|i: int| 0 <= i < k ==> s[i] != b,
        k < s.len() ==> s[k as int] == b,
    ensures
        byte_pos(s, b) == k,
    decreases s.len(),
{
    if s.len() == 0 {
    } else if s[0] == b {
        assert(k == 0);
    } else {
        assert(k >= 1);
        assert forall|i: int| 0 <= i < k - 1 implies s.skip(1)[i] != b by {
            assert(s.skip(1)[i] == s[i + 1]);
        }
        assert(k - 1 < s.skip(1).len() ==> s.skip(1)[k - 1] == b);
        lemma_byte_pos_unique(s.skip(1), b, (k - 1) as nat);
    }
}

/// Extent of the SysEx message opening at `s[0] == 0xF0`: one past the
/// first terminating 0xF7, or the whole remaining buffer when no terminator
/// follows (a truncated SysEx is accepted, not an error).
pub open spec fn sysex_extent(s: Seq<u8>) -> nat {
    let n = byte_pos(s.skip(1), 0xF7);
    if 1 + n < s.len() {
        2 + n
    } else {
        s.len()
    }
}

/// A 4-byte packet: the CIN byte, then up to three payload bytes padded
/// with zeros.
pub open spec fn packet(cin: u8, data: Seq<u8>) -> Seq<u8> {
    seq![
        cin,
        if data.len() > 0 { data[0] } else { 0 },
        if data.len() > 1 { data[1] } else { 0 },
        if data.len() > 2 { data[2] } else { 0 },
    ]
}

/// The system-common CIN used for a SysEx portion of the given length
/// (one, two or three bytes).
pub open spec fn len_cin(n: nat) -> u8 {
    if n == 1 {
        0x05
    } else if n == 2 {
        0x06
    } else {
        0x07
    }
}

/// CIN of one SysEx chunk: the chunk holding the terminator uses the
/// length-specific system-common CIN, every other chunk the
/// SysEx start/continue CIN 0x04.
pub open spec fn sysex_chunk_cin(c: Seq<u8>) -> u8 {
    if c.contains(0xF7) {
        len_cin(c.len())
    } else {
        0x04
    }
}

/// Packets for a SysEx body of more than three bytes, chunked into groups
/// of three.
pub open spec fn pack_sysex_chunks(d: Seq<u8>) -> Seq<u8>
    decreases d.len(),
{
    if d.len() == 0 {
        Seq::empty()
    } else if d.len() <= 3 {
        packet(sysex_chunk_cin(d), d)
    } else {
        packet(sysex_chunk_cin(d.take(3)), d.take(3)) + pack_sysex_chunks(d.skip(3))
    }
}

/// Packets for one SysEx message (`d[0] == 0xF0`, `d` nonempty): a single
/// length-coded packet when it fits, otherwise three-byte chunks.
pub open spec fn pack_one_sysex(d: Seq<u8>) -> Seq<u8> {
    if d.len() <= 3 {
        packet(len_cin(d.len()), d)
    } else {
        pack_sysex_chunks(d)
    }
}

/// CIN of a non-SysEx, non-real-time message: the status byte's high
/// nibble.
pub open spec fn status_cin(b: u8) -> u8 {
    (b >> 4) & 0x0F
}

/// The USB-MIDI packet stream for a raw MIDI byte stream, scanned left to
/// right: real-time bytes become single packets, a SysEx runs to its
/// terminator (or the end of the buffer) and is chunked, any other status
/// consumes its message length, and an incomplete trailing message is
/// dropped.
pub open spec fn spec_pack(s: Seq<u8>) -> Seq<u8>
    decreases s.len(),
{
    if s.len() == 0 {
        Seq::empty()
    } else {
        let b = s[0];
        if is_realtime(b) {
            seq![0x0Fu8, b, 0u8, 0u8] + spec_pack(s.skip(1))
        } else if b == 0xF0 {
            let e = sysex_extent(s);
            pack_one_sysex(s.take(e as int)) + spec_pack(s.skip(e as int))
        } else {
            let need = msg_need(b);
            if s.len() < need {
                Seq::empty()
            } else {
                packet(status_cin(b), s.take(need as int)) + spec_pack(s.skip(need as int))
            }
        }
    }
}

/// Payload length carried by a packet with the given CIN (low nibble
/// already isolated); CINs that carry no data yield nothing.
pub open spec fn cin_len(cin: u8) -> nat {
    if cin == 0x8 || cin == 0x9 || cin == 0xA || cin == 0xB || cin == 0xE || cin == 0x3 || cin
        == 0x4 || cin == 0x7 {
        3
    } else if cin == 0xC || cin == 0xD || cin == 0x2 || cin == 0x6 {
        2
    } else if cin == 0x5 || cin == 0xF {
        1
    } else {
        0
    }
}

/// The raw MIDI bytes carried by a packet stream: each complete 4-byte
/// group contributes the payload its CIN announces; a trailing group of
/// fewer than four bytes is ignored.
pub open spec fn spec_unpack(s: Seq<u8>) -> Seq<u8>
    decreases s.len(),
{
    if s.len() < 4 {
        Seq::empty()
    } else {
        s.subrange(1, 1 + cin_len(s[0] & 0x0F) as int) + spec_unpack(s.skip(4))
    }
}

/// The complete messages in a raw MIDI byte stream, in order: real-time
/// bytes are one-byte messages, data bytes outside a message are skipped as
/// noise, a SysEx runs to its terminator (or the buffer's end), any other
/// status consumes its message length, and an incomplete trailing message
/// is dropped.
pub open spec fn spec_split(s: Seq<u8>) -> Seq<Seq<u8>>
    decreases s.len(),
{
    if s.len() == 0 {
        Seq::empty()
    } else {
        let b = s[0];
        if is_realtime(b) {
            seq![seq![b]] + spec_split(s.skip(1))
        } else if b < 0x80 {
            spec_split(s.skip(1))
        } else if b == 0xF0 {
            let e = sysex_extent(s);
            seq![s.take(e as int)] + spec_split(s.skip(e as int))
        } else {
            let need = msg_need(b);
            if s.len() >= need {
                seq![s.take(need as int)] + spec_split(s.skip(need as int))
            } else {
                Seq::empty()
            }
        }
    }
}

/// Converts USB-MIDI event packets back into raw MIDI bytes, the inverse
/// direction of `usbmidi_pack`. Only complete 4-byte groups are read; a
/// shorter trailing group is ignored, never an error.
pub fn usbmidi_unpack(buf: &[u8]) -> (out: Vec<u8>)
    ensures
        out@ == spec_unpack(buf@),
{
    let mut out: Vec<u8> = Vec::new();
    let mut i: usize = 0;
    proof {
        assert(buf@.skip(0) =~= buf@);
        assert(Seq::<u8>::empty() + spec_unpack(buf@) =~= spec_unpack(buf@));
    }
    while buf.len() - i >= 4
        invariant
            i <= buf@.len(),
            spec_unpack(buf@) == out@ + spec_unpack(buf@.skip(i as int)),
        decreases buf@.len() - i,
    {
        let ghost rest = buf@.skip(i as int);
        let ghost pre = out@;
        proof {
            assert(rest[0] == buf@[i as int]);
            assert(rest.len() >= 4);
        }
        let cin = buf[i] & 0x0F;
        if cin == 0x8 || cin == 0x9 || cin == 0xA || cin == 0xB || cin == 0xE || cin == 0x3 || cin
            == 0x4 || cin == 0x7 {
            out.push(buf[i + 1]);
            out.push(buf[i + 2]);
            out.push(buf[i + 3]);
        } else if cin == 0xC || cin == 0xD || cin == 0x2 || cin == 0x6 {
            out.push(buf[i + 1]);
            out.push(buf[i + 2]);
        } else if cin == 0x5 || cin == 0xF {
            out.push(buf[i + 1]);
        }
        proof {
            let payload = rest.subrange(1, 1 + cin_len(cin) as int);
            assert(out@ =~= pre + payload);
            assert(rest.skip(4) =~= buf@.skip(i as int + 4));
            assert(spec_unpack(rest) == payload + spec_unpack(rest.skip(4)));
            assert(pre + (payload + spec_unpack(rest.skip(4))) =~= out@ + spec_unpack(
                rest.skip(4),
            ));
        }
        i = i + 4;
    }
    proof {
        assert(buf@.skip(i as int).len() < 4);
        assert(out@ + spec_unpack(buf@.skip(i as int)) =~= out@);
    }
    out
}

/// Packs a raw MIDI byte stream into 4-byte USB-MIDI event packets, ready
/// for bulk transmission. An incomplete trailing message is dropped; a
/// SysEx without a terminator is packed up to the end of the buffer.
#[verifier::rlimit(60)]
pub fn usbmidi_pack(midi: &[u8]) -> (out: Vec<u8>)
    ensures
        out@ == spec_pack(midi@),
{
    let mut out: Vec<u8> = Vec::new();
    let mut i: usize = 0;
    proof {
        assert(midi@.skip(0) =~= midi@);
        assert(Seq::<u8>::empty() + spec_pack(midi@) =~= spec_pack(midi@));
    }
    while i < midi.len()
        invariant
            i <= midi@.len(),
            spec_pack(midi@) == out@ + spec_pack(midi@.skip(i as int)),
        decreases midi@.len() - i,
    {
        let ghost rest = midi@.skip(i as int);
        let ghost pre = out@;
        proof {
            assert(rest[0] == midi@[i as int]);
        }
        let status = midi[i];
        if 0xF8 <= status && status != 0xF9 && status != 0xFD {
            // System Real-Time: a one-byte message in its own packet.
            out.push(0x0F);
            out.push(status);
            out.push(0);
            out.push(0);
            proof {
                assert(out@ =~= pre + seq![0x0Fu8, status, 0u8, 0u8]);
                assert(rest.skip(1) =~= midi@.skip(i as int + 1));
                assert(pre + (seq![0x0Fu8, status, 0u8, 0u8] + spec_pack(rest.skip(1))) =~= out@
                    + spec_pack(rest.skip(1)));
            }
            i = i + 1;
        } else if status == 0xF0 {
            // SysEx: scan to the terminator (inclusive) or the buffer's end.
            let mut end: usize = i + 1;
            while end < midi.len() && midi[end] != 0xF7
                invariant
                    i + 1 <= end <= midi@.len(),
                    forall|j: int| i + 1 <= j < end ==> midi@[j] != 0xF7,
                decreases midi@.len() - end,
            {
                end = end + 1;
            }
            let f7_found = end < midi.len();
            if f7_found {
                end = end + 1;
            }
            proof {
                let t = midi@.skip(i as int + 1);
                assert(rest.skip(1) =~= t);
                if f7_found {
                    let k = (end - i - 2) as nat;
                    assert forall|j: int| 0 <= j < k implies t[j] != 0xF7 by {
                        assert(t[j] == midi@[i + 1 + j]);
                    }
                    assert(t[k as int] == midi@[end - 1]);
                    lemma_byte_pos_unique(t, 0xF7, k);
                } else {
                    assert forall|j: int| 0 <= j < t.len() implies t[j] != 0xF7 by {
                        assert(t[j] == midi@[i + 1 + j]);
                    }
                    lemma_byte_pos_unique(t, 0xF7, t.len());
                }
                assert(sysex_extent(rest) == end - i);
            }
            let slen = end - i;
            let ghost d = midi@.subrange(i as int, end as int);
            proof {
                assert(rest.take(slen as int) =~= d);
            }
            if slen <= 3 {
                let cin: u8 = if slen == 1 {
                    0x05
                } else if slen == 2 {
                    0x06
                } else {
                    0x07
                };
                out.push(cin);
                out.push(midi[i]);
                out.push(if slen > 1 { midi[i + 1] } else { 0 });
                out.push(if slen > 2 { midi[i + 2] } else { 0 });
                proof {
                    assert(out@ =~= pre + packet(len_cin(slen as nat), d));
                }
            } else {
                let ghost mid = out@;
                proof {
                    assert(d.skip(0) =~= d);
                }
                let mut j: usize = i;
                while j < end
                    invariant
                        i <= j <= end <= midi@.len(),
                        end - i > 3,
                        d == midi@.subrange(i as int, end as int),
                        mid + pack_sysex_chunks(d) == out@ + pack_sysex_chunks(
                            d.skip(j as int - i as int),
                        ),
                    decreases end - j,
                {
                    let ghost outp = out@;
                    let cl: usize = if end - j >= 3 {
                        3
                    } else {
                        end - j
                    };
                    let b0 = midi[j];
                    let b1 = if cl > 1 { midi[j + 1] } else { 0 };
                    let b2 = if cl > 2 { midi[j + 2] } else { 0 };
                    let has_f7 = b0 == 0xF7 || (cl > 1 && b1 == 0xF7) || (cl > 2 && b2 == 0xF7);
                    let cin: u8 = if has_f7 {
                        if cl == 1 {
                            0x05
                        } else if cl == 2 {
                            0x06
                        } else {
                            0x07
                        }
                    } else {
                        0x04
                    };
                    let ghost rem = d.skip(j as int - i as int);
                    let ghost c = rem.take(cl as int);
                    proof {
                        assert(c =~= midi@.subrange(j as int, j as int + cl as int));
                        if has_f7 {
                            assert(c.contains(0xF7));
                        } else {
                            assert forall|k: int| 0 <= k < c.len() implies c[k] != 0xF7 by {
                                assert(c[k] == midi@[j + k]);
                                if k == 0 {
                                } else if k == 1 {
                                } else {
                                    assert(k == 2);
                                }
                            }
                            assert(!c.contains(0xF7));
                        }
                        assert(sysex_chunk_cin(c) == cin);
                    }
                    out.push(cin);
                    out.push(b0);
                    out.push(b1);
                    out.push(b2);
                    proof {
                        assert(out@ =~= outp + packet(cin, c));
                        if rem.len() > 3 {
                            assert(c == rem.take(3));
                            assert(rem.skip(3) =~= d.skip(j as int + 3 - i as int));
                            assert(pack_sysex_chunks(rem) == packet(sysex_chunk_cin(c), c)
                                + pack_sysex_chunks(rem.skip(3)));
                            assert(outp + (packet(sysex_chunk_cin(c), c) + pack_sysex_chunks(
                                rem.skip(3),
                            )) =~= out@ + pack_sysex_chunks(rem.skip(3)));
                        } else {
                            assert(c =~= rem);
                            assert(pack_sysex_chunks(rem) == packet(sysex_chunk_cin(rem), rem));
                            assert(d.skip(end as int - i as int).len() == 0);
                            assert(pack_sysex_chunks(d.skip(end as int - i as int))
                                == Seq::<u8>::empty());
                            assert(outp + packet(sysex_chunk_cin(rem), rem) =~= out@
                                + Seq::<u8>::empty());
                        }
                    }
                    j = j + cl;
                }
                proof {
                    assert(d.skip(end as int - i as int).len() == 0);
                    assert(out@ + pack_sysex_chunks(d.skip(end as int - i as int)) =~= out@);
                    assert(out@ == mid + pack_sysex_chunks(d));
                    assert(out@ =~= pre + pack_one_sysex(d));
                }
            }
            proof {
                assert(rest.skip(slen as int) =~= midi@.skip(end as int));
                assert(spec_pack(rest) == pack_one_sysex(d) + spec_pack(rest.skip(slen as int)));
                assert(pre + (pack_one_sysex(d) + spec_pack(rest.skip(slen as int))) =~= out@
                    + spec_pack(rest.skip(slen as int)));
            }
            i = end;
        } else {
            let need: usize = if (0xC0 <= status && status <= 0xDF) || status == 0xF1 || status
                == 0xF3 {
                2
            } else if status == 0xF2 {
                3
            } else if (0x80 <= status && status <= 0xBF) || (0xE0 <= status && status <= 0xEF) {
                3
            } else {
                1
            };
            proof {
                assert(msg_need(status) == need);
            }
            if midi.len() - i < need {
                // Incomplete trailing message: dropped, packing stops.
                proof {
                    assert(spec_pack(rest) == Seq::<u8>::empty());
                    assert(midi@.skip(midi@.len() as int).len() == 0);
                    assert(out@ + spec_pack(midi@.skip(midi@.len() as int)) =~= out@);
                }
                i = midi.len();
            } else {
                let cin = (status >> 4) & 0x0F;
                out.push(cin);
                out.push(status);
                out.push(if need > 1 { midi[i + 1] } else { 0 });
                out.push(if need > 2 { midi[i + 2] } else { 0 });
                proof {
                    let m = rest.take(need as int);
                    assert(m =~= midi@.subrange(i as int, i as int + need as int));
                    assert(out@ =~= pre + packet(status_cin(status), m));
                    assert(rest.skip(need as int) =~= midi@.skip(i as int + need as int));
                    assert(spec_pack(rest) == packet(status_cin(status), m) + spec_pack(
                        rest.skip(need as int),
                    ));
                    assert(pre + (packet(status_cin(status), m) + spec_pack(
                        rest.skip(need as int),
                    )) =~= out@ + spec_pack(rest.skip(need as int)));
                }
                i = i + need;
            }
        }
    }
    proof {
        assert(midi@.skip(i as int).len() == 0);
        assert(out@ + spec_pack(midi@.skip(i as int)) =~= out@);
    }
    out
}

/// Splits a raw MIDI byte stream into its complete messages, re-deriving
/// boundaries from the status bytes. Data bytes found outside a message are
/// skipped as noise; running status is not supported.
#[verifier::rlimit(60)]
pub fn split_midi_messages(bs: &[u8]) -> (out: Vec<Vec<u8>>)
    ensures
        out.deep_view() == spec_split(bs@),
{
    let mut out: Vec<Vec<u8>> = Vec::new();
    let mut i: usize = 0;
    proof {
        assert(bs@.skip(0) =~= bs@);
        assert(Seq::<Seq<u8>>::empty() + spec_split(bs@) =~= spec_split(bs@));
        assert(out.deep_view() =~= Seq::<Seq<u8>>::empty());
    }
    while i < bs.len()
        invariant
            i <= bs@.len(),
            spec_split(bs@) == out.deep_view() + spec_split(bs@.skip(i as int)),
        decreases bs@.len() - i,
    {
        let ghost rest = bs@.skip(i as int);
        let ghost pre = out.deep_view();
        proof {
            assert(rest[0] == bs@[i as int]);
        }
        let b0 = bs[i];
        if 0xF8 <= b0 && b0 != 0xF9 && b0 != 0xFD {
            let mut msg: Vec<u8> = Vec::new();
            msg.push(b0);
            out.push(msg);
            proof {
                assert(out.deep_view() =~~= pre + seq![seq![b0]]);
                assert(rest.skip(1) =~= bs@.skip(i as int + 1));
                assert(pre + (seq![seq![b0]] + spec_split(rest.skip(1))) =~= out.deep_view()
                    + spec_split(rest.skip(1)));
            }
            i = i + 1;
        } else if b0 < 0x80 {
            // Noise outside any message: skipped, not an error.
            proof {
                assert(rest.skip(1) =~= bs@.skip(i as int + 1));
            }
            i = i + 1;
        } else if b0 == 0xF0 {
            let mut end: usize = i + 1;
            while end < bs.len() && bs[end] != 0xF7
                invariant
                    i + 1 <= end <= bs@.len(),
                    forall|j: int| i + 1 <= j < end ==> bs@[j] != 0xF7,
                decreases bs@.len() - end,
            {
                end = end + 1;
            }
            let f7_found = end < bs.len();
            if f7_found {
                end = end + 1;
            }
            proof {
                let t = bs@.skip(i as int + 1);
                assert(rest.skip(1) =~= t);
                if f7_found {
                    let k = (end - i - 2) as nat;
                    assert forall|j: int| 0 <= j < k implies t[j] != 0xF7 by {
                        assert(t[j] == bs@[i + 1 + j]);
                    }
                    assert(t[k as int] == bs@[end - 1]);
                    lemma_byte_pos_unique(t, 0xF7, k);
                } else {
                    assert forall|j: int| 0 <= j < t.len() implies t[j] != 0xF7 by {
                        assert(t[j] == bs@[i + 1 + j]);
                    }
                    lemma_byte_pos_unique(t, 0xF7, t.len());
                }
                assert(sysex_extent(rest) == end - i);
            }
            let msg = copy_range(bs, i, end);
            out.push(msg);
            proof {
                assert(rest.take(end as int - i as int) =~= bs@.subrange(i as int, end as int));
                assert(out.deep_view() =~~= pre + seq![rest.take(end as int - i as int)]);
                assert(rest.skip(end as int - i as int) =~= bs@.skip(end as int));
                assert(pre + (seq![rest.take(end as int - i as int)] + spec_split(
                    rest.skip(end as int - i as int),
                )) =~= out.deep_view() + spec_split(rest.skip(end as int - i as int)));
            }
            i = end;
        } else {
            let need: usize = if (0xC0 <= b0 && b0 <= 0xDF) || b0 == 0xF1 || b0 == 0xF3 {
                2
            } else if b0 == 0xF2 {
                3
            } else if (0x80 <= b0 && b0 <= 0xBF) || (0xE0 <= b0 && b0 <= 0xEF) {
                3
            } else {
                1
            };
            proof {
                assert(msg_need(b0) == need);
            }
            if bs.len() - i >= need {
                let msg = copy_range(bs, i, i + need);
                out.push(msg);
                proof {
                    assert(rest.take(need as int) =~= bs@.subrange(
                        i as int,
                        i as int + need as int,
                    ));
                    assert(out.deep_view() =~~= pre + seq![rest.take(need as int)]);
                    assert(rest.skip(need as int) =~= bs@.skip(i as int + need as int));
                    assert(pre + (seq![rest.take(need as int)] + spec_split(
                        rest.skip(need as int),
                    )) =~= out.deep_view() + spec_split(rest.skip(need as int)));
                }
                i = i + need;
            } else {
                // Incomplete trailing message: dropped, splitting stops.
                proof {
                    assert(spec_split(rest) == Seq::<Seq<u8>>::empty());
                    assert(bs@.skip(bs@.len() as int).len() == 0);
                    assert(out.deep_view() + spec_split(bs@.skip(bs@.len() as int))
                        =~= out.deep_view());
                }
                i = bs.len();
            }
        }
    }
    proof {
        assert(bs@.skip(i as int).len() == 0);
        assert(out.deep_view() + spec_split(bs@.skip(i as int)) =~= out.deep_view());
    }
    out
}

/// Copies `s[from..to]` into a fresh buffer.
pub(crate) fn copy_range(s: &[u8], from: usize, to: usize) -> (r: Vec<u8>)
    requires
        from <= to <= s@.len(),
    ensures
        r@ == s@.subrange(from as int, to as int),
{
    let mut r: Vec<u8> = Vec::new();
    let mut j: usize = from;
    while j < to
        invariant
            from <= j <= to <= s@.len(),
            r@ == s@.subrange(from as int, j as int),
        decreases to - j,
    {
        r.push(s[j]);
        proof {
            assert(r@ =~= s@.subrange(from as int, j as int + 1));
        }
        j = j + 1;
    }
    r
}

/// A buffer whose length is not a multiple of four yields the same bytes as
/// its longest whole-group prefix: the partial trailing group is ignored,
/// never an error.
pub proof fn lemma_unpack_ignores_partial_tail(s: Seq<u8>)
    ensures
        spec_unpack(s) == spec_unpack(s.take(s.len() as int - (s.len() % 4) as int)),
    decreases s.len(),
{
    let t = s.take(s.len() as int - (s.len() % 4) as int);
    if s.len() < 4 {
        assert(t.len() == 0);
    } else {
        lemma_unpack_ignores_partial_tail(s.skip(4));
        let u = s.skip(4);
        assert(u.len() % 4 == s.len() % 4);
        assert(t.skip(4) =~= u.take(u.len() as int - (u.len() % 4) as int));
        assert(t.subrange(1, 1 + cin_len(t[0] & 0x0F) as int) =~= s.subrange(
            1,
            1 + cin_len(s[0] & 0x0F) as int,
        ));
    }
}

/// A single well-formed MIDI message as this codec frames it: one real-time
/// byte, a terminated SysEx whose interior holds no 0xF7, or any other
/// status byte followed by exactly its message length. The system-common
/// statuses 0xF1, 0xF2 and 0xF3 are excluded: their packets reuse CIN 0x0F,
/// which does not carry their data bytes back out.
pub open spec fn wf_msg(m: Seq<u8>) -> bool {
    if m.len() == 0 {
        false
    } else if is_realtime(m[0]) {
        m.len() == 1
    } else if m[0] == 0xF0 {
        &&& m.len() >= 2
        &&& m[m.len() - 1] == 0xF7
        &&& forall|i: int| 0 <= i < m.len() - 1 ==> m[i] != 0xF7
    } else {
        &&& 0x80 <= m[0]
        &&& m[0] != 0xF1
        &&& m[0] != 0xF2
        &&& m[0] != 0xF3
        &&& m.len() == msg_need(m[0])
    }
}

/// Bytes consumed from the head of a nonempty stream by the splitting
/// rules: one for a real-time byte, the SysEx extent after 0xF0, otherwise
/// the status byte's message length.
pub open spec fn first_extent(s: Seq<u8>) -> nat {
    if is_realtime(s[0]) {
        1
    } else if s[0] == 0xF0 {
        sysex_extent(s)
    } else {
        msg_need(s[0])
    }
}

/// A stream that is a concatenation of complete well-formed messages.
pub open spec fn wf_stream(s: Seq<u8>) -> bool
    decreases s.len(),
{
    if s.len() == 0 {
        true
    } else {
        let e = first_extent(s);
        if 1 <= e <= s.len() {
            wf_msg(s.take(e as int)) && wf_stream(s.skip(e as int))
        } else {
            false
        }
    }
}

/// Unpacking distributes over appending whole 4-byte packet groups.
pub proof fn lemma_unpack_append(a: Seq<u8>, b: Seq<u8>)
    requires
        a.len() % 4 == 0,
    ensures
        spec_unpack(a + b) == spec_unpack(a) + spec_unpack(b),
    decreases a.len(),
{
    if a.len() == 0 {
        assert(a + b =~= b);
        assert(spec_unpack(a) + spec_unpack(b) =~= spec_unpack(b));
    } else {
        assert(a.len() >= 4);
        lemma_unpack_append(a.skip(4), b);
        let payload = a.subrange(1, 1 + cin_len(a[0] & 0x0F) as int);
        assert((a + b).skip(4) =~= a.skip(4) + b);
        assert((a + b).subrange(1, 1 + cin_len((a + b)[0] & 0x0F) as int) =~= payload);
        assert(payload + (spec_unpack(a.skip(4)) + spec_unpack(b)) =~= (payload + spec_unpack(
            a.skip(4),
        )) + spec_unpack(b));
    }
}

/// Chunked SysEx packets always come in whole 4-byte groups.
pub proof fn lemma_chunks_len(d: Seq<u8>)
    ensures
        pack_sysex_chunks(d).len() % 4 == 0,
    decreases d.len(),
{
    if d.len() > 3 {
        lemma_chunks_len(d.skip(3));
    }
}

/// Unpacking the chunk packets of a SysEx body that ends with its
/// terminator (and holds no other 0xF7) restores the body byte for byte.
pub proof fn lemma_chunks_unpack(d: Seq<u8>)
    requires
        d.len() >= 1,
        d[d.len() - 1] == 0xF7,
        forall|i: int| 0 <= i < d.len() - 1 ==> d[i] != 0xF7,
    ensures
        spec_unpack(pack_sysex_chunks(d)) == d,
    decreases d.len(),
{
    assert(0x05u8 & 0x0F == 0x05 && 0x06u8 & 0x0F == 0x06 && 0x07u8 & 0x0F == 0x07 && 0x04u8
        & 0x0F == 0x04) by (bit_vector);
    if d.len() <= 3 {
        assert(d.contains(0xF7));
        let p = packet(len_cin(d.len()), d);
        assert(pack_sysex_chunks(d) == p);
        assert(p.skip(4).len() == 0);
        assert(spec_unpack(p.skip(4)) == Seq::<u8>::empty());
        assert(p.subrange(1, 1 + cin_len(p[0] & 0x0F) as int) =~= d);
        assert(spec_unpack(p) == p.subrange(1, 1 + cin_len(p[0] & 0x0F) as int) + spec_unpack(
            p.skip(4),
        ));
        assert(d + Seq::<u8>::empty() =~= d);
    } else {
        let c = d.take(3);
        assert forall|k: int| 0 <= k < c.len() implies c[k] != 0xF7 by {
            assert(c[k] == d[k]);
        }
        assert(!c.contains(0xF7));
        let rest = d.skip(3);
        assert(rest[rest.len() - 1] == d[d.len() - 1]);
        assert forall|i: int| 0 <= i < rest.len() - 1 implies rest[i] != 0xF7 by {
            assert(rest[i] == d[i + 3]);
        }
        lemma_chunks_unpack(rest);
        let p = packet(0x04, c);
        lemma_unpack_append(p, pack_sysex_chunks(rest));
        assert(p.skip(4).len() == 0);
        assert(spec_unpack(p.skip(4)) == Seq::<u8>::empty());
        assert(p.subrange(1, 1 + cin_len(p[0] & 0x0F) as int) =~= c);
        assert(spec_unpack(p) == p.subrange(1, 1 + cin_len(p[0] & 0x0F) as int) + spec_unpack(
            p.skip(4),
        ));
        assert(c + Seq::<u8>::empty() =~= c);
        assert(pack_sysex_chunks(d) == p + pack_sysex_chunks(rest));
        assert(c + rest =~= d);
    }
}

/// Packing a well-formed stream and unpacking the packets restores the
/// stream byte for byte.
pub proof fn lemma_pack_unpack_id(s: Seq<u8>)
    requires
        wf_stream(s),
    ensures
        spec_unpack(spec_pack(s)) == s,
    decreases s.len(),
{
    if s.len() == 0 {
        assert(spec_unpack(spec_pack(s)) =~= s);
    } else {
        let b = s[0];
        let e = first_extent(s);
        let m = s.take(e as int);
        let rest = s.skip(e as int);
        lemma_pack_unpack_id(rest);
        assert(m[0] == b);
        assert(0x0Fu8 & 0x0F == 0x0F && 0x05u8 & 0x0F == 0x05 && 0x06u8 & 0x0F == 0x06 && 0x07u8
            & 0x0F == 0x07) by (bit_vector);
        if is_realtime(b) {
            let p = seq![0x0Fu8, b, 0u8, 0u8];
            assert(spec_pack(s) == p + spec_pack(rest));
            lemma_unpack_append(p, spec_pack(rest));
            assert(p.skip(4).len() == 0);
            assert(spec_unpack(p.skip(4)) == Seq::<u8>::empty());
            assert(p.subrange(1, 1 + cin_len(p[0] & 0x0F) as int) =~= seq![b]);
            assert(spec_unpack(p) == p.subrange(1, 1 + cin_len(p[0] & 0x0F) as int) + spec_unpack(
                p.skip(4),
            ));
            assert(seq![b] + Seq::<u8>::empty() =~= seq![b]);
            assert(seq![b] + rest =~= s);
        } else if b == 0xF0 {
            if m.len() <= 3 {
                let p = packet(len_cin(m.len()), m);
                assert(spec_pack(s) == p + spec_pack(rest));
                lemma_unpack_append(p, spec_pack(rest));
                assert(p.skip(4).len() == 0);
                assert(spec_unpack(p.skip(4)) == Seq::<u8>::empty());
                assert(p.subrange(1, 1 + cin_len(p[0] & 0x0F) as int) =~= m);
                assert(spec_unpack(p) == p.subrange(1, 1 + cin_len(p[0] & 0x0F) as int)
                    + spec_unpack(p.skip(4)));
                assert(m + Seq::<u8>::empty() =~= m);
            } else {
                assert(spec_pack(s) == pack_sysex_chunks(m) + spec_pack(rest));
                lemma_chunks_unpack(m);
                lemma_chunks_len(m);
                lemma_unpack_append(pack_sysex_chunks(m), spec_pack(rest));
            }
            assert(m + rest =~= s);
        } else {
            let cin = status_cin(b);
            assert(((b >> 4) & 0x0F) & 0x0F == (b >> 4) & 0x0F) by (bit_vector);
            assert(cin & 0x0F == cin);
            assert((0x80 <= b && b <= 0xBF) ==> ((b >> 4) & 0x0F == 8 || (b >> 4) & 0x0F == 9 || (b
                >> 4) & 0x0F == 0xA || (b >> 4) & 0x0F == 0xB)) by (bit_vector);
            assert((0xC0 <= b && b <= 0xDF) ==> ((b >> 4) & 0x0F == 0xC || (b >> 4) & 0x0F == 0xD))
                by (bit_vector);
            assert((0xE0 <= b && b <= 0xEF) ==> ((b >> 4) & 0x0F == 0xE)) by (bit_vector);
            assert((0xF0 <= b) ==> ((b >> 4) & 0x0F == 0xF)) by (bit_vector);
            assert(cin_len(cin) == msg_need(b));
            let p = packet(cin, m);
            assert(spec_pack(s) == p + spec_pack(rest));
            lemma_unpack_append(p, spec_pack(rest));
            assert(p.skip(4).len() == 0);
            assert(spec_unpack(p.skip(4)) == Seq::<u8>::empty());
            assert(p.subrange(1, 1 + cin_len(p[0] & 0x0F) as int) =~= m);
            assert(spec_unpack(p) == p.subrange(1, 1 + cin_len(p[0] & 0x0F) as int) + spec_unpack(
                p.skip(4),
            ));
            assert(m + Seq::<u8>::empty() =~= m);
            assert(m + rest =~= s);
        }
    }
}

/// The messages a well-formed stream is a concatenation of, in order.
pub open spec fn wf_messages(s: Seq<u8>) -> Seq<Seq<u8>>
    decreases s.len(),
{
    if s.len() == 0 {
        Seq::empty()
    } else {
        let e = first_extent(s);
        if 1 <= e <= s.len() {
            seq![s.take(e as int)] + wf_messages(s.skip(e as int))
        } else {
            Seq::empty()
        }
    }
}

/// Splitting a well-formed stream yields exactly the messages it is a
/// concatenation of.
pub proof fn lemma_split_wf_stream(s: Seq<u8>)
    requires
        wf_stream(s),
    ensures
        spec_split(s) == wf_messages(s),
    decreases s.len(),
{
    if s.len() > 0 {
        let e = first_extent(s);
        let m = s.take(e as int);
        assert(m[0] == s[0]);
        assert(wf_msg(m));
        assert(s[0] >= 0x80);
        if is_realtime(s[0]) {
            assert(seq![s[0]] =~= s.take(1));
        }
        lemma_split_wf_stream(s.skip(e as int));
        assert(spec_split(s) == seq![m] + spec_split(s.skip(e as int)));
    }
}

/// For a well-formed stream the whole transport round trip is the
/// identity: unpacking what `spec_pack` produced returns the original
/// bytes, and splitting the result recovers exactly the messages the
/// stream was made of.
pub proof fn lemma_transport_roundtrip(s: Seq<u8>)
    requires
        wf_stream(s),
    ensures
        spec_unpack(spec_pack(s)) == s,
        spec_split(spec_unpack(spec_pack(s))) == wf_messages(s),
{
    lemma_pack_unpack_id(s);
    lemma_split_wf_stream(s);
}

} // verus!
