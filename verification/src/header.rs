//! Stream headers.
//!
//! `Header` is the small value type describing stream-level metadata.
//! `SpeexHeader` is the standard header packet of a coded stream: a
//! fixed 80-byte layout holding an eight-byte magic token, a twenty-byte
//! version string, and thirteen little-endian 32-bit fields.

use vstd::prelude::*;

use crate::mode::SpeexMode;
use crate::Mode;

verus! {

/// Stream-level metadata: sample rate, coder mode and whether the
/// stream is variable bit-rate. Immutable value type, independent of
/// the bit buffer.
pub struct Header {
    pub sample_rate: u32,
    pub mode: Mode,
    pub variable_bit_rate: bool,
}

impl Header {
    /// The version string of the coded-stream format this library
    /// speaks.
    pub fn get_version_string() -> (r: &'static str)
        ensures
            r@ == "1.2rc2"@,
    {
        "1.2rc2"
    }
}

/// The eight-byte magic token that opens a header packet: `"Speex   "`.
pub open spec fn magic_bytes() -> Seq<u8> {
    seq![83u8, 112u8, 101u8, 101u8, 120u8, 32u8, 32u8, 32u8]
}

/// The twenty-byte version field of a header packet: the version string
/// zero-padded.
pub open spec fn version_bytes() -> Seq<u8> {
    seq![
        49u8,
        46u8,
        50u8,
        114u8,
        99u8,
        50u8,
        0u8,
        0u8,
        0u8,
        0u8,
        0u8,
        0u8,
        0u8,
        0u8,
        0u8,
        0u8,
        0u8,
        0u8,
        0u8,
        0u8,
    ]
}

/// The little-endian bytes of a 32-bit value.
pub open spec fn le_bytes_of_u32(v: u32) -> Seq<u8> {
    seq![
        (v & 0xff) as u8,
        ((v >> 8u32) & 0xff) as u8,
        ((v >> 16u32) & 0xff) as u8,
        ((v >> 24u32) & 0xff) as u8,
    ]
}

/// The 32-bit value four little-endian bytes hold.
pub open spec fn u32_of_le_bytes(b0: u8, b1: u8, b2: u8, b3: u8) -> u32 {
    (b0 as u32) | ((b1 as u32) << 8u32) | ((b2 as u32) << 16u32) | ((b3 as u32) << 24u32)
}

/// The signed 32-bit field stored at byte offset `off` of a packet.
pub open spec fn le_i32_at(b: Seq<u8>, off: int) -> i32 {
    u32_of_le_bytes(b[off], b[off + 1], b[off + 2], b[off + 3]) as i32
}

/// Reading back the little-endian bytes of a value gives the value.
pub proof fn lemma_le_roundtrip(v: u32)
    ensures
        u32_of_le_bytes(
            (v & 0xff) as u8,
            ((v >> 8u32) & 0xff) as u8,
            ((v >> 16u32) & 0xff) as u8,
            ((v >> 24u32) & 0xff) as u8,
        ) == v,
{
    assert((((v & 0xff) as u8) as u32) | ((((v >> 8u32) & 0xff) as u8) as u32) << 8u32 | ((((v
        >> 16u32) & 0xff) as u8) as u32) << 16u32 | ((((v >> 24u32) & 0xff) as u8) as u32)
        << 24u32 == v) by (bit_vector);
}

/// Standard speex stream header packet.
///
/// The magic token and the version field are fixed by the format; the
/// thirteen numeric fields are held here and serialized little-endian.
#[derive(Copy, Clone, PartialEq, Eq, Structural, Debug)]
pub struct SpeexHeader {
    pub speex_version_id: i32,
    pub header_size: i32,
    pub rate: i32,
    pub mode: i32,
    pub mode_bitstream_version: i32,
    pub nb_channels: i32,
    pub bitrate: i32,
    pub frame_size: i32,
    pub vbr: i32,
    pub frames_per_packet: i32,
    pub extra_headers: i32,
    pub reserved1: i32,
    pub reserved2: i32,
}

/// The 80-byte packet serialization of a header.
pub open spec fn header_packet(h: SpeexHeader) -> Seq<u8> {
    magic_bytes() + version_bytes() + le_bytes_of_u32(h.speex_version_id as u32)
        + le_bytes_of_u32(h.header_size as u32) + le_bytes_of_u32(h.rate as u32)
        + le_bytes_of_u32(h.mode as u32) + le_bytes_of_u32(h.mode_bitstream_version as u32)
        + le_bytes_of_u32(h.nb_channels as u32) + le_bytes_of_u32(h.bitrate as u32)
        + le_bytes_of_u32(h.frame_size as u32) + le_bytes_of_u32(h.vbr as u32)
        + le_bytes_of_u32(h.frames_per_packet as u32) + le_bytes_of_u32(h.extra_headers as u32)
        + le_bytes_of_u32(h.reserved1 as u32) + le_bytes_of_u32(h.reserved2 as u32)
}

/// What parsing a packet yields: the header whose fields the packet
/// holds, or nothing if the packet is shorter than the fixed layout or
/// does not open with the magic token.
pub open spec fn parse_header(b: Seq<u8>) -> Option<SpeexHeader> {
    if b.len() >= 80 && b.subrange(0, 8) == magic_bytes() {
        Some(
            SpeexHeader {
                speex_version_id: le_i32_at(b, 28),
                header_size: le_i32_at(b, 32),
                rate: le_i32_at(b, 36),
                mode: le_i32_at(b, 40),
                mode_bitstream_version: le_i32_at(b, 44),
                nb_channels: le_i32_at(b, 48),
                bitrate: le_i32_at(b, 52),
                frame_size: le_i32_at(b, 56),
                vbr: le_i32_at(b, 60),
                frames_per_packet: le_i32_at(b, 64),
                extra_headers: le_i32_at(b, 68),
                reserved1: le_i32_at(b, 72),
                reserved2: le_i32_at(b, 76),
            },
        )
    } else {
        None
    }
}

impl SpeexHeader {
    /// A fresh header for a stream of the given rate, channel count and
    /// mode: the mode's own numbers are filled in and the tunable fields
    /// take their conventional initial values.
    pub fn new(rate: i32, nb_channels: i32, mode: &SpeexMode) -> (r: Self)
        ensures
            r == (SpeexHeader {
                speex_version_id: 1,
                header_size: 80,
                rate,
                mode: mode.mode_id.id_spec() as i32,
                mode_bitstream_version: mode.bitstream_version,
                nb_channels,
                bitrate: -1i32,
                frame_size: mode.frame_size,
                vbr: 0,
                frames_per_packet: 0,
                extra_headers: 0,
                reserved1: 0,
                reserved2: 0,
            }),
    {
        SpeexHeader {
            speex_version_id: 1,
            header_size: 80,
            rate,
            mode: mode.mode_id.to_id(),
            mode_bitstream_version: mode.bitstream_version,
            nb_channels,
            bitrate: -1,
            frame_size: mode.frame_size,
            vbr: 0,
            frames_per_packet: 0,
            extra_headers: 0,
            reserved1: 0,
            reserved2: 0,
        }
    }

    /// Serializes this header as its 80-byte packet.
    pub fn make_packet(&self) -> (r: Vec<u8>)
        ensures
            r@ == header_packet(*self),
            r@.len() == 80,
    {
        let mut out: Vec<u8> = Vec::new();
        out.push(83);
        out.push(112);
        out.push(101);
        out.push(101);
        out.push(120);
        out.push(32);
        out.push(32);
        out.push(32);
        out.push(49);
        out.push(46);
        out.push(50);
        out.push(114);
        out.push(99);
        out.push(50);
        let mut pad: usize = 0;
        while pad < 14
            invariant
                pad <= 14,
                out@.len() == 14 + pad,
                forall|i: int| 0 <= i < 14 ==> out@[i] == (magic_bytes() + version_bytes())[i],
                forall|i: int| 14 <= i < out@.len() ==> out@[i] == 0,
            decreases 14 - pad,
        {
            out.push(0);
            pad = pad + 1;
        }
        proof {
            assert(out@ =~= magic_bytes() + version_bytes());
        }
        push_i32_le(&mut out, self.speex_version_id);
        push_i32_le(&mut out, self.header_size);
        push_i32_le(&mut out, self.rate);
        push_i32_le(&mut out, self.mode);
        push_i32_le(&mut out, self.mode_bitstream_version);
        push_i32_le(&mut out, self.nb_channels);
        push_i32_le(&mut out, self.bitrate);
        push_i32_le(&mut out, self.frame_size);
        push_i32_le(&mut out, self.vbr);
        push_i32_le(&mut out, self.frames_per_packet);
        push_i32_le(&mut out, self.extra_headers);
        push_i32_le(&mut out, self.reserved1);
        push_i32_le(&mut out, self.reserved2);
        proof {
            assert(out@ =~= header_packet(*self));
        }
        out
    }

    /// Parses a header packet: yields the header whose fields the packet
    /// holds, or nothing if the packet is shorter than the fixed layout
    /// or does not open with the magic token.
    pub fn from_packet(packet: &[u8]) -> (r: Option<SpeexHeader>)
        ensures
            r == parse_header(packet@),
    {
        if packet.len() < 80 {
            proof {
                assert(parse_header(packet@) is None);
            }
            return None;
        }
        let magic_ok = packet[0] == 83 && packet[1] == 112 && packet[2] == 101 && packet[3] == 101
            && packet[4] == 120 && packet[5] == 32 && packet[6] == 32 && packet[7] == 32;
        if !magic_ok {
            proof {
                assert(packet@.subrange(0, 8) == magic_bytes() ==> (packet@[0] == 83
                    && packet@[1] == 112 && packet@[2] == 101 && packet@[3] == 101 && packet@[4]
                    == 120 && packet@[5] == 32 && packet@[6] == 32 && packet@[7] == 32)) by {
                    if packet@.subrange(0, 8) == magic_bytes() {
                        assert(forall|i: int|
                            0 <= i < 8 ==> packet@[i] == #[trigger] packet@.subrange(0, 8)[i]);
                    }
                }
            }
            return None;
        }
        proof {
            assert(packet@.subrange(0, 8) =~= magic_bytes());
        }
        Some(
            SpeexHeader {
                speex_version_id: read_i32_le(packet, 28),
                header_size: read_i32_le(packet, 32),
                rate: read_i32_le(packet, 36),
                mode: read_i32_le(packet, 40),
                mode_bitstream_version: read_i32_le(packet, 44),
                nb_channels: read_i32_le(packet, 48),
                bitrate: read_i32_le(packet, 52),
                frame_size: read_i32_le(packet, 56),
                vbr: read_i32_le(packet, 60),
                frames_per_packet: read_i32_le(packet, 64),
                extra_headers: read_i32_le(packet, 68),
                reserved1: read_i32_le(packet, 72),
                reserved2: read_i32_le(packet, 76),
            },
        )
    }
}

/// Appends a 32-bit field to a packet, little-endian.
fn push_i32_le(out: &mut Vec<u8>, v: i32)
    ensures
        final(out)@ == old(out)@ + le_bytes_of_u32(v as u32),
{
    let u = v as u32;
    out.push((u & 0xff) as u8);
    out.push(((u >> 8u32) & 0xff) as u8);
    out.push(((u >> 16u32) & 0xff) as u8);
    out.push(((u >> 24u32) & 0xff) as u8);
    proof {
        assert(out@ =~= old(out)@ + le_bytes_of_u32(v as u32));
    }
}

/// Reads the 32-bit field at byte offset `off` of a packet.
fn read_i32_le(bytes: &[u8], off: usize) -> (r: i32)
    requires
        off + 4 <= bytes@.len(),
    ensures
        r == le_i32_at(bytes@, off as int),
{
    let b0 = bytes[off];
    let b1 = bytes[off + 1];
    let b2 = bytes[off + 2];
    let b3 = bytes[off + 3];
    let u: u32 = (b0 as u32) | ((b1 as u32) << 8u32) | ((b2 as u32) << 16u32) | ((b3 as u32)
        << 24u32);
    u as i32
}

/// Round trip: parsing the packet a header serializes to yields that
/// header back, field for field.
pub proof fn lemma_header_packet_roundtrip(h: SpeexHeader)
    ensures
        parse_header(header_packet(h)) == Some(h),
{
    let b = header_packet(h);
    assert(b.len() == 80);
    assert(b.subrange(0, 8) =~= magic_bytes());
    assert(b.subrange(28, 32) =~= le_bytes_of_u32(h.speex_version_id as u32));
    assert(b.subrange(32, 36) =~= le_bytes_of_u32(h.header_size as u32));
    assert(b.subrange(36, 40) =~= le_bytes_of_u32(h.rate as u32));
    assert(b.subrange(40, 44) =~= le_bytes_of_u32(h.mode as u32));
    assert(b.subrange(44, 48) =~= le_bytes_of_u32(h.mode_bitstream_version as u32));
    assert(b.subrange(48, 52) =~= le_bytes_of_u32(h.nb_channels as u32));
    assert(b.subrange(52, 56) =~= le_bytes_of_u32(h.bitrate as u32));
    assert(b.subrange(56, 60) =~= le_bytes_of_u32(h.frame_size as u32));
    assert(b.subrange(60, 64) =~= le_bytes_of_u32(h.vbr as u32));
    assert(b.subrange(64, 68) =~= le_bytes_of_u32(h.frames_per_packet as u32));
    assert(b.subrange(68, 72) =~= le_bytes_of_u32(h.extra_headers as u32));
    assert(b.subrange(72, 76) =~= le_bytes_of_u32(h.reserved1 as u32));
    assert(b.subrange(76, 80) =~= le_bytes_of_u32(h.reserved2 as u32));
    lemma_field_roundtrip(b, 28, h.speex_version_id);
    lemma_field_roundtrip(b, 32, h.header_size);
    lemma_field_roundtrip(b, 36, h.rate);
    lemma_field_roundtrip(b, 40, h.mode);
    lemma_field_roundtrip(b, 44, h.mode_bitstream_version);
    lemma_field_roundtrip(b, 48, h.nb_channels);
    lemma_field_roundtrip(b, 52, h.bitrate);
    lemma_field_roundtrip(b, 56, h.frame_size);
    lemma_field_roundtrip(b, 60, h.vbr);
    lemma_field_roundtrip(b, 64, h.frames_per_packet);
    lemma_field_roundtrip(b, 68, h.extra_headers);
    lemma_field_roundtrip(b, 72, h.reserved1);
    lemma_field_roundtrip(b, 76, h.reserved2);
}

/// Helper for the round trip: the field stored at `off` reads back as
/// the value written there.
proof fn lemma_field_roundtrip(b: Seq<u8>, off: int, v: i32)
    requires
        0 <= off,
        off + 4 <= b.len(),
        b.subrange(off, off + 4) == le_bytes_of_u32(v as u32),
    ensures
        le_i32_at(b, off) == v,
{
    assert(b[off] == le_bytes_of_u32(v as u32)[0]);
    assert(b[off + 1] == le_bytes_of_u32(v as u32)[1]);
    assert(b[off + 2] == le_bytes_of_u32(v as u32)[2]);
    assert(b[off + 3] == le_bytes_of_u32(v as u32)[3]);
    lemma_le_roundtrip(v as u32);
    assert(v as u32 as i32 == v) by (bit_vector);
}

} // verus!
