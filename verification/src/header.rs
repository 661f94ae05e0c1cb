//! The `"fmt "` chunk of a WAVE stream: the format descriptor and its sixteen
//! byte layout.

use crate::le_bytes::{
    lemma_u16_bytes_roundtrip, lemma_u16_value_roundtrip, lemma_u32_bytes_roundtrip,
    lemma_u32_value_roundtrip, u16_from_le, u16_from_le_bytes, u16_le, u16_to_le_bytes,
    u32_from_le, u32_from_le_bytes, u32_le, u32_to_le_bytes,
};
use vstd::prelude::*;
use vstd::std_specs::convert::{FromSpecImpl, TryFromSpecImpl};

verus! {

/// Value signifying PCM data.
pub const WAV_FORMAT_PCM: u16 = 0x01;

/// Value signifying IEEE float data.
pub const WAV_FORMAT_IEEE_FLOAT: u16 = 0x03;

/// Structure for the `"fmt "` chunk of wave files, specifying key information
/// about the enclosed data.
///
/// Only PCM and IEEE float data are described, which is to say there are no
/// extra members for compressed format data.
#[derive(Debug, Copy, Clone, Hash, PartialEq, Eq, Structural)]
pub struct Header {
    pub audio_format: u16,
    pub channel_count: u16,
    pub sampling_rate: u32,
    pub bytes_per_second: u32,
    pub bytes_per_sample: u16,
    pub bits_per_sample: u16,
}

/// The sixteen bytes of a descriptor: its six fields in order, each
/// little-endian.
pub open spec fn header_bytes(h: Header) -> Seq<u8> {
    u16_le(h.audio_format) + u16_le(h.channel_count) + u32_le(h.sampling_rate) + u32_le(
        h.bytes_per_second,
    ) + u16_le(h.bytes_per_sample) + u16_le(h.bits_per_sample)
}

/// The descriptor that the first sixteen bytes of `b` spell out, every field
/// taken as it stands.
pub open spec fn header_of_bytes(b: Seq<u8>) -> Header
    recommends
        b.len() >= 16,
{
    Header {
        audio_format: u16_from_le(b.subrange(0, 2)),
        channel_count: u16_from_le(b.subrange(2, 4)),
        sampling_rate: u32_from_le(b.subrange(4, 8)),
        bytes_per_second: u32_from_le(b.subrange(8, 12)),
        bytes_per_sample: u16_from_le(b.subrange(12, 14)),
        bits_per_sample: u16_from_le(b.subrange(14, 16)),
    }
}

/// A descriptor that is laid out and read back is the same descriptor, whatever
/// its fields hold.
pub proof fn lemma_header_roundtrip(h: Header)
    ensures
        header_bytes(h).len() == 16,
        header_of_bytes(header_bytes(h)) == h,
{
    let b = header_bytes(h);
    lemma_u16_value_roundtrip(h.audio_format);
    lemma_u16_value_roundtrip(h.channel_count);
    lemma_u32_value_roundtrip(h.sampling_rate);
    lemma_u32_value_roundtrip(h.bytes_per_second);
    lemma_u16_value_roundtrip(h.bytes_per_sample);
    lemma_u16_value_roundtrip(h.bits_per_sample);
    assert(b.subrange(0, 2) =~= u16_le(h.audio_format));
    assert(b.subrange(2, 4) =~= u16_le(h.channel_count));
    assert(b.subrange(4, 8) =~= u32_le(h.sampling_rate));
    assert(b.subrange(8, 12) =~= u32_le(h.bytes_per_second));
    assert(b.subrange(12, 14) =~= u16_le(h.bytes_per_sample));
    assert(b.subrange(14, 16) =~= u16_le(h.bits_per_sample));
}

/// Sixteen bytes that are read as a descriptor and laid out again are the same
/// sixteen bytes.
pub proof fn lemma_header_bytes_roundtrip(b: Seq<u8>)
    requires
        b.len() == 16,
    ensures
        header_bytes(header_of_bytes(b)) == b,
{
    lemma_u16_bytes_roundtrip(b.subrange(0, 2));
    lemma_u16_bytes_roundtrip(b.subrange(2, 4));
    lemma_u32_bytes_roundtrip(b.subrange(4, 8));
    lemma_u32_bytes_roundtrip(b.subrange(8, 12));
    lemma_u16_bytes_roundtrip(b.subrange(12, 14));
    lemma_u16_bytes_roundtrip(b.subrange(14, 16));
    assert(header_bytes(header_of_bytes(b)) =~= b);
}

impl Header {
    /// Whether the two derived fields are what the four primary fields give.
    pub open spec fn consistent(self) -> bool {
        &&& self.bytes_per_sample == (self.bits_per_sample / 8) * self.channel_count
        &&& self.bytes_per_second == self.bytes_per_sample * self.sampling_rate
    }

    /// Creates a new Header object.
    ///
    /// While [`crate::read`] and [`crate::write`] only support uncompressed
    /// PCM/IEEE for the audio format, any audio format and any bit depth may be
    /// given here, for custom implementations of wave features.
    ///
    /// ## Parameters
    ///
    /// * `audio_format` - Audio format. Only [`WAV_FORMAT_PCM`] (0x01) and
    ///   [`WAV_FORMAT_IEEE_FLOAT`] (0x03) are supported.
    /// * `channel_count` - The number of channels each sample has. Generally 1
    ///   (mono) or 2 (stereo).
    /// * `sampling_rate` - Sampling rate (e.g. 44.1kHz, 48kHz, 96kHz, etc.).
    /// * `bits_per_sample` - Number of bits in each (sub-channel) sample.
    ///   Generally 8, 16, 24, or 32.
    ///
    /// The two derived fields have to fit their widths.
    #[must_use]
    pub fn new(audio_format: u16, channel_count: u16, sampling_rate: u32, bits_per_sample: u16) -> (h:
        Header)
        requires
            (bits_per_sample / 8) * channel_count <= u16::MAX,
            (bits_per_sample / 8) * channel_count * sampling_rate <= u32::MAX,
        ensures
            h.audio_format == audio_format,
            h.channel_count == channel_count,
            h.sampling_rate == sampling_rate,
            h.bits_per_sample == bits_per_sample,
            h.consistent(),
    {
        assert(bits_per_sample >> 3 == bits_per_sample / 8) by (bit_vector);
        let bytes_per_sample: u16 = (bits_per_sample >> 3) * channel_count;
        Header {
            audio_format,
            channel_count,
            sampling_rate,
            bits_per_sample,
            bytes_per_second: (bytes_per_sample as u32) * sampling_rate,
            bytes_per_sample,
        }
    }
}

impl Default for Header {
    /// The descriptor whose six fields are zero.
    fn default() -> (h: Self)
        ensures
            h == (Header {
                audio_format: 0,
                channel_count: 0,
                sampling_rate: 0,
                bytes_per_second: 0,
                bytes_per_sample: 0,
                bits_per_sample: 0,
            }),
    {
        Header {
            audio_format: 0,
            channel_count: 0,
            sampling_rate: 0,
            bytes_per_second: 0,
            bytes_per_sample: 0,
            bits_per_sample: 0,
        }
    }
}

/// The array that holds the sixteen bytes of `h`.
pub open spec fn header_array(h: Header) -> [u8; 16] {
    let b = header_bytes(h);
    [
        b[0], b[1], b[2], b[3], b[4], b[5], b[6], b[7],
        b[8], b[9], b[10], b[11], b[12], b[13], b[14], b[15],
    ]
}

/// The array of a descriptor holds its sixteen bytes, in order.
pub proof fn lemma_header_array(h: Header)
    ensures
        header_array(h)@ == header_bytes(h),
{
    assert(header_array(h)@ =~= header_bytes(h));
}

impl From<Header> for [u8; 16] {
    /// Lays the six fields out in their fixed places.
    fn from(h: Header) -> (v: Self) {
        let mut v: [u8; 16] = [0; 16];

        let b = u16_to_le_bytes(h.audio_format);
        v[0] = b[0];
        v[1] = b[1];
        let b = u16_to_le_bytes(h.channel_count);
        v[2] = b[0];
        v[3] = b[1];
        let b = u32_to_le_bytes(h.sampling_rate);
        v[4] = b[0];
        v[5] = b[1];
        v[6] = b[2];
        v[7] = b[3];
        let b = u32_to_le_bytes(h.bytes_per_second);
        v[8] = b[0];
        v[9] = b[1];
        v[10] = b[2];
        v[11] = b[3];
        let b = u16_to_le_bytes(h.bytes_per_sample);
        v[12] = b[0];
        v[13] = b[1];
        let b = u16_to_le_bytes(h.bits_per_sample);
        v[14] = b[0];
        v[15] = b[1];

        assert(v =~= header_array(h));
        v
    }
}

impl FromSpecImpl<Header> for [u8; 16] {
    open spec fn obeys_from_spec() -> bool {
        true
    }

    open spec fn from_spec(h: Header) -> [u8; 16] {
        header_array(h)
    }
}

impl From<[u8; 16]> for Header {
    /// Takes the six fields from their fixed places, as they stand.
    fn from(v: [u8; 16]) -> (h: Self) {
        let audio_format = u16_from_le_bytes([v[0], v[1]]);
        let channel_count = u16_from_le_bytes([v[2], v[3]]);
        let sampling_rate = u32_from_le_bytes([v[4], v[5], v[6], v[7]]);
        let bytes_per_second = u32_from_le_bytes([v[8], v[9], v[10], v[11]]);
        let bytes_per_sample = u16_from_le_bytes([v[12], v[13]]);
        let bits_per_sample = u16_from_le_bytes([v[14], v[15]]);

        Header {
            audio_format,
            channel_count,
            sampling_rate,
            bytes_per_second,
            bytes_per_sample,
            bits_per_sample,
        }
    }
}

impl FromSpecImpl<[u8; 16]> for Header {
    open spec fn obeys_from_spec() -> bool {
        true
    }

    open spec fn from_spec(v: [u8; 16]) -> Header {
        header_of_bytes(v@)
    }
}

impl<'a> TryFrom<&'a [u8]> for Header {
    type Error = &'static str;

    /// Reads a descriptor from the first sixteen bytes of `v`.
    ///
    /// ## Errors
    ///
    /// This function will return an error if the given slice is smaller than
    /// 16 bytes.
    fn try_from(v: &'a [u8]) -> (r: Result<Self, Self::Error>) {
        if v.len() < 16 {
            Err("Slice is smaller than the minimum-required 16 bytes")
        } else {
            let a: [u8; 16] = [
                v[0], v[1], v[2], v[3], v[4], v[5], v[6], v[7],
                v[8], v[9], v[10], v[11], v[12], v[13], v[14], v[15],
            ];
            Ok(Header::from(a))
        }
    }
}

impl<'a> TryFromSpecImpl<&'a [u8]> for Header {
    open spec fn obeys_try_from_spec() -> bool {
        true
    }

    open spec fn try_from_spec(v: &'a [u8]) -> Result<Self, Self::Error> {
        if v@.len() < 16 {
            Err("Slice is smaller than the minimum-required 16 bytes")
        } else {
            Ok(header_of_bytes(v@))
        }
    }
}

} // verus!
