//! The sample codec: from the bytes of a `"data"` chunk to samples of one
//! width, and back.
//!
//! Which width is read is decided by the audio format and the bit depth of the
//! descriptor. Bytes that do not make up a whole sample at the end of a chunk
//! are left out, without an error.

use crate::bit_depth::{BitDepth, Samples};
use crate::error::WavError;
use crate::header::{Header, WAV_FORMAT_IEEE_FLOAT, WAV_FORMAT_PCM};
use crate::le_bytes::{
    i16_from_le, i16_from_le_bytes, i16_le, i16_to_le_bytes, i32_from_le, i32_from_le_bytes,
    i32_le, i32_to_le_bytes, lemma_i16_bytes_roundtrip, lemma_i16_value_roundtrip,
    lemma_i32_bytes_roundtrip, lemma_i32_value_roundtrip, lemma_u32_bytes_roundtrip,
    lemma_u32_value_roundtrip, u32_from_le, u32_from_le_bytes, u32_le, u32_to_le_bytes,
};
use crate::tuple_iterator::{PairIter, QuadrupletIter, TripletIter};
use vstd::prelude::*;

verus! {

/// The 16-bit samples in `b`: one for each whole pair of bytes, little-endian
/// and signed.
pub open spec fn sixteen_of_bytes(b: Seq<u8>) -> Seq<i16> {
    Seq::new(b.len() / 2, |i: int| i16_from_le(b.subrange(2 * i, 2 * i + 2)))
}

/// The 24-bit samples in `b`: one for each whole group of three bytes. The
/// three bytes are the low bytes of the sample and its high byte is zero, so
/// no sample is negative.
pub open spec fn twenty_four_of_bytes(b: Seq<u8>) -> Seq<i32> {
    Seq::new(b.len() / 3, |i: int| i32_from_le(b.subrange(3 * i, 3 * i + 3).push(0u8)))
}

/// The 32-bit float samples in `b`, as bit patterns: one for each whole group
/// of four bytes, little-endian.
pub open spec fn float_bits_of_bytes(b: Seq<u8>) -> Seq<u32> {
    Seq::new(b.len() / 4, |i: int| u32_from_le(b.subrange(4 * i, 4 * i + 4)))
}

/// The bytes of 16-bit samples: two for each, little-endian, in sample order.
pub open spec fn bytes_of_sixteen(v: Seq<i16>) -> Seq<u8> {
    Seq::new(2 * v.len(), |j: int| i16_le(v[j / 2])[j % 2])
}

/// The bytes of 24-bit samples: for each, the low three of its four
/// little-endian bytes, in sample order. The high byte is dropped.
pub open spec fn bytes_of_twenty_four(v: Seq<i32>) -> Seq<u8> {
    Seq::new(3 * v.len(), |j: int| i32_le(v[j / 3])[j % 3])
}

/// The bytes of 32-bit float samples given as bit patterns: four for each,
/// little-endian, in sample order.
pub open spec fn bytes_of_float_bits(v: Seq<u32>) -> Seq<u8> {
    Seq::new(4 * v.len(), |j: int| u32_le(v[j / 4])[j % 4])
}

/// What the bytes of a data chunk hold under the descriptor `h`.
///
/// PCM is read at 8, 16 or 24 bits and IEEE float at 32 bits; any other depth
/// is refused for its depth, and any other format for its format.
pub open spec fn decoded(h: Header, data: Seq<u8>) -> Result<Samples, WavError> {
    if h.audio_format == WAV_FORMAT_PCM {
        if h.bits_per_sample == 8 {
            Ok(Samples::Eight(data))
        } else if h.bits_per_sample == 16 {
            Ok(Samples::Sixteen(sixteen_of_bytes(data)))
        } else if h.bits_per_sample == 24 {
            Ok(Samples::TwentyFour(twenty_four_of_bytes(data)))
        } else {
            Err(WavError::UnsupportedBitDepth)
        }
    } else if h.audio_format == WAV_FORMAT_IEEE_FLOAT {
        if h.bits_per_sample == 32 {
            Ok(Samples::ThirtyTwoFloat(float_bits_of_bytes(data)))
        } else {
            Err(WavError::UnsupportedBitDepth)
        }
    } else {
        Err(WavError::UnsupportedFormat)
    }
}

/// The bytes that samples are written as. There are none for
/// [`Samples::Empty`], which is refused.
pub open spec fn encoded(t: Samples) -> Result<Seq<u8>, WavError> {
    match t {
        Samples::Eight(v) => Ok(v),
        Samples::Sixteen(v) => Ok(bytes_of_sixteen(v)),
        Samples::TwentyFour(v) => Ok(bytes_of_twenty_four(v)),
        Samples::ThirtyTwoFloat(v) => Ok(bytes_of_float_bits(v)),
        Samples::Empty => Err(WavError::EmptyData),
    }
}

/// Whether the samples are of the width that the descriptor names.
pub open spec fn agrees(h: Header, t: Samples) -> bool {
    match t {
        Samples::Eight(_) => h.audio_format == WAV_FORMAT_PCM && h.bits_per_sample == 8,
        Samples::Sixteen(_) => h.audio_format == WAV_FORMAT_PCM && h.bits_per_sample == 16,
        Samples::TwentyFour(_) => h.audio_format == WAV_FORMAT_PCM && h.bits_per_sample == 24,
        Samples::ThirtyTwoFloat(_) => h.audio_format == WAV_FORMAT_IEEE_FLOAT
            && h.bits_per_sample == 32,
        Samples::Empty => false,
    }
}

/// Whether every sample is one that its width on the stream can hold: a 24-bit
/// sample has a zero high byte. The other widths hold every value of their
/// type.
pub open spec fn in_range(t: Samples) -> bool {
    match t {
        Samples::TwentyFour(v) => forall|i: int|
            0 <= i < v.len() ==> 0 <= #[trigger] v[i] < 0x100_0000,
        _ => true,
    }
}

/// The bytes of `data` that make up whole samples under `h`: all but a last
/// group that is cut short.
pub open spec fn whole_groups(h: Header, data: Seq<u8>) -> Seq<u8> {
    let width = h.bits_per_sample as int / 8;
    let len = data.len() as int;
    data.take(len - len % width)
}

/// Samples that are written and read back under a descriptor that names their
/// width are the same samples, provided that each is in range.
pub proof fn lemma_samples_roundtrip(h: Header, t: Samples)
    requires
        agrees(h, t),
        in_range(t),
    ensures
        encoded(t) is Ok,
        decoded(h, encoded(t)->Ok_0) == Ok::<Samples, WavError>(t),
{
    match t {
        Samples::Eight(v) => {},
        Samples::Sixteen(v) => {
            let b = bytes_of_sixteen(v);
            assert forall|i: int| 0 <= i < v.len() implies sixteen_of_bytes(b)[i] == v[i] by {
                assert(b.subrange(2 * i, 2 * i + 2) =~= i16_le(v[i]));
                lemma_i16_value_roundtrip(v[i]);
            }
            assert(sixteen_of_bytes(b) =~= v);
        },
        Samples::TwentyFour(v) => {
            let b = bytes_of_twenty_four(v);
            assert forall|i: int| 0 <= i < v.len() implies twenty_four_of_bytes(b)[i]
                == v[i] by {
                assert(b.subrange(3 * i, 3 * i + 3).push(0u8) =~= i32_le(v[i]));
                lemma_i32_value_roundtrip(v[i]);
            }
            assert(twenty_four_of_bytes(b) =~= v);
        },
        Samples::ThirtyTwoFloat(v) => {
            let b = bytes_of_float_bits(v);
            assert forall|i: int| 0 <= i < v.len() implies float_bits_of_bytes(b)[i] == v[i] by {
                assert(b.subrange(4 * i, 4 * i + 4) =~= u32_le(v[i]));
                lemma_u32_value_roundtrip(v[i]);
            }
            assert(float_bits_of_bytes(b) =~= v);
        },
        Samples::Empty => {},
    }
}

/// What is read from a data chunk names its width as the descriptor does, is
/// in range, and is never the empty track.
pub proof fn lemma_decoded_agrees(h: Header, data: Seq<u8>)
    requires
        decoded(h, data) is Ok,
    ensures
        agrees(h, decoded(h, data)->Ok_0),
        in_range(decoded(h, data)->Ok_0),
        !(decoded(h, data)->Ok_0 is Empty),
{
    if h.audio_format == WAV_FORMAT_PCM && h.bits_per_sample == 24 {
        let v = twenty_four_of_bytes(data);
        assert forall|i: int| 0 <= i < v.len() implies 0 <= #[trigger] v[i] < 0x100_0000 by {
            let g = data.subrange(3 * i, 3 * i + 3).push(0u8);
            assert(g[3] == 0);
        }
    }
}

/// Bytes that are read as samples and written again are the same bytes, up to
/// a last group that is cut short.
pub proof fn lemma_bytes_roundtrip(h: Header, data: Seq<u8>)
    requires
        decoded(h, data) is Ok,
    ensures
        encoded(decoded(h, data)->Ok_0) == Ok::<Seq<u8>, WavError>(whole_groups(h, data)),
{
    let kept = whole_groups(h, data);
    if h.audio_format == WAV_FORMAT_PCM && h.bits_per_sample == 8 {
        assert(kept =~= data);
    } else if h.audio_format == WAV_FORMAT_PCM && h.bits_per_sample == 16 {
        let b = bytes_of_sixteen(sixteen_of_bytes(data));
        assert forall|j: int| 0 <= j < b.len() implies b[j] == kept[j] by {
            let g = data.subrange(2 * (j / 2), 2 * (j / 2) + 2);
            lemma_i16_bytes_roundtrip(g);
            assert(g[j % 2] == data[j]);
        }
        assert(b =~= kept);
    } else if h.audio_format == WAV_FORMAT_PCM && h.bits_per_sample == 24 {
        let b = bytes_of_twenty_four(twenty_four_of_bytes(data));
        assert forall|j: int| 0 <= j < b.len() implies b[j] == kept[j] by {
            let g = data.subrange(3 * (j / 3), 3 * (j / 3) + 3).push(0u8);
            lemma_i32_bytes_roundtrip(g);
            assert(g[j % 3] == data[j]);
        }
        assert(b =~= kept);
    } else {
        let b = bytes_of_float_bits(float_bits_of_bytes(data));
        assert forall|j: int| 0 <= j < b.len() implies b[j] == kept[j] by {
            let g = data.subrange(4 * (j / 4), 4 * (j / 4) + 4);
            lemma_u32_bytes_roundtrip(g);
            assert(g[j % 4] == data[j]);
        }
        assert(b =~= kept);
    }
}

/// Reads 16-bit samples from the bytes of a data chunk.
pub fn decode_sixteen(data: &[u8]) -> (out: Vec<i16>)
    ensures
        out@ == sixteen_of_bytes(data@),
{
    let n: usize = data.len() / 2;
    let mut out: Vec<i16> = Vec::with_capacity(n);
    let mut i: usize = 0;
    while i < n
        invariant
            data@.len() <= usize::MAX,
            n == data@.len() / 2,
            i <= n,
            out@.len() == i,
            forall|k: int| 0 <= k < i ==> out@[k] == sixteen_of_bytes(data@)[k],
        decreases n - i,
    {
        let pair: [u8; 2] = [data[2 * i], data[2 * i + 1]];
        assert(pair@ =~= data@.subrange(2 * i, 2 * i + 2));
        out.push(i16_from_le_bytes(pair));
        i = i + 1;
    }
    assert(out@ =~= sixteen_of_bytes(data@));
    out
}

/// Reads 24-bit samples from the bytes of a data chunk.
pub fn decode_twenty_four(data: &[u8]) -> (out: Vec<i32>)
    ensures
        out@ == twenty_four_of_bytes(data@),
{
    let n: usize = data.len() / 3;
    let mut out: Vec<i32> = Vec::with_capacity(n);
    let mut i: usize = 0;
    while i < n
        invariant
            data@.len() <= usize::MAX,
            n == data@.len() / 3,
            i <= n,
            out@.len() == i,
            forall|k: int| 0 <= k < i ==> out@[k] == twenty_four_of_bytes(data@)[k],
        decreases n - i,
    {
        let group: [u8; 4] = [data[3 * i], data[3 * i + 1], data[3 * i + 2], 0];
        assert(group@ =~= data@.subrange(3 * i, 3 * i + 3).push(0u8));
        out.push(i32_from_le_bytes(group));
        i = i + 1;
    }
    assert(out@ =~= twenty_four_of_bytes(data@));
    out
}

/// Reads 32-bit float samples, as bit patterns, from the bytes of a data
/// chunk.
pub fn decode_float_bits(data: &[u8]) -> (out: Vec<u32>)
    ensures
        out@ == float_bits_of_bytes(data@),
{
    let n: usize = data.len() / 4;
    let mut out: Vec<u32> = Vec::with_capacity(n);
    let mut i: usize = 0;
    while i < n
        invariant
            data@.len() <= usize::MAX,
            n == data@.len() / 4,
            i <= n,
            out@.len() == i,
            forall|k: int| 0 <= k < i ==> out@[k] == float_bits_of_bytes(data@)[k],
        decreases n - i,
    {
        let group: [u8; 4] = [data[4 * i], data[4 * i + 1], data[4 * i + 2], data[4 * i + 3]];
        assert(group@ =~= data@.subrange(4 * i, 4 * i + 4));
        out.push(u32_from_le_bytes(group));
        i = i + 1;
    }
    assert(out@ =~= float_bits_of_bytes(data@));
    out
}

/// Writes 16-bit samples as bytes.
pub fn encode_sixteen(v: &Vec<i16>) -> (out: Vec<u8>)
    ensures
        out@ == bytes_of_sixteen(v@),
{
    let mut out: Vec<u8> = Vec::new();
    let mut i: usize = 0;
    while i < v.len()
        invariant
            i <= v@.len(),
            out@.len() == 2 * i,
            forall|j: int| 0 <= j < 2 * i ==> out@[j] == bytes_of_sixteen(v@)[j],
        decreases v@.len() - i,
    {
        let b = i16_to_le_bytes(v[i]);
        let mut bytes = PairIter::new((b[0], b[1]));
        bytes.drain_into(&mut out);
        i = i + 1;
    }
    assert(out@ =~= bytes_of_sixteen(v@));
    out
}

/// Writes 24-bit samples as bytes: the low three bytes of each.
pub fn encode_twenty_four(v: &Vec<i32>) -> (out: Vec<u8>)
    ensures
        out@ == bytes_of_twenty_four(v@),
{
    let mut out: Vec<u8> = Vec::new();
    let mut i: usize = 0;
    while i < v.len()
        invariant
            i <= v@.len(),
            out@.len() == 3 * i,
            forall|j: int| 0 <= j < 3 * i ==> out@[j] == bytes_of_twenty_four(v@)[j],
        decreases v@.len() - i,
    {
        let b = i32_to_le_bytes(v[i]);
        let mut bytes = TripletIter::new((b[0], b[1], b[2]));
        bytes.drain_into(&mut out);
        i = i + 1;
    }
    assert(out@ =~= bytes_of_twenty_four(v@));
    out
}

/// Writes 32-bit float samples, given as bit patterns, as bytes.
pub fn encode_float_bits(v: &Vec<u32>) -> (out: Vec<u8>)
    ensures
        out@ == bytes_of_float_bits(v@),
{
    let mut out: Vec<u8> = Vec::new();
    let mut i: usize = 0;
    while i < v.len()
        invariant
            i <= v@.len(),
            out@.len() == 4 * i,
            forall|j: int| 0 <= j < 4 * i ==> out@[j] == bytes_of_float_bits(v@)[j],
        decreases v@.len() - i,
    {
        let b = u32_to_le_bytes(v[i]);
        let mut bytes = QuadrupletIter::new((b[0], b[1], b[2], b[3]));
        bytes.drain_into(&mut out);
        i = i + 1;
    }
    assert(out@ =~= bytes_of_float_bits(v@));
    out
}

/// Turns samples into the bytes of a data chunk.
///
/// ## Errors
///
/// [`WavError::EmptyData`] where the track is [`BitDepth::Empty`]; a track of
/// no samples at one of the four widths is written as no bytes.
pub fn encode_samples(track: &BitDepth) -> (r: Result<Vec<u8>, WavError>)
    ensures
        match r {
            Ok(d) => encoded(track@) == Ok::<Seq<u8>, WavError>(d@),
            Err(e) => encoded(track@) == Err::<Seq<u8>, WavError>(e),
        },
{
    match track {
        BitDepth::Eight(v) => Ok(v.clone()),
        BitDepth::Sixteen(v) => Ok(encode_sixteen(v)),
        BitDepth::TwentyFour(v) => Ok(encode_twenty_four(v)),
        BitDepth::ThirtyTwoFloat(v) => Ok(encode_float_bits(v)),
        BitDepth::Empty => Err(WavError::EmptyData),
    }
}

/// Turns the bytes of a data chunk into samples, of the width that the
/// descriptor names.
///
/// ## Errors
///
/// [`WavError::UnsupportedBitDepth`] where the format is PCM and the depth is
/// not 8, 16 or 24, or the format is IEEE float and the depth is not 32;
/// [`WavError::UnsupportedFormat`] where the format is neither.
pub fn decode_samples(header: &Header, data: Vec<u8>) -> (r: Result<BitDepth, WavError>)
    ensures
        match r {
            Ok(t) => decoded(*header, data@) == Ok::<Samples, WavError>(t@),
            Err(e) => decoded(*header, data@) == Err::<Samples, WavError>(e),
        },
{
    match header.audio_format {
        WAV_FORMAT_PCM => match header.bits_per_sample {
            8 => Ok(BitDepth::Eight(data)),
            16 => Ok(BitDepth::Sixteen(decode_sixteen(data.as_slice()))),
            24 => Ok(BitDepth::TwentyFour(decode_twenty_four(data.as_slice()))),
            _ => Err(WavError::UnsupportedBitDepth),
        },
        WAV_FORMAT_IEEE_FLOAT => match header.bits_per_sample {
            32 => Ok(BitDepth::ThirtyTwoFloat(decode_float_bits(data.as_slice()))),
            _ => Err(WavError::UnsupportedBitDepth),
        },
        _ => Err(WavError::UnsupportedFormat),
    }
}

} // verus!
