//! What holds of reading and writing together, proved over the spec functions
//! that the contracts of [`crate::read`] and [`crate::write`] are stated in.

use crate::bit_depth::Samples;
use crate::chunk::{
    chunk_image, contents_at, contents_in_stream, form_fits, form_image, head_in_stream, id_at,
    len_at, next_at, padding, scan, type_at, Scan, DATA_ID, FMT_ID, RIFF_ID, WAVE_ID,
};
use crate::error::WavError;
use crate::header::{
    header_bytes, header_of_bytes, lemma_header_bytes_roundtrip, lemma_header_roundtrip, Header,
    WAV_FORMAT_IEEE_FLOAT, WAV_FORMAT_PCM,
};
use crate::le_bytes::{lemma_u32_value_roundtrip, u32_le};
use crate::samples::{
    agrees, decoded, encoded, in_range, lemma_bytes_roundtrip, lemma_decoded_agrees,
    lemma_samples_roundtrip, whole_groups,
};
use crate::{data_read, header_read, stream_read, top_level, wave_form, wave_image, writable};
use vstd::prelude::*;

verus! {

/// Whether the descriptor names a depth that its format is read at.
pub open spec fn depth_supported(h: Header) -> bool {
    if h.audio_format == WAV_FORMAT_PCM {
        h.bits_per_sample == 8 || h.bits_per_sample == 16 || h.bits_per_sample == 24
    } else {
        h.bits_per_sample == 32
    }
}

/// The layout of a stream of form type `"WAVE"` that holds a `"fmt "` chunk of
/// sixteen bytes and a `"data"` chunk: where its parts stand, and what the
/// chunk layer reads at those places.
proof fn lemma_wave_layout(fmt: Seq<u8>, d: Seq<u8>)
    requires
        fmt.len() == 16,
        form_fits(16, d.len()),
    ensures
        ({
            let s = form_image(WAVE_ID@, FMT_ID@, fmt, DATA_ID@, d);
            &&& s.len() == 44 + d.len() + d.len() % 2
            &&& id_at(s, 0) == RIFF_ID@
            &&& type_at(s, 0) == WAVE_ID@
            &&& len_at(s, 0) == 36 + d.len() + d.len() % 2
            &&& id_at(s, 12) == FMT_ID@
            &&& len_at(s, 12) == 16
            &&& contents_at(s, 12) == fmt
            &&& id_at(s, 36) == DATA_ID@
            &&& len_at(s, 36) == d.len()
            &&& contents_at(s, 36) == d
        }),
{
    let s = form_image(WAVE_ID@, FMT_ID@, fmt, DATA_ID@, d);
    let first = chunk_image(FMT_ID@, fmt);
    let second = chunk_image(DATA_ID@, d);
    let body = WAVE_ID@ + first + second;
    lemma_u32_value_roundtrip(body.len() as u32);
    lemma_u32_value_roundtrip(16u32);
    lemma_u32_value_roundtrip(d.len() as u32);
    assert(padding(16) =~= Seq::<u8>::empty());
    assert(first.len() == 24);
    assert(second.len() == 8 + d.len() + d.len() % 2);
    assert(body.len() == 36 + d.len() + d.len() % 2);
    assert(s.len() == 8 + body.len());
    assert(s.subrange(0, 4) =~= RIFF_ID@);
    assert(s.subrange(4, 8) =~= u32_le(body.len() as u32));
    assert(s.subrange(8, 12) =~= WAVE_ID@);
    assert(s.subrange(12, 16) =~= FMT_ID@);
    assert(s.subrange(16, 20) =~= u32_le(16u32));
    assert(s.subrange(20, 36) =~= fmt);
    assert(s.subrange(36, 40) =~= DATA_ID@);
    assert(s.subrange(40, 44) =~= u32_le(d.len() as u32));
    assert(s.subrange(44, 44 + d.len() as int) =~= d);
}

/// In such a stream the walk over the top-level chunks finds the `"fmt "`
/// chunk behind the form type and the `"data"` chunk behind that, and the
/// contents of both lie within the stream.
proof fn lemma_wave_chunks(fmt: Seq<u8>, d: Seq<u8>)
    requires
        fmt.len() == 16,
        form_fits(16, d.len()),
    ensures
        ({
            let s = form_image(WAVE_ID@, FMT_ID@, fmt, DATA_ID@, d);
            &&& wave_form(s) is Ok
            &&& top_level(s, FMT_ID@) == Scan::Found(12)
            &&& contents_in_stream(s, 12)
            &&& contents_at(s, 12) == fmt
            &&& len_at(s, 12) == 16
            &&& top_level(s, DATA_ID@) == Scan::Found(36)
            &&& contents_in_stream(s, 36)
            &&& contents_at(s, 36) == d
        }),
{
    let s = form_image(WAVE_ID@, FMT_ID@, fmt, DATA_ID@, d);
    let end = 4 + len_at(s, 0);
    lemma_wave_layout(fmt, d);
    assert(head_in_stream(s, 12));
    assert(scan(s, FMT_ID@, 12, end) == Scan::Found(12));
    assert(FMT_ID@[0] != DATA_ID@[0]);
    assert(next_at(s, 12) == 36);
    assert(head_in_stream(s, 36));
    assert(scan(s, DATA_ID@, 36, end) == Scan::Found(36));
    assert(scan(s, DATA_ID@, 12, end) == Scan::Found(36));
}

/// A track that is written and read back is the same track under the same
/// descriptor: for every track that is not empty, agrees with its descriptor,
/// is in range and fits a stream.
#[verifier::rlimit(30)]
pub proof fn lemma_write_then_read(h: Header, t: Samples)
    requires
        agrees(h, t),
        in_range(t),
        writable(t),
    ensures
        stream_read(wave_image(h, t)) == Ok::<(Header, Samples), WavError>((h, t)),
{
    let s = wave_image(h, t);
    lemma_header_roundtrip(h);
    lemma_wave_chunks(header_bytes(h), encoded(t)->Ok_0);
    lemma_samples_roundtrip(h, t);
    assert(header_read(s) == Ok::<Header, WavError>(h));
    assert(data_read(s, h) == Ok::<Samples, WavError>(t));
}

/// A stream that holds nothing but a `"fmt "` chunk of sixteen bytes and a
/// `"data"` chunk of whole samples is written back byte for byte from what was
/// read from it.
pub proof fn lemma_read_then_write(fmt: Seq<u8>, d: Seq<u8>)
    requires
        fmt.len() == 16,
        form_fits(16, d.len()),
        header_of_bytes(fmt).audio_format == WAV_FORMAT_PCM || header_of_bytes(fmt).audio_format
            == WAV_FORMAT_IEEE_FLOAT,
        depth_supported(header_of_bytes(fmt)),
        d.len() % (header_of_bytes(fmt).bits_per_sample as nat / 8) == 0,
    ensures
        ({
            let s = form_image(WAVE_ID@, FMT_ID@, fmt, DATA_ID@, d);
            &&& stream_read(s) matches Ok((h, t))
            &&& writable(t)
            &&& wave_image(h, t) == s
        }),
{
    let s = form_image(WAVE_ID@, FMT_ID@, fmt, DATA_ID@, d);
    let h = header_of_bytes(fmt);
    lemma_wave_chunks(fmt, d);
    assert(header_read(s) == Ok::<Header, WavError>(h));
    assert(data_read(s, h) == decoded(h, d));
    lemma_bytes_roundtrip(h, d);
    assert(whole_groups(h, d) =~= d);
    lemma_header_bytes_roundtrip(fmt);
}

/// What is read from a stream is never the empty track; it is of the width
/// that its descriptor names, and in range.
pub proof fn lemma_read_agrees(s: Seq<u8>)
    requires
        stream_read(s) is Ok,
    ensures
        ({
            let (h, t) = stream_read(s)->Ok_0;
            &&& !(t is Empty)
            &&& agrees(h, t)
            &&& in_range(t)
        }),
{
    let pos = top_level(s, DATA_ID@)->Found_0;
    lemma_decoded_agrees(header_read(s)->Ok_0, contents_at(s, pos));
}

/// What was read from any stream, written and read again, is what was read the
/// first time: one round trip is a fixed point. The track has to fit a stream
/// again.
pub proof fn lemma_read_is_fixed_point(s: Seq<u8>, h: Header, t: Samples)
    requires
        stream_read(s) == Ok::<(Header, Samples), WavError>((h, t)),
        writable(t),
    ensures
        stream_read(wave_image(h, t)) == Ok::<(Header, Samples), WavError>((h, t)),
{
    let pos = top_level(s, DATA_ID@)->Found_0;
    lemma_decoded_agrees(h, contents_at(s, pos));
    lemma_write_then_read(h, t);
}

/// A stream of at least twelve bytes whose form type is not `"WAVE"` is
/// refused for that, whatever else it holds.
pub proof fn lemma_other_form_refused(s: Seq<u8>)
    requires
        s.len() >= 12,
        s.subrange(8, 12) != WAVE_ID@,
    ensures
        stream_read(s) == Err::<(Header, Samples), WavError>(WavError::NotWave),
{
}

/// A stream of at least twelve bytes whose outer id is not `"RIFF"` is refused
/// in the same way, even where its form type is `"WAVE"`.
pub proof fn lemma_other_container_refused(s: Seq<u8>)
    requires
        s.len() >= 12,
        s.subrange(0, 4) != RIFF_ID@,
    ensures
        stream_read(s) == Err::<(Header, Samples), WavError>(WavError::NotWave),
{
}

/// A wave stream whose top-level chunks end without a `"fmt "` chunk is refused
/// for the missing chunk.
pub proof fn lemma_missing_format_chunk(s: Seq<u8>)
    requires
        wave_form(s) is Ok,
        top_level(s, FMT_ID@) is Missing,
    ensures
        stream_read(s) == Err::<(Header, Samples), WavError>(WavError::MissingFormatChunk),
{
}

/// A wave stream with a descriptor whose top-level chunks end without a
/// `"data"` chunk is refused for the missing chunk.
pub proof fn lemma_missing_data_chunk(s: Seq<u8>)
    requires
        header_read(s) is Ok,
        top_level(s, DATA_ID@) is Missing,
    ensures
        stream_read(s) == Err::<(Header, Samples), WavError>(WavError::MissingDataChunk),
{
}

/// A stream whose descriptor names a depth that is not supported, such as 12
/// bits, is never read; where its `"data"` chunk is there, it is refused for
/// the depth.
pub proof fn lemma_depth_refused(s: Seq<u8>)
    requires
        header_read(s) matches Ok(h) && !depth_supported(h),
    ensures
        stream_read(s) is Err,
        top_level(s, DATA_ID@) matches Scan::Found(pos) && contents_in_stream(s, pos)
            ==> stream_read(s) == Err::<(Header, Samples), WavError>(
            WavError::UnsupportedBitDepth,
        ),
{
}

} // verus!
