//! Reading and writing of WAVE audio streams.
//!
//! A stream is a RIFF container of form type `WAVE` that holds a `"fmt "` chunk
//! and a `"data"` chunk. Both directions work on bytes held in memory, and every
//! function states its result over the bytes it is given.

use crate::chunk::{
    contents_at, contents_in_stream, find_chunk, form_fits, form_image, id_at, len_at,
    read_chunk_head, read_chunk_type, read_contents, same_id, scan, type_at, type_in_stream,
    write_form, ChunkHead, Scan, DATA_ID, FMT_ID, RIFF_ID, WAVE_ID,
};
use crate::error::WavError;
use crate::header::{header_bytes, header_of_bytes};
use crate::samples::{decode_samples, decoded, encode_samples, encoded};
use vstd::prelude::*;
use vstd::slice::slice_to_vec;

pub mod bit_depth;
pub mod chunk;
pub mod error;
pub mod header;
pub mod laws;
pub mod le_bytes;
pub mod samples;
pub mod tuple_iterator;

pub use crate::bit_depth::{BitDepth, Samples};
pub use crate::header::{Header, WAV_FORMAT_IEEE_FLOAT, WAV_FORMAT_PCM};

verus! {

/// What is made of the outer chunk of `s`: a failure of the chunk layer where
/// fewer than twelve bytes are there, and a refusal where its id is not
/// `"RIFF"` or its form type is not `"WAVE"`.
pub open spec fn wave_form(s: Seq<u8>) -> Result<(), WavError> {
    if !type_in_stream(s, 0) {
        Err(WavError::Io)
    } else if id_at(s, 0) != RIFF_ID@ || type_at(s, 0) != WAVE_ID@ {
        Err(WavError::NotWave)
    } else {
        Ok(())
    }
}

/// The walk over the top-level chunks of `s` for the first one with `id`.
pub open spec fn top_level(s: Seq<u8>, id: Seq<u8>) -> Scan {
    scan(s, id, 12, 4 + len_at(s, 0))
}

/// The descriptor that `s` holds: that of its first `"fmt "` chunk.
pub open spec fn header_read(s: Seq<u8>) -> Result<Header, WavError> {
    if wave_form(s) is Err {
        Err(wave_form(s)->Err_0)
    } else {
        match top_level(s, FMT_ID@) {
            Scan::Broken => Err(WavError::Io),
            Scan::Missing => Err(WavError::MissingFormatChunk),
            Scan::Found(pos) => {
                if !contents_in_stream(s, pos) {
                    Err(WavError::Io)
                } else if len_at(s, pos) < 16 {
                    Err(WavError::MalformedHeader)
                } else {
                    let h = header_of_bytes(contents_at(s, pos));
                    if h.audio_format == WAV_FORMAT_PCM || h.audio_format
                        == WAV_FORMAT_IEEE_FLOAT {
                        Ok(h)
                    } else {
                        Err(WavError::UnsupportedFormat)
                    }
                }
            },
        }
    }
}

/// The samples that `s` holds under the descriptor `h`: those of its first
/// `"data"` chunk.
pub open spec fn data_read(s: Seq<u8>, h: Header) -> Result<Samples, WavError> {
    if wave_form(s) is Err {
        Err(wave_form(s)->Err_0)
    } else {
        match top_level(s, DATA_ID@) {
            Scan::Broken => Err(WavError::Io),
            Scan::Missing => Err(WavError::MissingDataChunk),
            Scan::Found(pos) => {
                if !contents_in_stream(s, pos) {
                    Err(WavError::Io)
                } else {
                    decoded(h, contents_at(s, pos))
                }
            },
        }
    }
}

/// What reading the stream `s` gives: its descriptor, and its samples under
/// that descriptor.
pub open spec fn stream_read(s: Seq<u8>) -> Result<(Header, Samples), WavError> {
    match header_read(s) {
        Err(e) => Err(e),
        Ok(h) => match data_read(s, h) {
            Err(e) => Err(e),
            Ok(t) => Ok((h, t)),
        },
    }
}

/// Reads the outer chunk of the stream and makes sure that it is a `"RIFF"`
/// chunk of form type `"WAVE"`.
///
/// ## Errors
///
/// [`WavError::Io`] where the stream is shorter than the twelve bytes of an
/// outer chunk's head and form type; [`WavError::NotWave`] where the id or
/// the form type is another.
pub fn verify_wav_file(stream: &[u8]) -> (r: Result<ChunkHead, WavError>)
    ensures
        match r {
            Ok(wav) => wave_form(stream@) is Ok && wav.pos == 0 && wav.heads(stream@),
            Err(e) => wave_form(stream@) == Err::<(), WavError>(e),
        },
{
    let wav = match read_chunk_head(stream, 0) {
        Ok(wav) => wav,
        Err(_) => {
            return Err(WavError::Io);
        },
    };
    let form_type = match read_chunk_type(stream, 0) {
        Ok(form_type) => form_type,
        Err(_) => {
            return Err(WavError::Io);
        },
    };
    if same_id(&wav.id, &RIFF_ID) && same_id(&form_type, &WAVE_ID) {
        Ok(wav)
    } else {
        Err(WavError::NotWave)
    }
}

/// Reads the descriptor of a wave stream: the first sixteen bytes of its first
/// `"fmt "` chunk, each field as it stands.
///
/// ## Errors
///
/// Those of [`verify_wav_file`]; [`WavError::Io`] where the stream ends within
/// a chunk on the way; [`WavError::MissingFormatChunk`] where there is no
/// `"fmt "` chunk; [`WavError::MalformedHeader`] where it holds fewer than
/// sixteen bytes; [`WavError::UnsupportedFormat`] where the audio format is
/// neither PCM nor IEEE float.
pub fn read_header(stream: &[u8]) -> (r: Result<Header, WavError>)
    ensures
        r == header_read(stream@),
{
    let wav = match verify_wav_file(stream) {
        Ok(wav) => wav,
        Err(e) => {
            return Err(e);
        },
    };
    let found = match find_chunk(stream, &wav, &FMT_ID) {
        Ok(found) => found,
        Err(e) => {
            return Err(e);
        },
    };
    match found {
        None => Err(WavError::MissingFormatChunk),
        Some(c) => {
            let header_bytes = match read_contents(stream, c.pos) {
                Ok(header_bytes) => header_bytes,
                Err(e) => {
                    return Err(e);
                },
            };
            let header = match Header::try_from(header_bytes.as_slice()) {
                Ok(header) => header,
                Err(_) => {
                    return Err(WavError::MalformedHeader);
                },
            };
            match header.audio_format {
                WAV_FORMAT_PCM | WAV_FORMAT_IEEE_FLOAT => Ok(header),
                _ => Err(WavError::UnsupportedFormat),
            }
        },
    }
}

/// Reads the samples of a wave stream: the contents of its first `"data"`
/// chunk, at the width that `header` names.
///
/// ## Errors
///
/// Those of [`verify_wav_file`]; [`WavError::Io`] where the stream ends within
/// a chunk on the way; [`WavError::MissingDataChunk`] where there is no
/// `"data"` chunk; and those of [`decode_samples`].
pub fn read_data(stream: &[u8], header: &Header) -> (r: Result<BitDepth, WavError>)
    ensures
        match r {
            Ok(t) => data_read(stream@, *header) == Ok::<Samples, WavError>(t@),
            Err(e) => data_read(stream@, *header) == Err::<Samples, WavError>(e),
        },
{
    let wav = match verify_wav_file(stream) {
        Ok(wav) => wav,
        Err(e) => {
            return Err(e);
        },
    };
    let found = match find_chunk(stream, &wav, &DATA_ID) {
        Ok(found) => found,
        Err(e) => {
            return Err(e);
        },
    };
    match found {
        None => Err(WavError::MissingDataChunk),
        Some(c) => {
            let data_bytes = match read_contents(stream, c.pos) {
                Ok(data_bytes) => data_bytes,
                Err(e) => {
                    return Err(e);
                },
            };
            decode_samples(header, data_bytes)
        },
    }
}

/// Reads the given wave stream and extracts the header and the audio data
/// from it.
///
/// ## Errors
///
/// This function fails under the following circumstances:
/// * The stream ends before a chunk that it announces.
/// * The stream is not a `"RIFF"` stream of form type `"WAVE"`.
/// * The `"fmt "` or the `"data"` chunk is missing.
/// * The wave header specifies a compressed data format.
/// * The wave header specifies an unsupported bit-depth.
pub fn read(stream: &[u8]) -> (r: Result<(Header, BitDepth), WavError>)
    ensures
        match r {
            Ok((h, t)) => stream_read(stream@) == Ok::<(Header, Samples), WavError>((h, t@)),
            Err(e) => stream_read(stream@) == Err::<(Header, Samples), WavError>(e),
        },
{
    let header = match read_header(stream) {
        Ok(header) => header,
        Err(e) => {
            return Err(e);
        },
    };
    match read_data(stream, &header) {
        Ok(track) => Ok((header, track)),
        Err(e) => Err(e),
    }
}

/// Whether a track can be written: it is not the empty track, and with its
/// bytes the stream stays within what the four byte length fields can say.
pub open spec fn writable(t: Samples) -> bool {
    encoded(t) matches Ok(data) && form_fits(16, data.len())
}

/// The wave stream of a descriptor and a track: a form of type `"WAVE"` with
/// the `"fmt "` chunk of sixteen bytes and then the `"data"` chunk, and no
/// other.
pub open spec fn wave_image(h: Header, t: Samples) -> Seq<u8>
    recommends
        encoded(t) is Ok,
{
    form_image(WAVE_ID@, FMT_ID@, header_bytes(h), DATA_ID@, encoded(t)->Ok_0)
}

/// Puts a stream that the chunk layer has built at the end of `out`, or reports
/// that the chunk layer has failed.
pub fn append_built(out: &mut Vec<u8>, built: Result<Vec<u8>, std::io::Error>) -> (r: Result<
    (),
    WavError,
>)
    ensures
        match built {
            Ok(stream) => r is Ok && final(out)@ == old(out)@ + stream@,
            Err(_) => r == Err::<(), WavError>(WavError::Io) && final(out)@ == old(out)@,
        },
{
    match built {
        Ok(mut stream) => {
            out.append(&mut stream);
            Ok(())
        },
        Err(_) => Err(WavError::Io),
    }
}

/// Writes the given wav data to the end of `out`.
///
/// Every track that is not empty and fits a stream is written. The stream is
/// built as a whole and then appended, so that on any failure `out` is as it
/// was.
///
/// ## Errors
///
/// This function fails under the following circumstances:
/// * The given `BitDepth` is `BitDepth::Empty`: [`WavError::EmptyData`].
/// * The stream would be longer than its length fields can say:
///   [`WavError::Io`].
pub fn write(header: Header, track: &BitDepth, out: &mut Vec<u8>) -> (r: Result<(), WavError>)
    ensures
        r is Ok <==> writable(track@),
        r is Ok ==> final(out)@ == old(out)@ + wave_image(header, track@),
        r is Err ==> final(out)@ == old(out)@,
        track@ is Empty ==> r == Err::<(), WavError>(WavError::EmptyData),
        !(track@ is Empty) && !writable(track@) ==> r == Err::<(), WavError>(WavError::Io),
{
    let h_vec: [u8; 16] = header.into();
    let d_vec = match encode_samples(track) {
        Ok(d_vec) => d_vec,
        Err(e) => {
            return Err(e);
        },
    };
    let h_vec = slice_to_vec(h_vec.as_slice());
    let len = d_vec.len();
    if len > 0xffff_ffff || len as u64 + (len as u64) % 2 + 36 > 0xffff_ffff {
        return Err(WavError::Io);
    }
    append_built(out, write_form(WAVE_ID, FMT_ID, h_vec, DATA_ID, d_vec))
}

} // verus!
