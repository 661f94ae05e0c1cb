//! The ways in which reading or writing a WAVE stream can fail.

use vstd::prelude::*;

verus! {

/// Why a stream could not be read, or a track not written.
///
/// Every failure ends the call that met it: nothing is retried, and no partial
/// result is handed back.
#[derive(Debug, Copy, Clone, Hash, PartialEq, Eq, Structural)]
pub enum WavError {
    /// The chunk layer failed: the stream ends before a chunk that it
    /// announces, or a chunk is too long for its length field.
    Io,
    /// The outer chunk is not a `"RIFF"` chunk of form type `"WAVE"`.
    NotWave,
    /// No `"fmt "` chunk stands among the top-level chunks.
    MissingFormatChunk,
    /// No `"data"` chunk stands among the top-level chunks.
    MissingDataChunk,
    /// The `"fmt "` chunk holds fewer than sixteen bytes.
    MalformedHeader,
    /// The audio format is neither PCM nor IEEE float.
    UnsupportedFormat,
    /// The bit depth is not 8, 16 or 24 for PCM, or not 32 for IEEE float.
    UnsupportedBitDepth,
    /// There are no samples to write.
    EmptyData,
}

impl WavError {
    /// A line of text that says what went wrong.
    pub fn message(&self) -> (m: &'static str)
        ensures
            m@ == match *self {
                WavError::Io => "RIFF chunk could not be read or written"@,
                WavError::NotWave => "RIFF file type not \"WAVE\""@,
                WavError::MissingFormatChunk => "RIFF data is missing the \"fmt \" chunk, aborting"@,
                WavError::MissingDataChunk => "Could not parse audio data"@,
                WavError::MalformedHeader => "Slice is smaller than the minimum-required 16 bytes"@,
                WavError::UnsupportedFormat => "Unsupported data format, data is not in uncompressed PCM format, aborting"@,
                WavError::UnsupportedBitDepth => "Unsupported bit depth"@,
                WavError::EmptyData => "Empty audio data given"@,
            },
    {
        match self {
            WavError::Io => "RIFF chunk could not be read or written",
            WavError::NotWave => "RIFF file type not \"WAVE\"",
            WavError::MissingFormatChunk => "RIFF data is missing the \"fmt \" chunk, aborting",
            WavError::MissingDataChunk => "Could not parse audio data",
            WavError::MalformedHeader => "Slice is smaller than the minimum-required 16 bytes",
            WavError::UnsupportedFormat => "Unsupported data format, data is not in uncompressed PCM format, aborting",
            WavError::UnsupportedBitDepth => "Unsupported bit depth",
            WavError::EmptyData => "Empty audio data given",
        }
    }
}

} // verus!
