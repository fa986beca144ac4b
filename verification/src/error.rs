//! The error taxonomy shared by every backend.

use vstd::prelude::*;
use vstd::string::StringExecFns;

verus! {

/// Everything that can go wrong while opening a source or producing a frame.
#[derive(Debug, Clone)]
pub enum DecoderError {
    /// The stream, or the seekable range, is exhausted. Not a fault.
    EndOfFile,
    /// The source or one of its side files could not be opened or read.
    FileReadError {
        /// What the underlying layer reported.
        cause: String,
    },
    /// The script handed to the scripting backend is at fault.
    VapoursynthScriptError {
        /// What the underlying layer reported.
        cause: String,
    },
    /// The scripting backend failed internally.
    VapoursynthInternalError {
        /// What the underlying layer reported.
        cause: String,
    },
    /// Script variables could not be set.
    VapoursynthArgsError {
        /// What the underlying layer reported.
        cause: String,
    },
    /// The streaming codec backend failed internally.
    FfmpegInternalError {
        /// What the underlying layer reported.
        cause: String,
    },
    /// The indexed codec backend failed internally.
    Ffms2InternalError {
        /// What the underlying layer reported.
        cause: String,
    },
    /// A failure that fits no more specific kind.
    GenericDecodeError {
        /// What went wrong.
        cause: String,
    },
    /// The source holds no playable video track.
    NoVideoStream,
    /// No backend is available for this source.
    NoDecoder,
    /// The active backend does not offer the requested operation.
    UnsupportedDecoder,
    /// The pixel format changes within the clip.
    VariableFormat,
    /// The resolution changes within the clip.
    VariableResolution,
    /// The frame rate changes within the clip.
    VariableFramerate,
    /// Chroma is subsampled in a way outside 4:2:0, 4:2:2 and 4:4:4.
    UnsupportedChromaSubsampling {
        /// Horizontal subsampling, as a power of two.
        x: usize,
        /// Vertical subsampling, as a power of two.
        y: usize,
    },
    /// The native pixel format lies outside the supported matrix.
    UnsupportedFormat {
        /// A readable tag of the format that was met.
        fmt: String,
    },
}

/// The text `prefix` followed by `message`.
pub fn prefixed(prefix: &str, message: &str) -> (text: String)
    ensures
        text@ == prefix@ + message@,
{
    let mut text = prefix.to_owned();
    text.append(message);
    text
}

} // verus!
