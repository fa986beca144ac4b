//! The raw container backend: what the header of a stream says, and how a
//! frame pulled from it becomes a padded frame. Parsing the container is the
//! caller's business.

use vstd::prelude::*;
use crate::assemble::{assemble, assembles, DecodedFrame, NativeFrame, SampleWidth};
use crate::details::{reducible, FrameRate, VideoDetails};
use crate::error::DecoderError;
use crate::layout::ChromaLayout;

verus! {

/// The colour spaces that a stream header can name.
#[derive(Clone, Copy, Debug, PartialEq, Eq, Structural)]
pub enum Colorspace {
    /// Grey, 8-bit.
    Cmono,
    /// Grey, 12-bit.
    Cmono12,
    /// 4:2:0 with coincident chroma planes, 8-bit.
    C420,
    /// 4:2:0 with coincident chroma planes, 10-bit.
    C420p10,
    /// 4:2:0 with coincident chroma planes, 12-bit.
    C420p12,
    /// 4:2:0 with biaxially displaced chroma planes, 8-bit.
    C420jpeg,
    /// 4:2:0 with vertically displaced chroma planes, 8-bit.
    C420paldv,
    /// 4:2:0 as found in some files, 8-bit.
    C420mpeg2,
    /// 4:2:2, 8-bit.
    C422,
    /// 4:2:2, 10-bit.
    C422p10,
    /// 4:2:2, 12-bit.
    C422p12,
    /// 4:4:4, 8-bit.
    C444,
    /// 4:4:4, 10-bit.
    C444p10,
    /// 4:4:4, 12-bit.
    C444p12,
}

impl Colorspace {
    /// Bits per sample.
    pub open spec fn spec_bit_depth(self) -> usize {
        match self {
            Colorspace::Cmono
            | Colorspace::C420
            | Colorspace::C422
            | Colorspace::C444
            | Colorspace::C420jpeg
            | Colorspace::C420paldv
            | Colorspace::C420mpeg2 => 8,
            Colorspace::C420p10 | Colorspace::C422p10 | Colorspace::C444p10 => 10,
            Colorspace::Cmono12
            | Colorspace::C420p12
            | Colorspace::C422p12
            | Colorspace::C444p12 => 12,
        }
    }

    /// How chroma is subsampled.
    pub open spec fn spec_layout(self) -> ChromaLayout {
        match self {
            Colorspace::Cmono | Colorspace::Cmono12 => ChromaLayout::Monochrome,
            Colorspace::C420jpeg
            | Colorspace::C420paldv
            | Colorspace::C420mpeg2
            | Colorspace::C420
            | Colorspace::C420p10
            | Colorspace::C420p12 => ChromaLayout::Yuv420,
            Colorspace::C422 | Colorspace::C422p10 | Colorspace::C422p12 => ChromaLayout::Yuv422,
            Colorspace::C444 | Colorspace::C444p10 | Colorspace::C444p12 => ChromaLayout::Yuv444,
        }
    }

    /// Bits per sample.
    pub fn get_bit_depth(self) -> (bit_depth: usize)
        ensures
            bit_depth == self.spec_bit_depth(),
            crate::layout::supported_bit_depth(bit_depth as int),
    {
        match self {
            Colorspace::Cmono
            | Colorspace::C420
            | Colorspace::C422
            | Colorspace::C444
            | Colorspace::C420jpeg
            | Colorspace::C420paldv
            | Colorspace::C420mpeg2 => 8,
            Colorspace::C420p10 | Colorspace::C422p10 | Colorspace::C444p10 => 10,
            Colorspace::Cmono12
            | Colorspace::C420p12
            | Colorspace::C422p12
            | Colorspace::C444p12 => 12,
        }
    }
}

/// Maps a colour space to the chroma layout it stands for.
pub fn map_y4m_color_space(color_space: Colorspace) -> (layout: ChromaLayout)
    ensures
        layout == color_space.spec_layout(),
{
    match color_space {
        Colorspace::Cmono | Colorspace::Cmono12 => ChromaLayout::Monochrome,
        Colorspace::C420jpeg
        | Colorspace::C420paldv
        | Colorspace::C420mpeg2
        | Colorspace::C420
        | Colorspace::C420p10
        | Colorspace::C420p12 => ChromaLayout::Yuv420,
        Colorspace::C422 | Colorspace::C422p10 | Colorspace::C422p12 => ChromaLayout::Yuv422,
        Colorspace::C444 | Colorspace::C444p10 | Colorspace::C444p12 => ChromaLayout::Yuv444,
    }
}

/// Why a stream could not be opened.
pub enum OpenFailure {
    /// The stream ended before its header did.
    EndOfFile,
    /// The header could not be read or parsed, with the parser's message.
    Other(String),
}

/// What the header of a stream says.
#[derive(Clone, Copy, Debug)]
pub struct Y4mDecoder {
    /// Width of the frames.
    pub width: usize,
    /// Height of the frames.
    pub height: usize,
    /// The colour space of the frames.
    pub colorspace: Colorspace,
    /// Numerator of the frame rate.
    pub framerate_num: usize,
    /// Denominator of the frame rate.
    pub framerate_den: usize,
}

impl Y4mDecoder {
    /// Whether the frame rate, cut to 32 bits, can be put in lowest terms.
    pub open spec fn rate_reducible(self) -> bool {
        reducible(self.framerate_num as i32, self.framerate_den as i32)
    }

    /// `details` is the metadata that the header stands for: its size, the
    /// depth and layout of its colour space, its frame rate in lowest terms,
    /// and no length.
    pub open spec fn describes(self, details: VideoDetails) -> bool {
        &&& details.width == self.width
        &&& details.height == self.height
        &&& details.bit_depth == self.colorspace.spec_bit_depth()
        &&& details.chroma_sampling == self.colorspace.spec_layout()
        &&& details.frame_rate.wf()
        &&& details.frame_rate.equals_fraction(
            (self.framerate_num as i32) as int,
            (self.framerate_den as i32) as int,
        )
        &&& details.total_frames is None
    }

    /// Takes in the outcome of opening a stream: the header, or why there is
    /// none. A stream that ends before its header is at its end; any other
    /// failure is a `GenericDecodeError` with the parser's message.
    pub fn new(opened: Result<Y4mDecoder, OpenFailure>) -> (r: Result<Y4mDecoder, DecoderError>)
        ensures
            match opened {
                Ok(header) => r == Ok::<Y4mDecoder, DecoderError>(header),
                Err(OpenFailure::EndOfFile) => r matches Err(DecoderError::EndOfFile),
                Err(OpenFailure::Other(message)) => r matches Err(
                    DecoderError::GenericDecodeError { cause },
                ) && cause == message,
            },
    {
        match opened {
            Ok(header) => Ok(header),
            Err(OpenFailure::EndOfFile) => Err(DecoderError::EndOfFile),
            Err(OpenFailure::Other(message)) => Err(
                DecoderError::GenericDecodeError { cause: message },
            ),
        }
    }
}

/// The stream metadata that a header stands for. The length of a raw stream
/// is not known in advance. Numerator and denominator of the frame rate are
/// cut to 32 bits before it is reduced.
pub fn get_video_details(dec: &Y4mDecoder) -> (details: VideoDetails)
    requires
        dec.rate_reducible(),
    ensures
        dec.describes(details),
{
    let bit_depth = dec.colorspace.get_bit_depth();
    let chroma_sampling = map_y4m_color_space(dec.colorspace);
    let frame_rate = FrameRate::new(
        #[verifier::truncate]
        (dec.framerate_num as i32),
        #[verifier::truncate]
        (dec.framerate_den as i32),
    );
    VideoDetails {
        width: dec.width,
        height: dec.height,
        bit_depth,
        chroma_sampling,
        frame_rate,
        total_frames: None,
    }
}

/// `r` is what `read_video_frame` returns for what the parser pulled.
pub open spec fn reads(
    r: Result<DecodedFrame, DecoderError>,
    cfg: VideoDetails,
    luma_only: bool,
    sample: SampleWidth,
    pulled: NativeFrame<'_>,
) -> bool {
    match pulled {
        NativeFrame::Planes(source) => assembles(
            r,
            cfg.width,
            cfg.height,
            cfg.chroma_sampling,
            cfg.bit_depth,
            luma_only,
            sample,
            source,
        ),
        NativeFrame::EndOfStream => r matches Err(DecoderError::EndOfFile),
        NativeFrame::Failed(message) => r matches Err(DecoderError::GenericDecodeError { cause })
            && cause == message,
    }
}

/// Produces a frame from what the parser pulled: `EndOfFile` at the end of
/// the stream, a `GenericDecodeError` with the parser's message where it
/// failed, else the pulled planes assembled at the size, depth and layout of
/// `cfg`.
pub fn read_video_frame(
    cfg: &VideoDetails,
    luma_only: bool,
    sample: SampleWidth,
    pulled: NativeFrame<'_>,
) -> (r: Result<DecodedFrame, DecoderError>)
    ensures
        reads(r, *cfg, luma_only, sample, pulled),
{
    match pulled {
        NativeFrame::EndOfStream => Err(DecoderError::EndOfFile),
        NativeFrame::Failed(message) => Err(DecoderError::GenericDecodeError { cause: message }),
        NativeFrame::Planes(source) => assemble(
            cfg.width,
            cfg.height,
            cfg.chroma_sampling,
            cfg.bit_depth,
            luma_only,
            sample,
            &source,
        ),
    }
}

} // verus!
