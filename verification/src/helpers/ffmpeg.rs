//! The streaming codec backend: its table of native pixel formats, the
//! metadata of an opened stream, and the decisions of the pull and decode
//! loop. Demuxing and decoding are the caller's business.

use vstd::prelude::*;
use crate::assemble::{assemble, assembles, DecodedFrame, FrameSource, SampleWidth};
use crate::details::{reducible, FrameRate, VideoDetails};
use crate::error::DecoderError;
use crate::layout::ChromaLayout;

verus! {

/// The native pixel formats this backend decodes, and one more for all the
/// others.
#[derive(Clone, Copy, Debug, PartialEq, Eq, Structural)]
pub enum PixelFormat {
    /// 8-bit 4:2:0.
    YUV420P,
    /// 8-bit 4:2:2.
    YUV422P,
    /// 8-bit 4:4:4.
    YUV444P,
    /// 8-bit 4:2:0, full range.
    YUVJ420P,
    /// 8-bit 4:2:2, full range.
    YUVJ422P,
    /// 8-bit 4:4:4, full range.
    YUVJ444P,
    /// 10-bit 4:2:0, little-endian.
    YUV420P10LE,
    /// 10-bit 4:2:2, little-endian.
    YUV422P10LE,
    /// 10-bit 4:4:4, little-endian.
    YUV444P10LE,
    /// 12-bit 4:2:0, little-endian.
    YUV420P12LE,
    /// 12-bit 4:2:2, little-endian.
    YUV422P12LE,
    /// 12-bit 4:4:4, little-endian.
    YUV444P12LE,
    /// Any other format.
    Other,
}

impl PixelFormat {
    /// The bit depth and chroma layout of a format, where it is decoded.
    pub open spec fn spec_video_info(self) -> Option<(usize, ChromaLayout)> {
        match self {
            PixelFormat::YUV420P | PixelFormat::YUVJ420P => Some((8, ChromaLayout::Yuv420)),
            PixelFormat::YUV422P | PixelFormat::YUVJ422P => Some((8, ChromaLayout::Yuv422)),
            PixelFormat::YUV444P | PixelFormat::YUVJ444P => Some((8, ChromaLayout::Yuv444)),
            PixelFormat::YUV420P10LE => Some((10, ChromaLayout::Yuv420)),
            PixelFormat::YUV422P10LE => Some((10, ChromaLayout::Yuv422)),
            PixelFormat::YUV444P10LE => Some((10, ChromaLayout::Yuv444)),
            PixelFormat::YUV420P12LE => Some((12, ChromaLayout::Yuv420)),
            PixelFormat::YUV422P12LE => Some((12, ChromaLayout::Yuv422)),
            PixelFormat::YUV444P12LE => Some((12, ChromaLayout::Yuv444)),
            PixelFormat::Other => None,
        }
    }

    /// The bit depth and chroma layout of a format. For a format that is not
    /// decoded the error carries `tag`, the format's name.
    pub fn video_info(self, tag: &str) -> (r: Result<(usize, ChromaLayout), DecoderError>)
        ensures
            match self.spec_video_info() {
                Some(info) => r == Ok::<(usize, ChromaLayout), DecoderError>(info),
                None => r matches Err(DecoderError::UnsupportedFormat { fmt }) && fmt@ == tag@,
            },
    {
        match self {
            PixelFormat::YUV420P | PixelFormat::YUVJ420P => Ok((8, ChromaLayout::Yuv420)),
            PixelFormat::YUV422P | PixelFormat::YUVJ422P => Ok((8, ChromaLayout::Yuv422)),
            PixelFormat::YUV444P | PixelFormat::YUVJ444P => Ok((8, ChromaLayout::Yuv444)),
            PixelFormat::YUV420P10LE => Ok((10, ChromaLayout::Yuv420)),
            PixelFormat::YUV422P10LE => Ok((10, ChromaLayout::Yuv422)),
            PixelFormat::YUV444P10LE => Ok((10, ChromaLayout::Yuv444)),
            PixelFormat::YUV420P12LE => Ok((12, ChromaLayout::Yuv420)),
            PixelFormat::YUV422P12LE => Ok((12, ChromaLayout::Yuv422)),
            PixelFormat::YUV444P12LE => Ok((12, ChromaLayout::Yuv444)),
            PixelFormat::Other => Err(DecoderError::UnsupportedFormat { fmt: tag.to_owned() }),
        }
    }
}

/// What the codec library reports of the best video stream of an opened file.
pub struct StreamProbe {
    /// The index of the stream within the file.
    pub stream_index: usize,
    /// Width of the decoded frames.
    pub width: u32,
    /// Height of the decoded frames.
    pub height: u32,
    /// The pixel format of the decoded frames.
    pub format: PixelFormat,
    /// The name of that pixel format.
    pub format_tag: String,
    /// Numerator of the frame rate.
    pub rate_numerator: i32,
    /// Denominator of the frame rate.
    pub rate_denominator: i32,
    /// The number of frames in the stream; negative where it is not known.
    pub frames: i64,
}

/// The step at which opening a file failed.
pub enum OpenFailure {
    /// The codec library could not be initialised.
    Init(String),
    /// The file could not be opened.
    Open(String),
    /// The file holds no video stream.
    NoVideoStream,
    /// No codec context could be made from the stream's parameters.
    Context(String),
    /// The codec of the stream is not a video decoder.
    NotVideo,
    /// The decoder refused the stream's parameters.
    Parameters(String),
}

/// What was pulled from the file.
#[derive(Clone, Copy, Debug, PartialEq, Eq, Structural)]
pub enum Pulled {
    /// A packet of the given stream.
    Packet {
        /// The index of the stream the packet belongs to.
        stream: usize,
    },
    /// Nothing: the file has no further packet.
    Exhausted,
}

/// What to do with the decoder after a pull.
#[derive(Clone, Copy, Debug, PartialEq, Eq, Structural)]
pub struct DecodeStep {
    /// Tell the decoder that the stream has ended, so that it hands out the
    /// frames it still holds.
    pub send_eof: bool,
    /// Feed the pulled packet to the decoder.
    pub send_packet: bool,
    /// Ask the decoder for a frame.
    pub receive: bool,
}

/// Where a read stands once the decoder was asked for a frame.
#[derive(Clone, Copy, Debug, PartialEq, Eq, Structural)]
pub enum ReadProgress {
    /// The decoder handed out a frame: assemble and return it.
    Deliver,
    /// The stream is exhausted and the decoder is empty.
    EndOfFile,
    /// The decoder wants more input: pull again.
    PullAgain,
}

/// The metadata that a probe stands for, where its format is decoded.
pub open spec fn describes(
    r: Result<VideoDetails, DecoderError>,
    probe: StreamProbe,
) -> bool {
    match probe.format.spec_video_info() {
        Some((bit_depth, layout)) => {
            &&& r matches Ok(details)
            &&& details.width == probe.width
            &&& details.height == probe.height
            &&& details.bit_depth == bit_depth
            &&& details.chroma_sampling == layout
            &&& details.frame_rate.wf()
            &&& details.frame_rate.equals_fraction(
                probe.rate_numerator as int,
                probe.rate_denominator as int,
            )
            &&& details.total_frames == (if 0 <= probe.frames <= usize::MAX {
                Some(probe.frames as usize)
            } else {
                None
            })
        },
        None => r matches Err(DecoderError::UnsupportedFormat { fmt }) && fmt@
            == probe.format_tag@,
    }
}

/// The state of a decoder over a demuxed stream.
#[derive(Clone, Copy, Debug)]
pub struct FfmpegDecoder {
    /// Size, depth, layout, rate and length of the stream.
    pub video_details: VideoDetails,
    /// The index of the video stream within the file.
    pub stream_index: usize,
    /// Whether the file has run out of packets.
    pub end_of_stream: bool,
    /// Whether the decoder was told that the stream has ended.
    pub eof_sent: bool,
}

impl FfmpegDecoder {
    /// The decoder is told of the end of the stream only once the stream has
    /// ended.
    pub open spec fn wf(self) -> bool {
        self.eof_sent ==> self.end_of_stream
    }

    /// The state after a pull.
    pub open spec fn after_pull(self, pulled: Pulled) -> FfmpegDecoder {
        let ended = self.end_of_stream || pulled == Pulled::Exhausted;
        FfmpegDecoder { end_of_stream: ended, eof_sent: self.eof_sent || ended, ..self }
    }

    /// What a pull asks of the decoder.
    pub open spec fn step_for(self, pulled: Pulled) -> DecodeStep {
        let ended = self.end_of_stream || pulled == Pulled::Exhausted;
        let ours = pulled == (Pulled::Packet { stream: self.stream_index });
        DecodeStep {
            send_eof: ended && !self.eof_sent,
            send_packet: ours && !ended,
            receive: ended || ours,
        }
    }

    /// How often the decoder is told of the end of the stream while the
    /// given pulls are taken in, one after the other.
    pub open spec fn flushes(self, pulls: Seq<Pulled>) -> nat
        decreases pulls.len(),
    {
        if pulls.len() == 0 {
            0
        } else {
            (if self.step_for(pulls[0]).send_eof {
                1nat
            } else {
                0nat
            }) + self.after_pull(pulls[0]).flushes(pulls.drop_first())
        }
    }

    /// Takes in the outcome of opening a file: the probe of its best video
    /// stream, or the step that failed. The decoder starts before the first
    /// packet.
    pub fn new(opened: Result<StreamProbe, OpenFailure>) -> (r: Result<FfmpegDecoder, DecoderError>)
        requires
            opened matches Ok(probe) ==> (probe.format != PixelFormat::Other ==> reducible(
                probe.rate_numerator,
                probe.rate_denominator,
            )),
        ensures
            match opened {
                Ok(probe) => {
                    &&& describes(
                        match r {
                            Ok(decoder) => Ok(decoder.video_details),
                            Err(e) => Err(e),
                        },
                        probe,
                    )
                    &&& r matches Ok(decoder) ==> decoder.stream_index == probe.stream_index
                        && !decoder.end_of_stream && !decoder.eof_sent
                },
                Err(OpenFailure::Init(message)) => r matches Err(
                    DecoderError::FfmpegInternalError { cause },
                ) && cause == message,
                Err(OpenFailure::Open(message)) => r matches Err(
                    DecoderError::FileReadError { cause },
                ) && cause == message,
                Err(OpenFailure::NoVideoStream) => r matches Err(DecoderError::NoVideoStream),
                Err(OpenFailure::Context(message)) => r matches Err(
                    DecoderError::FfmpegInternalError { cause },
                ) && cause == message,
                Err(OpenFailure::NotVideo) => r matches Err(DecoderError::NoVideoStream),
                Err(OpenFailure::Parameters(message)) => r matches Err(
                    DecoderError::FfmpegInternalError { cause },
                ) && cause == message,
            },
    {
        match opened {
            Err(OpenFailure::Init(message)) => Err(
                DecoderError::FfmpegInternalError { cause: message },
            ),
            Err(OpenFailure::Open(message)) => Err(DecoderError::FileReadError { cause: message }),
            Err(OpenFailure::NoVideoStream) => Err(DecoderError::NoVideoStream),
            Err(OpenFailure::Context(message)) => Err(
                DecoderError::FfmpegInternalError { cause: message },
            ),
            Err(OpenFailure::NotVideo) => Err(DecoderError::NoVideoStream),
            Err(OpenFailure::Parameters(message)) => Err(
                DecoderError::FfmpegInternalError { cause: message },
            ),
            Ok(probe) => {
                let (bit_depth, chroma_sampling) = probe.format.video_info(
                    probe.format_tag.as_str(),
                )?;
                let frame_rate = FrameRate::new(probe.rate_numerator, probe.rate_denominator);
                let total_frames = if probe.frames >= 0 && probe.frames as u64 <= usize::MAX as u64 {
                    Some(probe.frames as usize)
                } else {
                    None
                };
                Ok(
                    FfmpegDecoder {
                        video_details: VideoDetails {
                            width: probe.width as usize,
                            height: probe.height as usize,
                            bit_depth,
                            chroma_sampling,
                            frame_rate,
                            total_frames,
                        },
                        stream_index: probe.stream_index,
                        end_of_stream: false,
                        eof_sent: false,
                    },
                )
            },
        }
    }

    /// Takes in what was pulled from the file and says what to do with the
    /// decoder. Once the file is exhausted it stays so; the decoder is told
    /// of the end exactly once; a packet of another stream is passed over.
    pub fn on_pulled(&mut self, pulled: Pulled) -> (step: DecodeStep)
        ensures
            *final(self) == old(self).after_pull(pulled),
            step == old(self).step_for(pulled),
            old(self).wf() ==> final(self).wf(),
    {
        let ours = match pulled {
            Pulled::Packet { stream } => stream == self.stream_index,
            Pulled::Exhausted => {
                self.end_of_stream = true;
                false
            },
        };
        let mut send_eof = false;
        if self.end_of_stream && !self.eof_sent {
            send_eof = true;
            self.eof_sent = true;
        }
        DecodeStep {
            send_eof,
            send_packet: ours && !self.end_of_stream,
            receive: self.end_of_stream || ours,
        }
    }

    /// Says where the read stands once the decoder was asked for a frame.
    /// A decoder that hands out nothing is at the end of the file only when
    /// the file is exhausted; until then it is fed again.
    pub fn on_received(&self, received: bool) -> (progress: ReadProgress)
        ensures
            progress == if received {
                ReadProgress::Deliver
            } else if self.end_of_stream {
                ReadProgress::EndOfFile
            } else {
                ReadProgress::PullAgain
            },
    {
        if received {
            ReadProgress::Deliver
        } else if self.end_of_stream {
            ReadProgress::EndOfFile
        } else {
            ReadProgress::PullAgain
        }
    }

    /// Assembles a decoded picture at the size, depth and layout of the
    /// stream.
    pub fn decode_frame(&self, decoded: &FrameSource<'_>, luma_only: bool, sample: SampleWidth) -> (r:
        Result<DecodedFrame, DecoderError>)
        ensures
            assembles(
                r,
                self.video_details.width,
                self.video_details.height,
                self.video_details.chroma_sampling,
                self.video_details.bit_depth,
                luma_only,
                sample,
                *decoded,
            ),
    {
        assemble(
            self.video_details.width,
            self.video_details.height,
            self.video_details.chroma_sampling,
            self.video_details.bit_depth,
            luma_only,
            sample,
            decoded,
        )
    }
}

/// Whatever is pulled and however often, the decoder is told of the end of
/// the stream at most once, and never again once it was told.
pub proof fn lemma_flushed_once(decoder: FfmpegDecoder, pulls: Seq<Pulled>)
    ensures
        decoder.flushes(pulls) <= 1,
        decoder.eof_sent ==> decoder.flushes(pulls) == 0,
    decreases pulls.len(),
{
    if pulls.len() > 0 {
        lemma_flushed_once(decoder.after_pull(pulls[0]), pulls.drop_first());
    }
}

/// Once the file is exhausted every pull asks the decoder for a frame, and
/// none feeds it a packet.
pub proof fn lemma_exhausted_stays(decoder: FfmpegDecoder, pulled: Pulled)
    requires
        decoder.end_of_stream,
    ensures
        decoder.after_pull(pulled).end_of_stream,
        decoder.step_for(pulled).receive,
        !decoder.step_for(pulled).send_packet,
{
}

} // verus!
