//! Normalised video decoding over several native backends: the format tables,
//! the frame assembler, the index cache life cycle and the decoder facade.
//!
//! The library decides and assembles; it does not touch files or codec
//! libraries. A caller opens the source with the backend of its choice, hands
//! the library what the backend reported, and gets back what to do next or
//! the finished frame.

pub mod assemble;
pub mod decoder;
pub mod details;
pub mod error;
pub mod helpers;
pub mod index_cache;
pub mod layout;
pub mod planes;
pub mod util;

pub use assemble::{DecodedFrame, FrameSource, NativeFrame, PlaneSource, SampleWidth, LUMA_PADDING};
pub use decoder::{Decoder, DecoderImpl};
pub use details::{FrameRate, VideoDetails};
pub use error::DecoderError;
pub use helpers::ffmpeg::FfmpegDecoder;
pub use helpers::ffms2::{Ffms2Decoder, FfmsIndex};
pub use helpers::vapoursynth::VapoursynthDecoder;
pub use helpers::y4m::Y4mDecoder;
pub use layout::ChromaLayout;
pub use planes::Frame;
