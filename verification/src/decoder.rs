//! The decoder facade: one of a closed set of backends, chosen once, behind
//! the same four operations.

use vstd::prelude::*;
use vstd::string::StringExecFns;
use crate::assemble::{DecodedFrame, NativeFrame, SampleWidth};
use crate::details::VideoDetails;
use crate::error::DecoderError;
use crate::helpers::ffmpeg::{DecodeStep, FfmpegDecoder, Pulled, ReadProgress};
use crate::helpers::ffms2::{Ffms2Decoder, FramePlan};
use crate::helpers::vapoursynth::{NodePlan, OutputProbe, VapoursynthDecoder};
use crate::helpers::y4m::Y4mDecoder;
use crate::util::push_char;

verus! {

/// The lower-case form of an ASCII capital; every other character is itself.
pub open spec fn ascii_lower(c: char) -> char {
    if 65 <= c as u32 <= 90 {
        ((c as u32) + 32) as char
    } else {
        c
    }
}

/// A text with every ASCII capital in lower case.
pub open spec fn ascii_lowered(s: Seq<char>) -> Seq<char> {
    s.map_values(|c: char| ascii_lower(c))
}

/// Calls `str::to_ascii_lowercase`, which maps the ASCII letters `A` to `Z`
/// to `a` to `z` and leaves every other character as it is.
#[verifier::external_body]
fn to_ascii_lowercase(s: &str) -> (lowered: String)
    ensures
        lowered@ == ascii_lowered(s@),
{
    s.to_ascii_lowercase()
}

/// Whether two texts hold the same characters.
fn is_text(s: &String, text: &str) -> (r: bool)
    ensures
        r == (s@ == text@),
{
    let other = text.to_owned();
    *s == other
}

/// The backends that were built into the program.
#[derive(Clone, Copy, Debug, PartialEq, Eq, Structural)]
pub struct Backends {
    /// The streaming codec backend.
    pub ffmpeg: bool,
    /// The scripting backend.
    pub vapoursynth: bool,
}

/// The backend that opens a file.
#[derive(Clone, Copy, Debug, PartialEq, Eq, Structural)]
pub enum BackendChoice {
    /// The raw container parser.
    Y4m,
    /// The scripting backend, with the file as its script.
    VapoursynthScript,
    /// The streaming codec backend.
    Ffmpeg,
    /// The scripting backend, with a script that loads the file.
    VapoursynthSource,
}

/// Whether a file extension names a raw container, whatever its case.
pub open spec fn is_raw_extension(extension: Seq<char>) -> bool {
    ascii_lowered(extension) == "y4m"@ || ascii_lowered(extension) == "yuv"@
}

/// Whether a file extension names a script, whatever its case.
pub open spec fn is_script_extension(extension: Seq<char>) -> bool {
    ascii_lowered(extension) == "vpy"@
}

/// The backend for a file with the given extension: the parser for raw
/// containers; the scripting backend for scripts, where it is built in; for
/// everything else the streaming codec backend before the scripting backend.
pub open spec fn spec_select_backend(extension: Option<Seq<char>>, available: Backends) -> Option<
    BackendChoice,
> {
    if extension matches Some(ext) && is_raw_extension(ext) {
        Some(BackendChoice::Y4m)
    } else if extension matches Some(ext) && is_script_extension(ext) && available.vapoursynth {
        Some(BackendChoice::VapoursynthScript)
    } else if available.ffmpeg {
        Some(BackendChoice::Ffmpeg)
    } else if available.vapoursynth {
        Some(BackendChoice::VapoursynthSource)
    } else {
        None
    }
}

/// Chooses the backend that opens a file, by the file's extension and by
/// what was built in. `NoDecoder` where nothing that was built in can open it.
pub fn select_backend(extension: Option<&str>, available: Backends) -> (r: Result<
    BackendChoice,
    DecoderError,
>)
    ensures
        match spec_select_backend(
            match extension {
                Some(ext) => Some(ext@),
                None => None,
            },
            available,
        ) {
            Some(choice) => r == Ok::<BackendChoice, DecoderError>(choice),
            None => r matches Err(DecoderError::NoDecoder),
        },
{
    if let Some(ext) = extension {
        let lowered = to_ascii_lowercase(ext);
        if is_text(&lowered, "y4m") || is_text(&lowered, "yuv") {
            return Ok(BackendChoice::Y4m);
        }
        if available.vapoursynth && is_text(&lowered, "vpy") {
            return Ok(BackendChoice::VapoursynthScript);
        }
    }
    if available.ffmpeg {
        Ok(BackendChoice::Ffmpeg)
    } else if available.vapoursynth {
        Ok(BackendChoice::VapoursynthSource)
    } else {
        Err(DecoderError::NoDecoder)
    }
}

/// A text with a backslash put before each of its double quotes.
pub open spec fn quotes_escaped(s: Seq<char>) -> Seq<char>
    decreases s.len(),
{
    if s.len() == 0 {
        Seq::<char>::empty()
    } else if s.last() == '"' {
        quotes_escaped(s.drop_last()) + seq!['\\', '"']
    } else {
        quotes_escaped(s.drop_last()).push(s.last())
    }
}

/// The script that loads a source file through the indexed source plugin and
/// sets it as the output.
pub open spec fn spec_source_script(path: Seq<char>) -> Seq<char> {
    "\nimport vapoursynth as vs\ncore = vs.core\nclip = core.ffms2.Source(\""@ + quotes_escaped(
        path,
    ) + "\")\nclip.set_output()\n"@
}

/// Writes the script that loads the file at `path`, which is to be absolute.
/// Double quotes in the path are escaped.
pub fn source_script(path: &str) -> (script: String)
    ensures
        script@ == spec_source_script(path@),
{
    let mut script =
        "\nimport vapoursynth as vs\ncore = vs.core\nclip = core.ffms2.Source(\"".to_owned();
    let ghost head = script@;
    for c in it: path.chars()
        invariant
            it.seq() == path@,
            script@ == head + quotes_escaped(path@.take(it.index() as int)),
    {
        if c == '"' {
            push_char(&mut script, '\\');
        }
        push_char(&mut script, c);
        proof {
            let next = path@.take(it.index() as int + 1);
            assert(next.drop_last() =~= path@.take(it.index() as int));
            assert(next.last() == c);
            assert(script@ =~= head + quotes_escaped(next));
        }
    }
    assert(path@.take(path@.len() as int) =~= path@);
    script.append("\")\nclip.set_output()\n");
    script
}

/// Where sequential reading stands, and where it is cut off.
pub struct ReadCursor {
    /// How many frames were read.
    pub position: nat,
    /// The number of frames after which reading is cut off, where one is
    /// known.
    pub bound: Option<nat>,
}

impl ReadCursor {
    /// Whether reading is cut off here.
    pub open spec fn at_end(self) -> bool {
        self.bound matches Some(total) && self.position >= total
    }
}

/// What the caller has to fetch before a frame can be produced.
#[derive(Clone, Copy, Debug, PartialEq, Eq, Structural)]
pub enum Request {
    /// Nothing: there is no frame, and the answer is `EndOfFile`.
    EndOfFile,
    /// The next frame of the stream, whichever it is.
    NextFrame,
    /// The frame at an index.
    FrameAt {
        /// The index of the frame.
        index: usize,
        /// The index as the indexed codec library counts it; zero for the
        /// other backends.
        native_index: i32,
    },
}

impl Request {
    /// Whether the request asks for the frame at the given index.
    pub open spec fn asks_for(self, frame_index: int) -> bool {
        match self {
            Request::FrameAt { index, .. } => index == frame_index,
            _ => false,
        }
    }
}

/// The closed set of backends.
#[derive(Clone, Debug)]
pub enum DecoderImpl {
    /// The raw container parser.
    Y4m(Y4mDecoder),
    /// The scripting backend.
    Vapoursynth(VapoursynthDecoder),
    /// The streaming codec backend.
    Ffmpeg(FfmpegDecoder),
    /// The indexed codec backend.
    Ffms2(Ffms2Decoder),
}

impl DecoderImpl {
    /// Whether the backend can say what its stream is like.
    pub open spec fn describable(self) -> bool {
        match self {
            DecoderImpl::Y4m(dec) => dec.rate_reducible(),
            DecoderImpl::Vapoursynth(dec) => dec.wf() && (dec.video_details is Some
                || dec.node_info is Some),
            _ => true,
        }
    }

    /// `r` is the metadata of the backend's stream: what the header of a raw
    /// stream stands for, what a script's node reports, what a codec library
    /// reported when the source was opened.
    pub open spec fn describes(self, r: Result<VideoDetails, DecoderError>) -> bool {
        match self {
            DecoderImpl::Y4m(dec) => r matches Ok(details) && dec.describes(details),
            DecoderImpl::Vapoursynth(dec) => dec.describes(r),
            DecoderImpl::Ffmpeg(dec) => r == Ok::<VideoDetails, DecoderError>(dec.video_details),
            DecoderImpl::Ffms2(dec) => r == Ok::<VideoDetails, DecoderError>(dec.video_details),
        }
    }

    /// Whether frames can be read from the backend.
    pub open spec fn readable(self) -> bool {
        self matches DecoderImpl::Vapoursynth(dec) ==> dec.readable()
    }

    /// Whether the backend offers random access.
    pub open spec fn spec_supports_seek(self) -> bool {
        self is Vapoursynth || self is Ffms2
    }

    /// Whether two values are the same backend, whatever state it is in.
    pub open spec fn same_backend(self, other: DecoderImpl) -> bool {
        match (self, other) {
            (DecoderImpl::Y4m(_), DecoderImpl::Y4m(_)) => true,
            (DecoderImpl::Vapoursynth(_), DecoderImpl::Vapoursynth(_)) => true,
            (DecoderImpl::Ffmpeg(_), DecoderImpl::Ffmpeg(_)) => true,
            (DecoderImpl::Ffms2(_), DecoderImpl::Ffms2(_)) => true,
            _ => false,
        }
    }

    /// Whether the backend offers random access: the scripting and the
    /// indexed backend do.
    pub fn supports_seek(&self) -> (r: bool)
        ensures
            r == self.spec_supports_seek(),
    {
        match self {
            DecoderImpl::Vapoursynth(_) => true,
            DecoderImpl::Ffms2(_) => true,
            _ => false,
        }
    }

    /// The metadata of the backend's stream.
    pub fn video_details(&self) -> (r: Result<VideoDetails, DecoderError>)
        requires
            self.describable(),
        ensures
            self.describes(r),
    {
        match self {
            DecoderImpl::Y4m(dec) => Ok(crate::helpers::y4m::get_video_details(dec)),
            DecoderImpl::Vapoursynth(dec) => dec.get_video_details(),
            DecoderImpl::Ffmpeg(dec) => Ok(dec.video_details),
            DecoderImpl::Ffms2(dec) => Ok(dec.video_details),
        }
    }
}

/// A decoder: one backend, the metadata of its stream, and the number of
/// frames read from it.
pub struct Decoder {
    decoder: DecoderImpl,
    video_details: VideoDetails,
    frames_read: usize,
}

impl Decoder {
    /// The backend and its state.
    pub closed spec fn backend(self) -> DecoderImpl {
        self.decoder
    }

    /// The metadata of the stream, as settled when the decoder was made.
    pub closed spec fn details(self) -> VideoDetails {
        self.video_details
    }

    /// How many frames were read through the facade.
    pub closed spec fn frames_read(self) -> usize {
        self.frames_read
    }

    /// Where sequential reading stands. The scripting backend keeps its own
    /// count; the indexed backend is cut off at the length of its track; the
    /// parser and the streaming backend read until their source runs dry.
    pub open spec fn cursor(self) -> ReadCursor {
        match self.backend() {
            DecoderImpl::Vapoursynth(dec) => ReadCursor {
                position: dec.frames_read as nat,
                bound: match dec.total_frames {
                    Some(total) => Some(total as nat),
                    None => None,
                },
            },
            DecoderImpl::Ffms2(dec) => ReadCursor {
                position: self.frames_read() as nat,
                bound: match dec.video_details.total_frames {
                    Some(total) => Some(total as nat),
                    None => None,
                },
            },
            _ => ReadCursor { position: self.frames_read() as nat, bound: None },
        }
    }

    /// The number of frames after which sequential reading ends: the length
    /// of the clip on the scripting backend, the length of the track on the
    /// indexed backend. The other backends read until their source runs dry.
    pub open spec fn length(self) -> Option<usize> {
        match self.backend() {
            DecoderImpl::Vapoursynth(dec) => dec.clip_length(),
            DecoderImpl::Ffms2(dec) => dec.video_details.total_frames,
            _ => None,
        }
    }

    /// The size, depth and layout at which the active backend assembles.
    pub open spec fn frame_details(self) -> VideoDetails {
        match self.backend() {
            DecoderImpl::Ffmpeg(dec) => dec.video_details,
            DecoderImpl::Ffms2(dec) => dec.video_details,
            _ => self.details(),
        }
    }

    /// What `next_request` answers.
    pub open spec fn spec_next_request(self) -> Request {
        match self.backend() {
            DecoderImpl::Vapoursynth(dec) => if dec.at_end() {
                Request::EndOfFile
            } else {
                Request::FrameAt { index: dec.frames_read, native_index: 0 }
            },
            DecoderImpl::Ffms2(dec) => match dec.spec_plan_frame(self.frames_read()) {
                FramePlan::EndOfFile => Request::EndOfFile,
                FramePlan::Fetch { native_index } => Request::FrameAt {
                    index: self.frames_read(),
                    native_index,
                },
            },
            _ => Request::NextFrame,
        }
    }

    /// Whether `frame_index` lies at or past the end of the stream as the
    /// metadata of the decoder gives it.
    pub open spec fn past_known_end(self, frame_index: usize) -> bool {
        self.details().total_frames matches Some(total) && frame_index >= total
    }

    /// What `seek_request` answers where the backend offers random access.
    pub open spec fn spec_seek_request(self, frame_index: usize) -> Request {
        if self.past_known_end(frame_index) {
            Request::EndOfFile
        } else {
            match self.backend() {
                DecoderImpl::Vapoursynth(dec) => if dec.past_end(frame_index) {
                    Request::EndOfFile
                } else {
                    Request::FrameAt { index: frame_index, native_index: 0 }
                },
                DecoderImpl::Ffms2(dec) => match dec.spec_plan_frame(frame_index) {
                    FramePlan::EndOfFile => Request::EndOfFile,
                    FramePlan::Fetch { native_index } => Request::FrameAt {
                        index: frame_index,
                        native_index,
                    },
                },
                _ => Request::EndOfFile,
            }
        }
    }

    /// `r` is what `seek_video_frame` answers: `UnsupportedDecoder` on a
    /// backend without random access; `EndOfFile` at or past the end that the
    /// metadata gives; else what the backend makes of the native frame.
    pub open spec fn seeks(
        self,
        r: Result<DecodedFrame, DecoderError>,
        frame_index: usize,
        luma_only: bool,
        sample: SampleWidth,
        native: NativeFrame<'_>,
    ) -> bool {
        if !self.backend().spec_supports_seek() {
            r matches Err(DecoderError::UnsupportedDecoder)
        } else if self.past_known_end(frame_index) {
            r matches Err(DecoderError::EndOfFile)
        } else {
            match self.backend() {
                DecoderImpl::Vapoursynth(dec) => dec.seeks(
                    r,
                    self.details(),
                    frame_index,
                    luma_only,
                    sample,
                    native,
                ),
                DecoderImpl::Ffms2(dec) => dec.reads(r, frame_index, luma_only, sample, native),
                _ => r matches Err(DecoderError::UnsupportedDecoder),
            }
        }
    }

    /// `r` and `post` are what `read_video_frame` leaves behind on `self`:
    /// what the active backend makes of the fetched frame, with one more
    /// frame counted where a frame came out.
    pub open spec fn reads(
        self,
        post: Decoder,
        r: Result<DecodedFrame, DecoderError>,
        luma_only: bool,
        sample: SampleWidth,
        native: NativeFrame<'_>,
    ) -> bool {
        let counted = if r is Ok && self.frames_read() < usize::MAX {
            (self.frames_read() + 1) as usize
        } else {
            self.frames_read()
        };
        &&& post.details() == self.details()
        &&& match self.backend() {
            DecoderImpl::Y4m(dec) => {
                &&& post.backend() == self.backend()
                &&& post.frames_read() == counted
                &&& crate::helpers::y4m::reads(r, self.details(), luma_only, sample, native)
            },
            DecoderImpl::Vapoursynth(dec) => {
                &&& post.backend() matches DecoderImpl::Vapoursynth(after)
                &&& dec.reads(after, r, self.details(), luma_only, sample, native)
                &&& post.frames_read() == self.frames_read()
            },
            DecoderImpl::Ffmpeg(dec) => {
                &&& post.backend() == self.backend()
                &&& post.frames_read() == counted
                &&& match native {
                    NativeFrame::Planes(source) => crate::assemble::assembles(
                        r,
                        dec.video_details.width,
                        dec.video_details.height,
                        dec.video_details.chroma_sampling,
                        dec.video_details.bit_depth,
                        luma_only,
                        sample,
                        source,
                    ),
                    NativeFrame::EndOfStream => r matches Err(DecoderError::EndOfFile),
                    NativeFrame::Failed(message) => r matches Err(
                        DecoderError::FfmpegInternalError { cause },
                    ) && cause == message,
                }
            },
            DecoderImpl::Ffms2(dec) => {
                &&& post.backend() == self.backend()
                &&& post.frames_read() == counted
                &&& dec.reads(r, self.frames_read(), luma_only, sample, native)
            },
        }
    }

    /// Makes a decoder over a backend that was opened already. The metadata
    /// of the stream is settled here, once.
    pub fn from_decoder_impl(decoder_impl: DecoderImpl) -> (r: Result<Decoder, DecoderError>)
        requires
            decoder_impl.describable(),
        ensures
            r matches Ok(decoder) ==> decoder.backend() == decoder_impl && decoder.frames_read()
                == 0,
            decoder_impl.describes(
                match r {
                    Ok(decoder) => Ok(decoder.details()),
                    Err(e) => Err(e),
                },
            ),
    {
        let video_details = decoder_impl.video_details()?;
        Ok(Decoder { decoder: decoder_impl, video_details, frames_read: 0 })
    }

    /// The metadata of the stream. It does not change while the decoder
    /// lives.
    pub fn get_video_details(&self) -> (details: &VideoDetails)
        ensures
            *details == self.details(),
    {
        &self.video_details
    }

    /// The active backend and its state.
    pub fn decoder_impl(&self) -> (backend: &DecoderImpl)
        ensures
            *backend == self.backend(),
    {
        &self.decoder
    }

    /// How many frames were read through the facade.
    pub fn position(&self) -> (n: usize)
        ensures
            n == self.frames_read(),
    {
        self.frames_read
    }

    /// Takes in what the streaming backend pulled from its file and says what
    /// to do with its decoder. The other backends pull nothing.
    pub fn on_pulled(&mut self, pulled: Pulled) -> (r: Result<DecodeStep, DecoderError>)
        ensures
            final(self).details() == old(self).details(),
            final(self).frames_read() == old(self).frames_read(),
            match old(self).backend() {
                DecoderImpl::Ffmpeg(dec) => r == Ok::<DecodeStep, DecoderError>(
                    dec.step_for(pulled),
                ) && final(self).backend() == DecoderImpl::Ffmpeg(dec.after_pull(pulled)),
                _ => r matches Err(DecoderError::UnsupportedDecoder) && final(self).backend()
                    == old(self).backend(),
            },
    {
        match &mut self.decoder {
            DecoderImpl::Ffmpeg(dec) => Ok(dec.on_pulled(pulled)),
            _ => Err(DecoderError::UnsupportedDecoder),
        }
    }

    /// Says where a read of the streaming backend stands once its decoder
    /// was asked for a frame. The other backends have no decoder to ask.
    pub fn on_received(&self, received: bool) -> (r: Result<ReadProgress, DecoderError>)
        ensures
            match self.backend() {
                DecoderImpl::Ffmpeg(dec) => r == Ok::<ReadProgress, DecoderError>(
                    if received {
                        ReadProgress::Deliver
                    } else if dec.end_of_stream {
                        ReadProgress::EndOfFile
                    } else {
                        ReadProgress::PullAgain
                    },
                ),
                _ => r matches Err(DecoderError::UnsupportedDecoder),
            },
    {
        match &self.decoder {
            DecoderImpl::Ffmpeg(dec) => Ok(dec.on_received(received)),
            _ => Err(DecoderError::UnsupportedDecoder),
        }
    }

    /// What the caller has to fetch for the next sequential read. Where the
    /// stream is known to be at its end there is nothing to fetch.
    pub fn next_request(&self) -> (request: Request)
        ensures
            request == self.spec_next_request(),
            self.cursor().at_end() ==> request == Request::EndOfFile,
    {
        match &self.decoder {
            DecoderImpl::Vapoursynth(dec) => match dec.next_frame() {
                Some(index) => Request::FrameAt { index, native_index: 0 },
                None => Request::EndOfFile,
            },
            DecoderImpl::Ffms2(dec) => match dec.plan_frame(self.frames_read) {
                FramePlan::EndOfFile => Request::EndOfFile,
                FramePlan::Fetch { native_index } => Request::FrameAt {
                    index: self.frames_read,
                    native_index,
                },
            },
            _ => Request::NextFrame,
        }
    }

    /// Reads the next frame, given what the native layer handed back for
    /// `next_request`. Backend and metadata stay as they are. At the known
    /// end of the stream the answer is `EndOfFile`, whatever was handed back.
    pub fn read_video_frame(&mut self, luma_only: bool, sample: SampleWidth, native: NativeFrame<'_>) -> (r:
        Result<DecodedFrame, DecoderError>)
        requires
            old(self).backend().readable(),
        ensures
            old(self).reads(*final(self), r, luma_only, sample, native),
            final(self).details() == old(self).details(),
            final(self).backend().same_backend(old(self).backend()),
            final(self).backend().readable(),
            old(self).cursor().at_end() ==> r matches Err(DecoderError::EndOfFile),
            r is Ok && old(self).cursor().position < usize::MAX ==> final(self).cursor().position
                == old(self).cursor().position + 1,
            final(self).cursor().position == old(self).cursor().position || (
            final(self).cursor().position == old(self).cursor().position + 1 && !old(
                self,
            ).cursor().at_end()),
    {
        let r = match &mut self.decoder {
            DecoderImpl::Y4m(_) => crate::helpers::y4m::read_video_frame(
                &self.video_details,
                luma_only,
                sample,
                native,
            ),
            DecoderImpl::Vapoursynth(dec) => {
                return dec.read_video_frame(&self.video_details, luma_only, sample, native);
            },
            DecoderImpl::Ffmpeg(dec) => match native {
                NativeFrame::Planes(source) => dec.decode_frame(&source, luma_only, sample),
                NativeFrame::EndOfStream => Err(DecoderError::EndOfFile),
                NativeFrame::Failed(message) => Err(
                    DecoderError::FfmpegInternalError { cause: message },
                ),
            },
            DecoderImpl::Ffms2(dec) => dec.read_video_frame(
                self.frames_read,
                luma_only,
                sample,
                native,
            ),
        };
        if r.is_ok() && self.frames_read < usize::MAX {
            self.frames_read = self.frames_read + 1;
        }
        r
    }

    /// What the caller has to fetch for a seek to `frame_index`. The parser
    /// and the streaming backend do not offer random access. An index at or
    /// past the known end of the stream needs no fetch: the end is known from
    /// the metadata of the decoder, and from the backend's own count once that
    /// is settled.
    pub fn seek_request(&self, frame_index: usize) -> (r: Result<Request, DecoderError>)
        ensures
            if self.backend().spec_supports_seek() {
                r == Ok::<Request, DecoderError>(self.spec_seek_request(frame_index))
            } else {
                r matches Err(DecoderError::UnsupportedDecoder)
            },
            self.backend().spec_supports_seek() && self.past_known_end(frame_index) ==> r == Ok::<
                Request,
                DecoderError,
            >(Request::EndOfFile),
            self.cursor().bound matches Some(total) && frame_index >= total ==> r == Ok::<
                Request,
                DecoderError,
            >(Request::EndOfFile),
    {
        if self.decoder.supports_seek() {
            if let Some(total) = self.video_details.total_frames {
                if frame_index >= total {
                    return Ok(Request::EndOfFile);
                }
            }
        }
        match &self.decoder {
            DecoderImpl::Vapoursynth(dec) => match dec.seek_target(frame_index) {
                Some(index) => Ok(Request::FrameAt { index, native_index: 0 }),
                None => Ok(Request::EndOfFile),
            },
            DecoderImpl::Ffms2(dec) => match dec.plan_frame(frame_index) {
                FramePlan::EndOfFile => Ok(Request::EndOfFile),
                FramePlan::Fetch { native_index } => Ok(
                    Request::FrameAt { index: frame_index, native_index },
                ),
            },
            _ => Err(DecoderError::UnsupportedDecoder),
        }
    }

    /// Produces the frame at `frame_index`, given what the native layer
    /// handed back for `seek_request`. At or past the known end of the stream
    /// the answer is `EndOfFile`, whatever was handed back. Nothing of the
    /// decoder changes: the same index and the same native frame give the
    /// same answer every time.
    pub fn seek_video_frame(
        &self,
        frame_index: usize,
        luma_only: bool,
        sample: SampleWidth,
        native: NativeFrame<'_>,
    ) -> (r: Result<DecodedFrame, DecoderError>)
        ensures
            self.seeks(r, frame_index, luma_only, sample, native),
            self.backend().spec_supports_seek() && self.past_known_end(frame_index) ==> r matches Err(
                DecoderError::EndOfFile,
            ),
            self.cursor().bound matches Some(total) && frame_index >= total ==> r matches Err(
                DecoderError::EndOfFile,
            ),
    {
        if self.decoder.supports_seek() {
            if let Some(total) = self.video_details.total_frames {
                if frame_index >= total {
                    return Err(DecoderError::EndOfFile);
                }
            }
        }
        match &self.decoder {
            DecoderImpl::Vapoursynth(dec) => dec.seek_video_frame(
                &self.video_details,
                frame_index,
                luma_only,
                sample,
                native,
            ),
            DecoderImpl::Ffms2(dec) => dec.read_video_frame(frame_index, luma_only, sample, native),
            _ => Err(DecoderError::UnsupportedDecoder),
        }
    }

    /// Whether the script environment can be handed out: only the scripting
    /// backend has one.
    pub fn get_vapoursynth_env(&self) -> (r: Result<(), DecoderError>)
        ensures
            if self.backend() is Vapoursynth {
                r is Ok
            } else {
                r matches Err(DecoderError::UnsupportedDecoder)
            },
    {
        match &self.decoder {
            DecoderImpl::Vapoursynth(_) => Ok(()),
            _ => Err(DecoderError::UnsupportedDecoder),
        }
    }

    /// Which node the scripting backend decodes from, given what the
    /// environment showed of the script's output. The other backends have no
    /// node.
    pub fn get_vapoursynth_node(&self, probe: OutputProbe) -> (r: Result<NodePlan, DecoderError>)
        requires
            self.backend() matches DecoderImpl::Vapoursynth(dec) ==> (!dec.has_modifier ==> probe
                == OutputProbe::Found),
        ensures
            match self.backend() {
                DecoderImpl::Vapoursynth(dec) => r == Ok::<NodePlan, DecoderError>(
                    dec.spec_node_plan(),
                ),
                _ => r matches Err(DecoderError::UnsupportedDecoder),
            },
    {
        match &self.decoder {
            DecoderImpl::Vapoursynth(dec) => Ok(dec.get_output_node(probe)),
            _ => Err(DecoderError::UnsupportedDecoder),
        }
    }
}

/// The decoder that read number `i` of a run starts from: the decoder the run
/// starts from, or what the read before it left behind.
pub open spec fn decoder_before(start: Decoder, posts: Seq<Decoder>, i: int) -> Decoder {
    if i <= 0 {
        start
    } else {
        posts[i - 1]
    }
}

/// Whether `posts` and `results` are what a run of sequential reads leaves
/// behind, one read after the other from `start`, where read number `i` is
/// handed `natives[i]`.
pub open spec fn is_run_of_reads(
    start: Decoder,
    posts: Seq<Decoder>,
    results: Seq<Result<DecodedFrame, DecoderError>>,
    natives: Seq<NativeFrame<'_>>,
    luma_only: bool,
    sample: SampleWidth,
) -> bool {
    &&& posts.len() == results.len()
    &&& posts.len() == natives.len()
    &&& forall|i: int|
        0 <= i < posts.len() ==> (#[trigger] decoder_before(start, posts, i)).reads(
            posts[i],
            results[i],
            luma_only,
            sample,
            natives[i],
        )
}

/// Whether the native layer hands back, for each of the first `total` reads
/// of a run, a frame that can be assembled at the given size, depth and
/// layout.
pub open spec fn serves_stream(
    natives: Seq<NativeFrame<'_>>,
    total: usize,
    cfg: VideoDetails,
    luma_only: bool,
    sample: SampleWidth,
) -> bool {
    forall|i: int|
        0 <= i < natives.len() && i < total ==> ((#[trigger] natives[i]) matches NativeFrame::Planes(
            source,
        ) && crate::assemble::can_assemble(
            cfg.width,
            cfg.height,
            cfg.chroma_sampling,
            cfg.bit_depth,
            luma_only,
            sample,
            source,
        ))
}

/// What holds of the first `count` reads of such a run, and of the decoder
/// they leave behind.
proof fn lemma_run_prefix(
    start: Decoder,
    posts: Seq<Decoder>,
    results: Seq<Result<DecodedFrame, DecoderError>>,
    natives: Seq<NativeFrame<'_>>,
    luma_only: bool,
    sample: SampleWidth,
    total: usize,
    count: nat,
)
    requires
        start.cursor().position == 0,
        start.length() == Some(total),
        is_run_of_reads(start, posts, results, natives, luma_only, sample),
        serves_stream(natives, total, start.frame_details(), luma_only, sample),
        count <= posts.len(),
    ensures
        ({
            let before = decoder_before(start, posts, count as int);
            &&& before.cursor().position == (if count <= total {
                count as int
            } else {
                total as int
            })
            &&& before.length() == Some(total)
            &&& before.frame_details() == start.frame_details()
            &&& before.backend().same_backend(start.backend())
            &&& count >= 1 ==> before.cursor().bound == Some(total as nat)
        }),
        forall|i: int|
            0 <= i < count && i < total ==> (#[trigger] results[i]) is Ok && decoder_before(
                start,
                posts,
                i,
            ).cursor().position == i,
        forall|i: int|
            0 <= i < count && i >= total ==> (#[trigger] results[i]) matches Err(
                DecoderError::EndOfFile,
            ),
    decreases count,
{
    if count > 0 {
        let i = (count - 1) as int;
        lemma_run_prefix(
            start,
            posts,
            results,
            natives,
            luma_only,
            sample,
            total,
            (count - 1) as nat,
        );
        let pre = decoder_before(start, posts, i);
        let post = posts[i];
        assert(pre.reads(post, results[i], luma_only, sample, natives[i]));
        assert(decoder_before(start, posts, count as int) == post);
        if i < total {
            assert(natives[i] is Planes);
        }
    }
}

/// A decoder at the start of a stream of `total` frames, on a backend that
/// knows where its stream ends, whose native layer hands back a frame that
/// can be assembled for every index below `total`, answers a run of
/// sequential reads with exactly `total` frames, asking for the frame of
/// index `i` before read number `i`, and with `EndOfFile` to every read after
/// them.
pub proof fn lemma_sequential_reads(
    start: Decoder,
    posts: Seq<Decoder>,
    results: Seq<Result<DecodedFrame, DecoderError>>,
    natives: Seq<NativeFrame<'_>>,
    luma_only: bool,
    sample: SampleWidth,
    total: usize,
)
    requires
        start.cursor().position == 0,
        start.length() == Some(total),
        is_run_of_reads(start, posts, results, natives, luma_only, sample),
        serves_stream(natives, total, start.frame_details(), luma_only, sample),
    ensures
        forall|i: int|
            0 <= i < results.len() && i < total ==> (#[trigger] results[i]) is Ok && decoder_before(
                start,
                posts,
                i,
            ).spec_next_request().asks_for(i),
        forall|i: int|
            0 <= i < results.len() && i >= total ==> ((#[trigger] results[i]) matches Err(
                DecoderError::EndOfFile,
            ) && decoder_before(start, posts, i).spec_next_request() == Request::EndOfFile),
{
    lemma_run_prefix(start, posts, results, natives, luma_only, sample, total, posts.len());
    assert forall|i: int| 0 <= i < results.len() && i < total implies (#[trigger] results[i]) is Ok
        && decoder_before(start, posts, i).spec_next_request().asks_for(i) by {
        lemma_run_prefix(start, posts, results, natives, luma_only, sample, total, i as nat);
    }
    assert forall|i: int| 0 <= i < results.len() && i >= total implies ((#[trigger] results[i]) matches Err(
        DecoderError::EndOfFile,
    ) && decoder_before(start, posts, i).spec_next_request() == Request::EndOfFile) by {
        lemma_run_prefix(start, posts, results, natives, luma_only, sample, total, i as nat);
    }
}

} // verus!
