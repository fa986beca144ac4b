//! The scripting backend: what the metadata of a script's output node means,
//! how failures of the script environment are reported, and the read cursor
//! of a decoder over such a node.

use vstd::prelude::*;
use crate::assemble::{assemble, assembles, DecodedFrame, NativeFrame, SampleWidth};
use crate::details::{reducible, FrameRate, VideoDetails};
use crate::error::DecoderError;
use crate::layout::ChromaLayout;

verus! {

/// The number of frames of an output node.
pub type TotalFrames = usize;

/// The width of an output node.
pub type Width = usize;

/// The height of an output node.
pub type Height = usize;

/// The bit depth of an output node.
pub type BitDepth = usize;

/// A property of a clip that either holds one value throughout or varies.
#[derive(Clone, Copy, Debug)]
pub enum Property<T> {
    /// The property changes within the clip.
    Variable,
    /// The property is the same for every frame.
    Constant(T),
}

/// The size of a clip's frames.
#[derive(Clone, Copy, Debug, PartialEq, Eq, Structural)]
pub struct Resolution {
    /// Width in samples.
    pub width: usize,
    /// Height in samples.
    pub height: usize,
}

/// The frame rate of a clip as the script environment reports it.
#[derive(Clone, Copy, Debug, PartialEq, Eq, Structural)]
pub struct Framerate {
    /// Numerator.
    pub numerator: u64,
    /// Denominator.
    pub denominator: u64,
}

/// The family of colour models that a format belongs to.
#[derive(Clone, Copy, Debug, PartialEq, Eq, Structural)]
pub enum ColorFamily {
    /// Grey.
    Gray,
    /// Red, green, blue.
    RGB,
    /// Luma and two colour differences.
    YUV,
    /// Luma, orange and green differences.
    YCoCg,
    /// Packed formats kept for compatibility.
    Compat,
}

/// The native format of a clip: the fields of it that this library reads.
#[derive(Clone, Copy, Debug, PartialEq, Eq, Structural)]
pub struct Format {
    /// The colour family.
    pub color_family: ColorFamily,
    /// Bits per sample.
    pub bits_per_sample: u8,
    /// Horizontal chroma subsampling, as a power of two.
    pub sub_sampling_w: u8,
    /// Vertical chroma subsampling, as a power of two.
    pub sub_sampling_h: u8,
}

/// What the script environment reports of an output node.
#[derive(Clone, Copy, Debug)]
pub struct VideoInfo {
    /// The format of the clip.
    pub format: Property<Format>,
    /// The frame rate of the clip.
    pub framerate: Property<Framerate>,
    /// The size of the clip's frames.
    pub resolution: Property<Resolution>,
    /// The number of frames in the clip.
    pub num_frames: usize,
}

impl ColorFamily {
    /// The name of the family as it is shown to the user.
    pub open spec fn spec_name(self) -> Seq<char> {
        match self {
            ColorFamily::Gray => "Gray"@,
            ColorFamily::RGB => "RGB"@,
            ColorFamily::YUV => "YUV"@,
            ColorFamily::YCoCg => "YCoCg"@,
            ColorFamily::Compat => "Compat"@,
        }
    }

    /// The name of the family as it is shown to the user.
    pub fn name(self) -> (name: String)
        ensures
            name@ == self.spec_name(),
    {
        match self {
            ColorFamily::Gray => "Gray".to_owned(),
            ColorFamily::RGB => "RGB".to_owned(),
            ColorFamily::YUV => "YUV".to_owned(),
            ColorFamily::YCoCg => "YCoCg".to_owned(),
            ColorFamily::Compat => "Compat".to_owned(),
        }
    }
}

impl VideoInfo {
    /// Whether metadata can be taken from the report: format, resolution and
    /// frame rate are constant, the layout is one that is decoded, and the
    /// clip has frames.
    pub open spec fn accepted(self) -> bool {
        &&& self.format matches Property::Constant(format) && format_layout(format) is Some
        &&& self.resolution is Constant
        &&& self.framerate is Constant
        &&& self.num_frames > 0
    }

    /// Whether the frame rate, cut to 32 bits, can be put in lowest terms.
    pub open spec fn rate_reducible(self) -> bool {
        self.framerate matches Property::Constant(fps) ==> reducible(
            fps.numerator as i32,
            fps.denominator as i32,
        )
    }
}

/// The chroma layout of a format: by its subsampling for the luma and colour
/// difference family, monochrome for grey.
pub open spec fn format_layout(format: Format) -> Option<ChromaLayout> {
    match format.color_family {
        ColorFamily::YUV => if format.sub_sampling_w == 1 && format.sub_sampling_h == 1 {
            Some(ChromaLayout::Yuv420)
        } else if format.sub_sampling_w == 1 && format.sub_sampling_h == 0 {
            Some(ChromaLayout::Yuv422)
        } else if format.sub_sampling_w == 0 && format.sub_sampling_h == 0 {
            Some(ChromaLayout::Yuv444)
        } else {
            None
        },
        ColorFamily::Gray => Some(ChromaLayout::Monochrome),
        _ => None,
    }
}

/// `r` is what `parse_video_details` returns for `info`.
pub open spec fn parses(r: Result<(VideoDetails, TotalFrames), DecoderError>, info: VideoInfo) -> bool {
    if info.format is Variable {
        r matches Err(DecoderError::VariableFormat)
    } else if info.resolution is Variable {
        r matches Err(DecoderError::VariableResolution)
    } else if info.framerate is Variable {
        r matches Err(DecoderError::VariableFramerate)
    } else if info.num_frames == 0 {
        r matches Err(DecoderError::EndOfFile)
    } else {
        let format = info.format->Constant_0;
        let size = info.resolution->Constant_0;
        let fps = info.framerate->Constant_0;
        match format_layout(format) {
            Some(layout) => {
                &&& r matches Ok((details, total))
                &&& total == info.num_frames
                &&& details.width == size.width
                &&& details.height == size.height
                &&& details.bit_depth == format.bits_per_sample
                &&& details.chroma_sampling == layout
                &&& details.frame_rate.wf()
                &&& details.frame_rate.equals_fraction(
                    (fps.numerator as i32) as int,
                    (fps.denominator as i32) as int,
                )
                &&& details.total_frames == Some(info.num_frames)
            },
            None => if format.color_family == ColorFamily::YUV {
                r matches Err(DecoderError::UnsupportedChromaSubsampling { x, y }) && x
                    == format.sub_sampling_w && y == format.sub_sampling_h
            } else {
                r matches Err(DecoderError::UnsupportedFormat { fmt }) && fmt@
                    == format.color_family.spec_name()
            },
        }
    }
}

/// The number of frames of a clip whose format, resolution and frame rate
/// are constant. A clip without frames is at its end before it starts.
pub fn get_num_frames(info: VideoInfo) -> (r: Result<TotalFrames, DecoderError>)
    ensures
        if info.format is Variable {
            r matches Err(DecoderError::VariableFormat)
        } else if info.resolution is Variable {
            r matches Err(DecoderError::VariableResolution)
        } else if info.framerate is Variable {
            r matches Err(DecoderError::VariableFramerate)
        } else if info.num_frames == 0 {
            r matches Err(DecoderError::EndOfFile)
        } else {
            r == Ok::<TotalFrames, DecoderError>(info.num_frames)
        },
{
    if let Property::Variable = info.format {
        return Err(DecoderError::VariableFormat);
    }
    if let Property::Variable = info.resolution {
        return Err(DecoderError::VariableResolution);
    }
    if let Property::Variable = info.framerate {
        return Err(DecoderError::VariableFramerate);
    }
    if info.num_frames == 0 {
        return Err(DecoderError::EndOfFile);
    }
    Ok(info.num_frames)
}

/// The bit depth of a clip of constant format.
pub fn get_bit_depth(info: VideoInfo) -> (r: Result<BitDepth, DecoderError>)
    ensures
        match info.format {
            Property::Variable => r matches Err(DecoderError::VariableFormat),
            Property::Constant(format) => r == Ok::<BitDepth, DecoderError>(
                format.bits_per_sample as usize,
            ),
        },
{
    match info.format {
        Property::Variable => Err(DecoderError::VariableFormat),
        Property::Constant(format) => Ok(format.bits_per_sample as usize),
    }
}

/// The frame size of a clip of constant resolution.
pub fn get_resolution(info: VideoInfo) -> (r: Result<(Width, Height), DecoderError>)
    ensures
        match info.resolution {
            Property::Variable => r matches Err(DecoderError::VariableResolution),
            Property::Constant(size) => r == Ok::<(Width, Height), DecoderError>(
                (size.width, size.height),
            ),
        },
{
    match info.resolution {
        Property::Variable => Err(DecoderError::VariableResolution),
        Property::Constant(size) => Ok((size.width, size.height)),
    }
}

/// The frame rate of a clip of constant frame rate, in lowest terms.
/// Numerator and denominator are cut to 32 bits first.
pub fn get_frame_rate(info: VideoInfo) -> (r: Result<FrameRate, DecoderError>)
    requires
        info.rate_reducible(),
    ensures
        match info.framerate {
            Property::Variable => r matches Err(DecoderError::VariableFramerate),
            Property::Constant(fps) => r matches Ok(rate) && rate.wf() && rate.equals_fraction(
                (fps.numerator as i32) as int,
                (fps.denominator as i32) as int,
            ),
        },
{
    match info.framerate {
        Property::Variable => Err(DecoderError::VariableFramerate),
        Property::Constant(fps) => Ok(
            FrameRate::new(
                #[verifier::truncate]
                (fps.numerator as i32),
                #[verifier::truncate]
                (fps.denominator as i32),
            ),
        ),
    }
}

/// The chroma layout of a clip of constant format.
pub fn get_chroma_sampling(info: VideoInfo) -> (r: Result<ChromaLayout, DecoderError>)
    ensures
        match info.format {
            Property::Variable => r matches Err(DecoderError::VariableFormat),
            Property::Constant(format) => match format_layout(format) {
                Some(layout) => r == Ok::<ChromaLayout, DecoderError>(layout),
                None => if format.color_family == ColorFamily::YUV {
                    r matches Err(DecoderError::UnsupportedChromaSubsampling { x, y }) && x
                        == format.sub_sampling_w && y == format.sub_sampling_h
                } else {
                    r matches Err(DecoderError::UnsupportedFormat { fmt }) && fmt@
                        == format.color_family.spec_name()
                },
            },
        },
{
    match info.format {
        Property::Variable => Err(DecoderError::VariableFormat),
        Property::Constant(format) => match format.color_family {
            ColorFamily::YUV => {
                let w = format.sub_sampling_w;
                let h = format.sub_sampling_h;
                if w == 1 && h == 1 {
                    Ok(ChromaLayout::Yuv420)
                } else if w == 1 && h == 0 {
                    Ok(ChromaLayout::Yuv422)
                } else if w == 0 && h == 0 {
                    Ok(ChromaLayout::Yuv444)
                } else {
                    Err(DecoderError::UnsupportedChromaSubsampling { x: w as usize, y: h as usize })
                }
            },
            ColorFamily::Gray => Ok(ChromaLayout::Monochrome),
            family => Err(DecoderError::UnsupportedFormat { fmt: family.name() }),
        },
    }
}

/// The stream metadata and the frame count that an output node stands for.
pub fn parse_video_details(info: VideoInfo) -> (r: Result<(VideoDetails, TotalFrames), DecoderError>)
    requires
        info.rate_reducible(),
    ensures
        parses(r, info),
{
    let total_frames = get_num_frames(info)?;
    let (width, height) = get_resolution(info)?;
    let bit_depth = get_bit_depth(info)?;
    let chroma_sampling = get_chroma_sampling(info)?;
    let frame_rate = get_frame_rate(info)?;
    Ok(
        (
            VideoDetails {
                width,
                height,
                bit_depth,
                chroma_sampling,
                frame_rate,
                total_frames: Some(total_frames),
            },
            total_frames,
        ),
    )
}

/// The ways in which the script environment can fail.
#[derive(Clone, Copy, Debug, PartialEq, Eq, Structural)]
pub enum ScriptErrorKind {
    /// A name or a script held a zero byte.
    CStringConversion,
    /// The script file could not be opened.
    FileOpen,
    /// The script file could not be read.
    FileRead,
    /// The path of the script file is not valid Unicode.
    PathInvalidUnicode,
    /// The script itself failed.
    VSScript,
    /// A variable was asked for that the script does not have.
    NoSuchVariable,
    /// The environment has no core.
    NoCore,
    /// The script set no output at the index asked for.
    NoOutput,
    /// The native interface is not available.
    NoAPI,
}

/// A failure of the script environment.
pub struct ScriptError {
    /// What kind of failure it is.
    pub kind: ScriptErrorKind,
    /// The failure as the environment words it.
    pub text: String,
    /// Where the script itself failed: what the script reported.
    pub script_text: String,
}

/// Whether a kind of failure is reported as a failure to read the script.
pub open spec fn is_read_failure(kind: ScriptErrorKind) -> bool {
    kind == ScriptErrorKind::CStringConversion || kind == ScriptErrorKind::FileOpen || kind
        == ScriptErrorKind::FileRead || kind == ScriptErrorKind::PathInvalidUnicode || kind
        == ScriptErrorKind::VSScript
}

/// `e` is how a failure of the script environment is reported: trouble with
/// the script or its file as a `FileReadError`, with the script's own report
/// where the script failed; everything else as an internal error. The cause
/// is the failure's text.
pub open spec fn reports_load_failure(e: DecoderError, error: ScriptError) -> bool {
    if is_read_failure(error.kind) {
        e matches DecoderError::FileReadError { cause } && cause == (if error.kind
            == ScriptErrorKind::VSScript {
            error.script_text
        } else {
            error.text
        })
    } else {
        e matches DecoderError::VapoursynthInternalError { cause } && cause == error.text
    }
}

/// Reports a failure to create or evaluate the script environment.
pub fn script_load_error(error: ScriptError) -> (e: DecoderError)
    ensures
        reports_load_failure(e, error),
{
    match error.kind {
        ScriptErrorKind::CStringConversion
        | ScriptErrorKind::FileOpen
        | ScriptErrorKind::FileRead
        | ScriptErrorKind::PathInvalidUnicode => DecoderError::FileReadError { cause: error.text },
        ScriptErrorKind::VSScript => DecoderError::FileReadError { cause: error.script_text },
        ScriptErrorKind::NoSuchVariable
        | ScriptErrorKind::NoCore
        | ScriptErrorKind::NoOutput
        | ScriptErrorKind::NoAPI => DecoderError::VapoursynthInternalError { cause: error.text },
    }
}

/// How an attempt to hand variables to the script environment went.
pub enum VariablesOutcome {
    /// The native interface is not available.
    NoApi,
    /// A variable could not be stored, or the environment refused the set.
    Rejected(String),
    /// The variables are set.
    Accepted,
}

/// What the environment showed when it was asked for the script's output.
#[derive(Clone, Copy, Debug, PartialEq, Eq, Structural)]
pub enum OutputProbe {
    /// The script set an output node.
    Found,
    /// The script set no output node.
    NoOutput,
    /// The environment failed.
    Failed,
}

/// Which node to decode from.
#[derive(Clone, Copy, Debug, PartialEq, Eq, Structural)]
pub enum NodePlan {
    /// The script's output node as it is.
    UseOutput,
    /// The node that the modifier returned when it was registered. It was
    /// kept then; the modifier is not run again.
    Reuse,
}

/// How the one run of a node modifier went.
pub enum ModifierOutcome {
    /// The modifier returned a node, of which the environment reports this.
    Node(VideoInfo),
    /// The modifier failed, with its message.
    Failed(String),
}

/// The state of a decoder over the output node of a script.
#[derive(Clone, Copy, Debug)]
pub struct VapoursynthDecoder {
    /// Whether a node modifier is registered. It ran once, when it was
    /// registered, and the node it returned is the node that is read from.
    pub has_modifier: bool,
    /// What the environment reports of the node that frames are read from,
    /// where there is one.
    pub node_info: Option<VideoInfo>,
    /// How many frames were read so far.
    pub frames_read: usize,
    /// The number of frames of the node, once it is known.
    pub total_frames: Option<TotalFrames>,
    /// The metadata of the node, once it is known.
    pub video_details: Option<VideoDetails>,
}

impl VapoursynthDecoder {
    /// The frame rate of the node can be put in lowest terms; metadata and
    /// frame count are settled together; nothing is read before they are.
    pub open spec fn wf(self) -> bool {
        &&& self.node_info matches Some(info) ==> info.rate_reducible()
        &&& self.total_frames is Some <==> self.video_details is Some
        &&& self.total_frames is None ==> self.frames_read == 0
    }

    /// Whether frames can be read: there is a node to settle metadata from
    /// where it is not settled yet.
    pub open spec fn readable(self) -> bool {
        self.wf() && (self.total_frames is None ==> self.node_info is Some)
    }

    /// `r` is the metadata of the node: as it was settled, or as the node's
    /// report gives it where it is not settled yet.
    pub open spec fn describes(self, r: Result<VideoDetails, DecoderError>) -> bool {
        match self.video_details {
            Some(details) => r == Ok::<VideoDetails, DecoderError>(details),
            None => parses(
                match r {
                    Ok(details) => Ok((details, self.node_info->Some_0.num_frames)),
                    Err(e) => Err(e),
                },
                self.node_info->Some_0,
            ),
        }
    }

    /// `r` and `post` are what `read_video_frame` leaves behind on the state
    /// `self`.
    pub open spec fn reads(
        self,
        post: VapoursynthDecoder,
        r: Result<DecodedFrame, DecoderError>,
        cfg: VideoDetails,
        luma_only: bool,
        sample: SampleWidth,
        fetched: NativeFrame<'_>,
    ) -> bool {
        &&& post.has_modifier == self.has_modifier
        &&& post.node_info == self.node_info
        &&& if self.at_end() {
            r matches Err(DecoderError::EndOfFile) && post == self
        } else {
            &&& self.total_frames is Some ==> post.total_frames == self.total_frames
                && post.video_details == self.video_details
            &&& self.total_frames is None ==> parses(
                if post.total_frames is Some {
                    Ok((post.video_details->Some_0, post.total_frames->Some_0))
                } else {
                    Err(r->Err_0)
                },
                self.node_info->Some_0,
            ) && (post.total_frames is None ==> r is Err && post == self)
            &&& post.total_frames is Some ==> match fetched {
                NativeFrame::Planes(source) => post.frames_read == self.frames_read + 1
                    && assembles(
                    r,
                    cfg.width,
                    cfg.height,
                    cfg.chroma_sampling,
                    cfg.bit_depth,
                    luma_only,
                    sample,
                    source,
                ),
                _ => r matches Err(DecoderError::EndOfFile) && post.frames_read
                    == self.frames_read,
            }
        }
    }

    /// `r` is what `seek_video_frame` returns for the frame at `frame_index`
    /// and what was fetched for it.
    pub open spec fn seeks(
        self,
        r: Result<DecodedFrame, DecoderError>,
        cfg: VideoDetails,
        frame_index: usize,
        luma_only: bool,
        sample: SampleWidth,
        fetched: NativeFrame<'_>,
    ) -> bool {
        if self.past_end(frame_index) || (cfg.total_frames matches Some(total) && frame_index
            >= total) {
            r matches Err(DecoderError::EndOfFile)
        } else {
            match fetched {
                NativeFrame::Planes(source) => assembles(
                    r,
                    cfg.width,
                    cfg.height,
                    cfg.chroma_sampling,
                    cfg.bit_depth,
                    luma_only,
                    sample,
                    source,
                ),
                _ => r matches Err(DecoderError::EndOfFile),
            }
        }
    }

    /// The number of frames of the clip: as it was settled, or as the node's
    /// report gives it where metadata can be taken from that report.
    pub open spec fn clip_length(self) -> Option<usize> {
        match self.total_frames {
            Some(total) => Some(total),
            None => match self.node_info {
                Some(info) => if info.accepted() {
                    Some(info.num_frames)
                } else {
                    None
                },
                None => None,
            },
        }
    }

    /// Whether sequential reading is known to be at its end.
    pub open spec fn at_end(self) -> bool {
        self.total_frames matches Some(total) && self.frames_read >= total
    }

    /// Whether `frame_index` lies at or past the known end of the clip.
    pub open spec fn past_end(self, frame_index: usize) -> bool {
        self.total_frames matches Some(total) && frame_index >= total
    }

    /// The decoder state after the script environment was set up: at the
    /// first frame, with nothing known but what the environment reports of
    /// the output node, if the script set one. A failure to set the
    /// environment up is reported as `script_load_error` says.
    pub fn new(created: Result<Option<VideoInfo>, ScriptError>) -> (r: Result<
        VapoursynthDecoder,
        DecoderError,
    >)
        requires
            created matches Ok(Some(info)) ==> info.rate_reducible(),
        ensures
            match created {
                Ok(node_info) => r matches Ok(decoder) && decoder.node_info == node_info
                    && !decoder.has_modifier && decoder.frames_read == 0
                    && decoder.total_frames is None && decoder.video_details is None
                    && decoder.wf(),
                Err(error) => r matches Err(e) && reports_load_failure(e, error),
            },
    {
        match created {
            Ok(node_info) => Ok(
                VapoursynthDecoder {
                    has_modifier: false,
                    node_info,
                    frames_read: 0,
                    total_frames: None,
                    video_details: None,
                },
            ),
            Err(error) => Err(script_load_error(error)),
        }
    }

    /// Reports how handing variables to the script environment went.
    pub fn set_variables(&self, outcome: VariablesOutcome) -> (r: Result<(), DecoderError>)
        ensures
            match outcome {
                VariablesOutcome::Accepted => r is Ok,
                VariablesOutcome::Rejected(message) => r matches Err(
                    DecoderError::VapoursynthArgsError { cause },
                ) && cause == message,
                VariablesOutcome::NoApi => r matches Err(
                    DecoderError::VapoursynthInternalError { cause },
                ) && cause@ == "failed to get Vapoursynth API instance"@,
            },
    {
        match outcome {
            VariablesOutcome::Accepted => Ok(()),
            VariablesOutcome::Rejected(message) => Err(
                DecoderError::VapoursynthArgsError { cause: message },
            ),
            VariablesOutcome::NoApi => Err(
                DecoderError::VapoursynthInternalError {
                    cause: "failed to get Vapoursynth API instance".to_owned(),
                },
            ),
        }
    }

    /// What `get_output_node` answers.
    pub open spec fn spec_node_plan(self) -> NodePlan {
        if self.has_modifier {
            NodePlan::Reuse
        } else {
            NodePlan::UseOutput
        }
    }

    /// `r` and `post` are what `register_node_modifier` leaves behind on the
    /// state `self`: a failing modifier is an internal error with its message;
    /// a node whose metadata is refused is refused with the error of the
    /// metadata; in both cases nothing changes. Otherwise the modifier counts
    /// as registered, its node is the node that is read from, and metadata
    /// and frame count follow that node.
    pub open spec fn registers(
        self,
        post: VapoursynthDecoder,
        r: Result<(), DecoderError>,
        outcome: ModifierOutcome,
    ) -> bool {
        match outcome {
            ModifierOutcome::Failed(message) => r matches Err(
                DecoderError::VapoursynthInternalError { cause },
            ) && cause == message && post == self,
            ModifierOutcome::Node(modified) => {
                &&& parses(
                    match r {
                        Ok(()) => Ok((post.video_details->Some_0, post.total_frames->Some_0)),
                        Err(e) => Err(e),
                    },
                    modified,
                )
                &&& r is Err ==> post == self
                &&& r is Ok ==> post == (VapoursynthDecoder {
                    has_modifier: true,
                    node_info: Some(modified),
                    frames_read: self.frames_read,
                    total_frames: post.total_frames,
                    video_details: post.video_details,
                }) && post.total_frames is Some && post.video_details is Some
            },
        }
    }

    /// Decides which node frames are read from: the node that the modifier
    /// returned when it was registered, where one is registered, else the
    /// script's output node, which has to exist. The modifier itself is never
    /// asked for again.
    pub fn get_output_node(&self, probe: OutputProbe) -> (plan: NodePlan)
        requires
            !self.has_modifier ==> probe == OutputProbe::Found,
        ensures
            plan == self.spec_node_plan(),
    {
        if self.has_modifier {
            NodePlan::Reuse
        } else {
            NodePlan::UseOutput
        }
    }

    /// Whether a modifier that is about to be registered may be run, given
    /// what the environment showed of the script's output, and whether it
    /// gets an output node to start from. It is then run once, and how that
    /// went is handed to `register_node_modifier`. A failing environment is an
    /// internal error with its message, and the modifier is not run.
    pub fn modifier_input(probe: OutputProbe, message: String) -> (r: Result<bool, DecoderError>)
        ensures
            match probe {
                OutputProbe::Found => r == Ok::<bool, DecoderError>(true),
                OutputProbe::NoOutput => r == Ok::<bool, DecoderError>(false),
                OutputProbe::Failed => r matches Err(
                    DecoderError::VapoursynthInternalError { cause },
                ) && cause == message,
            },
    {
        match probe {
            OutputProbe::Found => Ok(true),
            OutputProbe::NoOutput => Ok(false),
            OutputProbe::Failed => Err(DecoderError::VapoursynthInternalError { cause: message }),
        }
    }

    /// Registers a node modifier, given how its one run went. A modifier that
    /// failed is reported as an internal error with its message. The node of
    /// one that succeeded is kept: frames are read from it, and metadata and
    /// frame count follow it from now on. On any error nothing changes.
    pub fn register_node_modifier(&mut self, outcome: ModifierOutcome) -> (r: Result<
        (),
        DecoderError,
    >)
        requires
            outcome matches ModifierOutcome::Node(modified) ==> modified.rate_reducible(),
        ensures
            old(self).registers(*final(self), r, outcome),
            old(self).wf() ==> final(self).wf(),
            r is Ok ==> final(self).readable() && final(self).spec_node_plan() == NodePlan::Reuse,
    {
        match outcome {
            ModifierOutcome::Failed(message) => Err(
                DecoderError::VapoursynthInternalError { cause: message },
            ),
            ModifierOutcome::Node(modified) => {
                let (video_details, total_frames) = parse_video_details(modified)?;
                self.video_details = Some(video_details);
                self.total_frames = Some(total_frames);
                self.node_info = Some(modified);
                self.has_modifier = true;
                Ok(())
            },
        }
    }

    /// The metadata of the node: as it was settled, or as the node's report
    /// gives it where it is not settled yet.
    pub fn get_video_details(&self) -> (r: Result<VideoDetails, DecoderError>)
        requires
            self.wf(),
            self.video_details is Some || self.node_info is Some,
        ensures
            self.describes(r),
    {
        match self.video_details {
            Some(details) => Ok(details),
            None => {
                let info = self.node_info.unwrap();
                let (details, _) = parse_video_details(info)?;
                Ok(details)
            },
        }
    }

    /// What `next_frame` answers.
    pub open spec fn spec_next_frame(self) -> Option<usize> {
        if self.at_end() {
            None
        } else {
            Some(self.frames_read)
        }
    }

    /// The index of the frame that sequential reading fetches next, or `None`
    /// where the clip is known to be at its end.
    pub fn next_frame(&self) -> (next: Option<usize>)
        ensures
            next == self.spec_next_frame(),
    {
        if let Some(total) = self.total_frames {
            if self.frames_read >= total {
                return None;
            }
        }
        Some(self.frames_read)
    }

    /// Reads the next frame, given what the node handed back for the index
    /// that `next_frame` gave.
    ///
    /// At the known end of the clip the answer is `EndOfFile` and nothing
    /// changes. Otherwise metadata and frame count are settled from the node's
    /// report if they were not yet, once and for good. A node that hands back
    /// no frame is at its end. A frame that it hands back counts as read, and
    /// is assembled at the size, depth and layout of `cfg`.
    pub fn read_video_frame(
        &mut self,
        cfg: &VideoDetails,
        luma_only: bool,
        sample: SampleWidth,
        fetched: NativeFrame<'_>,
    ) -> (r: Result<DecodedFrame, DecoderError>)
        requires
            old(self).readable(),
        ensures
            old(self).reads(*final(self), r, *cfg, luma_only, sample, fetched),
            final(self).readable(),
    {
        if let Some(total) = self.total_frames {
            if self.frames_read >= total {
                return Err(DecoderError::EndOfFile);
            }
        }
        if self.total_frames.is_none() {
            let info = self.node_info.unwrap();
            let (video_details, total_frames) = parse_video_details(info)?;
            self.video_details = Some(video_details);
            self.total_frames = Some(total_frames);
        }
        match fetched {
            NativeFrame::Planes(source) => {
                self.frames_read = self.frames_read + 1;
                assemble(
                    cfg.width,
                    cfg.height,
                    cfg.chroma_sampling,
                    cfg.bit_depth,
                    luma_only,
                    sample,
                    &source,
                )
            },
            _ => Err(DecoderError::EndOfFile),
        }
    }

    /// The index to fetch for a seek to `frame_index`, or `None` where it
    /// lies at or past the known end of the clip.
    pub fn seek_target(&self, frame_index: usize) -> (target: Option<usize>)
        ensures
            target == if self.past_end(frame_index) {
                None
            } else {
                Some(frame_index)
            },
    {
        if let Some(total) = self.total_frames {
            if frame_index >= total {
                return None;
            }
        }
        Some(frame_index)
    }

    /// Produces the frame at `frame_index`, given what the node handed back
    /// for it. At or past the end of the clip, as the decoder's own count or
    /// the count in `cfg` gives it, and where the node hands back no frame,
    /// the answer is `EndOfFile`. Sequential reading is left where it was.
    pub fn seek_video_frame(
        &self,
        cfg: &VideoDetails,
        frame_index: usize,
        luma_only: bool,
        sample: SampleWidth,
        fetched: NativeFrame<'_>,
    ) -> (r: Result<DecodedFrame, DecoderError>)
        ensures
            self.seeks(r, *cfg, frame_index, luma_only, sample, fetched),
    {
        if let Some(total) = self.total_frames {
            if frame_index >= total {
                return Err(DecoderError::EndOfFile);
            }
        }
        if let Some(total) = cfg.total_frames {
            if frame_index >= total {
                return Err(DecoderError::EndOfFile);
            }
        }
        match fetched {
            NativeFrame::Planes(source) => assemble(
                cfg.width,
                cfg.height,
                cfg.chroma_sampling,
                cfg.bit_depth,
                luma_only,
                sample,
                &source,
            ),
            _ => Err(DecoderError::EndOfFile),
        }
    }
}

/// The state that read number `i` of a run starts from: the state the run
/// starts from, or what the read before it left behind.
pub open spec fn state_before(
    start: VapoursynthDecoder,
    posts: Seq<VapoursynthDecoder>,
    i: int,
) -> VapoursynthDecoder {
    if i <= 0 {
        start
    } else {
        posts[i - 1]
    }
}

/// Whether `posts` and `results` are what a run of sequential reads leaves
/// behind, one read after the other from `start`, where read number `i` is
/// handed `fetched[i]`.
pub open spec fn is_run_of_reads(
    start: VapoursynthDecoder,
    posts: Seq<VapoursynthDecoder>,
    results: Seq<Result<DecodedFrame, DecoderError>>,
    fetched: Seq<NativeFrame<'_>>,
    cfg: VideoDetails,
    luma_only: bool,
    sample: SampleWidth,
) -> bool {
    &&& posts.len() == results.len()
    &&& posts.len() == fetched.len()
    &&& forall|i: int|
        0 <= i < posts.len() ==> (#[trigger] state_before(start, posts, i)).reads(
            posts[i],
            results[i],
            cfg,
            luma_only,
            sample,
            fetched[i],
        )
}

/// Whether the node hands back, for each of the first `total` reads of a
/// run, a frame that can be assembled.
pub open spec fn serves_clip(
    fetched: Seq<NativeFrame<'_>>,
    total: usize,
    cfg: VideoDetails,
    luma_only: bool,
    sample: SampleWidth,
) -> bool {
    forall|i: int|
        0 <= i < fetched.len() && i < total ==> ((#[trigger] fetched[i]) matches NativeFrame::Planes(
            source,
        ) && crate::assemble::can_assemble(
            cfg.width,
            cfg.height,
            cfg.chroma_sampling,
            cfg.bit_depth,
            luma_only,
            sample,
            source,
        ))
}

/// What holds of the first `count` reads of such a run, and of the state
/// they leave behind.
proof fn lemma_run_prefix(
    start: VapoursynthDecoder,
    posts: Seq<VapoursynthDecoder>,
    results: Seq<Result<DecodedFrame, DecoderError>>,
    fetched: Seq<NativeFrame<'_>>,
    cfg: VideoDetails,
    luma_only: bool,
    sample: SampleWidth,
    total: usize,
    count: nat,
)
    requires
        start.frames_read == 0,
        start.clip_length() == Some(total),
        is_run_of_reads(start, posts, results, fetched, cfg, luma_only, sample),
        serves_clip(fetched, total, cfg, luma_only, sample),
        count <= posts.len(),
    ensures
        state_before(start, posts, count as int).frames_read == (if count <= total {
            count as int
        } else {
            total as int
        }),
        count >= 1 ==> state_before(start, posts, count as int).total_frames == Some(total),
        forall|i: int|
            0 <= i < count && i < total ==> (#[trigger] results[i]) is Ok && state_before(
                start,
                posts,
                i,
            ).frames_read == i && posts[i].frames_read == i + 1,
        forall|i: int|
            0 <= i < count && i >= total ==> ((#[trigger] results[i]) matches Err(
                DecoderError::EndOfFile,
            ) && posts[i].frames_read == total),
    decreases count,
{
    if count > 0 {
        let i = (count - 1) as int;
        lemma_run_prefix(
            start,
            posts,
            results,
            fetched,
            cfg,
            luma_only,
            sample,
            total,
            (count - 1) as nat,
        );
        let pre = state_before(start, posts, i);
        let post = posts[i];
        assert(pre.reads(post, results[i], cfg, luma_only, sample, fetched[i]));
        assert(state_before(start, posts, count as int) == post);
        if i < total {
            assert(fetched[i] is Planes);
            assert(!pre.at_end());
            assert(post.total_frames == Some(total));
        } else {
            assert(pre.at_end());
        }
    }
}

/// A decoder at the start of a clip of `total` frames, whose node hands back
/// a frame that can be assembled for every index below `total`, answers a run
/// of sequential reads with exactly `total` frames, the frame of index `i` to
/// read number `i`, and with `EndOfFile` to every read after them.
pub proof fn lemma_sequential_reads(
    start: VapoursynthDecoder,
    posts: Seq<VapoursynthDecoder>,
    results: Seq<Result<DecodedFrame, DecoderError>>,
    fetched: Seq<NativeFrame<'_>>,
    cfg: VideoDetails,
    luma_only: bool,
    sample: SampleWidth,
    total: usize,
)
    requires
        start.frames_read == 0,
        start.clip_length() == Some(total),
        is_run_of_reads(start, posts, results, fetched, cfg, luma_only, sample),
        serves_clip(fetched, total, cfg, luma_only, sample),
    ensures
        forall|i: int|
            0 <= i < results.len() && i < total ==> (#[trigger] results[i]) is Ok && state_before(
                start,
                posts,
                i,
            ).spec_next_frame() == Some(i as usize) && posts[i].frames_read == i + 1,
        forall|i: int|
            0 <= i < results.len() && i >= total ==> ((#[trigger] results[i]) matches Err(
                DecoderError::EndOfFile,
            ) && state_before(start, posts, i).spec_next_frame() is None),
{
    lemma_run_prefix(start, posts, results, fetched, cfg, luma_only, sample, total, posts.len());
    assert forall|i: int| 0 <= i < results.len() && i < total implies (#[trigger] results[i]) is Ok
        && state_before(start, posts, i).spec_next_frame() == Some(i as usize)
        && posts[i].frames_read == i + 1 by {
        lemma_run_prefix(start, posts, results, fetched, cfg, luma_only, sample, total, i as nat);
    }
    assert forall|i: int| 0 <= i < results.len() && i >= total implies ((#[trigger] results[i]) matches Err(
        DecoderError::EndOfFile,
    ) && state_before(start, posts, i).spec_next_frame() is None) by {
        lemma_run_prefix(start, posts, results, fetched, cfg, luma_only, sample, total, i as nat);
    }
}

} // verus!
