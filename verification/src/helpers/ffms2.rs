//! The indexed codec backend: its table of native pixel formats, the metadata
//! it reports, and the decisions around fetching a frame by index.

use vstd::prelude::*;
use vstd::string::StringExecFns;
use crate::assemble::{assemble, assembles, DecodedFrame, NativeFrame, SampleWidth};
use crate::details::{reducible, FrameRate, VideoDetails};
use crate::error::{prefixed, DecoderError};
use crate::layout::ChromaLayout;
use crate::util::{decimal, decimal_string};

verus! {

/// The native identifiers of the pixel formats this backend understands, as
/// the loaded codec library numbers them. They are looked up by name once;
/// `pixel_format_names` gives the names in the order of the fields.
#[derive(Clone, Copy, Debug)]
pub struct PixelFormats {
    /// 8-bit 4:2:0.
    pub yuv420p: i32,
    /// 8-bit 4:2:2.
    pub yuv422p: i32,
    /// 8-bit 4:4:4.
    pub yuv444p: i32,
    /// 8-bit grey.
    pub gray8: i32,
    /// 10-bit 4:2:0, little-endian.
    pub yuv420p10le: i32,
    /// 10-bit 4:2:0, big-endian.
    pub yuv420p10be: i32,
    /// 10-bit 4:2:2, little-endian.
    pub yuv422p10le: i32,
    /// 10-bit 4:2:2, big-endian.
    pub yuv422p10be: i32,
    /// 10-bit 4:4:4, little-endian.
    pub yuv444p10le: i32,
    /// 10-bit 4:4:4, big-endian.
    pub yuv444p10be: i32,
    /// 10-bit grey, little-endian.
    pub gray10le: i32,
    /// 10-bit grey, big-endian.
    pub gray10be: i32,
    /// 12-bit 4:2:0, little-endian.
    pub yuv420p12le: i32,
    /// 12-bit 4:2:0, big-endian.
    pub yuv420p12be: i32,
    /// 12-bit 4:2:2, little-endian.
    pub yuv422p12le: i32,
    /// 12-bit 4:2:2, big-endian.
    pub yuv422p12be: i32,
    /// 12-bit 4:4:4, little-endian.
    pub yuv444p12le: i32,
    /// 12-bit 4:4:4, big-endian.
    pub yuv444p12be: i32,
    /// 12-bit grey, little-endian.
    pub gray12le: i32,
    /// 12-bit grey, big-endian.
    pub gray12be: i32,
}

/// The names under which the codec library knows the formats of
/// `PixelFormats`, field by field.
pub open spec fn spec_pixel_format_names() -> Seq<&'static str> {
    seq![
        "yuv420p",
        "yuv422p",
        "yuv444p",
        "gray8",
        "yuv420p10le",
        "yuv420p10be",
        "yuv422p10le",
        "yuv422p10be",
        "yuv444p10le",
        "yuv444p10be",
        "gray10le",
        "gray10be",
        "yuv420p12le",
        "yuv420p12be",
        "yuv422p12le",
        "yuv422p12be",
        "yuv444p12le",
        "yuv444p12be",
        "gray12le",
        "gray12be",
    ]
}

/// The names under which the codec library knows the formats of
/// `PixelFormats`, field by field.
pub fn pixel_format_names() -> (names: Vec<&'static str>)
    ensures
        names@ == spec_pixel_format_names(),
{
    let names = vec![
        "yuv420p",
        "yuv422p",
        "yuv444p",
        "gray8",
        "yuv420p10le",
        "yuv420p10be",
        "yuv422p10le",
        "yuv422p10be",
        "yuv444p10le",
        "yuv444p10be",
        "gray10le",
        "gray10be",
        "yuv420p12le",
        "yuv420p12be",
        "yuv422p12le",
        "yuv422p12be",
        "yuv444p12le",
        "yuv444p12be",
        "gray12le",
        "gray12be",
    ];
    assert(names@ =~= spec_pixel_format_names());
    names
}

impl PixelFormats {
    /// The identifiers, field by field.
    pub open spec fn ids(self) -> Seq<i32> {
        seq![
            self.yuv420p,
            self.yuv422p,
            self.yuv444p,
            self.gray8,
            self.yuv420p10le,
            self.yuv420p10be,
            self.yuv422p10le,
            self.yuv422p10be,
            self.yuv444p10le,
            self.yuv444p10be,
            self.gray10le,
            self.gray10be,
            self.yuv420p12le,
            self.yuv420p12be,
            self.yuv422p12le,
            self.yuv422p12be,
            self.yuv444p12le,
            self.yuv444p12be,
            self.gray12le,
            self.gray12be,
        ]
    }

    /// Every lookup succeeded and no two formats share an identifier.
    pub open spec fn wf(self) -> bool {
        &&& forall|i: int| 0 <= i < self.ids().len() ==> #[trigger] self.ids()[i] >= 0
        &&& self.ids().no_duplicates()
    }

    /// The table whose fields are the given identifiers, in order.
    pub open spec fn spec_from_ids(ids: Seq<i32>) -> PixelFormats {
        PixelFormats {
            yuv420p: ids[0],
            yuv422p: ids[1],
            yuv444p: ids[2],
            gray8: ids[3],
            yuv420p10le: ids[4],
            yuv420p10be: ids[5],
            yuv422p10le: ids[6],
            yuv422p10be: ids[7],
            yuv444p10le: ids[8],
            yuv444p10be: ids[9],
            gray10le: ids[10],
            gray10be: ids[11],
            yuv420p12le: ids[12],
            yuv420p12be: ids[13],
            yuv422p12le: ids[14],
            yuv422p12be: ids[15],
            yuv444p12le: ids[16],
            yuv444p12be: ids[17],
            gray12le: ids[18],
            gray12be: ids[19],
        }
    }

    /// Builds the table from the identifiers found for `pixel_format_names`,
    /// in that order. `None` unless there is exactly one per name.
    pub fn from_ids(ids: &[i32]) -> (r: Option<PixelFormats>)
        ensures
            r is Some <==> ids@.len() == 20,
            r matches Some(formats) ==> formats == PixelFormats::spec_from_ids(ids@)
                && formats.ids() == ids@,
    {
        if ids.len() != 20 {
            return None;
        }
        let formats = PixelFormats {
                yuv420p: ids[0],
                yuv422p: ids[1],
                yuv444p: ids[2],
                gray8: ids[3],
                yuv420p10le: ids[4],
                yuv420p10be: ids[5],
                yuv422p10le: ids[6],
                yuv422p10be: ids[7],
                yuv444p10le: ids[8],
                yuv444p10be: ids[9],
                gray10le: ids[10],
                gray10be: ids[11],
                yuv420p12le: ids[12],
                yuv420p12be: ids[13],
                yuv422p12le: ids[14],
                yuv422p12be: ids[15],
                yuv444p12le: ids[16],
                yuv444p12be: ids[17],
                gray12le: ids[18],
                gray12be: ids[19],
        };
        assert(formats.ids() =~= ids@);
        Some(formats)
    }

    /// The identifiers, field by field.
    fn ids_vec(&self) -> (v: Vec<i32>)
        ensures
            v@ == self.ids(),
    {
        let v = vec![
            self.yuv420p,
            self.yuv422p,
            self.yuv444p,
            self.gray8,
            self.yuv420p10le,
            self.yuv420p10be,
            self.yuv422p10le,
            self.yuv422p10be,
            self.yuv444p10le,
            self.yuv444p10be,
            self.gray10le,
            self.gray10be,
            self.yuv420p12le,
            self.yuv420p12be,
            self.yuv422p12le,
            self.yuv422p12be,
            self.yuv444p12le,
            self.yuv444p12be,
            self.gray12le,
            self.gray12be,
        ];
        assert(v@ =~= self.ids());
        v
    }

    /// Whether the table can be used: a failed lookup leaves a negative
    /// identifier behind, and two formats must never share one.
    pub fn is_resolved(&self) -> (r: bool)
        ensures
            r == self.wf(),
    {
        let ids = self.ids_vec();
        let n = ids.len();
        let mut i: usize = 0;
        while i < n
            invariant
                n == 20,
                ids@ == self.ids(),
                i <= n,
                forall|a: int| 0 <= a < i ==> #[trigger] ids@[a] >= 0,
                forall|a: int, b: int| 0 <= b < a < i ==> ids@[a] != ids@[b],
            decreases n - i,
        {
            if ids[i] < 0 {
                return false;
            }
            let mut j: usize = 0;
            while j < i
                invariant
                    n == 20,
                    ids@ == self.ids(),
                    i < n,
                    j <= i,
                    forall|b: int| 0 <= b < j ==> ids@[i as int] != ids@[b],
                decreases i - j,
            {
                if ids[i] == ids[j] {
                    return false;
                }
                j += 1;
            }
            i += 1;
        }
        assert forall|a: int, b: int|
            0 <= a < ids@.len() && 0 <= b < ids@.len() && a != b implies ids@[a] != ids@[b] by {
            if b < a {
            } else {
                assert(ids@[b] != ids@[a]);
            }
        }
        true
    }
}

/// The bit depth and chroma layout that a native pixel format stands for:
/// 8, 10 or 12 bits, in either byte order, over 4:2:0, 4:2:2, 4:4:4 or grey.
/// `None` for every other identifier.
pub open spec fn spec_video_info(formats: PixelFormats, pix_fmt: i32) -> Option<
    (usize, ChromaLayout),
> {
    if pix_fmt == formats.yuv420p {
        Some((8usize, ChromaLayout::Yuv420))
    } else     if pix_fmt == formats.yuv422p {
        Some((8usize, ChromaLayout::Yuv422))
    } else     if pix_fmt == formats.yuv444p {
        Some((8usize, ChromaLayout::Yuv444))
    } else     if pix_fmt == formats.gray8 {
        Some((8usize, ChromaLayout::Monochrome))
    } else     if pix_fmt == formats.yuv420p10le || pix_fmt == formats.yuv420p10be {
        Some((10usize, ChromaLayout::Yuv420))
    } else     if pix_fmt == formats.yuv422p10le || pix_fmt == formats.yuv422p10be {
        Some((10usize, ChromaLayout::Yuv422))
    } else     if pix_fmt == formats.yuv444p10le || pix_fmt == formats.yuv444p10be {
        Some((10usize, ChromaLayout::Yuv444))
    } else     if pix_fmt == formats.gray10le || pix_fmt == formats.gray10be {
        Some((10usize, ChromaLayout::Monochrome))
    } else     if pix_fmt == formats.yuv420p12le || pix_fmt == formats.yuv420p12be {
        Some((12usize, ChromaLayout::Yuv420))
    } else     if pix_fmt == formats.yuv422p12le || pix_fmt == formats.yuv422p12be {
        Some((12usize, ChromaLayout::Yuv422))
    } else     if pix_fmt == formats.yuv444p12le || pix_fmt == formats.yuv444p12be {
        Some((12usize, ChromaLayout::Yuv444))
    } else     if pix_fmt == formats.gray12le || pix_fmt == formats.gray12be {
        Some((12usize, ChromaLayout::Monochrome))
    } else {
        None
    }
}

/// The chroma layout that a pair of subsampling shifts stands for: one and
/// one for 4:2:0, one and none for 4:2:2, none and none for 4:4:4. No other
/// pair stands for a layout.
pub open spec fn subsampling_layout(chroma_subsampling: (u8, u8)) -> Option<ChromaLayout> {
    if chroma_subsampling.0 == 1 && chroma_subsampling.1 == 1 {
        Some(ChromaLayout::Yuv420)
    } else if chroma_subsampling.0 == 1 && chroma_subsampling.1 == 0 {
        Some(ChromaLayout::Yuv422)
    } else if chroma_subsampling.0 == 0 && chroma_subsampling.1 == 0 {
        Some(ChromaLayout::Yuv444)
    } else {
        None
    }
}

/// The native format to ask for when output of the given depth and layout is
/// wanted: the little-endian one above 8 bits. `None` outside 8, 10 and 12
/// bits.
pub open spec fn spec_pixel_format(
    formats: PixelFormats,
    bit_depth: u8,
    layout: ChromaLayout,
) -> Option<i32> {
    match (bit_depth, layout) {
        (8, ChromaLayout::Yuv420) => Some(formats.yuv420p),
        (8, ChromaLayout::Yuv422) => Some(formats.yuv422p),
        (8, ChromaLayout::Yuv444) => Some(formats.yuv444p),
        (8, ChromaLayout::Monochrome) => Some(formats.gray8),
        (10, ChromaLayout::Yuv420) => Some(formats.yuv420p10le),
        (10, ChromaLayout::Yuv422) => Some(formats.yuv422p10le),
        (10, ChromaLayout::Yuv444) => Some(formats.yuv444p10le),
        (10, ChromaLayout::Monochrome) => Some(formats.gray10le),
        (12, ChromaLayout::Yuv420) => Some(formats.yuv420p12le),
        (12, ChromaLayout::Yuv422) => Some(formats.yuv422p12le),
        (12, ChromaLayout::Yuv444) => Some(formats.yuv444p12le),
        (12, ChromaLayout::Monochrome) => Some(formats.gray12le),
        _ => None,
    }
}

/// The native format to ask for at a depth and a pair of subsampling shifts.
/// Grey has no pair of shifts and is not reached this way.
pub open spec fn spec_native_format(
    formats: PixelFormats,
    bit_depth: u8,
    chroma_subsampling: (u8, u8),
) -> Option<i32> {
    match subsampling_layout(chroma_subsampling) {
        Some(layout) => spec_pixel_format(formats, bit_depth, layout),
        None => None,
    }
}

/// Maps a native pixel format to its bit depth and chroma layout.
pub fn pixel_format_to_video_info(formats: &PixelFormats, pix_fmt: i32) -> (r: Result<
    (usize, ChromaLayout),
    DecoderError,
>)
    ensures
        match spec_video_info(*formats, pix_fmt) {
            Some(info) => r == Ok::<(usize, ChromaLayout), DecoderError>(info),
            None => r matches Err(DecoderError::UnsupportedFormat { fmt }) && fmt@
                == unknown_format_tag(pix_fmt),
        },
{
    if pix_fmt == formats.yuv420p {
        return Ok((8, ChromaLayout::Yuv420));
    }
    if pix_fmt == formats.yuv422p {
        return Ok((8, ChromaLayout::Yuv422));
    }
    if pix_fmt == formats.yuv444p {
        return Ok((8, ChromaLayout::Yuv444));
    }
    if pix_fmt == formats.gray8 {
        return Ok((8, ChromaLayout::Monochrome));
    }
    if pix_fmt == formats.yuv420p10le || pix_fmt == formats.yuv420p10be {
        return Ok((10, ChromaLayout::Yuv420));
    }
    if pix_fmt == formats.yuv422p10le || pix_fmt == formats.yuv422p10be {
        return Ok((10, ChromaLayout::Yuv422));
    }
    if pix_fmt == formats.yuv444p10le || pix_fmt == formats.yuv444p10be {
        return Ok((10, ChromaLayout::Yuv444));
    }
    if pix_fmt == formats.gray10le || pix_fmt == formats.gray10be {
        return Ok((10, ChromaLayout::Monochrome));
    }
    if pix_fmt == formats.yuv420p12le || pix_fmt == formats.yuv420p12be {
        return Ok((12, ChromaLayout::Yuv420));
    }
    if pix_fmt == formats.yuv422p12le || pix_fmt == formats.yuv422p12be {
        return Ok((12, ChromaLayout::Yuv422));
    }
    if pix_fmt == formats.yuv444p12le || pix_fmt == formats.yuv444p12be {
        return Ok((12, ChromaLayout::Yuv444));
    }
    if pix_fmt == formats.gray12le || pix_fmt == formats.gray12be {
        return Ok((12, ChromaLayout::Monochrome));
    }
    Err(DecoderError::UnsupportedFormat { fmt: make_unknown_format_tag(pix_fmt) })
}

/// The error for a depth and layout that no native format stands for.
fn no_native_format() -> (e: DecoderError)
    ensures
        e matches DecoderError::UnsupportedFormat { fmt } && fmt@
            == "Unsupported bit depth and subsampling combination"@,
{
    DecoderError::UnsupportedFormat {
        fmt: "Unsupported bit depth and subsampling combination".to_owned(),
    }
}

/// Maps a bit depth and a chroma layout, grey included, to the native pixel
/// format to ask for.
pub fn layout_to_pixel_format(formats: &PixelFormats, bit_depth: u8, layout: ChromaLayout) -> (r:
    Result<i32, DecoderError>)
    ensures
        match spec_pixel_format(*formats, bit_depth, layout) {
            Some(id) => r == Ok::<i32, DecoderError>(id),
            None => r matches Err(DecoderError::UnsupportedFormat { fmt }) && fmt@
                == "Unsupported bit depth and subsampling combination"@,
        },
{
    if bit_depth == 8 {
        Ok(
            match layout {
                ChromaLayout::Yuv420 => formats.yuv420p,
                ChromaLayout::Yuv422 => formats.yuv422p,
                ChromaLayout::Yuv444 => formats.yuv444p,
                ChromaLayout::Monochrome => formats.gray8,
            },
        )
    } else if bit_depth == 10 {
        Ok(
            match layout {
                ChromaLayout::Yuv420 => formats.yuv420p10le,
                ChromaLayout::Yuv422 => formats.yuv422p10le,
                ChromaLayout::Yuv444 => formats.yuv444p10le,
                ChromaLayout::Monochrome => formats.gray10le,
            },
        )
    } else if bit_depth == 12 {
        Ok(
            match layout {
                ChromaLayout::Yuv420 => formats.yuv420p12le,
                ChromaLayout::Yuv422 => formats.yuv422p12le,
                ChromaLayout::Yuv444 => formats.yuv444p12le,
                ChromaLayout::Monochrome => formats.gray12le,
            },
        )
    } else {
        Err(no_native_format())
    }
}

/// Maps a bit depth and a pair of subsampling shifts to the native pixel
/// format to ask for. Only the pairs of 4:2:0, 4:2:2 and 4:4:4 are taken.
pub fn video_info_to_pixel_format(
    formats: &PixelFormats,
    bit_depth: u8,
    chroma_subsampling: (u8, u8),
) -> (r: Result<i32, DecoderError>)
    ensures
        match spec_native_format(*formats, bit_depth, chroma_subsampling) {
            Some(id) => r == Ok::<i32, DecoderError>(id),
            None => r matches Err(DecoderError::UnsupportedFormat { fmt }) && fmt@
                == "Unsupported bit depth and subsampling combination"@,
        },
{
    let layout = if chroma_subsampling.0 == 1 && chroma_subsampling.1 == 1 {
        ChromaLayout::Yuv420
    } else if chroma_subsampling.0 == 1 && chroma_subsampling.1 == 0 {
        ChromaLayout::Yuv422
    } else if chroma_subsampling.0 == 0 && chroma_subsampling.1 == 0 {
        ChromaLayout::Yuv444
    } else {
        return Err(no_native_format());
    };
    layout_to_pixel_format(formats, bit_depth, layout)
}

/// How a native format that the table does not know is named in an error.
pub open spec fn unknown_format_tag(pix_fmt: i32) -> Seq<char> {
    "Unsupported pixel format: "@ + decimal(pix_fmt as int)
}

/// Names a native format that the table does not know.
fn make_unknown_format_tag(pix_fmt: i32) -> (tag: String)
    ensures
        tag@ == unknown_format_tag(pix_fmt),
{
    let number = decimal_string(pix_fmt);
    prefixed("Unsupported pixel format: ", number.as_str())
}

/// Where each field of the table stands among its identifiers.
proof fn lemma_ids(formats: PixelFormats)
    ensures
        formats.ids().len() == 20,
        formats.ids()[0] == formats.yuv420p,
        formats.ids()[1] == formats.yuv422p,
        formats.ids()[2] == formats.yuv444p,
        formats.ids()[3] == formats.gray8,
        formats.ids()[4] == formats.yuv420p10le,
        formats.ids()[5] == formats.yuv420p10be,
        formats.ids()[6] == formats.yuv422p10le,
        formats.ids()[7] == formats.yuv422p10be,
        formats.ids()[8] == formats.yuv444p10le,
        formats.ids()[9] == formats.yuv444p10be,
        formats.ids()[10] == formats.gray10le,
        formats.ids()[11] == formats.gray10be,
        formats.ids()[12] == formats.yuv420p12le,
        formats.ids()[13] == formats.yuv420p12be,
        formats.ids()[14] == formats.yuv422p12le,
        formats.ids()[15] == formats.yuv422p12be,
        formats.ids()[16] == formats.yuv444p12le,
        formats.ids()[17] == formats.yuv444p12be,
        formats.ids()[18] == formats.gray12le,
        formats.ids()[19] == formats.gray12be,
{
}

/// A depth and layout that map to a native format are what that native
/// format maps back to, grey included.
pub proof fn lemma_to_native_round_trip(formats: PixelFormats, bit_depth: u8, layout: ChromaLayout)
    requires
        formats.wf(),
    ensures
        spec_pixel_format(formats, bit_depth, layout) matches Some(id) ==> spec_video_info(
            formats,
            id,
        ) == Some((bit_depth as usize, layout)),
{
    lemma_ids(formats);
    let ids = formats.ids();
    assert(ids[1] != ids[0]);
    assert(ids[2] != ids[0]);
    assert(ids[2] != ids[1]);
    assert(ids[3] != ids[0]);
    assert(ids[3] != ids[1]);
    assert(ids[3] != ids[2]);
    assert(ids[4] != ids[0]);
    assert(ids[4] != ids[1]);
    assert(ids[4] != ids[2]);
    assert(ids[4] != ids[3]);
    assert(ids[6] != ids[0]);
    assert(ids[6] != ids[1]);
    assert(ids[6] != ids[2]);
    assert(ids[6] != ids[3]);
    assert(ids[6] != ids[4]);
    assert(ids[6] != ids[5]);
    assert(ids[8] != ids[0]);
    assert(ids[8] != ids[1]);
    assert(ids[8] != ids[2]);
    assert(ids[8] != ids[3]);
    assert(ids[8] != ids[4]);
    assert(ids[8] != ids[5]);
    assert(ids[8] != ids[6]);
    assert(ids[8] != ids[7]);
    assert(ids[10] != ids[0]);
    assert(ids[10] != ids[1]);
    assert(ids[10] != ids[2]);
    assert(ids[10] != ids[3]);
    assert(ids[10] != ids[4]);
    assert(ids[10] != ids[5]);
    assert(ids[10] != ids[6]);
    assert(ids[10] != ids[7]);
    assert(ids[10] != ids[8]);
    assert(ids[10] != ids[9]);
    assert(ids[12] != ids[0]);
    assert(ids[12] != ids[1]);
    assert(ids[12] != ids[2]);
    assert(ids[12] != ids[3]);
    assert(ids[12] != ids[4]);
    assert(ids[12] != ids[5]);
    assert(ids[12] != ids[6]);
    assert(ids[12] != ids[7]);
    assert(ids[12] != ids[8]);
    assert(ids[12] != ids[9]);
    assert(ids[12] != ids[10]);
    assert(ids[12] != ids[11]);
    assert(ids[14] != ids[0]);
    assert(ids[14] != ids[1]);
    assert(ids[14] != ids[2]);
    assert(ids[14] != ids[3]);
    assert(ids[14] != ids[4]);
    assert(ids[14] != ids[5]);
    assert(ids[14] != ids[6]);
    assert(ids[14] != ids[7]);
    assert(ids[14] != ids[8]);
    assert(ids[14] != ids[9]);
    assert(ids[14] != ids[10]);
    assert(ids[14] != ids[11]);
    assert(ids[14] != ids[12]);
    assert(ids[14] != ids[13]);
    assert(ids[16] != ids[0]);
    assert(ids[16] != ids[1]);
    assert(ids[16] != ids[2]);
    assert(ids[16] != ids[3]);
    assert(ids[16] != ids[4]);
    assert(ids[16] != ids[5]);
    assert(ids[16] != ids[6]);
    assert(ids[16] != ids[7]);
    assert(ids[16] != ids[8]);
    assert(ids[16] != ids[9]);
    assert(ids[16] != ids[10]);
    assert(ids[16] != ids[11]);
    assert(ids[16] != ids[12]);
    assert(ids[16] != ids[13]);
    assert(ids[16] != ids[14]);
    assert(ids[16] != ids[15]);
    assert(ids[18] != ids[0]);
    assert(ids[18] != ids[1]);
    assert(ids[18] != ids[2]);
    assert(ids[18] != ids[3]);
    assert(ids[18] != ids[4]);
    assert(ids[18] != ids[5]);
    assert(ids[18] != ids[6]);
    assert(ids[18] != ids[7]);
    assert(ids[18] != ids[8]);
    assert(ids[18] != ids[9]);
    assert(ids[18] != ids[10]);
    assert(ids[18] != ids[11]);
    assert(ids[18] != ids[12]);
    assert(ids[18] != ids[13]);
    assert(ids[18] != ids[14]);
    assert(ids[18] != ids[15]);
    assert(ids[18] != ids[16]);
    assert(ids[18] != ids[17]);
}

/// A native format that stands for a depth and a layout leads, through the
/// format asked for at that depth and layout, back to the same depth and
/// layout. The format asked for is the little-endian one, so a big-endian
/// identifier does not come back as itself.
pub proof fn lemma_from_native_round_trip(formats: PixelFormats, pix_fmt: i32)
    requires
        formats.wf(),
    ensures
        spec_video_info(formats, pix_fmt) matches Some((depth, layout)) ==> ({
            let asked = spec_pixel_format(formats, depth as u8, layout);
            asked is Some && spec_video_info(formats, asked->0) == Some((depth, layout))
        }),
{
    match spec_video_info(formats, pix_fmt) {
        Some((depth, layout)) => {
            lemma_to_native_round_trip(formats, depth as u8, layout);
        },
        None => {},
    }
}

/// Two depths and layouts that map to the same native format are the same
/// depth and layout: no two supported combinations share an identifier.
pub proof fn lemma_to_native_is_injective(
    formats: PixelFormats,
    first_depth: u8,
    first_layout: ChromaLayout,
    second_depth: u8,
    second_layout: ChromaLayout,
)
    requires
        formats.wf(),
        spec_pixel_format(formats, first_depth, first_layout) is Some,
        spec_pixel_format(formats, first_depth, first_layout) == spec_pixel_format(
            formats,
            second_depth,
            second_layout,
        ),
    ensures
        first_depth == second_depth,
        first_layout == second_layout,
{
    lemma_to_native_round_trip(formats, first_depth, first_layout);
    lemma_to_native_round_trip(formats, second_depth, second_layout);
}

/// Two reads of the frame at one index that are handed the same native frame
/// give the same answer: both fail, or both give frames that hold the same
/// planes, sample for sample.
pub proof fn lemma_seek_is_repeatable(
    decoder: Ffms2Decoder,
    first: Result<DecodedFrame, DecoderError>,
    second: Result<DecodedFrame, DecoderError>,
    frame_index: usize,
    luma_only: bool,
    sample: SampleWidth,
    fetched: NativeFrame<'_>,
)
    requires
        decoder.reads(first, frame_index, luma_only, sample, fetched),
        decoder.reads(second, frame_index, luma_only, sample, fetched),
    ensures
        first is Ok <==> second is Ok,
        first matches Ok(a) ==> second matches Ok(b) && a@ == b@,
{
}

/// What the codec library reports of an opened video source and of its first
/// frame.
#[derive(Clone, Copy, Debug)]
pub struct SourceProbe {
    /// Width after scaling, or zero or less where output is not scaled.
    pub scaled_width: i32,
    /// Height after scaling, or zero or less where output is not scaled.
    pub scaled_height: i32,
    /// Width as encoded.
    pub encoded_width: i32,
    /// Height as encoded.
    pub encoded_height: i32,
    /// Numerator of the frame rate.
    pub fps_numerator: i32,
    /// Denominator of the frame rate.
    pub fps_denominator: i32,
    /// Number of frames in the track.
    pub num_frames: i32,
    /// Native pixel format of the frames as they are handed out.
    pub pixel_format: i32,
}

impl SourceProbe {
    /// The width of the frames handed out: the scaled one where there is one.
    pub open spec fn width(self) -> usize {
        if self.scaled_width > 0 {
            self.scaled_width as usize
        } else {
            self.encoded_width as usize
        }
    }

    /// The height of the frames handed out: the scaled one where there is one.
    pub open spec fn height(self) -> usize {
        if self.scaled_height > 0 {
            self.scaled_height as usize
        } else {
            self.encoded_height as usize
        }
    }

    /// Whether the frame rate can be put in lowest terms.
    pub open spec fn rate_reducible(self) -> bool {
        reducible(self.fps_numerator, self.fps_denominator)
    }
}

/// `r` is the metadata that a probe stands for: its size, its frame count,
/// its reduced frame rate, and the depth and layout of its pixel format; or
/// `UnsupportedFormat` where the table does not know that format.
pub open spec fn describes(
    r: Result<VideoDetails, DecoderError>,
    formats: PixelFormats,
    probe: SourceProbe,
) -> bool {
    match spec_video_info(formats, probe.pixel_format) {
        Some((bit_depth, layout)) => {
            &&& r matches Ok(details)
            &&& details.width == probe.width()
            &&& details.height == probe.height()
            &&& details.bit_depth == bit_depth
            &&& details.chroma_sampling == layout
            &&& details.frame_rate.wf()
            &&& details.frame_rate.equals_fraction(
                probe.fps_numerator as int,
                probe.fps_denominator as int,
            )
            &&& details.total_frames == Some(probe.num_frames as usize)
        },
        None => r matches Err(DecoderError::UnsupportedFormat { fmt }) && fmt@
            == unknown_format_tag(probe.pixel_format),
    }
}

/// Derives the stream metadata from what the codec library reports.
pub fn get_video_details(formats: &PixelFormats, probe: &SourceProbe) -> (r: Result<
    VideoDetails,
    DecoderError,
>)
    requires
        probe.rate_reducible(),
    ensures
        describes(r, *formats, *probe),
{
    let width = if probe.scaled_width > 0 {
        probe.scaled_width as usize
    } else {
        #[verifier::truncate]
        (probe.encoded_width as usize)
    };
    let height = if probe.scaled_height > 0 {
        probe.scaled_height as usize
    } else {
        #[verifier::truncate]
        (probe.encoded_height as usize)
    };
    let frame_rate = FrameRate::new(probe.fps_numerator, probe.fps_denominator);
    let total_frames = Some(#[verifier::truncate] (probe.num_frames as usize));
    let (bit_depth, chroma_sampling) = pixel_format_to_video_info(formats, probe.pixel_format)?;
    Ok(VideoDetails { width, height, bit_depth, chroma_sampling, frame_rate, total_frames })
}

/// How many decoding threads to ask for: one per core, or eight where the
/// number of cores is not known.
pub fn thread_count(available: Option<usize>) -> (threads: i32)
    ensures
        threads == match available {
            Some(cores) => cores as i32,
            None => 8i32,
        },
{
    match available {
        Some(cores) => #[verifier::truncate]
        (cores as i32),
        None => 8,
    }
}

/// The index of a source file that a decoder works from: whose file it is,
/// and which of its tracks holds the video.
#[derive(Clone, Debug)]
pub struct FfmsIndex {
    /// The source file the index belongs to.
    pub path: String,
    /// The first indexed video track.
    pub track: i32,
}

/// What to do about a request for the frame at some index.
#[derive(Clone, Copy, Debug, PartialEq, Eq, Structural)]
pub enum FramePlan {
    /// The index lies at or past the end of the track: there is no frame.
    EndOfFile,
    /// Ask the codec library for the frame with this native index.
    Fetch {
        /// The index as the codec library counts it.
        native_index: i32,
    },
}

/// A request to the codec library to convert its output.
#[derive(Clone, Copy, Debug, PartialEq, Eq, Structural)]
pub struct OutputRequest {
    /// The native pixel format to convert to.
    pub pixel_format: i32,
    /// The width to scale to.
    pub width: i32,
    /// The height to scale to.
    pub height: i32,
}

/// The request that converts output to the given size, depth and layout, or
/// `UnsupportedFormat` where no native format stands for that depth and
/// layout.
pub fn output_request(
    formats: &PixelFormats,
    width: usize,
    height: usize,
    bit_depth: u8,
    chroma_subsampling: (u8, u8),
) -> (r: Result<OutputRequest, DecoderError>)
    ensures
        match spec_native_format(*formats, bit_depth, chroma_subsampling) {
            Some(id) => r == Ok::<OutputRequest, DecoderError>(
                (OutputRequest { pixel_format: id, width: width as i32, height: height as i32 }),
            ),
            None => r matches Err(DecoderError::UnsupportedFormat { fmt }) && fmt@
                == "Unsupported bit depth and subsampling combination"@,
        },
{
    let pixel_format = video_info_to_pixel_format(formats, bit_depth, chroma_subsampling)?;
    Ok(
        OutputRequest {
            pixel_format,
            width: #[verifier::truncate]
            (width as i32),
            height: #[verifier::truncate]
            (height as i32),
        },
    )
}

/// The state of a decoder over an indexed source: the metadata of its output
/// and the index it was opened with.
#[derive(Clone, Debug)]
pub struct Ffms2Decoder {
    /// Size, depth, layout, rate and length of the stream as handed out.
    pub video_details: VideoDetails,
    /// The index the video source was created from. It lives as long as the
    /// decoder does.
    pub index_handle: FfmsIndex,
}

impl Ffms2Decoder {
    /// Whether `frame_index` lies at or past the known end of the stream.
    pub open spec fn past_end(self, frame_index: usize) -> bool {
        self.video_details.total_frames matches Some(total) && frame_index >= total
    }

    /// What `plan_frame` answers.
    pub open spec fn spec_plan_frame(self, frame_index: usize) -> FramePlan {
        if self.past_end(frame_index) {
            FramePlan::EndOfFile
        } else if frame_index <= i32::MAX {
            FramePlan::Fetch { native_index: frame_index as i32 }
        } else {
            FramePlan::Fetch { native_index: 0 }
        }
    }

    /// `r` is what `read_video_frame` returns for the frame at `frame_index`
    /// and what was fetched for it.
    pub open spec fn reads(
        self,
        r: Result<DecodedFrame, DecoderError>,
        frame_index: usize,
        luma_only: bool,
        sample: SampleWidth,
        fetched: NativeFrame<'_>,
    ) -> bool {
        if self.past_end(frame_index) {
            r matches Err(DecoderError::EndOfFile)
        } else {
            match fetched {
                NativeFrame::Planes(source) => assembles(
                    r,
                    self.video_details.width,
                    self.video_details.height,
                    self.video_details.chroma_sampling,
                    self.video_details.bit_depth,
                    luma_only,
                    sample,
                    source,
                ),
                NativeFrame::EndOfStream => r matches Err(DecoderError::EndOfFile),
                NativeFrame::Failed(message) => r matches Err(
                    DecoderError::Ffms2InternalError { cause },
                ) && cause@ == "Failed to read frame: "@ + message@,
            }
        }
    }

    /// Opens the decoder state once the codec library has tried to create the
    /// video source from `index_handle`. Where it failed, `source` holds its
    /// message and the result is a `GenericDecodeError` that quotes it.
    pub fn new(
        formats: &PixelFormats,
        index_handle: FfmsIndex,
        source: Result<SourceProbe, String>,
    ) -> (r: Result<Ffms2Decoder, DecoderError>)
        requires
            source matches Ok(probe) ==> probe.rate_reducible(),
        ensures
            match source {
                Ok(probe) => {
                    &&& describes(
                        match r {
                            Ok(decoder) => Ok(decoder.video_details),
                            Err(e) => Err(e),
                        },
                        *formats,
                        probe,
                    )
                    &&& r matches Ok(decoder) ==> decoder.index_handle == index_handle
                },
                Err(message) => r matches Err(DecoderError::GenericDecodeError { cause })
                    && cause@ == "Failed to create video source: "@ + message@,
            },
    {
        match source {
            Err(message) => Err(
                DecoderError::GenericDecodeError {
                    cause: prefixed("Failed to create video source: ", message.as_str()),
                },
            ),
            Ok(probe) => {
                let video_details = get_video_details(formats, &probe)?;
                Ok(Ffms2Decoder { video_details, index_handle })
            },
        }
    }

    /// Takes in the outcome of an output conversion request: the new probe
    /// where the codec library accepted it, its message where it refused.
    /// The metadata follows the new probe; on any error it stays as it was.
    pub fn set_output_format(&mut self, formats: &PixelFormats, outcome: Result<SourceProbe, String>) -> (r:
        Result<(), DecoderError>)
        requires
            outcome matches Ok(probe) ==> probe.rate_reducible(),
        ensures
            final(self).index_handle == old(self).index_handle,
            match outcome {
                Ok(probe) => describes(
                    match r {
                        Ok(()) => Ok(final(self).video_details),
                        Err(e) => Err(e),
                    },
                    *formats,
                    probe,
                ),
                Err(message) => r matches Err(DecoderError::Ffms2InternalError { cause }) && cause@
                    == message@,
            },
            r is Err ==> final(self).video_details == old(self).video_details,
    {
        match outcome {
            Err(message) => Err(DecoderError::Ffms2InternalError { cause: message }),
            Ok(probe) => {
                let details = get_video_details(formats, &probe)?;
                self.video_details = details;
                Ok(())
            },
        }
    }

    /// Decides what a request for the frame at `frame_index` needs: nothing
    /// at or past the end of the stream, else a fetch from the codec library.
    /// An index too large for the codec library is fetched as index zero.
    pub fn plan_frame(&self, frame_index: usize) -> (plan: FramePlan)
        ensures
            plan == self.spec_plan_frame(frame_index),
    {
        if let Some(total) = self.video_details.total_frames {
            if frame_index >= total {
                return FramePlan::EndOfFile;
            }
        }
        if frame_index <= i32::MAX as usize {
            FramePlan::Fetch { native_index: frame_index as i32 }
        } else {
            FramePlan::Fetch { native_index: 0 }
        }
    }

    /// Produces the frame at `frame_index` from what the codec library
    /// fetched for it. At or past the end of the stream the answer is
    /// `EndOfFile` whatever was fetched. The same index and the same fetched
    /// planes give the same frame: the decoder's state plays no part.
    pub fn read_video_frame(
        &self,
        frame_index: usize,
        luma_only: bool,
        sample: SampleWidth,
        fetched: NativeFrame<'_>,
    ) -> (r: Result<DecodedFrame, DecoderError>)
        ensures
            self.reads(r, frame_index, luma_only, sample, fetched),
    {
        if let Some(total) = self.video_details.total_frames {
            if frame_index >= total {
                return Err(DecoderError::EndOfFile);
            }
        }
        match fetched {
            NativeFrame::Failed(message) => Err(
                DecoderError::Ffms2InternalError {
                    cause: prefixed("Failed to read frame: ", message.as_str()),
                },
            ),
            NativeFrame::EndOfStream => Err(DecoderError::EndOfFile),
            NativeFrame::Planes(source) => assemble(
                self.video_details.width,
                self.video_details.height,
                self.video_details.chroma_sampling,
                self.video_details.bit_depth,
                luma_only,
                sample,
                &source,
            ),
        }
    }
}

} // verus!
