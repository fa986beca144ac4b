//! The frame assembler: from the byte planes and strides that a backend hands
//! over to an owned, padded frame.

use vstd::prelude::*;
use v_frame::plane::Plane;
use crate::error::DecoderError;
use crate::layout::{supported_bit_depth, ChromaLayout};
use crate::planes::{
    build_byte_frame, build_word_frame, byte_plane_data, byte_plane_shape, chroma_shape,
    fill_byte_plane, fill_word_plane, fits_allocation, le_sample, luma_shape,
    word_plane_data, word_plane_shape, Frame, PlaneShape,
};

verus! {

broadcast use vstd::slice::group_slice_axioms;

/// Side of the largest coding block that a consumer may place at a frame's edge.
pub const SB_SIZE: usize = 64;

/// Taps of the sub-pixel interpolation filter.
pub const SUBPEL_FILTER_SIZE: usize = 8;

/// Reach of motion search and filtering beyond a block.
pub const FRAME_MARGIN: usize = 16 + SUBPEL_FILTER_SIZE;

/// Padding, in samples, on each of the four sides of every luma plane.
pub const LUMA_PADDING: usize = SB_SIZE + FRAME_MARGIN;

/// How many bytes the caller wants each sample to take.
#[derive(Clone, Copy, Debug, PartialEq, Eq, Structural)]
pub enum SampleWidth {
    /// One byte: for 8-bit streams.
    One,
    /// Two bytes: for streams of more than 8 bits.
    Two,
}

impl SampleWidth {
    /// The width in bytes.
    pub open spec fn spec_bytes(self) -> int {
        match self {
            SampleWidth::One => 1,
            SampleWidth::Two => 2,
        }
    }

    /// The width in bytes.
    pub fn bytes(self) -> (n: usize)
        ensures
            n == self.spec_bytes(),
    {
        match self {
            SampleWidth::One => 1,
            SampleWidth::Two => 2,
        }
    }

    /// Whether samples of this width hold exactly the given bit depth: one
    /// byte holds 8 bits, two bytes hold more.
    pub open spec fn holds(self, bit_depth: int) -> bool {
        (self == SampleWidth::One) == (bit_depth == 8)
    }
}

/// The bytes of one plane as a backend supplies them: rows of samples that
/// start `stride` bytes apart.
pub struct PlaneSource<'a> {
    /// The rows, one after the other.
    pub data: &'a [u8],
    /// Bytes from the start of one row to the start of the next.
    pub stride: usize,
}

/// The three planes of one picture as a backend supplies them. The chroma
/// sources are read only where the assembled frame has chroma planes.
pub struct FrameSource<'a> {
    /// Luma.
    pub y: PlaneSource<'a>,
    /// First chroma plane.
    pub u: PlaneSource<'a>,
    /// Second chroma plane.
    pub v: PlaneSource<'a>,
}

/// The stride of rows that hold `width` samples and nothing else. Where that
/// does not fit in a `usize` no source can be that wide, and the stride is the
/// largest there is.
pub open spec fn tight_stride(width: usize, sample_bytes: int) -> usize {
    if width * sample_bytes <= usize::MAX {
        (width * sample_bytes) as usize
    } else {
        usize::MAX
    }
}

impl<'a> FrameSource<'a> {
    /// The source over three planes whose rows follow one another without
    /// gaps: luma rows of `width` samples, chroma rows as the layout narrows
    /// them.
    pub fn tight(
        width: usize,
        layout: ChromaLayout,
        sample: SampleWidth,
        y: &'a [u8],
        u: &'a [u8],
        v: &'a [u8],
    ) -> (source: FrameSource<'a>)
        ensures
            source.y.data@ == y@,
            source.u.data@ == u@,
            source.v.data@ == v@,
            source.y.stride == tight_stride(width, sample.spec_bytes()),
            source.u.stride == tight_stride(
                layout.chroma_width(width as int) as usize,
                sample.spec_bytes(),
            ),
            source.v.stride == source.u.stride,
    {
        let bytes = sample.bytes();
        let chroma_width = match layout {
            ChromaLayout::Yuv420 | ChromaLayout::Yuv422 => width / 2,
            _ => width,
        };
        assert(chroma_width == layout.chroma_width(width as int));
        let y_stride = match width.checked_mul(bytes) {
            Some(stride) => stride,
            None => usize::MAX,
        };
        let c_stride = match chroma_width.checked_mul(bytes) {
            Some(stride) => stride,
            None => usize::MAX,
        };
        FrameSource {
            y: PlaneSource { data: y, stride: y_stride },
            u: PlaneSource { data: u, stride: c_stride },
            v: PlaneSource { data: v, stride: c_stride },
        }
    }
}

/// What the native layer handed back when it was asked for a picture.
pub enum NativeFrame<'a> {
    /// A decoded picture.
    Planes(FrameSource<'a>),
    /// The native layer has no further picture.
    EndOfStream,
    /// The native layer failed, with its message.
    Failed(String),
}

/// A plane as mathematics sees it: its shape, and every sample of its buffer.
pub struct PlaneView {
    /// Visible size and padding.
    pub shape: PlaneShape,
    /// The buffer row by row, padding included.
    pub samples: Seq<int>,
}

/// A frame as mathematics sees it.
pub struct FrameView {
    /// Bytes per stored sample.
    pub sample_bytes: int,
    /// How chroma is subsampled.
    pub layout: ChromaLayout,
    /// Bits per sample.
    pub bit_depth: int,
    /// Luma.
    pub y: PlaneView,
    /// First chroma plane, unless monochrome.
    pub u: Option<PlaneView>,
    /// Second chroma plane, unless monochrome.
    pub v: Option<PlaneView>,
}

/// An assembled frame, with samples of one byte or of two.
#[derive(Debug)]
pub enum DecodedFrame {
    /// One byte per sample.
    Bytes(Frame<u8>),
    /// Two bytes per sample.
    Words(Frame<u16>),
}

/// The view of a one-byte plane.
pub open spec fn byte_plane_view(plane: Plane<u8>) -> PlaneView {
    PlaneView {
        shape: byte_plane_shape(plane),
        samples: byte_plane_data(plane).map_values(|b: u8| b as int),
    }
}

/// The view of a two-byte plane.
pub open spec fn word_plane_view(plane: Plane<u16>) -> PlaneView {
    PlaneView {
        shape: word_plane_shape(plane),
        samples: word_plane_data(plane).map_values(|w: u16| w as int),
    }
}

impl View for DecodedFrame {
    type V = FrameView;

    /// The frame as mathematics sees it: width of the samples, layout, depth,
    /// and the view of every plane that is present.
    open spec fn view(&self) -> FrameView {
        match *self {
            DecodedFrame::Bytes(f) => FrameView {
                sample_bytes: 1,
                layout: f.subsampling,
                bit_depth: f.bit_depth as int,
                y: byte_plane_view(f.y_plane),
                u: match f.u_plane {
                    Some(p) => Some(byte_plane_view(p)),
                    None => None,
                },
                v: match f.v_plane {
                    Some(p) => Some(byte_plane_view(p)),
                    None => None,
                },
            },
            DecodedFrame::Words(f) => FrameView {
                sample_bytes: 2,
                layout: f.subsampling,
                bit_depth: f.bit_depth as int,
                y: word_plane_view(f.y_plane),
                u: match f.u_plane {
                    Some(p) => Some(word_plane_view(p)),
                    None => None,
                },
                v: match f.v_plane {
                    Some(p) => Some(word_plane_view(p)),
                    None => None,
                },
            },
        }
    }
}

/// The layout of the assembled frame: luma-only mode drops the chroma planes.
pub open spec fn output_layout(layout: ChromaLayout, luma_only: bool) -> ChromaLayout {
    if luma_only {
        ChromaLayout::Monochrome
    } else {
        layout
    }
}

/// The sample at column `x` of row `y` of a source: one byte, or two bytes in
/// little-endian order.
pub open spec fn source_sample(src: Seq<u8>, stride: int, sample_bytes: int, x: int, y: int) -> int {
    if sample_bytes == 1 {
        src[y * stride + x] as int
    } else {
        le_sample(src, y * stride + 2 * x) as int
    }
}

/// Whether a source holds exactly `height` rows, `stride` bytes apart, each
/// long enough for `width` samples.
pub open spec fn source_fits(
    width: int,
    height: int,
    sample_bytes: int,
    len: int,
    stride: int,
) -> bool {
    stride >= width * sample_bytes && len == stride * height
}

/// The buffer of a plane whose visible samples come from a source and whose
/// padding is zero.
pub open spec fn painted(shape: PlaneShape, src: Seq<u8>, stride: int, sample_bytes: int) -> Seq<
    int,
> {
    Seq::new(
        shape.len() as nat,
        |i: int|
            if shape.visible(i) {
                source_sample(src, stride, sample_bytes, shape.column(i), shape.row(i))
            } else {
                0
            },
    )
}

/// The plane of the given shape painted from a source.
pub open spec fn painted_plane(shape: PlaneShape, source: PlaneSource<'_>, sample_bytes: int) -> PlaneView {
    PlaneView { shape, samples: painted(shape, source.data@, source.stride as int, sample_bytes) }
}

/// The inputs on which a frame is assembled. Everything else is refused.
pub open spec fn can_assemble(
    width: usize,
    height: usize,
    layout: ChromaLayout,
    bit_depth: usize,
    luma_only: bool,
    sample: SampleWidth,
    source: FrameSource<'_>,
) -> bool {
    let out = output_layout(layout, luma_only);
    let bytes = sample.spec_bytes();
    &&& width > 0
    &&& height > 0
    &&& supported_bit_depth(bit_depth as int)
    &&& sample.holds(bit_depth as int)
    &&& fits_allocation(width as int, height as int, LUMA_PADDING as int, bytes)
    &&& out.spec_has_chroma() ==> out.divides(width as int, height as int)
    &&& source_fits(
        width as int,
        height as int,
        bytes,
        source.y.data@.len() as int,
        source.y.stride as int,
    )
    &&& out.spec_has_chroma() ==> {
        &&& source_fits(
            out.chroma_width(width as int),
            out.chroma_height(height as int),
            bytes,
            source.u.data@.len() as int,
            source.u.stride as int,
        )
        &&& source_fits(
            out.chroma_width(width as int),
            out.chroma_height(height as int),
            bytes,
            source.v.data@.len() as int,
            source.v.stride as int,
        )
    }
}

/// The frame that `assemble` builds on the inputs it accepts.
pub open spec fn assembled(
    width: usize,
    height: usize,
    layout: ChromaLayout,
    bit_depth: usize,
    luma_only: bool,
    sample: SampleWidth,
    source: FrameSource<'_>,
) -> FrameView {
    let out = output_layout(layout, luma_only);
    let bytes = sample.spec_bytes();
    let chroma = chroma_shape(out, width, height, LUMA_PADDING);
    FrameView {
        sample_bytes: bytes,
        layout: out,
        bit_depth: bit_depth as int,
        y: painted_plane(luma_shape(width, height, LUMA_PADDING), source.y, bytes),
        u: if out.spec_has_chroma() {
            Some(painted_plane(chroma, source.u, bytes))
        } else {
            None
        },
        v: if out.spec_has_chroma() {
            Some(painted_plane(chroma, source.v, bytes))
        } else {
            None
        },
    }
}

/// Why `assemble` refuses inputs that it does not accept: the first cause
/// that applies.
pub open spec fn refusal(
    width: usize,
    height: usize,
    layout: ChromaLayout,
    bit_depth: usize,
    luma_only: bool,
    sample: SampleWidth,
    source: FrameSource<'_>,
) -> Seq<char> {
    let out = output_layout(layout, luma_only);
    let bytes = sample.spec_bytes();
    if width == 0 {
        "Zero-width resolution is not supported"@
    } else if height == 0 {
        "Zero-height resolution is not supported"@
    } else if bit_depth == 0 {
        "Zero-bit-depth is not supported"@
    } else if !supported_bit_depth(bit_depth as int) {
        "only 8, 10 and 12 bit frame data is supported"@
    } else if !sample.holds(bit_depth as int) {
        "bit depth did not match requested data type"@
    } else if !fits_allocation(width as int, height as int, LUMA_PADDING as int, bytes) {
        "frame does not fit in memory"@
    } else if !source_fits(
        width as int,
        height as int,
        bytes,
        source.y.data@.len() as int,
        source.y.stride as int,
    ) {
        "luma plane does not match the frame size"@
    } else if out.spec_has_chroma() && !out.divides(width as int, height as int) {
        "selected chroma subsampling does not support odd resolutions"@
    } else {
        "chroma plane does not match the frame size"@
    }
}

/// `r` is what `assemble` returns on these inputs: the assembled frame where
/// the inputs are accepted, a `GenericDecodeError` that says why where they
/// are not.
pub open spec fn assembles(
    r: Result<DecodedFrame, DecoderError>,
    width: usize,
    height: usize,
    layout: ChromaLayout,
    bit_depth: usize,
    luma_only: bool,
    sample: SampleWidth,
    source: FrameSource<'_>,
) -> bool {
    &&& r is Ok <==> can_assemble(width, height, layout, bit_depth, luma_only, sample, source)
    &&& r matches Ok(frame) ==> frame@ == assembled(
        width,
        height,
        layout,
        bit_depth,
        luma_only,
        sample,
        source,
    )
    &&& r matches Err(e) ==> e matches DecoderError::GenericDecodeError { cause } && cause@
        == refusal(width, height, layout, bit_depth, luma_only, sample, source)
}

/// In a plane's buffer, the visible sample `(x, y)` sits at a visible
/// position whose column is `x` and whose row is `y`.
pub proof fn lemma_index_is_visible(shape: PlaneShape, x: int, y: int)
    requires
        0 <= x < shape.width,
        0 <= y < shape.height,
    ensures
        shape.visible(shape.index(x, y)),
        shape.column(shape.index(x, y)) == x,
        shape.row(shape.index(x, y)) == y,
{
    let s = shape.stride();
    let r = shape.pad_top + y;
    let c = shape.pad_left + x;
    assert(0 <= c < s);
    vstd::arithmetic::div_mod::lemma_fundamental_div_mod_converse(r * s + c, s, r, c);
    assert(r * s + c < s * shape.rows()) by (nonlinear_arith)
        requires
            0 <= c < s,
            0 <= r < shape.rows(),
    ;
    assert(r * s + c >= 0) by (nonlinear_arith)
        requires
            0 <= c,
            0 <= r,
            0 < s,
    ;
}

/// A painted plane holds `stride × (height + padding above and below)`
/// samples; each visible sample is the source's sample at the same column and
/// row; every padding sample is zero.
pub proof fn lemma_painted(shape: PlaneShape, src: Seq<u8>, stride: int, sample_bytes: int)
    ensures
        painted(shape, src, stride, sample_bytes).len() == shape.stride() * (shape.height
            + shape.pad_top + shape.pad_bottom),
        forall|x: int, y: int|
            0 <= x < shape.width && 0 <= y < shape.height ==> #[trigger] painted(
                shape,
                src,
                stride,
                sample_bytes,
            )[shape.index(x, y)] == source_sample(src, stride, sample_bytes, x, y),
        forall|i: int|
            0 <= i < shape.len() && !shape.visible(i) ==> #[trigger] painted(
                shape,
                src,
                stride,
                sample_bytes,
            )[i] == 0,
{
    assert(shape.len() >= 0) by (nonlinear_arith)
        requires
            shape.len() == shape.stride() * shape.rows(),
            shape.stride() >= 0,
            shape.rows() >= 0,
    ;
    assert forall|x: int, y: int| 0 <= x < shape.width && 0 <= y < shape.height implies #[trigger] painted(
        shape,
        src,
        stride,
        sample_bytes,
    )[shape.index(x, y)] == source_sample(src, stride, sample_bytes, x, y) by {
        lemma_index_is_visible(shape, x, y);
    }
}

/// The error that refuses a frame for the given cause.
fn generic(cause: &str) -> (e: DecoderError)
    ensures
        e == (DecoderError::GenericDecodeError { cause: e->GenericDecodeError_cause }),
        e->GenericDecodeError_cause@ == cause@,
{
    DecoderError::GenericDecodeError { cause: cause.to_owned() }
}

/// Whether the luma plane of such a frame stays within the allocation limit.
fn fits(width: usize, height: usize, pad: usize, bytes: usize) -> (r: bool)
    requires
        width > 0,
        height > 0,
        1 <= bytes <= 2,
    ensures
        r == fits_allocation(width as int, height as int, pad as int, bytes as int),
{
    let limit: usize = (isize::MAX as usize) - 64;
    let ghost product = (height + 2 * pad) * (width + 2 * pad) * bytes;
    proof {
        assert((height + 2 * pad) * (width + 2 * pad) >= height + 2 * pad) by (nonlinear_arith)
            requires
                width + 2 * pad >= 1,
                height + 2 * pad >= 1,
        ;
        assert((height + 2 * pad) * (width + 2 * pad) >= width + 2 * pad) by (nonlinear_arith)
            requires
                width + 2 * pad >= 1,
                height + 2 * pad >= 1,
        ;
        assert(product >= (height + 2 * pad) * (width + 2 * pad)) by (nonlinear_arith)
            requires
                product == (height + 2 * pad) * (width + 2 * pad) * bytes,
                bytes >= 1,
                (height + 2 * pad) * (width + 2 * pad) >= 0,
        ;
    }
    let pad2 = match pad.checked_mul(2) {
        Some(v) => v,
        None => {
            return false;
        },
    };
    let rows = match height.checked_add(pad2) {
        Some(v) => v,
        None => {
            return false;
        },
    };
    let cols = match width.checked_add(pad2) {
        Some(v) => v,
        None => {
            return false;
        },
    };
    let samples = match rows.checked_mul(cols) {
        Some(v) => v,
        None => {
            return false;
        },
    };
    match samples.checked_mul(bytes) {
        Some(total) => total <= limit,
        None => false,
    }
}

/// Whether a source holds exactly the rows of a plane of the given size.
fn fits_source(width: usize, height: usize, bytes: usize, source: &PlaneSource<'_>) -> (r: bool)
    requires
        1 <= bytes <= 2,
        width * bytes <= usize::MAX,
    ensures
        r == source_fits(
            width as int,
            height as int,
            bytes as int,
            source.data@.len() as int,
            source.stride as int,
        ),
        r ==> source.stride * height <= usize::MAX,
{
    if source.stride < width * bytes {
        return false;
    }
    let len = source.data.len();
    assert(len == source.data@.len());
    match source.stride.checked_mul(height) {
        Some(total) => {
            assert(total == source.stride * height);
            len == total
        },
        None => {
            assert(source.stride * height > usize::MAX);
            false
        },
    }
}

/// Copies a source into a blank one-byte plane that it fits.
fn paint_bytes(plane: Plane<u8>, source: &PlaneSource<'_>) -> (r: Result<Plane<u8>, DecoderError>)
    requires
        source_fits(
            byte_plane_shape(plane).width as int,
            byte_plane_shape(plane).height as int,
            1,
            source.data@.len() as int,
            source.stride as int,
        ),
        byte_plane_data(plane) == Seq::new(byte_plane_shape(plane).len() as nat, |i: int| 0u8),
    ensures
        r matches Ok(p) && byte_plane_view(p) == painted_plane(byte_plane_shape(plane), *source, 1),
{
    let mut plane = plane;
    let ghost shape = byte_plane_shape(plane);
    assert(source.data@.len() == vstd::slice::spec_slice_len(source.data));
    match fill_byte_plane(&mut plane, source.data, source.stride) {
        Ok(()) => {
            assert(byte_plane_view(plane).samples =~= painted(
                shape,
                source.data@,
                source.stride as int,
                1,
            ));
            Ok(plane)
        },
        Err(message) => Err(DecoderError::GenericDecodeError { cause: message }),
    }
}

/// Copies a source into a blank two-byte plane that it fits.
fn paint_words(plane: Plane<u16>, source: &PlaneSource<'_>) -> (r: Result<
    Plane<u16>,
    DecoderError,
>)
    requires
        source_fits(
            word_plane_shape(plane).width as int,
            word_plane_shape(plane).height as int,
            2,
            source.data@.len() as int,
            source.stride as int,
        ),
        word_plane_data(plane) == Seq::new(word_plane_shape(plane).len() as nat, |i: int| 0u16),
    ensures
        r matches Ok(p) && word_plane_view(p) == painted_plane(word_plane_shape(plane), *source, 2),
{
    let mut plane = plane;
    let ghost shape = word_plane_shape(plane);
    assert(source.data@.len() == vstd::slice::spec_slice_len(source.data));
    match fill_word_plane(&mut plane, source.data, source.stride) {
        Ok(()) => {
            assert(word_plane_view(plane).samples =~= painted(
                shape,
                source.data@,
                source.stride as int,
                2,
            ));
            Ok(plane)
        },
        Err(message) => Err(DecoderError::GenericDecodeError { cause: message }),
    }
}

/// Builds the padded frame of a picture from the planes a backend supplies.
///
/// The picture must be non-empty, its bit depth 8, 10 or 12, and the sample
/// width the one that holds that depth. In luma-only mode the frame is
/// monochrome whatever the source's layout. Each plane present is
/// `LUMA_PADDING` samples larger on every side of luma (scaled down with the
/// chroma planes), zero in the padding, and equal to the source inside it.
/// A source whose length or stride does not match its plane is refused.
pub fn assemble(
    width: usize,
    height: usize,
    layout: ChromaLayout,
    bit_depth: usize,
    luma_only: bool,
    sample: SampleWidth,
    source: &FrameSource<'_>,
) -> (r: Result<DecodedFrame, DecoderError>)
    ensures
        assembles(r, width, height, layout, bit_depth, luma_only, sample, *source),
        r matches Ok(frame) ==> frame@.y.samples.len() == (width + 2 * LUMA_PADDING) * (height + 2
            * LUMA_PADDING),
        r matches Ok(frame) ==> forall|x: int, y: int|
            0 <= x < width && 0 <= y < height ==> #[trigger] frame@.y.samples[frame@.y.shape.index(
                x,
                y,
            )] == source_sample(source.y.data@, source.y.stride as int, sample.spec_bytes(), x, y),
{
    if width == 0 {
        return Err(generic("Zero-width resolution is not supported"));
    }
    if height == 0 {
        return Err(generic("Zero-height resolution is not supported"));
    }
    if bit_depth == 0 {
        return Err(generic("Zero-bit-depth is not supported"));
    }
    if !(bit_depth == 8 || bit_depth == 10 || bit_depth == 12) {
        return Err(generic("only 8, 10 and 12 bit frame data is supported"));
    }
    let bytes = sample.bytes();
    if (bytes == 1) != (bit_depth == 8) {
        return Err(generic("bit depth did not match requested data type"));
    }
    if !fits(width, height, LUMA_PADDING, bytes) {
        return Err(generic("frame does not fit in memory"));
    }
    let out = if luma_only {
        ChromaLayout::Monochrome
    } else {
        layout
    };
    let ghost luma = luma_shape(width, height, LUMA_PADDING);
    let ghost chroma = chroma_shape(out, width, height, LUMA_PADDING);
    proof {
        assert(width * bytes <= usize::MAX) by (nonlinear_arith)
            requires
                (height + 2 * LUMA_PADDING) * (width + 2 * LUMA_PADDING) * bytes <= isize::MAX - 64,
                height >= 1,
                1 <= bytes <= 2,
                isize::MAX <= usize::MAX,
        ;
        lemma_painted(luma, source.y.data@, source.y.stride as int, bytes as int);
    }
    if !fits_source(width, height, bytes, &source.y) {
        return Err(generic("luma plane does not match the frame size"));
    }
    let chroma_size = out.chroma_dimensions(width, height);
    if out.has_chroma() {
        match chroma_size {
            Some((cw, ch)) => {
                assert(cw * bytes <= usize::MAX) by (nonlinear_arith)
                    requires
                        cw <= width,
                        width * bytes <= usize::MAX,
                        bytes >= 1,
                ;
                if !fits_source(cw, ch, bytes, &source.u) || !fits_source(
                    cw,
                    ch,
                    bytes,
                    &source.v,
                ) {
                    return Err(generic("chroma plane does not match the frame size"));
                }
            },
            None => {
                return Err(
                    generic("selected chroma subsampling does not support odd resolutions"),
                );
            },
        }
    }
    match sample {
        SampleWidth::One => {
            match build_byte_frame(width, height, out, bit_depth as u8, LUMA_PADDING) {
                Err(message) => {
                    proof {
                        assert(false);
                    }
                    Err(DecoderError::GenericDecodeError { cause: message })
                },
                Ok(frame) => {
                    let Frame { y_plane, u_plane, v_plane, subsampling, bit_depth: depth } = frame;
                    let y_plane = paint_bytes(y_plane, &source.y)?;
                    let u_plane = match u_plane {
                        Some(p) => Some(paint_bytes(p, &source.u)?),
                        None => None,
                    };
                    let v_plane = match v_plane {
                        Some(p) => Some(paint_bytes(p, &source.v)?),
                        None => None,
                    };
                    Ok(
                        DecodedFrame::Bytes(
                            Frame { y_plane, u_plane, v_plane, subsampling, bit_depth: depth },
                        ),
                    )
                },
            }
        },
        SampleWidth::Two => {
            match build_word_frame(width, height, out, bit_depth as u8, LUMA_PADDING) {
                Err(message) => {
                    proof {
                        assert(false);
                    }
                    Err(DecoderError::GenericDecodeError { cause: message })
                },
                Ok(frame) => {
                    let Frame { y_plane, u_plane, v_plane, subsampling, bit_depth: depth } = frame;
                    let y_plane = paint_words(y_plane, &source.y)?;
                    let u_plane = match u_plane {
                        Some(p) => Some(paint_words(p, &source.u)?),
                        None => None,
                    };
                    let v_plane = match v_plane {
                        Some(p) => Some(paint_words(p, &source.v)?),
                        None => None,
                    };
                    Ok(
                        DecodedFrame::Words(
                            Frame { y_plane, u_plane, v_plane, subsampling, bit_depth: depth },
                        ),
                    )
                },
            }
        },
    }
}

} // verus!
