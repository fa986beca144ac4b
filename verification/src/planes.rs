//! Padded sample planes. The storage is `v_frame`'s; this module states what
//! its constructor and its copy routines do, and everything else in the crate
//! is proved against those statements.

use vstd::prelude::*;
use v_frame::chroma::ChromaSubsampling;
use v_frame::frame::FrameBuilder;
use v_frame::plane::Plane;
use crate::layout::ChromaLayout;

verus! {

/// Declares `v_frame::plane::Plane`, the padded buffer of one plane. Nothing
/// is claimed of it here: what a plane holds is named below, and the wrappers
/// at the end of this file say what the crate's functions do to it.
#[verifier::external_type_specification]
#[verifier::external_body]
#[verifier::reject_recursive_types(T)]
pub struct ExPlane<T>(Plane<T>);

/// The visible size of a plane and the padding around it, in samples.
pub struct PlaneShape {
    /// Visible samples per row.
    pub width: usize,
    /// Visible rows.
    pub height: usize,
    /// Padding samples before each visible row.
    pub pad_left: usize,
    /// Padding samples after each visible row.
    pub pad_right: usize,
    /// Padding rows above the visible rows.
    pub pad_top: usize,
    /// Padding rows below the visible rows.
    pub pad_bottom: usize,
}

impl PlaneShape {
    /// Samples per stored row, padding included.
    pub open spec fn stride(self) -> int {
        self.width + self.pad_left + self.pad_right
    }

    /// Stored rows, padding included.
    pub open spec fn rows(self) -> int {
        self.height + self.pad_top + self.pad_bottom
    }

    /// Samples in the whole buffer.
    pub open spec fn len(self) -> int {
        self.stride() * self.rows()
    }

    /// Where the visible sample `(x, y)` lies in the buffer.
    pub open spec fn index(self, x: int, y: int) -> int {
        (self.pad_top + y) * self.stride() + self.pad_left + x
    }

    /// The visible column that buffer position `i` falls in, if it is visible.
    pub open spec fn column(self, i: int) -> int {
        i % self.stride() - self.pad_left
    }

    /// The visible row that buffer position `i` falls in, if it is visible.
    pub open spec fn row(self, i: int) -> int {
        i / self.stride() - self.pad_top
    }

    /// Whether buffer position `i` holds a visible sample rather than padding.
    pub open spec fn visible(self, i: int) -> bool {
        &&& 0 <= i < self.len()
        &&& 0 <= self.column(i) < self.width
        &&& 0 <= self.row(i) < self.height
    }
}

/// The shape of a luma plane with the same padding on all four sides.
pub open spec fn luma_shape(width: usize, height: usize, pad: usize) -> PlaneShape {
    PlaneShape {
        width,
        height,
        pad_left: pad,
        pad_right: pad,
        pad_top: pad,
        pad_bottom: pad,
    }
}

/// The shape of each chroma plane under such a luma plane: size and padding
/// divided by the layout's ratios.
pub open spec fn chroma_shape(
    layout: ChromaLayout,
    width: usize,
    height: usize,
    pad: usize,
) -> PlaneShape {
    PlaneShape {
        width: (width as int / layout.x_ratio()) as usize,
        height: (height as int / layout.y_ratio()) as usize,
        pad_left: (pad as int / layout.x_ratio()) as usize,
        pad_right: (pad as int / layout.x_ratio()) as usize,
        pad_top: (pad as int / layout.y_ratio()) as usize,
        pad_bottom: (pad as int / layout.y_ratio()) as usize,
    }
}

/// The largest buffer, in bytes, that a plane may take.
pub open spec fn max_plane_bytes() -> int {
    isize::MAX - 64
}

/// Whether the luma plane of a frame stays within `max_plane_bytes`.
pub open spec fn fits_allocation(width: int, height: int, pad: int, sample_bytes: int) -> bool {
    (height + 2 * pad) * (width + 2 * pad) * sample_bytes <= max_plane_bytes()
}

/// The inputs on which a frame can be built: a bit depth of 8 for one-byte
/// samples and of 9 to 16 for two-byte samples, a non-empty picture, and a
/// size and padding that the layout divides.
pub open spec fn buildable(
    width: usize,
    height: usize,
    layout: ChromaLayout,
    bit_depth: u8,
    pad: usize,
    sample_bytes: int,
) -> bool {
    &&& 8 <= bit_depth <= 16
    &&& sample_bytes == 1 ==> bit_depth == 8
    &&& sample_bytes == 2 ==> bit_depth > 8
    &&& width > 0
    &&& height > 0
    &&& layout.spec_has_chroma() ==> layout.divides(width as int, height as int) && layout.divides(
        pad as int,
        pad as int,
    )
}

/// The two bytes at `at` and `at + 1`, read as one little-endian sample.
pub open spec fn le_sample(src: Seq<u8>, at: int) -> u16 {
    (src[at] + 256 * src[at + 1]) as u16
}

/// Every sample of a one-byte plane, padding included, row by row: what
/// `Plane::<u8>::data` hands out.
pub uninterp spec fn byte_plane_data(plane: Plane<u8>) -> Seq<u8>;

/// The shape that a one-byte plane was made with: what
/// `Plane::<u8>::geometry` reports of its size and padding.
pub uninterp spec fn byte_plane_shape(plane: Plane<u8>) -> PlaneShape;

/// Every sample of a two-byte plane, padding included, row by row: what
/// `Plane::<u16>::data` hands out.
pub uninterp spec fn word_plane_data(plane: Plane<u16>) -> Seq<u16>;

/// The shape that a two-byte plane was made with: what
/// `Plane::<u16>::geometry` reports of its size and padding.
pub uninterp spec fn word_plane_shape(plane: Plane<u16>) -> PlaneShape;

/// A one-byte plane of the given shape whose samples are all zero.
pub open spec fn blank_byte_plane(plane: Plane<u8>, shape: PlaneShape) -> bool {
    byte_plane_shape(plane) == shape && byte_plane_data(plane) == Seq::new(
        shape.len() as nat,
        |i: int| 0u8,
    )
}

/// A two-byte plane of the given shape whose samples are all zero.
pub open spec fn blank_word_plane(plane: Plane<u16>, shape: PlaneShape) -> bool {
    word_plane_shape(plane) == shape && word_plane_data(plane) == Seq::new(
        shape.len() as nat,
        |i: int| 0u16,
    )
}

/// What a one-byte buffer holds once its visible rows were copied from `src`,
/// whose rows start `stride` bytes apart. Padding keeps what it held.
pub open spec fn bytes_after_copy(
    before: Seq<u8>,
    shape: PlaneShape,
    src: Seq<u8>,
    stride: int,
) -> Seq<u8> {
    Seq::new(
        before.len(),
        |i: int|
            if shape.visible(i) {
                src[shape.row(i) * stride + shape.column(i)]
            } else {
                before[i]
            },
    )
}

/// What a two-byte buffer holds once its visible rows were copied from `src`,
/// two little-endian bytes to the sample, rows `stride` bytes apart.
pub open spec fn words_after_copy(
    before: Seq<u16>,
    shape: PlaneShape,
    src: Seq<u8>,
    stride: int,
) -> Seq<u16> {
    Seq::new(
        before.len(),
        |i: int|
            if shape.visible(i) {
                le_sample(src, shape.row(i) * stride + 2 * shape.column(i))
            } else {
                before[i]
            },
    )
}

/// The planes of one picture: luma, and both chroma planes unless the layout
/// is monochrome.
#[derive(Debug)]
#[verifier::reject_recursive_types(T)]
pub struct Frame<T> {
    /// Luma.
    pub y_plane: Plane<T>,
    /// First chroma plane.
    pub u_plane: Option<Plane<T>>,
    /// Second chroma plane.
    pub v_plane: Option<Plane<T>>,
    /// How the chroma planes are subsampled.
    pub subsampling: ChromaLayout,
    /// Bits per sample.
    pub bit_depth: u8,
}

/// The planes of `frame` are blank and shaped as the arguments ask.
pub open spec fn blank_byte_frame(
    frame: Frame<u8>,
    width: usize,
    height: usize,
    layout: ChromaLayout,
    bit_depth: u8,
    pad: usize,
) -> bool {
    &&& frame.subsampling == layout
    &&& frame.bit_depth == bit_depth
    &&& blank_byte_plane(frame.y_plane, luma_shape(width, height, pad))
    &&& frame.u_plane is Some <==> layout.spec_has_chroma()
    &&& frame.v_plane is Some <==> layout.spec_has_chroma()
    &&& frame.u_plane matches Some(u) ==> blank_byte_plane(
        u,
        chroma_shape(layout, width, height, pad),
    )
    &&& frame.v_plane matches Some(v) ==> blank_byte_plane(
        v,
        chroma_shape(layout, width, height, pad),
    )
}

/// The planes of `frame` are blank and shaped as the arguments ask.
pub open spec fn blank_word_frame(
    frame: Frame<u16>,
    width: usize,
    height: usize,
    layout: ChromaLayout,
    bit_depth: u8,
    pad: usize,
) -> bool {
    &&& frame.subsampling == layout
    &&& frame.bit_depth == bit_depth
    &&& blank_word_plane(frame.y_plane, luma_shape(width, height, pad))
    &&& frame.u_plane is Some <==> layout.spec_has_chroma()
    &&& frame.v_plane is Some <==> layout.spec_has_chroma()
    &&& frame.u_plane matches Some(u) ==> blank_word_plane(
        u,
        chroma_shape(layout, width, height, pad),
    )
    &&& frame.v_plane matches Some(v) ==> blank_word_plane(
        v,
        chroma_shape(layout, width, height, pad),
    )
}

/// Calls `v_frame::frame::FrameBuilder::build::<u8>` with `pad` samples of luma
/// padding on every side. The builder accepts exactly the `buildable` inputs
/// and then allocates zeroed planes: luma as asked, chroma with size and
/// padding divided by the layout's ratios. Otherwise it hands back an error,
/// passed on here as its message. The size limit keeps the allocation within
/// what the builder's unchecked arithmetic and its layout can take.
#[verifier::external_body]
pub(crate) fn build_byte_frame(
    width: usize,
    height: usize,
    layout: ChromaLayout,
    bit_depth: u8,
    pad: usize,
) -> (r: Result<Frame<u8>, String>)
    requires
        fits_allocation(width as int, height as int, pad as int, 1),
    ensures
        r is Ok <==> buildable(width, height, layout, bit_depth, pad, 1),
        r matches Ok(frame) ==> blank_byte_frame(frame, width, height, layout, bit_depth, pad),
{
    let subsampling = match layout {
        ChromaLayout::Monochrome => ChromaSubsampling::Monochrome,
        ChromaLayout::Yuv420 => ChromaSubsampling::Yuv420,
        ChromaLayout::Yuv422 => ChromaSubsampling::Yuv422,
        ChromaLayout::Yuv444 => ChromaSubsampling::Yuv444,
    };
    let b = FrameBuilder::new(width, height, subsampling, bit_depth).luma_padding_left(pad);
    let b = b.luma_padding_right(pad).luma_padding_top(pad).luma_padding_bottom(pad);
    match b.build::<u8>() {
        Ok(f) => Ok(Frame { y_plane: f.y_plane, u_plane: f.u_plane, v_plane: f.v_plane, subsampling: layout, bit_depth }),
        Err(e) => Err(e.to_string()),
    }
}

/// Calls `v_frame::frame::FrameBuilder::build::<u16>`; see `build_byte_frame`.
#[verifier::external_body]
pub(crate) fn build_word_frame(
    width: usize,
    height: usize,
    layout: ChromaLayout,
    bit_depth: u8,
    pad: usize,
) -> (r: Result<Frame<u16>, String>)
    requires
        fits_allocation(width as int, height as int, pad as int, 2),
    ensures
        r is Ok <==> buildable(width, height, layout, bit_depth, pad, 2),
        r matches Ok(frame) ==> blank_word_frame(frame, width, height, layout, bit_depth, pad),
{
    let subsampling = match layout {
        ChromaLayout::Monochrome => ChromaSubsampling::Monochrome,
        ChromaLayout::Yuv420 => ChromaSubsampling::Yuv420,
        ChromaLayout::Yuv422 => ChromaSubsampling::Yuv422,
        ChromaLayout::Yuv444 => ChromaSubsampling::Yuv444,
    };
    let b = FrameBuilder::new(width, height, subsampling, bit_depth).luma_padding_left(pad);
    let b = b.luma_padding_right(pad).luma_padding_top(pad).luma_padding_bottom(pad);
    match b.build::<u16>() {
        Ok(f) => Ok(Frame { y_plane: f.y_plane, u_plane: f.u_plane, v_plane: f.v_plane, subsampling: layout, bit_depth }),
        Err(e) => Err(e.to_string()),
    }
}

/// Calls `v_frame::plane::Plane::<u8>::copy_from_u8_slice_with_stride`. It
/// succeeds when the stride covers a visible row and `src` holds exactly
/// `stride` bytes for each visible row; it then copies the first `width` bytes
/// of every source row into the matching visible row and leaves the padding
/// alone. Otherwise it changes nothing and hands back an error, passed on here
/// as its message. Its byte count is an unchecked product, kept in range here.
#[verifier::external_body]
pub(crate) fn fill_byte_plane(plane: &mut Plane<u8>, src: &[u8], stride: usize) -> (r: Result<
    (),
    String,
>)
    requires
        stride * byte_plane_shape(*old(plane)).height <= usize::MAX,
    ensures
        byte_plane_shape(*final(plane)) == byte_plane_shape(*old(plane)),
        r is Ok <==> stride >= byte_plane_shape(*old(plane)).width && src@.len() == stride
            * byte_plane_shape(*old(plane)).height,
        r is Ok ==> byte_plane_data(*final(plane)) == bytes_after_copy(
            byte_plane_data(*old(plane)),
            byte_plane_shape(*old(plane)),
            src@,
            stride as int,
        ),
        r is Err ==> byte_plane_data(*final(plane)) == byte_plane_data(*old(plane)),
{
    match plane.copy_from_u8_slice_with_stride(src, stride) {
        Ok(()) => Ok(()),
        Err(e) => Err(e.to_string()),
    }
}

/// Calls `v_frame::plane::Plane::<u16>::copy_from_u8_slice_with_stride`. With
/// a stride of at least two bytes per visible sample it succeeds when `src`
/// holds exactly `stride` bytes for each visible row; it then reads every
/// visible sample from two little-endian bytes of the matching source row and
/// leaves the padding alone. Otherwise it changes nothing and hands back an
/// error, passed on here as its message. A shorter stride would let it read
/// past a row, and its byte count is an unchecked product: both are kept out.
#[verifier::external_body]
pub(crate) fn fill_word_plane(plane: &mut Plane<u16>, src: &[u8], stride: usize) -> (r: Result<
    (),
    String,
>)
    requires
        stride * word_plane_shape(*old(plane)).height <= usize::MAX,
        stride >= 2 * word_plane_shape(*old(plane)).width,
    ensures
        word_plane_shape(*final(plane)) == word_plane_shape(*old(plane)),
        r is Ok <==> src@.len() == stride * word_plane_shape(*old(plane)).height,
        r is Ok ==> word_plane_data(*final(plane)) == words_after_copy(
            word_plane_data(*old(plane)),
            word_plane_shape(*old(plane)),
            src@,
            stride as int,
        ),
        r is Err ==> word_plane_data(*final(plane)) == word_plane_data(*old(plane)),
{
    match plane.copy_from_u8_slice_with_stride(src, stride) {
        Ok(()) => Ok(()),
        Err(e) => Err(e.to_string()),
    }
}

} // verus!
