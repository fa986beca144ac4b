//! Chroma layouts, the supported bit depths, and the plane dimensions they imply.

use vstd::prelude::*;

verus! {

/// Relative subsampling of the two colour-difference planes against luma.
#[derive(Clone, Copy, Debug, PartialEq, Eq, Structural)]
pub enum ChromaLayout {
    /// Luma only: the frame carries no chroma planes.
    Monochrome,
    /// Chroma at half width and half height.
    Yuv420,
    /// Chroma at half width and full height.
    Yuv422,
    /// Chroma at full resolution.
    Yuv444,
}

/// The bit depths this library decodes.
pub open spec fn supported_bit_depth(bit_depth: int) -> bool {
    bit_depth == 8 || bit_depth == 10 || bit_depth == 12
}

impl ChromaLayout {
    /// Whether frames of this layout carry chroma planes.
    pub open spec fn spec_has_chroma(self) -> bool {
        self != ChromaLayout::Monochrome
    }

    /// By how much chroma is narrower than luma.
    pub open spec fn x_ratio(self) -> int {
        match self {
            ChromaLayout::Yuv420 | ChromaLayout::Yuv422 => 2,
            _ => 1,
        }
    }

    /// By how much chroma is shorter than luma.
    pub open spec fn y_ratio(self) -> int {
        match self {
            ChromaLayout::Yuv420 => 2,
            _ => 1,
        }
    }

    /// Whether a luma plane of this size splits evenly into chroma samples.
    pub open spec fn divides(self, luma_width: int, luma_height: int) -> bool {
        luma_width % self.x_ratio() == 0 && luma_height % self.y_ratio() == 0
    }

    /// Width of a chroma plane under a luma plane of the given width.
    pub open spec fn chroma_width(self, luma_width: int) -> int {
        luma_width / self.x_ratio()
    }

    /// Height of a chroma plane under a luma plane of the given height.
    pub open spec fn chroma_height(self, luma_height: int) -> int {
        luma_height / self.y_ratio()
    }

    /// Whether frames of this layout carry chroma planes.
    #[verifier::when_used_as_spec(spec_has_chroma)]
    pub fn has_chroma(self) -> (r: bool)
        ensures
            r == self.spec_has_chroma(),
    {
        !matches!(self, ChromaLayout::Monochrome)
    }

    /// The size of each chroma plane under a luma plane of the given size:
    /// 4:2:0 halves both axes, 4:2:2 halves the width, 4:4:4 keeps both.
    /// `None` for monochrome, and where a halved axis is odd.
    pub fn chroma_dimensions(self, luma_width: usize, luma_height: usize) -> (r: Option<
        (usize, usize),
    >)
        ensures
            r is Some <==> self.spec_has_chroma() && self.divides(
                luma_width as int,
                luma_height as int,
            ),
            r matches Some((w, h)) ==> w == self.chroma_width(luma_width as int) && h
                == self.chroma_height(luma_height as int),
    {
        match self {
            ChromaLayout::Monochrome => None,
            ChromaLayout::Yuv444 => Some((luma_width, luma_height)),
            ChromaLayout::Yuv422 => {
                if luma_width % 2 == 0 {
                    Some((luma_width / 2, luma_height))
                } else {
                    None
                }
            },
            ChromaLayout::Yuv420 => {
                if luma_width % 2 == 0 && luma_height % 2 == 0 {
                    Some((luma_width / 2, luma_height / 2))
                } else {
                    None
                }
            },
        }
    }
}

} // verus!
