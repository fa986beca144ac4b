//! Stream metadata: the frame rate as an exact fraction, and the details
//! record that every backend fills.

use vstd::prelude::*;
use crate::layout::ChromaLayout;

verus! {

/// No integer above one divides both `a` and `b`.
pub open spec fn coprime(a: int, b: int) -> bool {
    forall|k: int| k > 1 ==> !(#[trigger] (a % k) == 0 && b % k == 0)
}

/// The inputs on which a fraction can be put in lowest terms within `i32`.
pub open spec fn reducible(numer: i32, denom: i32) -> bool {
    denom != 0 && numer > i32::MIN && denom > i32::MIN
}

/// Calls `num_rational::Ratio::<i32>::new` and hands back the numerator and
/// denominator it settled on. That constructor divides both by their greatest
/// common divisor and makes the denominator positive; it panics on a zero
/// denominator, and its sign flip overflows on `i32::MIN`, so both are kept out.
#[verifier::external_body]
fn reduce_ratio(numer: i32, denom: i32) -> (r: (i32, i32))
    requires
        reducible(numer, denom),
    ensures
        r.1 > 0,
        r.0 * denom == numer * r.1,
        coprime(r.0 as int, r.1 as int),
{
    let ratio = num_rational::Ratio::<i32>::new(numer, denom);
    (*ratio.numer(), *ratio.denom())
}

/// Frames per second as a fraction in lowest terms.
#[derive(Clone, Copy, Debug)]
pub struct FrameRate {
    numer: i32,
    denom: i32,
}

impl FrameRate {
    /// The numerator, as a mathematical integer.
    pub closed spec fn spec_numer(self) -> int {
        self.numer as int
    }

    /// The denominator, as a mathematical integer.
    pub closed spec fn spec_denom(self) -> int {
        self.denom as int
    }

    /// In lowest terms, with a positive denominator.
    pub open spec fn wf(self) -> bool {
        self.spec_denom() > 0 && coprime(self.spec_numer(), self.spec_denom())
    }

    /// Whether this rate is the value of the fraction `numer / denom`.
    pub open spec fn equals_fraction(self, numer: int, denom: int) -> bool {
        self.spec_numer() * denom == numer * self.spec_denom()
    }

    /// The rate `numer / denom`, reduced.
    pub fn new(numer: i32, denom: i32) -> (rate: FrameRate)
        requires
            reducible(numer, denom),
        ensures
            rate.wf(),
            rate.equals_fraction(numer as int, denom as int),
    {
        let (n, d) = reduce_ratio(numer, denom);
        FrameRate { numer: n, denom: d }
    }

    /// A whole number of frames per second.
    pub fn whole(fps: i32) -> (rate: FrameRate)
        ensures
            rate.wf(),
            rate.spec_numer() == fps,
            rate.spec_denom() == 1,
    {
        let rate = FrameRate { numer: fps, denom: 1 };
        assert(rate.wf()) by {
            assert forall|k: int| k > 1 implies !(#[trigger] (rate.spec_numer() % k) == 0 && 1int % k
                == 0) by {
                assert(1int % k == 1) by (nonlinear_arith)
                    requires
                        k > 1,
                ;
            }
        }
        rate
    }

    /// The numerator.
    pub fn numer(&self) -> (n: i32)
        ensures
            n == self.spec_numer(),
    {
        self.numer
    }

    /// The denominator.
    pub fn denom(&self) -> (d: i32)
        ensures
            d == self.spec_denom(),
    {
        self.denom
    }
}

/// What a caller needs to know of a stream before reading frames from it.
#[derive(Clone, Copy, Debug)]
pub struct VideoDetails {
    /// Width of the luma plane in samples.
    pub width: usize,
    /// Height of the luma plane in samples.
    pub height: usize,
    /// Bits per sample.
    pub bit_depth: usize,
    /// How chroma is subsampled against luma.
    pub chroma_sampling: ChromaLayout,
    /// Frames per second.
    pub frame_rate: FrameRate,
    /// Number of frames in the stream, where the backend knows it.
    pub total_frames: Option<usize>,
}

impl VideoDetails {
    /// The shape this library decodes: positive dimensions, a bit depth of
    /// 8, 10 or 12, and a frame rate in lowest terms.
    pub open spec fn wf(self) -> bool {
        &&& self.width > 0
        &&& self.height > 0
        &&& crate::layout::supported_bit_depth(self.bit_depth as int)
        &&& self.frame_rate.wf()
    }
}

impl Default for VideoDetails {
    /// A 640x480 stream of 8-bit 4:2:0 at 30 frames per second, of unknown length.
    fn default() -> (details: VideoDetails)
        ensures
            details.width == 640,
            details.height == 480,
            details.bit_depth == 8,
            details.chroma_sampling == ChromaLayout::Yuv420,
            details.frame_rate.spec_numer() == 30,
            details.frame_rate.spec_denom() == 1,
            details.total_frames is None,
            details.wf(),
    {
        VideoDetails {
            width: 640,
            height: 480,
            bit_depth: 8,
            chroma_sampling: ChromaLayout::Yuv420,
            frame_rate: FrameRate::whole(30),
            total_frames: None,
        }
    }
}

} // verus!
