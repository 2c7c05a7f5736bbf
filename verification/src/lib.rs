//! State and resource management for a hardware-accelerated video decoding
//! backend: frame resolutions, the pool of decode surfaces, the lifecycle of
//! a decoded picture and the negotiation of the export format.
//!
//! The hardware itself is driven by the caller. Every function here works on
//! plain descriptions of hardware objects and takes what the hardware
//! answered as an argument.

use vstd::prelude::*;

pub mod backend;
pub mod error;
pub mod format;
pub mod image;
pub mod metadata;
pub mod picture;
pub mod surface_pool;

verus! {

/// Rounding modes for `Resolution`.
#[derive(Copy, Clone, Debug, PartialEq, Eq, Structural)]
pub enum ResolutionRoundMode {
    /// Rounds component-wise to the next even value.
    Even,
}

/// A frame resolution in pixels.
#[derive(Copy, Clone, Debug, PartialEq, Eq, Structural)]
pub struct Resolution {
    pub width: u32,
    pub height: u32,
}

/// The smallest even number that is not below `v`.
pub open spec fn next_even(v: int) -> int {
    if v % 2 != 0 {
        v + 1
    } else {
        v
    }
}

impl Resolution {
    /// Whether a frame of `self` has room for a frame of `other`.
    pub open spec fn contains(self, other: Resolution) -> bool {
        self.width >= other.width && self.height >= other.height
    }

    /// `self` with both components rounded according to `rnd_mode`.
    pub open spec fn rounded(self, rnd_mode: ResolutionRoundMode) -> (int, int) {
        match rnd_mode {
            ResolutionRoundMode::Even => (
                next_even(self.width as int),
                next_even(self.height as int),
            ),
        }
    }

    /// Whether `self` can contain `other`.
    pub fn can_contain(&self, other: Self) -> (r: bool)
        ensures
            r == self.contains(other),
    {
        self.width >= other.width && self.height >= other.height
    }

    /// Rounds `self` according to `rnd_mode`.
    ///
    /// The rounded components must fit in 32 bits, which leaves out only the
    /// largest value of either component.
    pub fn round(self, rnd_mode: ResolutionRoundMode) -> (r: Self)
        requires
            self.width < u32::MAX,
            self.height < u32::MAX,
        ensures
            (r.width as int, r.height as int) == self.rounded(rnd_mode),
    {
        let mut rounded = self;
        match rnd_mode {
            ResolutionRoundMode::Even => {
                if rounded.width % 2 != 0 {
                    rounded.width = rounded.width + 1;
                }
                if rounded.height % 2 != 0 {
                    rounded.height = rounded.height + 1;
                }
            },
        }
        rounded
    }
}

impl Default for Resolution {
    fn default() -> (r: Self)
        ensures
            r == (Resolution { width: 0, height: 0 }),
    {
        Resolution { width: 0, height: 0 }
    }
}

impl From<(u32, u32)> for Resolution {
    fn from(value: (u32, u32)) -> (r: Self) {
        Resolution { width: value.0, height: value.1 }
    }
}

impl vstd::std_specs::convert::FromSpecImpl<(u32, u32)> for Resolution {
    open spec fn obeys_from_spec() -> bool {
        true
    }

    open spec fn from_spec(value: (u32, u32)) -> Self {
        Resolution { width: value.0, height: value.1 }
    }
}

impl From<Resolution> for (u32, u32) {
    fn from(value: Resolution) -> (r: Self) {
        (value.width, value.height)
    }
}

impl vstd::std_specs::convert::FromSpecImpl<Resolution> for (u32, u32) {
    open spec fn obeys_from_spec() -> bool {
        true
    }

    open spec fn from_spec(value: Resolution) -> Self {
        (value.width, value.height)
    }
}

/// Pixel layouts into which a decoded frame can be exported.
#[derive(Copy, Clone, Debug, PartialEq, Eq, Hash, Structural)]
pub enum DecodedFormat {
    /// Y plane followed by a plane of interleaved U and V samples.
    NV12,
    /// Y plane followed by a U plane and a V plane.
    I420,
}

/// Half of `v`, rounded up: the extent of a chroma plane along an axis of
/// `v` luma samples.
pub open spec fn chroma_extent(v: int) -> int {
    (v + 1) / 2
}

/// Number of bytes of a frame of `format` and `width` x `height` pixels
/// without any padding: one byte per pixel for luma, and one U and one V
/// sample for every block of two by two pixels.
pub open spec fn frame_size(format: DecodedFormat, width: int, height: int) -> int {
    match format {
        DecodedFormat::NV12 | DecodedFormat::I420 => width * height + 2 * (chroma_extent(width)
            * chroma_extent(height)),
    }
}

/// For even dimensions a frame takes twelve bits per pixel.
pub proof fn lemma_frame_size_even(format: DecodedFormat, width: int, height: int)
    requires
        0 <= width,
        0 <= height,
        width % 2 == 0,
        height % 2 == 0,
    ensures
        2 * frame_size(format, width, height) == 3 * (width * height),
{
    let cw = width / 2;
    let ch = height / 2;
    assert(width * height == 4 * (cw * ch)) by (nonlinear_arith)
        requires
            width == 2 * cw,
            height == 2 * ch,
    ;
}

/// Upper bound of the size of any frame whose dimensions fit in 16 bits.
pub proof fn lemma_frame_size_bound(format: DecodedFormat, width: u16, height: u16)
    ensures
        0 <= frame_size(format, width as int, height as int) <= 0x1_8000_0000,
{
    let w = width as int;
    let h = height as int;
    let cw = chroma_extent(w);
    let ch = chroma_extent(h);
    assert(0 <= w * h <= 0xffff * 0xffff) by (nonlinear_arith)
        requires
            0 <= w <= 0xffff,
            0 <= h <= 0xffff,
    ;
    assert(0 <= cw * ch <= 0x8000 * 0x8000) by (nonlinear_arith)
        requires
            0 <= cw <= 0x8000,
            0 <= ch <= 0x8000,
    ;
}

/// Returns the size required to store a frame of `format` with size
/// `width` x `height`, without any padding. This is the exact size of the
/// buffers a frame is exported into.
pub fn decoded_frame_size(format: DecodedFormat, width: u16, height: u16) -> (size: usize)
    requires
        frame_size(format, width as int, height as int) <= usize::MAX,
    ensures
        size == frame_size(format, width as int, height as int),
{
    let size = decoded_frame_size_u64(format, width, height);
    size as usize
}

/// The size of a frame as a 64-bit number, which holds it on every machine.
pub fn decoded_frame_size_u64(format: DecodedFormat, width: u16, height: u16) -> (size: u64)
    ensures
        size == frame_size(format, width as int, height as int),
{
    proof {
        lemma_frame_size_bound(format, width, height);
    }
    match format {
        DecodedFormat::NV12 | DecodedFormat::I420 => {
            let w: u64 = width as u64;
            let h: u64 = height as u64;
            let cw: u64 = (w + 1) / 2;
            let ch: u64 = (h + 1) / 2;
            assert(w * h <= 0xffff * 0xffff) by (nonlinear_arith)
                requires
                    w <= 0xffff,
                    h <= 0xffff,
            ;
            assert(cw * ch <= 0x8000 * 0x8000) by (nonlinear_arith)
                requires
                    cw <= 0x8000,
                    ch <= 0x8000,
            ;
            w * h + 2 * (cw * ch)
        },
    }
}

} // verus!
