//! The pipeline's image containers: an 8-bit grayscale input, a wide
//! (16-bit) gradient-magnitude buffer, and an 8-bit output image.
//!
//! Each holds its samples in row-major order; well-formedness ties the
//! sample count to the dimensions, which must both be positive.

use vstd::prelude::*;

verus! {

/// The product of two 32-bit dimensions fits in 64 bits.
proof fn lemma_dims_product_fits(w: u32, h: u32)
    ensures
        (w as int) * (h as int) <= 0xffff_fffe_0000_0001,
{
    assert((w as int) * (h as int) <= 0xffff_fffe_0000_0001) by (nonlinear_arith)
        requires
            w <= 0xffff_ffffu32,
            h <= 0xffff_ffffu32,
    ;
}

/// A dense 8-bit single-channel grayscale image, row-major.
#[derive(Clone, Debug)]
pub struct GrayBuffer {
    pub width: u32,
    pub height: u32,
    pub samples: Vec<u8>,
}

impl GrayBuffer {
    /// Positive dimensions and exactly one sample per pixel.
    pub open spec fn wf(&self) -> bool {
        &&& self.width > 0
        &&& self.height > 0
        &&& self.samples@.len() == (self.width as int) * (self.height as int)
    }

    /// Builds a grayscale buffer, rejecting empty dimensions and any
    /// sample vector whose length does not match them.
    pub fn new(width: u32, height: u32, samples: Vec<u8>) -> (r: Option<GrayBuffer>)
        ensures
            match r {
                Some(b) => {
                    &&& b.wf()
                    &&& b.width == width
                    &&& b.height == height
                    &&& b.samples@ == samples@
                },
                None => width == 0 || height == 0 || samples@.len() != (width as int) * (
                height as int),
            },
    {
        if width == 0 || height == 0 {
            return None;
        }
        proof {
            lemma_dims_product_fits(width, height);
        }
        let expected: u64 = (width as u64) * (height as u64);
        if (samples.len() as u64) == expected {
            Some(GrayBuffer { width, height, samples })
        } else {
            None
        }
    }
}

/// A buffer of wide unsigned gradient magnitudes, as produced by the
/// external gradient operator; same layout as `GrayBuffer`.
#[derive(Clone, Debug)]
pub struct GradientBuffer {
    pub width: u32,
    pub height: u32,
    pub samples: Vec<u16>,
}

impl GradientBuffer {
    /// Positive dimensions and exactly one sample per pixel.
    pub open spec fn wf(&self) -> bool {
        &&& self.width > 0
        &&& self.height > 0
        &&& self.samples@.len() == (self.width as int) * (self.height as int)
    }

    /// Builds a gradient buffer, rejecting empty dimensions and any
    /// sample vector whose length does not match them.
    pub fn new(width: u32, height: u32, samples: Vec<u16>) -> (r: Option<GradientBuffer>)
        ensures
            match r {
                Some(b) => {
                    &&& b.wf()
                    &&& b.width == width
                    &&& b.height == height
                    &&& b.samples@ == samples@
                },
                None => width == 0 || height == 0 || samples@.len() != (width as int) * (
                height as int),
            },
    {
        if width == 0 || height == 0 {
            return None;
        }
        proof {
            lemma_dims_product_fits(width, height);
        }
        let expected: u64 = (width as u64) * (height as u64);
        if (samples.len() as u64) == expected {
            Some(GradientBuffer { width, height, samples })
        } else {
            None
        }
    }
}

/// The pipeline's terminal artifact: a dense 8-bit single-channel image.
#[derive(Clone, Debug)]
pub struct NormalizedImage {
    pub width: u32,
    pub height: u32,
    pub samples: Vec<u8>,
}

impl NormalizedImage {
    /// Positive dimensions and exactly one sample per pixel.
    pub open spec fn wf(&self) -> bool {
        &&& self.width > 0
        &&& self.height > 0
        &&& self.samples@.len() == (self.width as int) * (self.height as int)
    }

    /// Builds an 8-bit image, rejecting empty dimensions and any sample
    /// vector whose length does not match them.
    pub fn new(width: u32, height: u32, samples: Vec<u8>) -> (r: Option<NormalizedImage>)
        ensures
            match r {
                Some(b) => {
                    &&& b.wf()
                    &&& b.width == width
                    &&& b.height == height
                    &&& b.samples@ == samples@
                },
                None => width == 0 || height == 0 || samples@.len() != (width as int) * (
                height as int),
            },
    {
        if width == 0 || height == 0 {
            return None;
        }
        proof {
            lemma_dims_product_fits(width, height);
        }
        let expected: u64 = (width as u64) * (height as u64);
        if (samples.len() as u64) == expected {
            Some(NormalizedImage { width, height, samples })
        } else {
            None
        }
    }
}

} // verus!
