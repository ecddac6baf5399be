//! Strategy selection and pipeline dispatch: the gradient-magnitude
//! branch runs the external gradient operator and normalizes its output;
//! the thresholded-mask branch passes the external detector's binary
//! mask through unchanged.

use vstd::prelude::*;
use crate::buffer::GrayBuffer;
use crate::buffer::GradientBuffer;
use crate::buffer::NormalizedImage;
use crate::normalize::normalize_u16_to_u8;
use crate::normalize::remap;
use crate::range::seq_max_v;
use crate::range::seq_min_v;

verus! {

/// Which external algorithm produced the edge data, and so which
/// post-processing path applies. Fixed once per pipeline run.
#[derive(Clone, Copy, Debug, PartialEq, Eq, Structural)]
pub enum EdgeMethod {
    /// Continuous wide magnitudes that need range scanning and
    /// normalization.
    GradientMagnitude,
    /// An already-binary 8-bit mask that needs no rescaling.
    ThresholdedMask,
}

/// The gradient magnitudes that the external gradient operator computes
/// from a grayscale image; they depend on the dimensions and samples
/// alone.
pub uninterp spec fn sobel_of(width: nat, height: nat, samples: Seq<u8>) -> Seq<u16>;

/// Relies on imageproc::gradients::sobel_gradients: total over any
/// grayscale image, it returns an image of the same dimensions (one
/// 16-bit magnitude per input pixel) computed from the input samples
/// alone. image::ImageBuffer::from_raw accepts a buffer whose length
/// equals width * height, and into_raw returns the full sample vector.
#[verifier::external_body]
fn sobel_magnitudes(gray: &GrayBuffer) -> (r: GradientBuffer)
    requires
        gray.wf(),
    ensures
        r.width == gray.width,
        r.height == gray.height,
        r.samples@.len() == gray.samples@.len(),
        r.samples@ == sobel_of(gray.width as nat, gray.height as nat, gray.samples@),
{
    let img = image::GrayImage::from_raw(gray.width, gray.height, gray.samples.clone()).unwrap();
    let out = imageproc::gradients::sobel_gradients(&img);
    let width: u32 = out.width();
    let height: u32 = out.height();
    GradientBuffer { width, height, samples: out.into_raw() }
}

/// What the gradient-magnitude branch produces from a grayscale image:
/// an image of the same dimensions whose samples are the truncating
/// affine remap of the operator's magnitudes under their own scanned
/// range, plus the degenerate-range notice.
pub open spec fn gradient_output_ok(gray: GrayBuffer, img: NormalizedImage, notice: bool) -> bool {
    let g = sobel_of(gray.width as nat, gray.height as nat, gray.samples@);
    &&& img.width == gray.width
    &&& img.height == gray.height
    &&& img.samples@.len() == g.len()
    &&& notice == (seq_min_v(g) == seq_max_v(g))
    &&& forall|i: int| 0 <= i < g.len() ==> img.samples@[i] == remap(
        #[trigger] g[i],
        seq_min_v(g),
        seq_max_v(g),
    )
}

/// The GradientMagnitude branch: run the external gradient operator,
/// scan the magnitude range, and normalize into 8 bits. The flag is the
/// degenerate-range notice.
pub fn gradient_magnitude_pipeline(gray: &GrayBuffer) -> (r: (NormalizedImage, bool))
    requires
        gray.wf(),
    ensures
        r.0.wf(),
        gradient_output_ok(*gray, r.0, r.1),
{
    let grad = sobel_magnitudes(gray);
    normalize_u16_to_u8(&grad)
}

/// The ThresholdedMask branch: the external detector's mask is already
/// 8-bit binary, so it passes through with no further transform.
pub fn thresholded_mask_pipeline(mask: NormalizedImage) -> (r: NormalizedImage)
    ensures
        r == mask,
{
    mask
}

/// Mask passthrough keeps the detector's binary domain: when every mask
/// sample is 0 or 255, the branch's output has exactly those samples.
pub proof fn lemma_mask_passthrough(mask: NormalizedImage, out: NormalizedImage)
    requires
        out == mask,
        forall|i: int| 0 <= i < mask.samples@.len() ==> mask.samples@[i] == 0
            || #[trigger] mask.samples@[i] == 255,
    ensures
        out.samples@ == mask.samples@,
        forall|i: int| 0 <= i < out.samples@.len() ==> out.samples@[i] == 0
            || #[trigger] out.samples@[i] == 255,
{
}

/// One pipeline run: dispatch on the method chosen before any pixel
/// processing. The gradient branch runs entirely here; the thresholded
/// detector runs outside (its thresholds are floating point), and its
/// mask arrives as `detector_mask`. Returns None only when that mask is
/// owed and missing.
pub fn run_pipeline(gray: &GrayBuffer, method: EdgeMethod, detector_mask: Option<NormalizedImage>)
    -> (r: Option<(NormalizedImage, bool)>)
    requires
        gray.wf(),
    ensures
        match (method, r) {
            (EdgeMethod::GradientMagnitude, Option::Some(p)) => p.0.wf() && gradient_output_ok(
                *gray,
                p.0,
                p.1,
            ),
            (EdgeMethod::GradientMagnitude, Option::None) => false,
            (EdgeMethod::ThresholdedMask, Option::Some(p)) => detector_mask is Some && p.0
                == detector_mask->Some_0 && p.1 == false,
            (EdgeMethod::ThresholdedMask, Option::None) => detector_mask is None,
        },
{
    match method {
        EdgeMethod::GradientMagnitude => Some(gradient_magnitude_pipeline(gray)),
        EdgeMethod::ThresholdedMask => match detector_mask {
            Option::Some(m) => Some((thresholded_mask_pipeline(m), false)),
            Option::None => None,
        },
    }
}

} // verus!
