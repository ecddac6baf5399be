//! The normalizer: a per-pixel affine remap of a gradient buffer into
//! the 8-bit display range, with the degenerate all-equal range mapped
//! to an all-zero image plus a caller-visible notice.

use vstd::prelude::*;
use vstd::arithmetic::div_mod::lemma_div_is_ordered;
use crate::buffer::GradientBuffer;
use crate::buffer::NormalizedImage;
use crate::range::ValueRange;
use crate::range::lemma_range_correctness;
use crate::range::seq_max_v;
use crate::range::seq_min_v;

verus! {

/// The per-pixel affine remap into [0, 255]: a degenerate range maps to
/// 0; otherwise `(v - min) * 255 / (max - min)`, truncated toward zero
/// (integer division), never rounded to nearest.
pub open spec fn remap(v: u16, min: u16, max: u16) -> int {
    if min == max {
        0
    } else {
        (v - min) * 255 / (max - min)
    }
}

/// Degenerate mapping: when every sample of a non-empty sequence equals
/// `v`, the scanned range is (v, v) and every sample remaps to exactly 0.
pub proof fn lemma_degenerate_mapping(s: Seq<u16>, v: u16)
    requires
        s.len() > 0,
        forall|i: int| 0 <= i < s.len() ==> #[trigger] s[i] == v,
    ensures
        seq_min_v(s) == seq_max_v(s),
        forall|i: int| 0 <= i < s.len() ==> remap(#[trigger] s[i], seq_min_v(s), seq_max_v(s))
            == 0,
{
    crate::range::lemma_degenerate_range(s, v);
}

/// Boundary mapping: over a non-degenerate sequence, any sample equal to
/// the scanned minimum remaps to 0 and any sample equal to the scanned
/// maximum remaps to 255.
pub proof fn lemma_boundary_mapping(s: Seq<u16>, i: int)
    requires
        s.len() > 0,
        seq_min_v(s) != seq_max_v(s),
        0 <= i < s.len(),
    ensures
        s[i] == seq_min_v(s) ==> remap(s[i], seq_min_v(s), seq_max_v(s)) == 0,
        s[i] == seq_max_v(s) ==> remap(s[i], seq_min_v(s), seq_max_v(s)) == 255,
{
    lemma_range_correctness(s);
    let mn = seq_min_v(s) as int;
    let mx = seq_max_v(s) as int;
    assert((mx - mn) * 255 / (mx - mn) == 255) by (nonlinear_arith)
        requires
            mx - mn > 0,
    ;
}

/// Monotonicity: over a non-degenerate sequence, a sample at least as
/// large as another remaps to a value at least as large.
pub proof fn lemma_monotonicity(s: Seq<u16>, a: int, b: int)
    requires
        s.len() > 0,
        seq_min_v(s) != seq_max_v(s),
        0 <= a < s.len(),
        0 <= b < s.len(),
        s[a] >= s[b],
    ensures
        remap(s[a], seq_min_v(s), seq_max_v(s)) >= remap(s[b], seq_min_v(s), seq_max_v(s)),
{
    lemma_range_correctness(s);
    let mn = seq_min_v(s) as int;
    let mx = seq_max_v(s) as int;
    lemma_div_is_ordered((s[b] - mn) * 255, (s[a] - mn) * 255, mx - mn);
}

/// Maps a gradient buffer into an 8-bit image using the range scanned
/// from that same buffer (the caller must pass exactly that range).
/// Every output sample is the truncating affine remap of the input
/// sample; the returned flag signals the degenerate-range notice, on
/// which the whole output is zero.
pub fn normalize(buffer: &GradientBuffer, bounds: &ValueRange) -> (r: (NormalizedImage, bool))
    requires
        buffer.wf(),
        bounds.min == seq_min_v(buffer.samples@),
        bounds.max == seq_max_v(buffer.samples@),
    ensures
        r.0.wf(),
        r.0.width == buffer.width,
        r.0.height == buffer.height,
        r.0.samples@.len() == buffer.samples@.len(),
        forall|i: int| 0 <= i < buffer.samples@.len() ==> r.0.samples@[i] == remap(
            #[trigger] buffer.samples@[i],
            bounds.min,
            bounds.max,
        ),
        r.1 == (bounds.min == bounds.max),
{
    let n: usize = buffer.samples.len();
    proof {
        assert((buffer.width as int) * (buffer.height as int) > 0) by (nonlinear_arith)
            requires
                buffer.width > 0,
                buffer.height > 0,
        ;
        lemma_range_correctness(buffer.samples@);
    }
    let degenerate: bool = bounds.min == bounds.max;
    let mut out: Vec<u8> = Vec::new();
    let mut i: usize = 0;
    while i < n
        invariant
            n == buffer.samples@.len(),
            i <= n,
            out@.len() == i as int,
            bounds.min == seq_min_v(buffer.samples@),
            bounds.max == seq_max_v(buffer.samples@),
            forall|j: int| 0 <= j < n ==> bounds.min <= #[trigger] buffer.samples@[j]
                <= bounds.max,
            forall|j: int| 0 <= j < i as int ==> out@[j] == remap(
                #[trigger] buffer.samples@[j],
                bounds.min,
                bounds.max,
            ),
        decreases n - i,
    {
        let v: u16 = buffer.samples[i];
        let pix: u8 = if bounds.max > bounds.min {
            let d: u32 = (v - bounds.min) as u32;
            let den: u32 = (bounds.max - bounds.min) as u32;
            let q: u32 = (d * 255) / den;
            proof {
                lemma_div_is_ordered((d * 255) as int, (den * 255) as int, den as int);
                assert((den as int) * 255 / (den as int) == 255) by (nonlinear_arith)
                    requires
                        den > 0,
                ;
            }
            q as u8
        } else {
            0
        };
        out.push(pix);
        i += 1;
    }
    let img = NormalizedImage { width: buffer.width, height: buffer.height, samples: out };
    (img, degenerate)
}

/// Scans a gradient buffer's range and normalizes it in one step: every
/// output sample is the truncating affine remap under the buffer's own
/// scanned (min, max); the flag signals the degenerate-range notice.
pub fn normalize_u16_to_u8(buffer: &GradientBuffer) -> (r: (NormalizedImage, bool))
    requires
        buffer.wf(),
    ensures
        r.0.wf(),
        r.0.width == buffer.width,
        r.0.height == buffer.height,
        r.0.samples@.len() == buffer.samples@.len(),
        forall|i: int| 0 <= i < buffer.samples@.len() ==> r.0.samples@[i] == remap(
            #[trigger] buffer.samples@[i],
            seq_min_v(buffer.samples@),
            seq_max_v(buffer.samples@),
        ),
        r.1 == (seq_min_v(buffer.samples@) == seq_max_v(buffer.samples@)),
{
    let bounds = crate::range::scan_range(buffer);
    normalize(buffer, &bounds)
}

} // verus!
