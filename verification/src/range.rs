//! The range scanner: one linear pass over a gradient buffer folding
//! (min, max) from the seed (`u16::MAX`, 0).

use vstd::prelude::*;
use crate::buffer::GradientBuffer;

verus! {

/// The dynamic range of a gradient buffer: `min <= max` whenever the
/// pair was scanned from a non-empty buffer; equality is the degenerate
/// (all samples equal) case.
#[derive(Clone, Copy, Debug, PartialEq, Eq, Structural)]
pub struct ValueRange {
    pub min: u16,
    pub max: u16,
}

/// The minimum of a sample sequence, folded with seed `u16::MAX`.
pub open spec fn seq_min_v(s: Seq<u16>) -> u16
    decreases s.len(),
{
    if s.len() == 0 {
        u16::MAX
    } else {
        let rest = seq_min_v(s.drop_last());
        if s.last() < rest {
            s.last()
        } else {
            rest
        }
    }
}

/// The maximum of a sample sequence, folded with seed 0.
pub open spec fn seq_max_v(s: Seq<u16>) -> u16
    decreases s.len(),
{
    if s.len() == 0 {
        0u16
    } else {
        let rest = seq_max_v(s.drop_last());
        if s.last() > rest {
            s.last()
        } else {
            rest
        }
    }
}

/// Range correctness: over any non-empty sample sequence, the folded
/// minimum is a lower bound and the folded maximum an upper bound, and
/// each is attained by at least one sample.
pub proof fn lemma_range_correctness(s: Seq<u16>)
    requires
        s.len() > 0,
    ensures
        forall|i: int| 0 <= i < s.len() ==> seq_min_v(s) <= #[trigger] s[i],
        forall|i: int| 0 <= i < s.len() ==> #[trigger] s[i] <= seq_max_v(s),
        exists|i: int| 0 <= i < s.len() && s[i] == seq_min_v(s),
        exists|i: int| 0 <= i < s.len() && s[i] == seq_max_v(s),
        seq_min_v(s) <= seq_max_v(s),
    decreases s.len(),
{
    let rest = s.drop_last();
    if s.len() == 1 {
        assert(rest.len() == 0);
        assert(s[0] == s.last());
        assert(s[0] == seq_min_v(s));
        assert(s[0] == seq_max_v(s));
    } else {
        lemma_range_correctness(rest);
        assert forall|i: int| 0 <= i < s.len() implies seq_min_v(s) <= #[trigger] s[i] && s[i]
            <= seq_max_v(s) by {
            if i < s.len() - 1 {
                assert(s[i] == rest[i]);
            } else {
                assert(s[i] == s.last());
            }
        }
        let im = choose|i: int| 0 <= i < rest.len() && rest[i] == seq_min_v(rest);
        if s.last() < seq_min_v(rest) {
            assert(s[s.len() - 1] == seq_min_v(s));
        } else {
            assert(s[im] == seq_min_v(s));
        }
        let ix = choose|i: int| 0 <= i < rest.len() && rest[i] == seq_max_v(rest);
        if s.last() > seq_max_v(rest) {
            assert(s[s.len() - 1] == seq_max_v(s));
        } else {
            assert(s[ix] == seq_max_v(s));
        }
    }
}

/// Degenerate range: when every sample equals `v`, both fold results
/// equal `v`.
pub proof fn lemma_degenerate_range(s: Seq<u16>, v: u16)
    requires
        s.len() > 0,
        forall|i: int| 0 <= i < s.len() ==> #[trigger] s[i] == v,
    ensures
        seq_min_v(s) == v,
        seq_max_v(s) == v,
{
    lemma_range_correctness(s);
    let im = choose|i: int| 0 <= i < s.len() && s[i] == seq_min_v(s);
    assert(s[im] == v);
    let ix = choose|i: int| 0 <= i < s.len() && s[i] == seq_max_v(s);
    assert(s[ix] == v);
}

/// Scans the dynamic range of a gradient buffer in one pass, folding
/// (min, max) from the seed (`u16::MAX`, 0). Total over any well-formed
/// buffer; a single-pixel buffer yields the valid degenerate range.
pub fn scan_range(buffer: &GradientBuffer) -> (r: ValueRange)
    requires
        buffer.wf(),
    ensures
        r.min == seq_min_v(buffer.samples@),
        r.max == seq_max_v(buffer.samples@),
        r.min <= r.max,
{
    let n: usize = buffer.samples.len();
    proof {
        assert((buffer.width as int) * (buffer.height as int) > 0) by (nonlinear_arith)
            requires
                buffer.width > 0,
                buffer.height > 0,
        ;
    }
    let mut mn: u16 = u16::MAX;
    let mut mx: u16 = 0;
    let mut i: usize = 0;
    while i < n
        invariant
            n == buffer.samples@.len(),
            i <= n,
            mn == seq_min_v(buffer.samples@.take(i as int)),
            mx == seq_max_v(buffer.samples@.take(i as int)),
        decreases n - i,
    {
        let v: u16 = buffer.samples[i];
        proof {
            let s = buffer.samples@;
            assert(s.take(i + 1).drop_last() =~= s.take(i as int));
            assert(s.take(i + 1).last() == s[i as int]);
        }
        if v < mn {
            mn = v;
        }
        if v > mx {
            mx = v;
        }
        i += 1;
    }
    proof {
        assert(buffer.samples@.take(n as int) =~= buffer.samples@);
        lemma_range_correctness(buffer.samples@);
    }
    ValueRange { min: mn, max: mx }
}

} // verus!
