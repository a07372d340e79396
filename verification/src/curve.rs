//! The transfer curves, sample by sample: which stretch of the curve a
//! sample falls on, and the values that the stretch's formula is applied to.
//!
//! A curve ends in a division and a multiplication that round; those are
//! the caller's. What is decided here is everything before them: the side
//! of zero that the sample is on, whether it lies beyond the threshold, and
//! the limited value that the formula starts from.
use vstd::prelude::*;
use crate::binary32::{Binary32, ZERO_BITS};

verus! {

/// The stretch of a transfer curve that a sample `x` falls on, with the
/// operands of its formula. `fold` and `gain` are the engine's parameters.
#[derive(Clone, Copy, Debug, PartialEq, Eq, Structural)]
pub enum Segment {
    /// The output is `(starting / bound) * gain`.
    Linear { starting: Binary32, bound: Binary32 },
    /// The sample lies above the upper threshold. The output is
    /// `((starting - (x - threshold) * fold) / threshold) * gain`.
    FoldedAbove { starting: Binary32, threshold: Binary32 },
    /// The sample lies below the negated lower threshold. The output is
    /// `((starting - (x + lower_threshold) * fold) / lower_threshold) * gain`.
    FoldedBelow { starting: Binary32, lower_threshold: Binary32 },
}

impl Segment {
    /// The limited value that the formula starts from.
    pub open spec fn starting(self) -> Binary32 {
        match self {
            Segment::Linear { starting, .. } => starting,
            Segment::FoldedAbove { starting, .. } => starting,
            Segment::FoldedBelow { starting, .. } => starting,
        }
    }

    /// The value that the formula divides by.
    pub open spec fn bound(self) -> Binary32 {
        match self {
            Segment::Linear { bound, .. } => bound,
            Segment::FoldedAbove { threshold, .. } => threshold,
            Segment::FoldedBelow { lower_threshold, .. } => lower_threshold,
        }
    }

    /// Whether the sample lies beyond a threshold, so that the excess is
    /// folded back.
    pub open spec fn clipped(self) -> bool {
        !(self is Linear)
    }
}

/// `x >= 0.0`: true of both zeros, false of a NaN.
pub open spec fn spec_is_positive(x: Binary32) -> bool {
    !x.is_nan() && x.rank() >= 0
}

/// A sample limited to `[-bound, bound]`: the smaller of `x` and `bound`
/// where `x >= 0.0`, else the larger of `x` and `-bound`.
pub open spec fn spec_hard_limit(x: Binary32, bound: Binary32) -> Binary32 {
    if spec_is_positive(x) {
        x.min(bound)
    } else {
        x.max(bound.neg())
    }
}

/// The hard clip's one stretch: the limited sample over the effective
/// threshold.
pub open spec fn spec_simple_segment(x: Binary32, effective_threshold: Binary32) -> Segment {
    Segment::Linear { starting: spec_hard_limit(x, effective_threshold), bound: effective_threshold }
}

/// The stretch of the folding curve that `x` falls on. A sample is clipped
/// only where it lies strictly beyond its side's threshold.
pub open spec fn spec_folding_segment(
    x: Binary32,
    threshold: Binary32,
    lower_threshold: Binary32,
) -> Segment {
    if spec_is_positive(x) {
        if x.gt(threshold) {
            Segment::FoldedAbove { starting: x.min(threshold), threshold }
        } else {
            Segment::Linear { starting: x.min(threshold), bound: threshold }
        }
    } else {
        if x.lt(lower_threshold.neg()) {
            Segment::FoldedBelow { starting: x.max(lower_threshold.neg()), lower_threshold }
        } else {
            Segment::Linear { starting: x.max(lower_threshold.neg()), bound: lower_threshold }
        }
    }
}

/// Whether a value can bound a curve: it is above zero and no NaN, so that
/// a division by it is defined. Positive infinity is such a value.
pub open spec fn is_bound(b: Binary32) -> bool {
    !b.is_nan() && b.rank() > 0
}

/// Whether `x >= 0.0`.
#[verifier::when_used_as_spec(spec_is_positive)]
pub fn is_positive(x: Binary32) -> (r: bool)
    ensures
        r == spec_is_positive(x),
{
    x.ge(Binary32 { bits: ZERO_BITS })
}

/// Limits a sample to `[-bound, bound]`.
///
/// For a `bound` above zero the result is `x` itself where `x` lies within
/// the limits, the limit on `x`'s side where it lies beyond, and `-bound`
/// where `x` is a NaN; it is never a NaN and never beyond the limits.
#[verifier::when_used_as_spec(spec_hard_limit)]
pub fn hard_limit(x: Binary32, bound: Binary32) -> (r: Binary32)
    ensures
        r == spec_hard_limit(x, bound),
        is_bound(bound) ==> {
            &&& !r.is_nan()
            &&& -bound.rank() <= r.rank() <= bound.rank()
            &&& r == if x.is_nan() || x.rank() < -bound.rank() {
                bound.neg()
            } else if x.rank() > bound.rank() {
                bound
            } else {
                x
            }
        },
{
    if is_positive(x) {
        x.min(bound)
    } else {
        x.max(bound.neg())
    }
}

/// The stretch of the hard clip that `x` falls on, for the threshold that
/// the curve is evaluated with. The hard clip has one formula for every
/// sample, so the stretch is always linear.
#[verifier::when_used_as_spec(spec_simple_segment)]
pub fn simple_segment(x: Binary32, effective_threshold: Binary32) -> (r: Segment)
    ensures
        r == spec_simple_segment(x, effective_threshold),
{
    Segment::Linear { starting: hard_limit(x, effective_threshold), bound: effective_threshold }
}

/// The stretch of the folding curve that `x` falls on.
///
/// For thresholds above zero: a sample above `threshold` is folded from
/// `threshold`, one below `-lower_threshold` from `-lower_threshold`; any
/// other sample passes unlimited, over the threshold of its side, and a NaN
/// counts as `-lower_threshold`.
#[verifier::when_used_as_spec(spec_folding_segment)]
pub fn folding_segment(x: Binary32, threshold: Binary32, lower_threshold: Binary32) -> (r: Segment)
    ensures
        r == spec_folding_segment(x, threshold, lower_threshold),
        is_bound(threshold) && is_bound(lower_threshold) ==> r == if x.is_nan() {
            Segment::Linear { starting: lower_threshold.neg(), bound: lower_threshold }
        } else if x.rank() > threshold.rank() {
            Segment::FoldedAbove { starting: threshold, threshold }
        } else if x.rank() >= 0 {
            Segment::Linear { starting: x, bound: threshold }
        } else if x.rank() >= -lower_threshold.rank() {
            Segment::Linear { starting: x, bound: lower_threshold }
        } else {
            Segment::FoldedBelow { starting: lower_threshold.neg(), lower_threshold }
        },
{
    if is_positive(x) {
        let starting = x.min(threshold);
        if x.gt(threshold) {
            Segment::FoldedAbove { starting, threshold }
        } else {
            Segment::Linear { starting, bound: threshold }
        }
    } else {
        let edge = lower_threshold.neg();
        let starting = x.max(edge);
        if x.lt(edge) {
            Segment::FoldedBelow { starting, lower_threshold }
        } else {
            Segment::Linear { starting, bound: lower_threshold }
        }
    }
}

/// The hard clip never starts from a value beyond its bound: whatever the
/// sample, a NaN too, the limited value is no NaN and its magnitude is at
/// most the bound's. So the exact quotient of the two lies in `[-1, 1]`.
pub proof fn lemma_hard_limit_within_bound(x: Binary32, bound: Binary32)
    requires
        is_bound(bound),
    ensures
        !spec_hard_limit(x, bound).is_nan(),
        spec_hard_limit(x, bound).magnitude() <= bound.magnitude(),
        spec_simple_segment(x, bound).starting() == spec_hard_limit(x, bound),
        spec_simple_segment(x, bound).bound() == bound,
{
}

/// A sample within the limits passes the hard clip as it is.
pub proof fn lemma_hard_limit_keeps_inside(x: Binary32, bound: Binary32)
    requires
        is_bound(bound),
        !x.is_nan(),
        x.magnitude() <= bound.magnitude(),
    ensures
        spec_hard_limit(x, bound) == x,
{
}

/// Limiting twice is limiting once.
pub proof fn lemma_hard_limit_is_idempotent(x: Binary32, bound: Binary32)
    requires
        is_bound(bound),
    ensures
        spec_hard_limit(spec_hard_limit(x, bound), bound) == spec_hard_limit(x, bound),
{
}

/// With one threshold for both sides, the folding curve starts from the
/// value that the hard clip starts from when it is evaluated with that
/// threshold itself, and divides by the same bound. Where the sample is
/// not clipped the two stretches are the same.
pub proof fn lemma_folding_starts_as_hard_clip(x: Binary32, threshold: Binary32)
    ensures
        spec_folding_segment(x, threshold, threshold).starting() == spec_simple_segment(
            x,
            threshold,
        ).starting(),
        spec_folding_segment(x, threshold, threshold).bound() == spec_simple_segment(
            x,
            threshold,
        ).bound(),
        !spec_folding_segment(x, threshold, threshold).clipped() ==> spec_folding_segment(
            x,
            threshold,
            threshold,
        ) == spec_simple_segment(x, threshold),
{
}

/// A sample is clipped exactly where it lies strictly beyond a threshold:
/// above the upper one, or below the negated lower one.
pub proof fn lemma_clipped_iff_strictly_beyond(
    x: Binary32,
    threshold: Binary32,
    lower_threshold: Binary32,
)
    requires
        is_bound(threshold),
        is_bound(lower_threshold),
    ensures
        spec_folding_segment(x, threshold, lower_threshold) is FoldedAbove <==> x.gt(threshold),
        spec_folding_segment(x, threshold, lower_threshold) is FoldedBelow <==> x.lt(
            lower_threshold.neg(),
        ),
{
}

/// A sample that equals a threshold is not clipped.
pub proof fn lemma_sample_at_threshold_is_not_clipped(
    threshold: Binary32,
    lower_threshold: Binary32,
)
    requires
        is_bound(threshold),
        is_bound(lower_threshold),
    ensures
        spec_folding_segment(threshold, threshold, lower_threshold) == (Segment::Linear {
            starting: threshold,
            bound: threshold,
        }),
        spec_folding_segment(lower_threshold.neg(), threshold, lower_threshold) == (
        Segment::Linear { starting: lower_threshold.neg(), bound: lower_threshold }),
{
}

/// The least value above a finite threshold is clipped, and so is the
/// greatest value below the negated lower threshold.
pub proof fn lemma_sample_next_to_threshold_is_clipped(
    threshold: Binary32,
    lower_threshold: Binary32,
)
    requires
        is_bound(threshold),
        is_bound(lower_threshold),
        threshold.is_finite(),
        lower_threshold.is_finite(),
    ensures
        spec_folding_segment(
            Binary32 { bits: (threshold.bits + 1) as u32 },
            threshold,
            lower_threshold,
        ) == (Segment::FoldedAbove { starting: threshold, threshold }),
        spec_folding_segment(
            Binary32 { bits: (lower_threshold.neg().bits + 1) as u32 },
            threshold,
            lower_threshold,
        ) == (Segment::FoldedBelow { starting: lower_threshold.neg(), lower_threshold }),
{
}

} // verus!
