//! The controller of the iterative inverse transform. The caller keeps a
//! box around the sought point, evaluates the forward transform at its
//! midpoint, and hands the residual (image minus midpoint, on each axis)
//! to `Search::step`, which says whether the midpoint is the answer, which
//! bound of each axis moves to the midpoint, or that the search gave up.
use vstd::prelude::*;
use crate::ieee::{INFINITY, MAGNITUDE_MASK, SIGN_BIT, less, magnitude};

verus! {

/// Bit pattern of the double nearest 1 / 10^10 degrees: a residual whose
/// magnitude lies below it counts as zero.
pub const TOLERANCE: u64 = 0x3ddb_7cdf_d9d7_bdbb;

/// Bit pattern of positive zero.
pub const ZERO: u64 = 0;

/// The most residuals that one search evaluates. Each narrowing halves the
/// box, so a box of any width collapses to adjacent doubles well before.
pub const MAX_ITERATIONS: u32 = 100;

/// The bound of an axis that moves to the midpoint.
#[derive(Clone, Copy, Debug, PartialEq, Eq, Structural)]
pub enum Side {
    /// The lower bound moves up: the residual was zero or negative.
    Lower,
    /// The upper bound moves down: the residual was positive.
    Upper,
}

/// What the caller does after an evaluation.
#[derive(Clone, Copy, Debug, PartialEq, Eq, Structural)]
pub enum Step {
    /// Both residuals are within the tolerance: the midpoint is the answer.
    Converged,
    /// Halve the box by moving these bounds to the midpoint, and evaluate again.
    Narrow { lon: Side, lat: Side },
    /// The evaluations are spent without convergence.
    Exhausted,
}

/// `|d| < TOLERANCE` for the residual with bit pattern `d`.
pub open spec fn within_tolerance(d: u64) -> bool {
    less(magnitude(d), TOLERANCE)
}

/// The bound that a residual with bit pattern `d` moves: the upper one
/// where `d > 0`, else the lower one (also for a NaN).
pub open spec fn side_for(d: u64) -> Side {
    if less(ZERO, d) {
        Side::Upper
    } else {
        Side::Lower
    }
}

/// The decision after `narrowed` narrowing steps on residuals `dlon` and
/// `dlat`, with the count of narrowing steps after it.
pub open spec fn decide(narrowed: nat, dlon: u64, dlat: u64) -> (nat, Step) {
    if within_tolerance(dlon) && within_tolerance(dlat) {
        (narrowed, Step::Converged)
    } else if narrowed + 1 >= MAX_ITERATIONS {
        (narrowed, Step::Exhausted)
    } else {
        (narrowed + 1, Step::Narrow { lon: side_for(dlon), lat: side_for(dlat) })
    }
}

/// Whether the residual with bit pattern `d` is within the tolerance.
pub fn settled(d: u64) -> (r: bool)
    ensures
        r == within_tolerance(d),
{
    assert(TOLERANCE & MAGNITUDE_MASK == TOLERANCE) by (bit_vector);
    let m = d & MAGNITUDE_MASK;
    assert(m < SIGN_BIT) by (bit_vector)
        requires
            m == d & MAGNITUDE_MASK,
    ;
    assert(m & MAGNITUDE_MASK == m) by (bit_vector)
        requires
            m == d & MAGNITUDE_MASK,
    ;
    m < TOLERANCE
}

/// Which bound the residual with bit pattern `d` moves.
pub fn side_of(d: u64) -> (r: Side)
    ensures
        r == side_for(d),
{
    assert(ZERO & MAGNITUDE_MASK == 0) by (bit_vector);
    assert(d < SIGN_BIT ==> d & MAGNITUDE_MASK == d) by (bit_vector);
    assert(d >= SIGN_BIT ==> d & MAGNITUDE_MASK < SIGN_BIT) by (bit_vector);
    if 0 < d && d <= INFINITY {
        Side::Upper
    } else {
        Side::Lower
    }
}

/// The state of one search: how many times the box was halved.
pub struct Search {
    pub narrowed: u32,
}

impl Search {
    /// The count stays below the cap, so that one more evaluation is allowed.
    pub open spec fn wf(&self) -> bool {
        self.narrowed < MAX_ITERATIONS
    }

    /// A search whose box has not been narrowed yet.
    pub fn new() -> (s: Search)
        ensures
            s.narrowed == 0,
            s.wf(),
    {
        Search { narrowed: 0 }
    }

    /// Takes the residuals at the current midpoint and says what to do next.
    pub fn step(&mut self, dlon: u64, dlat: u64) -> (r: Step)
        requires
            old(self).wf(),
        ensures
            final(self).wf(),
            (final(self).narrowed as nat, r) == decide(old(self).narrowed as nat, dlon, dlat),
    {
        if settled(dlon) && settled(dlat) {
            Step::Converged
        } else if self.narrowed + 1 >= MAX_ITERATIONS {
            Step::Exhausted
        } else {
            self.narrowed = self.narrowed + 1;
            Step::Narrow { lon: side_of(dlon), lat: side_of(dlat) }
        }
    }
}

/// How many evaluations a search with `narrowed` narrowing steps behind it
/// makes before it stops, when the residuals come in the order of
/// `residuals`; `None` where they run out first.
pub open spec fn evaluations(narrowed: nat, residuals: Seq<(u64, u64)>) -> Option<nat>
    decreases residuals.len(),
{
    if residuals.len() == 0 {
        None
    } else {
        let (n, s) = decide(narrowed, residuals[0].0, residuals[0].1);
        match s {
            Step::Narrow { .. } => match evaluations(n, residuals.drop_first()) {
                Some(k) => Some(k + 1),
                None => None,
            },
            _ => Some(1),
        }
    }
}

/// Whatever residuals the forward transform reports, a search that has
/// halved its box `narrowed` times stops within the evaluations left
/// below the cap.
pub proof fn lemma_stops_within(narrowed: nat, residuals: Seq<(u64, u64)>)
    requires
        narrowed < MAX_ITERATIONS,
        residuals.len() + narrowed >= MAX_ITERATIONS,
    ensures
        evaluations(narrowed, residuals) matches Some(k) && 1 <= k <= MAX_ITERATIONS - narrowed,
    decreases residuals.len(),
{
    let (n, s) = decide(narrowed, residuals[0].0, residuals[0].1);
    if s is Narrow {
        lemma_stops_within(n, residuals.drop_first());
    }
}

/// Termination of the inverse transform: whatever residuals the forward
/// transform reports, a new search stops after at most `MAX_ITERATIONS`
/// evaluations.
pub proof fn lemma_search_terminates(residuals: Seq<(u64, u64)>)
    requires
        residuals.len() >= MAX_ITERATIONS,
    ensures
        evaluations(0, residuals) matches Some(k) && 1 <= k <= MAX_ITERATIONS,
{
    lemma_stops_within(0, residuals);
}

} // verus!
