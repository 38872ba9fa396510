//! Vincenty's inverse solution: the start of the refinement, the decision
//! after each pass, and the end.

use vstd::prelude::*;
use crate::geodesy::latlng::LatLng;
use crate::geodesy::problems::{Az, Dist, InverseProblem, InverseSolution};
use crate::geodesy::vincenty::MAX_ITERATIONS;
use crate::units::convert::normalized;
use crate::units::{Angle, Deg, FULL_TURN, HALF_TURN};

verus! {

/// How an inverse solution ends.
#[derive(Debug, PartialEq, Eq, Structural, Clone, Copy)]
pub enum GeodeticInverse {
    /// The refinement settled on this solution.
    GeodeticInverse(InverseSolution),
    /// The refinement left the half turn or did not settle, as it does
    /// between points that lie nearly opposite each other.
    GeodeticInverseAntipodal,
    /// The numerical work failed in another way.
    GeodeticInverseAbnormal,
}

/// What one pass over the difference in longitude on the auxiliary sphere
/// found.
#[derive(Debug, PartialEq, Eq, Structural, Clone, Copy)]
pub enum Pass {
    /// The difference is beyond the half turn on either side.
    Beyond,
    /// The pass gave no number.
    Undefined,
    /// The pass gave a solution, and `settled` says whether the difference
    /// changed by less than the tolerance.
    Refined { settled: bool, solution: InverseSolution },
}

/// Where the refinement stands: the difference in longitude that it started
/// from and the passes made so far.
#[derive(Debug, PartialEq, Eq, Structural, Clone, Copy)]
pub struct InverseStep {
    pub l: Deg,
    pub passes: u32,
}

/// What follows a pass, or the start.
#[derive(Debug, PartialEq, Eq, Structural, Clone, Copy)]
pub enum Progress {
    /// Make another pass from this step.
    Refine(InverseStep),
    /// The solution has ended.
    Done(GeodeticInverse),
}

/// The difference in longitude from `x` to `y`: the plain difference where
/// it lies within the half turn on either side, and else the difference of
/// the two longitudes each reduced into `[0°, 360°)`.
pub open spec fn spec_longitude_difference(x: LatLng, y: LatLng) -> int {
    let plain = y.lng.0 - x.lng.0;
    if -HALF_TURN <= plain <= HALF_TURN {
        plain
    } else {
        normalized(y.lng.0 as int) - normalized(x.lng.0 as int)
    }
}

/// The solution between a point and itself: no distance, leaving to the
/// north and arriving from the south.
pub open spec fn coincident() -> InverseSolution {
    InverseSolution {
        s: Dist { dist: 0 },
        az1: Az { az: Deg(0) },
        az2: Some(Az { az: Deg(HALF_TURN) }),
    }
}

/// Where the solution of `prob` starts: at its end between a point and
/// itself, and else at the difference in longitude with no pass made.
pub open spec fn spec_inverse(prob: InverseProblem) -> Progress {
    if prob.x == prob.y {
        Progress::Done(GeodeticInverse::GeodeticInverse(coincident()))
    } else {
        Progress::Refine(
            InverseStep { l: Deg(spec_longitude_difference(prob.x, prob.y) as i128), passes: 0 },
        )
    }
}

/// Where a run of passes leaves the refinement that stands at `step`: it
/// ends with the first pass that ends it, and what is found after that is
/// not looked at.
pub open spec fn spec_run(step: InverseStep, found: Seq<Pass>) -> Progress
    decreases found.len(),
{
    if found.len() == 0 {
        Progress::Refine(step)
    } else {
        match step.spec_iloop(found[0]) {
            Progress::Done(end) => Progress::Done(end),
            Progress::Refine(next) => spec_run(next, found.drop_first()),
        }
    }
}

impl InverseStep {
    /// What follows the pass that found `found`.
    pub open spec fn spec_iloop(self, found: Pass) -> Progress {
        match found {
            Pass::Beyond => Progress::Done(GeodeticInverse::GeodeticInverseAntipodal),
            Pass::Undefined => Progress::Done(GeodeticInverse::GeodeticInverseAbnormal),
            Pass::Refined { settled, solution } => if settled {
                Progress::Done(GeodeticInverse::GeodeticInverse(solution))
            } else if self.passes + 1 >= MAX_ITERATIONS {
                Progress::Done(GeodeticInverse::GeodeticInverseAntipodal)
            } else {
                Progress::Refine(InverseStep { l: self.l, passes: (self.passes + 1) as u32 })
            },
        }
    }

    /// Decides what follows one pass. A difference beyond the half turn ends
    /// the solution as antipodal before anything else is looked at; a
    /// settled pass ends it with the solution of that pass; and after
    /// `MAX_ITERATIONS` passes that did not settle it ends as antipodal too.
    pub fn iloop(&self, found: Pass) -> (next: Progress)
        ensures
            next == self.spec_iloop(found),
    {
        match found {
            Pass::Beyond => Progress::Done(GeodeticInverse::GeodeticInverseAntipodal),
            Pass::Undefined => Progress::Done(GeodeticInverse::GeodeticInverseAbnormal),
            Pass::Refined { settled, solution } => {
                if settled {
                    Progress::Done(GeodeticInverse::GeodeticInverse(solution))
                } else if self.passes >= MAX_ITERATIONS - 1 {
                    Progress::Done(GeodeticInverse::GeodeticInverseAntipodal)
                } else {
                    Progress::Refine(InverseStep { l: self.l, passes: self.passes + 1 })
                }
            },
        }
    }
}

/// A run of passes that is long enough ends the solution: the refinement
/// never goes on for more than `MAX_ITERATIONS` passes.
pub proof fn lemma_run_ends(step: InverseStep, found: Seq<Pass>)
    requires
        found.len() >= 1,
        step.passes + found.len() >= MAX_ITERATIONS,
    ensures
        spec_run(step, found) is Done,
    decreases found.len(),
{
    match step.spec_iloop(found[0]) {
        Progress::Done(_) => {},
        Progress::Refine(next) => {
            assert(found.drop_first().len() == found.len() - 1);
            lemma_run_ends(next, found.drop_first());
        },
    }
}

/// The difference in longitude from `y` back to `x` is that from `x` to `y`
/// with the other sign.
pub proof fn lemma_longitude_difference_reverses(x: LatLng, y: LatLng)
    ensures
        spec_longitude_difference(y, x) == -spec_longitude_difference(x, y),
{
}

/// A longitude reduced by whole turns into `[0°, 360°)`.
pub fn normalize_lng(lng: Deg) -> (turned: Deg)
    ensures
        turned.0 == normalized(lng.0 as int),
{
    lng.normalize()
}

/// Starts the inverse solution. Between a point and itself there is nothing
/// to refine: the solution is no distance, leaving on 0° and arriving on
/// 180°, whatever the ellipsoid. Between two points the refinement starts
/// from their difference in longitude, taken across the antimeridian where
/// that is the shorter way, with no pass made.
pub fn inverse(p: &InverseProblem) -> (start: Progress)
    ensures
        start == spec_inverse(*p),
        p.x == p.y ==> start == Progress::Done(GeodeticInverse::GeodeticInverse(coincident())),
        p.x != p.y ==> start is Refine && start->Refine_0.passes == 0 && start->Refine_0.l.0
            == spec_longitude_difference(p.x, p.y),
        start is Refine ==> -FULL_TURN < start->Refine_0.l.0 < FULL_TURN,
{
    if p.x == p.y {
        return Progress::Done(
            GeodeticInverse::GeodeticInverse(
                InverseSolution {
                    s: Dist { dist: 0 },
                    az1: Az { az: Deg(0) },
                    az2: Some(Az { az: Deg(HALF_TURN) }),
                },
            ),
        );
    }
    let l1 = p.x.lng.0;
    let l2 = p.y.lng.0;
    let l = match l2.checked_sub(l1) {
        Some(l_prime) if -HALF_TURN <= l_prime && l_prime <= HALF_TURN => l_prime,
        _ => normalize_lng(p.y.lng).0 - normalize_lng(p.x.lng).0,
    };
    Progress::Refine(InverseStep { l: Deg(l), passes: 0 })
}

/// Starts the solution of an inverse problem as `inverse` does, with
/// nothing asked of the two points.
pub fn distance_unchecked(prob: &InverseProblem) -> (start: Progress)
    ensures
        start == spec_inverse(*prob),
        prob.x == prob.y ==> start == Progress::Done(
            GeodeticInverse::GeodeticInverse(coincident()),
        ),
{
    inverse(prob)
}

/// The distance of a solution that has ended. The two ways of ending
/// without a solution give the same error.
pub fn distance(end: GeodeticInverse) -> (found: Result<Dist, String>)
    ensures
        end is GeodeticInverse ==> found == Ok::<Dist, String>(end->GeodeticInverse_0.s),
        !(end is GeodeticInverse) ==> found is Err && found->Err_0@
            == "Distance calculation failed"@,
{
    match end {
        GeodeticInverse::GeodeticInverse(solution) => Ok(solution.s),
        _ => Err("Distance calculation failed".to_string()),
    }
}

} // verus!
