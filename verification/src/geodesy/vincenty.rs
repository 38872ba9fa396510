//! Vincenty's direct solution: the check of the problem before the numerical
//! work, and the bound on the refinement of the angular distance.

use vstd::prelude::*;
use crate::geodesy::latlng::LatLng;
use crate::geodesy::problems::{Az, DirectProblem};
use crate::units::convert::{
    folded, in_quarter_turn, is_plus_minus_half_pi_deg, lemma_folded_range, lemma_folded_twice,
    lemma_normalized_twice, normalized, plus_minus_pi_deg,
};
use crate::units::{Angle, Deg, FULL_TURN, HALF_TURN};

verus! {

/// The number of refinements after which a solution that has not settled is
/// given up.
pub const MAX_ITERATIONS: u32 = 200;

/// Why a direct problem has no solution.
#[derive(Debug, PartialEq, Eq, Structural, Clone, Copy)]
pub enum DirectError {
    /// The latitude of the start point, which does not fold into
    /// `[-90°, 90°]`.
    OutOfRange(Deg),
    /// The angular distance did not settle within `MAX_ITERATIONS`
    /// refinements.
    NonConvergent,
}

/// What follows a refinement.
#[derive(Debug, PartialEq, Eq, Structural, Clone, Copy)]
pub enum Iteration {
    /// The value has settled: it is the result.
    Converged,
    /// Refine again; the count of refinements made so far is handed on.
    Again(u32),
    /// `MAX_ITERATIONS` refinements were made and the value has not settled.
    NonConvergent,
}

/// What follows the refinement after `passes` earlier ones, where `settled`
/// says whether the value changed by less than the tolerance.
pub open spec fn spec_iterate(passes: u32, settled: bool) -> Iteration {
    if settled {
        Iteration::Converged
    } else if passes + 1 >= MAX_ITERATIONS {
        Iteration::NonConvergent
    } else {
        Iteration::Again((passes + 1) as u32)
    }
}

/// Where a run of refinements leaves the count that stands at `passes`: it
/// ends with the first refinement that ends it, and what `settled` holds
/// after that is not looked at.
pub open spec fn spec_iterations(passes: u32, settled: Seq<bool>) -> Iteration
    decreases settled.len(),
{
    if settled.len() == 0 {
        Iteration::Again(passes)
    } else {
        match spec_iterate(passes, settled[0]) {
            Iteration::Again(made) => spec_iterations(made, settled.drop_first()),
            end => end,
        }
    }
}

/// A run of refinements that is long enough ends: the angular distance is
/// never refined more than `MAX_ITERATIONS` times.
pub proof fn lemma_iterations_end(passes: u32, settled: Seq<bool>)
    requires
        settled.len() >= 1,
        passes + settled.len() >= MAX_ITERATIONS,
    ensures
        !(spec_iterations(passes, settled) is Again),
    decreases settled.len(),
{
    match spec_iterate(passes, settled[0]) {
        Iteration::Again(made) => {
            assert(settled.drop_first().len() == settled.len() - 1);
            lemma_iterations_end(made, settled.drop_first());
        },
        _ => {},
    }
}

/// The problem as the solution takes it: the latitude and the longitude of
/// the start point folded, the bearing reduced into `[0°, 360°)`, the
/// distance as it is. A latitude that does not fold into `[-90°, 90°]` is
/// refused and handed back.
pub open spec fn spec_prepare_direct(p: DirectProblem) -> Result<DirectProblem, DirectError> {
    let lat = folded(p.x.lat.0 as int);
    if in_quarter_turn(lat) {
        Ok(
            DirectProblem {
                x: LatLng { lat: Deg(lat as i128), lng: Deg(folded(p.x.lng.0 as int) as i128) },
                az1: Az { az: Deg(normalized(p.az1.az.0 as int) as i128) },
                s: p.s,
            },
        )
    } else {
        Err(DirectError::OutOfRange(p.x.lat))
    }
}

/// Decides what follows one refinement of the angular distance: the value
/// stands once it has settled, and the refinement is given up after
/// `MAX_ITERATIONS` passes.
pub fn iterate_angular_distance(passes: u32, settled: bool) -> (next: Iteration)
    ensures
        next == spec_iterate(passes, settled),
{
    if settled {
        Iteration::Converged
    } else if passes >= MAX_ITERATIONS - 1 {
        Iteration::NonConvergent
    } else {
        Iteration::Again(passes + 1)
    }
}

/// Checks a direct problem and brings it into the ranges that the solution
/// works in. The latitude is never wrapped: one outside `[-90°, 90°]` after
/// folding ends the solution.
pub fn prepare_direct(p: &DirectProblem) -> (prepared: Result<DirectProblem, DirectError>)
    ensures
        prepared == spec_prepare_direct(*p),
        prepared is Ok <==> in_quarter_turn(folded(p.x.lat.0 as int)),
        prepared matches Ok(n) ==> {
            &&& in_quarter_turn(n.x.lat.0 as int)
            &&& -HALF_TURN < n.x.lng.0 <= HALF_TURN
            &&& 0 <= n.az1.az.0 < FULL_TURN
            &&& n.s == p.s
        },
{
    match is_plus_minus_half_pi_deg(p.x.lat) {
        None => Err(DirectError::OutOfRange(p.x.lat)),
        Some(n_lat) => {
            let n_lng = plus_minus_pi_deg(p.x.lng);
            let n_x = LatLng { lat: n_lat, lng: n_lng };
            let n_az = Az { az: p.az1.az.normalize() };
            Ok(DirectProblem { x: n_x, az1: n_az, s: p.s })
        },
    }
}

/// A problem that has been brought into range is in range: preparing it
/// again changes nothing.
pub proof fn lemma_prepare_direct_twice(p: DirectProblem)
    requires
        spec_prepare_direct(p) is Ok,
    ensures
        spec_prepare_direct(spec_prepare_direct(p)->Ok_0) == spec_prepare_direct(p),
{
    lemma_folded_twice(p.x.lat.0 as int);
    lemma_folded_twice(p.x.lng.0 as int);
    lemma_normalized_twice(p.az1.az.0 as int);
    lemma_folded_range(p.x.lat.0 as int);
    lemma_folded_range(p.x.lng.0 as int);
}

} // verus!
