//! The records that a caller and a solution exchange.

use vstd::prelude::*;
use crate::geodesy::latlng::LatLng;
use crate::units::Deg;

verus! {

/// Micrometres in one metre: a distance is held as a whole number of
/// micrometres.
pub const MICROMETERS_PER_METER: i64 = 1_000_000;

/// A compass bearing, clockwise from north. It is kept as it was given and
/// reduced into `[0°, 360°)` only where a comparison needs that.
#[derive(Debug, PartialEq, Eq, Structural, Clone, Copy)]
pub struct Az {
    pub az: Deg,
}

/// A distance along the ellipsoid, in micrometres.
#[derive(Debug, PartialEq, Eq, Structural, Clone, Copy)]
pub struct Dist {
    pub dist: i64,
}

/// Where a geodesic of a given length that leaves a point on a given bearing
/// ends.
#[derive(Debug, PartialEq, Eq, Structural, Clone, Copy)]
pub struct DirectProblem {
    pub x: LatLng,
    pub az1: Az,
    pub s: Dist,
}

/// How long the geodesic between two points is, and on which bearings it
/// leaves the one and reaches the other.
#[derive(Debug, PartialEq, Eq, Structural, Clone, Copy)]
pub struct InverseProblem {
    pub x: LatLng,
    pub y: LatLng,
}

/// The end point of a geodesic and the bearing on which it arrives, where
/// there is one.
#[derive(Debug, PartialEq, Eq, Structural, Clone, Copy)]
pub struct DirectSolution {
    pub y: LatLng,
    pub az2: Option<Az>,
}

/// The length of a geodesic, the bearing on which it leaves and the bearing
/// on which it arrives, where there is one.
#[derive(Debug, PartialEq, Eq, Structural, Clone, Copy)]
pub struct InverseSolution {
    pub s: Dist,
    pub az1: Az,
    pub az2: Option<Az>,
}

} // verus!
