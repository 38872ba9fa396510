//! A point on the ellipsoid.

use vstd::prelude::*;
use vstd::std_specs::convert::FromSpecImpl;
use crate::units::{Deg, DMS};

verus! {

/// A point by its latitude and longitude. The latitude is meant to lie in
/// `[-90°, 90°]`; the longitude is free until it is folded.
#[derive(Debug, PartialEq, Eq, Structural, Clone, Copy)]
pub struct LatLng {
    pub lat: Deg,
    pub lng: Deg,
}

impl LatLng {
    /// The point at the given latitude and longitude.
    pub fn new(lat: Deg, lng: Deg) -> (point: Self)
        ensures
            point == (LatLng { lat, lng }),
    {
        LatLng { lat, lng }
    }
}

impl From<(DMS, DMS)> for LatLng {
    /// The point whose latitude and longitude are given in degrees, minutes
    /// and seconds.
    fn from(pair: (DMS, DMS)) -> (point: Self) {
        let lat = pair.0.to_deg();
        let lng = pair.1.to_deg();
        LatLng { lat, lng }
    }
}

impl FromSpecImpl<(DMS, DMS)> for LatLng {
    open spec fn obeys_from_spec() -> bool {
        true
    }

    open spec fn from_spec(pair: (DMS, DMS)) -> Self {
        LatLng { lat: pair.0.spec_to_deg(), lng: pair.1.spec_to_deg() }
    }
}

} // verus!
