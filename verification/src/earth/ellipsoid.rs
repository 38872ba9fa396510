//! Ellipsoids of revolution by their equatorial radius and the reciprocal of
//! their flattening, and what is derived from the two.

use vstd::prelude::*;
use crate::units::{Meter, Radius};

verus! {

/// Units in a reciprocal flattening of one: the reciprocal is held as a whole
/// number of hundred thousand millionths.
pub const UNITS_PER_RECIPROCAL: i64 = 100_000_000_000;

/// An ellipsoid of revolution. Nothing is asked of the two values.
#[derive(Debug, PartialEq, Eq, Structural, Clone, Copy)]
pub struct Ellipsoid {
    pub equatorial_r: Radius,
    pub recip_f: i64,
}

/// A quotient that is stated and not carried out, so that a divisor of zero
/// is no fault here: it is left to whoever carries the division out.
#[derive(Debug, PartialEq, Eq, Structural, Clone, Copy)]
pub struct Ratio {
    pub num: i128,
    pub den: i128,
}

/// The flattening of the ellipsoid: one over the reciprocal that the
/// ellipsoid holds.
pub fn flattening(e: &Ellipsoid) -> (f: Ratio)
    ensures
        f == (Ratio { num: UNITS_PER_RECIPROCAL as i128, den: e.recip_f as i128 }),
{
    Ratio { num: UNITS_PER_RECIPROCAL as i128, den: e.recip_f as i128 }
}

/// The polar radius of the ellipsoid in micrometres: the equatorial radius
/// less its product with the flattening, as one quotient over the
/// reciprocal of the flattening.
pub fn polar_r(e: &Ellipsoid) -> (b: Ratio)
    ensures
        b.num == e.equatorial_r.0.0 * (e.recip_f - UNITS_PER_RECIPROCAL),
        b.den == e.recip_f,
{
    let a: i128 = e.equatorial_r.0.0 as i128;
    let over_one: i128 = e.recip_f as i128 - UNITS_PER_RECIPROCAL as i128;
    assert(-9_223_372_036_854_775_808 * 9_223_372_136_854_775_808 <= a * over_one
        <= 9_223_372_036_854_775_808 * 9_223_372_136_854_775_808) by (nonlinear_arith)
        requires
            -9_223_372_036_854_775_808 <= a <= 9_223_372_036_854_775_808,
            -9_223_372_136_854_775_808 <= over_one <= 9_223_372_136_854_775_808,
    ;
    Ratio { num: a * over_one, den: e.recip_f as i128 }
}

/// The World Geodetic System of 1984.
pub open spec fn spec_wgs84() -> Ellipsoid {
    Ellipsoid { equatorial_r: Radius(Meter(6_378_137_000_000)), recip_f: 29_825_722_356_300 }
}

/// The World Geodetic System of 1984.
#[verifier::when_used_as_spec(spec_wgs84)]
pub fn wgs84() -> (e: Ellipsoid)
    ensures
        e == spec_wgs84(),
{
    Ellipsoid { equatorial_r: Radius(Meter(6_378_137_000_000)), recip_f: 29_825_722_356_300 }
}

/// The North American Datum of 1983: the ellipsoid of `wgs84` with the
/// flattening of the Geodetic Reference System of 1980.
pub open spec fn spec_nad83() -> Ellipsoid {
    Ellipsoid { recip_f: 29_825_722_210_088, ..wgs84() }
}

/// The North American Datum of 1983: the ellipsoid of `wgs84` with the
/// flattening of the Geodetic Reference System of 1980.
#[verifier::when_used_as_spec(spec_nad83)]
pub fn nad83() -> (e: Ellipsoid)
    ensures
        e == spec_nad83(),
{
    Ellipsoid { recip_f: 29_825_722_210_088, ..wgs84() }
}

/// Bessel's ellipsoid of 1841, with the flattening that Vincenty used.
pub open spec fn spec_bessel() -> Ellipsoid {
    Ellipsoid { equatorial_r: Radius(Meter(6_377_397_155_000)), recip_f: 29_915_281_280_000 }
}

/// Bessel's ellipsoid of 1841, with the flattening that Vincenty used.
#[verifier::when_used_as_spec(spec_bessel)]
pub fn bessel() -> (e: Ellipsoid)
    ensures
        e == spec_bessel(),
{
    Ellipsoid { equatorial_r: Radius(Meter(6_377_397_155_000)), recip_f: 29_915_281_280_000 }
}

/// The International ellipsoid of 1924, also known as Hayford's.
pub open spec fn spec_hayford() -> Ellipsoid {
    Ellipsoid { equatorial_r: Radius(Meter(6_378_388_000_000)), recip_f: 29_700_000_000_000 }
}

/// The International ellipsoid of 1924, also known as Hayford's.
#[verifier::when_used_as_spec(spec_hayford)]
pub fn hayford() -> (e: Ellipsoid)
    ensures
        e == spec_hayford(),
{
    Ellipsoid { equatorial_r: Radius(Meter(6_378_388_000_000)), recip_f: 29_700_000_000_000 }
}

/// Clarke's ellipsoid of 1866, in metres.
pub open spec fn spec_clarke() -> Ellipsoid {
    Ellipsoid { equatorial_r: Radius(Meter(6_378_206_400_000)), recip_f: 29_497_869_821_400 }
}

/// Clarke's ellipsoid of 1866, in metres.
#[verifier::when_used_as_spec(spec_clarke)]
pub fn clarke() -> (e: Ellipsoid)
    ensures
        e == spec_clarke(),
{
    Ellipsoid { equatorial_r: Radius(Meter(6_378_206_400_000)), recip_f: 29_497_869_821_400 }
}

/// The ellipsoid of `clarke` with the flattening that the Bedford Institute
/// of Oceanography used.
pub open spec fn spec_bedford_clarke() -> Ellipsoid {
    Ellipsoid { recip_f: 29_497_869_860_000, ..clarke() }
}

/// The ellipsoid of `clarke` with the flattening that the Bedford Institute
/// of Oceanography used.
#[verifier::when_used_as_spec(spec_bedford_clarke)]
pub fn bedford_clarke() -> (e: Ellipsoid)
    ensures
        e == spec_bedford_clarke(),
{
    Ellipsoid { recip_f: 29_497_869_860_000, ..clarke() }
}

} // verus!
