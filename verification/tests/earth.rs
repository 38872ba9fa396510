use auxillary_sphere::earth::ellipsoid::{
    bedford_clarke, bessel, clarke, flattening, hayford, nad83, polar_r, wgs84, Ellipsoid, Ratio,
    UNITS_PER_RECIPROCAL,
};
use auxillary_sphere::units::{Meter, Radius};

fn quotient(ratio: Ratio) -> f64 {
    ratio.num as f64 / ratio.den as f64
}

#[test]
fn named_ellipsoids() {
    assert_eq!(
        wgs84(),
        Ellipsoid { equatorial_r: Radius(Meter(6_378_137_000_000)), recip_f: 29_825_722_356_300 }
    );
    assert_eq!(
        bessel(),
        Ellipsoid { equatorial_r: Radius(Meter(6_377_397_155_000)), recip_f: 29_915_281_280_000 }
    );
    assert_eq!(
        hayford(),
        Ellipsoid { equatorial_r: Radius(Meter(6_378_388_000_000)), recip_f: 29_700_000_000_000 }
    );
    assert_eq!(
        clarke(),
        Ellipsoid { equatorial_r: Radius(Meter(6_378_206_400_000)), recip_f: 29_497_869_821_400 }
    );
}

#[test]
fn derived_ellipsoids_keep_the_radius() {
    assert_eq!(nad83().equatorial_r, wgs84().equatorial_r);
    assert_eq!(nad83().recip_f, 29_825_722_210_088);
    assert_ne!(nad83(), wgs84());
    assert_eq!(bedford_clarke().equatorial_r, clarke().equatorial_r);
    assert_eq!(bedford_clarke().recip_f, 29_497_869_860_000);
    assert_ne!(bedford_clarke(), clarke());
}

#[test]
fn flattening_is_one_over_the_reciprocal() {
    assert_eq!(
        flattening(&hayford()),
        Ratio { num: UNITS_PER_RECIPROCAL as i128, den: 297 * UNITS_PER_RECIPROCAL as i128 }
    );
    assert_eq!(quotient(flattening(&hayford())), 1.0 / 297.0);
    assert!((quotient(flattening(&wgs84())) - 1.0 / 298.257223563).abs() < 1e-18);
}

#[test]
fn polar_radius_is_the_equatorial_less_the_flattening() {
    let b = polar_r(&hayford());
    assert_eq!(
        b,
        Ratio {
            num: 6_378_388_000_000 * 296 * UNITS_PER_RECIPROCAL as i128,
            den: 297 * UNITS_PER_RECIPROCAL as i128,
        }
    );
    let meters = quotient(b) / 1e6;
    assert!((meters - 6378388.0 * (1.0 - 1.0 / 297.0)).abs() < 1e-8);
    assert!((quotient(polar_r(&wgs84())) / 1e6 - 6356752.314245).abs() < 1e-6);
    assert!((quotient(polar_r(&bessel())) / 1e6 - 6356078.963).abs() < 1e-3);
}

#[test]
fn reciprocal_of_zero_is_not_guarded() {
    let flat = Ellipsoid { equatorial_r: Radius(Meter(6_378_137_000_000)), recip_f: 0 };
    assert_eq!(flattening(&flat), Ratio { num: UNITS_PER_RECIPROCAL as i128, den: 0 });
    assert_eq!(quotient(flattening(&flat)), f64::INFINITY);
    assert_eq!(
        polar_r(&flat),
        Ratio { num: -6_378_137_000_000 * UNITS_PER_RECIPROCAL as i128, den: 0 }
    );
    assert_eq!(quotient(polar_r(&flat)), f64::NEG_INFINITY);
}

#[test]
fn polar_radius_of_the_widest_values() {
    let wide = Ellipsoid { equatorial_r: Radius(Meter(i64::MIN)), recip_f: i64::MIN };
    assert_eq!(
        polar_r(&wide),
        Ratio {
            num: (i64::MIN as i128) * (i64::MIN as i128 - UNITS_PER_RECIPROCAL as i128),
            den: i64::MIN as i128,
        }
    );
    let high = Ellipsoid { equatorial_r: Radius(Meter(i64::MAX)), recip_f: i64::MAX };
    assert_eq!(
        polar_r(&high),
        Ratio {
            num: (i64::MAX as i128) * (i64::MAX as i128 - UNITS_PER_RECIPROCAL as i128),
            den: i64::MAX as i128,
        }
    );
}
