use auxillary_sphere::geodesy::latlng::LatLng;
use auxillary_sphere::geodesy::point_to_point::vincenty::{
    distance, distance_unchecked, inverse, normalize_lng, GeodeticInverse, InverseStep, Pass,
    Progress,
};
use auxillary_sphere::geodesy::problems::{Az, DirectProblem, Dist, InverseProblem, InverseSolution};
use auxillary_sphere::geodesy::vincenty::{
    iterate_angular_distance, prepare_direct, DirectError, Iteration, MAX_ITERATIONS,
};
use auxillary_sphere::units::{Deg, DMS, FULL_TURN, HALF_TURN, UNITS_PER_DEGREE, UNITS_PER_MINUTE};

const D: i128 = UNITS_PER_DEGREE;

fn point(lat: i128, lng: i128) -> LatLng {
    LatLng::new(Deg(lat * D), Deg(lng * D))
}

fn solution(dist: i64) -> InverseSolution {
    InverseSolution {
        s: Dist { dist },
        az1: Az { az: Deg(96 * D) },
        az2: Some(Az { az: Deg(137 * D) }),
    }
}

#[test]
fn point_from_degrees_and_from_dms() {
    let p = LatLng::new(Deg(51 * D), Deg(-D));
    assert_eq!(p.lat, Deg(51 * D));
    assert_eq!(p.lng, Deg(-D));
    let q = LatLng::from((
        DMS { deg: -33, min: 26, sec: 0 },
        DMS { deg: 108, min: 13, sec: 0 },
    ));
    assert_eq!(q.lat, Deg(-33 * D - 26 * UNITS_PER_MINUTE));
    assert_eq!(q.lng, Deg(108 * D + 13 * UNITS_PER_MINUTE));
}

#[test]
fn direct_rejects_latitude_out_of_range() {
    let p = DirectProblem { x: point(91, 0), az1: Az { az: Deg(0) }, s: Dist { dist: 1_000_000 } };
    assert_eq!(prepare_direct(&p), Err(DirectError::OutOfRange(Deg(91 * D))));
    let q = DirectProblem { x: point(-91, 0), az1: Az { az: Deg(0) }, s: Dist { dist: 1_000_000 } };
    assert_eq!(prepare_direct(&q), Err(DirectError::OutOfRange(Deg(-91 * D))));
    let r = DirectProblem {
        x: LatLng::new(Deg(90 * D + 1), Deg(0)),
        az1: Az { az: Deg(0) },
        s: Dist { dist: 0 },
    };
    assert_eq!(prepare_direct(&r), Err(DirectError::OutOfRange(Deg(90 * D + 1))));
}

#[test]
fn direct_brings_the_problem_into_range() {
    let p = DirectProblem {
        x: point(45, 190),
        az1: Az { az: Deg(-10 * D) },
        s: Dist { dist: 14_110_526_170_000 },
    };
    assert_eq!(
        prepare_direct(&p),
        Ok(DirectProblem {
            x: point(45, -170),
            az1: Az { az: Deg(350 * D) },
            s: Dist { dist: 14_110_526_170_000 },
        })
    );
    let pole = DirectProblem { x: point(90, -180), az1: Az { az: Deg(720 * D) }, s: Dist { dist: 0 } };
    assert_eq!(
        prepare_direct(&pole),
        Ok(DirectProblem { x: point(90, 180), az1: Az { az: Deg(0) }, s: Dist { dist: 0 } })
    );
    let folded = DirectProblem { x: point(350, 0), az1: Az { az: Deg(0) }, s: Dist { dist: 0 } };
    assert_eq!(
        prepare_direct(&folded),
        Ok(DirectProblem { x: point(-10, 0), az1: Az { az: Deg(0) }, s: Dist { dist: 0 } })
    );
}

#[test]
fn angular_distance_settles_or_is_given_up() {
    assert_eq!(iterate_angular_distance(0, true), Iteration::Converged);
    assert_eq!(iterate_angular_distance(0, false), Iteration::Again(1));
    assert_eq!(iterate_angular_distance(MAX_ITERATIONS - 2, false), Iteration::Again(MAX_ITERATIONS - 1));
    assert_eq!(iterate_angular_distance(MAX_ITERATIONS - 1, false), Iteration::NonConvergent);
    assert_eq!(iterate_angular_distance(MAX_ITERATIONS - 1, true), Iteration::Converged);
    assert_eq!(iterate_angular_distance(u32::MAX, false), Iteration::NonConvergent);
    assert_eq!(iterate_angular_distance(u32::MAX, true), Iteration::Converged);
}

#[test]
fn angular_distance_is_given_up_after_the_cap() {
    let mut passes = 0;
    let mut made = 0;
    loop {
        made += 1;
        match iterate_angular_distance(passes, false) {
            Iteration::Again(next) => passes = next,
            end => {
                assert_eq!(end, Iteration::NonConvergent);
                break;
            }
        }
    }
    assert_eq!(made, MAX_ITERATIONS);
}

#[test]
fn inverse_of_a_point_and_itself() {
    for p in [point(0, 0), point(55, 108), point(-90, 720), LatLng::new(Deg(i128::MIN), Deg(i128::MAX))] {
        let start = inverse(&InverseProblem { x: p, y: p });
        assert_eq!(start, distance_unchecked(&InverseProblem { x: p, y: p }));
        assert_eq!(
            start,
            Progress::Done(GeodeticInverse::GeodeticInverse(InverseSolution {
                s: Dist { dist: 0 },
                az1: Az { az: Deg(0) },
                az2: Some(Az { az: Deg(HALF_TURN) }),
            }))
        );
        match start {
            Progress::Done(end) => assert_eq!(distance(end), Ok(Dist { dist: 0 })),
            Progress::Refine(_) => unreachable!(),
        }
    }
}

#[test]
fn inverse_starts_from_the_difference_in_longitude() {
    let start = distance_unchecked(&InverseProblem { x: point(55, 0), y: point(-33, 108) });
    assert_eq!(start, Progress::Refine(InverseStep { l: Deg(108 * D), passes: 0 }));
    let west = inverse(&InverseProblem { x: point(0, 10), y: point(0, -20) });
    assert_eq!(west, Progress::Refine(InverseStep { l: Deg(-30 * D), passes: 0 }));
    let half = inverse(&InverseProblem { x: point(0, 0), y: point(0, 180) });
    assert_eq!(half, Progress::Refine(InverseStep { l: Deg(180 * D), passes: 0 }));
    let same_place = distance_unchecked(&InverseProblem { x: point(10, 0), y: point(10, 360) });
    assert_eq!(same_place, Progress::Refine(InverseStep { l: Deg(0), passes: 0 }));
}

#[test]
fn inverse_crosses_the_antimeridian() {
    let east = inverse(&InverseProblem { x: point(0, 170), y: point(0, -170) });
    assert_eq!(east, Progress::Refine(InverseStep { l: Deg(20 * D), passes: 0 }));
    let west = inverse(&InverseProblem { x: point(0, -170), y: point(0, 170) });
    assert_eq!(west, Progress::Refine(InverseStep { l: Deg(-20 * D), passes: 0 }));
    let near = inverse(&InverseProblem { x: point(0, 179), y: point(0, -179) });
    assert_eq!(near, Progress::Refine(InverseStep { l: Deg(2 * D), passes: 0 }));
    let far = inverse(&InverseProblem {
        x: LatLng::new(Deg(0), Deg(i128::MIN)),
        y: LatLng::new(Deg(0), Deg(i128::MAX)),
    });
    assert_eq!(
        far,
        Progress::Refine(InverseStep {
            l: Deg(i128::MAX.rem_euclid(FULL_TURN) - i128::MIN.rem_euclid(FULL_TURN)),
            passes: 0,
        })
    );
    assert_eq!(normalize_lng(Deg(-170 * D)), Deg(190 * D));
    assert_eq!(normalize_lng(Deg(360 * D)), Deg(0));
}

#[test]
fn inverse_ends_antipodal_beyond_the_half_turn() {
    let step = InverseStep { l: Deg(180 * D), passes: 3 };
    assert_eq!(step.iloop(Pass::Beyond), Progress::Done(GeodeticInverse::GeodeticInverseAntipodal));
    assert_eq!(
        distance(GeodeticInverse::GeodeticInverseAntipodal),
        Err("Distance calculation failed".to_string())
    );
}

#[test]
fn inverse_ends_abnormal_without_a_number() {
    let step = InverseStep { l: Deg(0), passes: 0 };
    assert_eq!(step.iloop(Pass::Undefined), Progress::Done(GeodeticInverse::GeodeticInverseAbnormal));
    assert_eq!(
        distance(GeodeticInverse::GeodeticInverseAbnormal),
        Err("Distance calculation failed".to_string())
    );
}

#[test]
fn inverse_ends_with_the_settled_solution() {
    let step = InverseStep { l: Deg(108 * D), passes: 4 };
    let found = solution(14_110_526_170_000);
    let next = step.iloop(Pass::Refined { settled: true, solution: found });
    assert_eq!(next, Progress::Done(GeodeticInverse::GeodeticInverse(found)));
    assert_eq!(distance(GeodeticInverse::GeodeticInverse(found)), Ok(Dist { dist: 14_110_526_170_000 }));
    let last = InverseStep { l: Deg(0), passes: u32::MAX };
    assert_eq!(
        last.iloop(Pass::Refined { settled: true, solution: found }),
        Progress::Done(GeodeticInverse::GeodeticInverse(found))
    );
}

#[test]
fn inverse_goes_on_until_the_cap() {
    let mut step = InverseStep { l: Deg(179 * D), passes: 0 };
    let mut made = 0;
    let end = loop {
        made += 1;
        match step.iloop(Pass::Refined { settled: false, solution: solution(made) }) {
            Progress::Refine(next) => {
                assert_eq!(next, InverseStep { l: Deg(179 * D), passes: made as u32 });
                step = next;
            }
            Progress::Done(end) => break end,
        }
    };
    assert_eq!(made, MAX_ITERATIONS as i64);
    assert_eq!(end, GeodeticInverse::GeodeticInverseAntipodal);
    let over = InverseStep { l: Deg(0), passes: u32::MAX };
    assert_eq!(
        over.iloop(Pass::Refined { settled: false, solution: solution(1) }),
        Progress::Done(GeodeticInverse::GeodeticInverseAntipodal)
    );
}

#[test]
fn difference_in_longitude_reverses_with_the_points() {
    for (a, b) in [(10, -20), (170, -170), (-170, 170), (0, 180), (-180, 180), (540, -3), (1, 721)] {
        let there = inverse(&InverseProblem { x: point(0, a), y: point(0, b) });
        let back = inverse(&InverseProblem { x: point(0, b), y: point(0, a) });
        match (there, back) {
            (Progress::Refine(there), Progress::Refine(back)) => {
                assert_eq!(there.l.0, -back.l.0);
                assert!(there.l.0.abs() < FULL_TURN);
            }
            _ => unreachable!(),
        }
    }
}

#[test]
fn direct_prepared_twice_is_prepared_once() {
    for (lat, lng, az) in [(45, 190, -10), (-90, -180, 720), (350, 540, 359), (0, -540, -1)] {
        let p = DirectProblem { x: point(lat, lng), az1: Az { az: Deg(az * D) }, s: Dist { dist: 7 } };
        let once = prepare_direct(&p).unwrap();
        assert_eq!(prepare_direct(&once), Ok(once));
        assert!(once.x.lat.0.abs() <= 90 * D);
            assert!(-180 * D < once.x.lng.0 && once.x.lng.0 <= 180 * D);
        assert!(0 <= once.az1.az.0 && once.az1.az.0 < FULL_TURN);
    }
}
