use auxillary_sphere::geodesy::latlng::LatLng;
use auxillary_sphere::geodesy::problems::{Az, Dist, InverseProblem, InverseSolution};
use auxillary_sphere::geodesy::published::vincenty1975::{
    assert_compare, assert_compare_with, assert_failure, az_to_dms, az_tolerance, diff,
    direct_pairs, direct_problems, direct_solutions, inverse_checks, inverse_problem_data,
    inverse_problems, inverse_solutions, tolerance, unless, vincenty_units, x_azimuths,
    y_azimuths, DISTANCES, INDIRECT_DISTANCE_TOLERANCES,
};
use auxillary_sphere::units::{Deg, DMS, UNITS_PER_DEGREE, UNITS_PER_MINUTE, UNITS_PER_SECOND};

const D: i128 = UNITS_PER_DEGREE;
const M: i128 = UNITS_PER_MINUTE;
const S: i128 = UNITS_PER_SECOND;

fn published() -> Vec<Dist> {
    DISTANCES.iter().map(|&dist| Dist { dist }).collect()
}

#[test]
fn failure_carries_its_message() {
    assert_eq!(assert_failure("no"), Err("no".to_string()));
    assert_eq!(assert_failure(""), Err(String::new()));
}

#[test]
fn unless_holds_or_hands_on() {
    assert_eq!(unless(true, Err("no".to_string())), Ok(()));
    assert_eq!(unless(false, Err("no".to_string())), Err("no".to_string()));
    assert_eq!(unless(true, Ok(())), Ok(()));
    assert_eq!(unless(false, Ok(())), Ok(()));
}

#[test]
fn compare_that_holds() {
    assert_eq!(assert_compare("", |a: &i128, b: &i128| a <= b, "<=", &404, &170), Ok(()));
    assert_eq!(assert_compare("line one", |a: &i128, b: &i128| a == b, "==", &5, &5), Ok(()));
}

#[test]
fn compare_that_fails_writes_both_values() {
    assert_eq!(
        assert_compare("", |a: &i128, b: &i128| a <= b, "<=", &404, &405),
        Err("expected: 405 <= 404".to_string())
    );
    assert_eq!(
        assert_compare("line one", |a: &i128, b: &i128| a > b, ">", &-3, &-7),
        Err("line one\nexpected: -7 > -3".to_string())
    );
}

#[test]
fn compare_with_converts_before_it_compares() {
    let sixty = DMS { deg: 0, min: 0, sec: (60 * S) as i64 };
    let minute = DMS { deg: 0, min: 1, sec: 0 };
    let more = DMS { deg: 0, min: 1, sec: 1 };
    let units = |dms: &DMS| dms.to_deg().0;
    assert_eq!(assert_compare_with(units, "", |a: &i128, b: &i128| a <= b, "<=", &minute, &sixty), Ok(()));
    assert_eq!(
        assert_compare_with(units, "", |a: &i128, b: &i128| a <= b, "<=", &minute, &more),
        Err("expected: 0°1'0.000000000001\" <= 0°1'0\"".to_string())
    );
    assert_eq!(
        assert_compare_with(units, "bearing", |a: &i128, b: &i128| a < b, "<", &sixty, &minute),
        Err("bearing\nexpected: 0°1'0\" < 0°0'60\"".to_string())
    );
}

#[test]
fn published_tables() {
    assert_eq!(DISTANCES[0], 14_110_526_170_000);
    assert_eq!(DISTANCES[4], 19_780_006_558_000);
    assert_eq!(INDIRECT_DISTANCE_TOLERANCES, [404, 387, 703, 197, 787]);
    assert_eq!(tolerance(), Dist { dist: 8_000 });
    assert_eq!(az_tolerance(), DMS { deg: 0, min: 0, sec: 16_667_000_000 });
    assert_eq!(x_azimuths()[0], DMS { deg: 96, min: 36, sec: 8_799_600_000_000 });
    assert_eq!(x_azimuths()[3], DMS { deg: 89, min: 0, sec: 0 });
    assert_eq!(y_azimuths()[0], DMS { deg: 137, min: 52, sec: 22_014_540_000_000 });
    assert_eq!(y_azimuths()[4], DMS { deg: 174, min: 59, sec: 59_884_810_000_000 });
    let data = inverse_problem_data();
    assert_eq!(data[0].0 .0, DMS { deg: 55, min: 45, sec: 0 });
    assert_eq!(data[0].1 .0, DMS { deg: -33, min: 26, sec: 0 });
    assert_eq!(data[3].1 .0, DMS { deg: 0, min: -59, sec: 53_830_760_000_000 });
    assert_eq!(data[4].1 .1, DMS { deg: 179, min: 46, sec: 17_842_440_000_000 });
}

#[test]
fn published_problems_and_solutions() {
    let problems = inverse_problems();
    assert_eq!(problems.len(), 5);
    assert_eq!(
        problems[0],
        InverseProblem {
            x: LatLng { lat: Deg(55 * D + 45 * M), lng: Deg(0) },
            y: LatLng { lat: Deg(-33 * D - 26 * M), lng: Deg(108 * D + 13 * M) },
        }
    );
    assert_eq!(problems[3].y.lat, Deg(-59 * M - 53_830_760_000_000));
    assert_eq!(problems[4].y.lng, Deg(179 * D + 46 * M + 17_842_440_000_000));
    let solutions = inverse_solutions();
    assert_eq!(solutions.len(), 5);
    assert_eq!(
        solutions[0],
        InverseSolution {
            s: Dist { dist: 14_110_526_170_000 },
            az1: Az { az: Deg(96 * D + 36 * M + 8_799_600_000_000) },
            az2: Some(Az { az: Deg(137 * D + 52 * M + 22_014_540_000_000) }),
        }
    );
    assert_eq!(solutions[3].az1, Az { az: Deg(89 * D) });
    let pairs = direct_pairs();
    assert_eq!(pairs.len(), 5);
    for i in 0..5 {
        assert_eq!(pairs[i], (problems[i], solutions[i]));
    }
    assert_eq!(direct_problems(), problems);
    assert_eq!(direct_solutions(), solutions);
}

#[test]
fn distances_apart() {
    assert_eq!(diff(5, 3), 2);
    assert_eq!(diff(3, 5), 2);
    assert_eq!(diff(-3, 5), 8);
    assert_eq!(diff(i64::MIN, i64::MAX), u64::MAX as i128);
    assert_eq!(diff(i64::MAX, i64::MIN), u64::MAX as i128);
    assert_eq!(diff(7, 7), 0);
}

#[test]
fn bearing_in_degrees_minutes_seconds() {
    assert_eq!(
        az_to_dms(Az { az: Deg(96 * D + 36 * M + 8_799_600_000_000) }),
        DMS { deg: 96, min: 36, sec: 8_799_600_000_000 }
    );
    assert_eq!(az_to_dms(Az { az: Deg(-M) }), DMS { deg: 0, min: -1, sec: 0 });
}

#[test]
fn checks_of_the_published_lines_against_themselves() {
    let solutions = inverse_solutions();
    let problems = inverse_problems();
    let tolerances: Vec<Dist> = INDIRECT_DISTANCE_TOLERANCES.iter().map(|&dist| Dist { dist }).collect();
    let leaving: Vec<Option<Az>> = solutions.iter().map(|s| Some(s.az1)).collect();
    let arriving: Vec<Option<Az>> = solutions.iter().map(|s| s.az2).collect();
    let checks = inverse_checks(
        |x, y| DMS::abs_diff_dms(x, y),
        |x, y| DMS::abs_diff_dms(x, y),
        &tolerances,
        az_tolerance(),
        published(),
        leaving,
        arriving,
        &solutions,
        &problems,
    );
    assert_eq!(checks.len(), 15);
    assert!(checks.iter().all(|check| check.is_ok()));
}

#[test]
fn checks_come_three_to_a_line() {
    let solutions = inverse_solutions();
    let problems = inverse_problems();
    let tolerances: Vec<Dist> = INDIRECT_DISTANCE_TOLERANCES.iter().map(|&dist| Dist { dist }).collect();
    let mut spans = published();
    spans[0].dist += 404;
    spans[1].dist -= 388;
    let mut leaving: Vec<Option<Az>> = solutions.iter().map(|s| Some(s.az1)).collect();
    leaving[0] = Some(Az { az: Deg(96 * D + 36 * M + 8_799_600_000_000 + 16_667_000_001) });
    leaving[2] = None;
    let mut arriving: Vec<Option<Az>> = solutions.iter().map(|s| s.az2).collect();
    arriving[1] = Some(Az { az: Deg(118 * D + 5 * M + 58_961_610_000_000 - S) });
    arriving[2] = None;
    let checks = inverse_checks(
        |x, y| DMS::abs_diff_dms(x, y),
        |x, y| DMS::abs_diff_dms(x, y),
        &tolerances,
        az_tolerance(),
        spans,
        leaving,
        arriving,
        &solutions[..3],
        &problems,
    );
    assert_eq!(
        checks,
        vec![
            Ok(()),
            Err("expected: 0°0'0.016667000001\" <= 0°0'0.016667\"".to_string()),
            Ok(()),
            Err("expected: 0.000388 <= 0.000387".to_string()),
            Ok(()),
            Err("expected: 0°0'1\" <= 0°0'0.016667\"".to_string()),
            Ok(()),
            Ok(()),
            Ok(()),
        ]
    );
}

#[test]
fn checks_take_the_differences_they_are_given() {
    let solutions = inverse_solutions();
    let problems = inverse_problems();
    let tolerances = published();
    let back: Vec<Option<Az>> = solutions
        .iter()
        .map(|s| s.az2.map(|az| Az { az: Deg(az.az.0 + 180 * D) }))
        .collect();
    let none: Vec<Option<Az>> = vec![None; 5];
    let checks = inverse_checks(
        |x, y| DMS::abs_diff_dms(x, y),
        |x, y| DMS::abs_diff_dms_180(y, x),
        &tolerances,
        az_tolerance(),
        published(),
        none,
        back,
        &solutions,
        &problems,
    );
    assert_eq!(checks.len(), 15);
    assert!(checks.iter().all(|check| check.is_ok()));
    let same: Vec<Option<Az>> = solutions.iter().map(|s| s.az2).collect();
    let checks = inverse_checks(
        |x, y| DMS::abs_diff_dms(x, y),
        |x, y| DMS::abs_diff_dms_180(y, x),
        &tolerances,
        az_tolerance(),
        published(),
        vec![None; 5],
        same,
        &solutions,
        &problems,
    );
    assert_eq!(checks[2], Err("expected: 180°0'0\" <= 0°0'0.016667\"".to_string()));
}

#[test]
fn checks_of_nothing() {
    let checks = inverse_checks(
        |x, y| DMS::abs_diff_dms(x, y),
        |x, y| DMS::abs_diff_dms(x, y),
        &[],
        az_tolerance(),
        published(),
        vec![None; 5],
        vec![None; 5],
        &inverse_solutions(),
        &inverse_problems(),
    );
    assert_eq!(checks, Vec::<Result<(), String>>::new());
}

#[test]
fn published_distances_pass() {
    assert_eq!(vincenty_units(published()), Ok(()));
    assert_eq!(vincenty_units(Vec::new()), Ok(()));
    assert_eq!(vincenty_units(published()[..2].to_vec()), Ok(()));
    let mut spans = published();
    for (span, within) in spans.iter_mut().zip(INDIRECT_DISTANCE_TOLERANCES) {
        span.dist += within;
    }
    assert_eq!(vincenty_units(spans), Ok(()));
    let mut spans = published();
    for (span, within) in spans.iter_mut().zip(INDIRECT_DISTANCE_TOLERANCES) {
        span.dist -= within;
    }
    spans.push(Dist { dist: i64::MIN });
    assert_eq!(vincenty_units(spans), Ok(()));
}

#[test]
fn distances_of_nothing_fail() {
    assert_eq!(
        vincenty_units(vec![Dist { dist: 0 }; 5]),
        Err("expected: 14110526.17 <= 0.000404".to_string())
    );
    let doubled: Vec<Dist> = DISTANCES.iter().map(|&dist| Dist { dist: 2 * dist }).collect();
    assert_eq!(vincenty_units(doubled), Err("expected: 14110526.17 <= 0.000404".to_string()));
}

#[test]
fn first_distance_out_of_reach_fails() {
    let mut spans = published();
    spans[1].dist += 388;
    spans[3].dist = -1;
    assert_eq!(vincenty_units(spans), Err("expected: 0.000388 <= 0.000387".to_string()));
    let mut spans = published();
    spans[4].dist -= 788;
    spans.push(Dist { dist: i64::MIN });
    assert_eq!(vincenty_units(spans), Err("expected: 0.000788 <= 0.000787".to_string()));
    assert_eq!(
        vincenty_units(vec![Dist { dist: i64::MIN }]),
        Err("expected: 9223386147380.945808 <= 0.000404".to_string())
    );
}
