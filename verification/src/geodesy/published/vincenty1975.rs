//! The five lines that T. Vincenty solved in "Direct and Inverse Solutions of
//! Geodesics on the Ellipsoid with Applications of Nested Equations", April
//! 1975, and the checks of a solution against them.

use vstd::prelude::*;
use vstd::string::*;
use crate::geodesy::latlng::LatLng;
use crate::geodesy::problems::{Az, Dist, InverseProblem, InverseSolution};
use crate::units::text::{meters, Show};
use crate::units::{Angle, Length, DMS};

verus! {

/// The outcome of a check: nothing, or what was found wrong.
pub type Assertion = Result<(), String>;

/// How far a distance may lie from the published one.
pub type TestTolerance = Dist;

/// How far a bearing may lie from the published one.
pub type AzTolerance = DMS;

/// The published lengths of the five lines, in micrometres.
pub const DISTANCES: [i64; 5] = [
    14_110_526_170_000,
    4_085_966_703_000,
    8_084_823_839_000,
    19_960_000_000_000,
    19_780_006_558_000,
];

/// By how much the lengths that the paper found in the inverse direction
/// miss the published ones, in micrometres.
pub const INDIRECT_DISTANCE_TOLERANCES: [i64; 5] = [404, 387, 703, 197, 787];

/// The bearings on which the five lines leave.
pub open spec fn spec_x_azimuths() -> Seq<DMS> {
    seq![
        DMS { deg: 96, min: 36, sec: 8_799_600_000_000 },
        DMS { deg: 95, min: 27, sec: 59_630_890_000_000 },
        DMS { deg: 15, min: 44, sec: 23_748_500_000_000 },
        DMS { deg: 89, min: 0, sec: 0 },
        DMS { deg: 4, min: 59, sec: 59_999_950_000_000 },
    ]
}

/// The bearings on which the five lines arrive.
pub open spec fn spec_y_azimuths() -> Seq<DMS> {
    seq![
        DMS { deg: 137, min: 52, sec: 22_014_540_000_000 },
        DMS { deg: 118, min: 5, sec: 58_961_610_000_000 },
        DMS { deg: 144, min: 55, sec: 39_921_470_000_000 },
        DMS { deg: 91, min: 0, sec: 6_117_330_000_000 },
        DMS { deg: 174, min: 59, sec: 59_884_810_000_000 },
    ]
}

/// The two ends of the five lines, each by latitude and longitude.
pub open spec fn spec_inverse_problem_data() -> Seq<((DMS, DMS), (DMS, DMS))> {
    seq![
        (
            (DMS { deg: 55, min: 45, sec: 0 }, DMS { deg: 0, min: 0, sec: 0 }),
            (DMS { deg: -33i32, min: 26, sec: 0 }, DMS { deg: 108, min: 13, sec: 0 }),
        ),
        (
            (DMS { deg: 37, min: 19, sec: 54_953_670_000_000 }, DMS { deg: 0, min: 0, sec: 0 }),
            (
                DMS { deg: 26, min: 7, sec: 42_839_460_000_000 },
                DMS { deg: 41, min: 28, sec: 35_507_290_000_000 },
            ),
        ),
        (
            (DMS { deg: 35, min: 16, sec: 11_248_620_000_000 }, DMS { deg: 0, min: 0, sec: 0 }),
            (
                DMS { deg: 67, min: 22, sec: 14_776_380_000_000 },
                DMS { deg: 137, min: 47, sec: 28_314_350_000_000 },
            ),
        ),
        (
            (DMS { deg: 1, min: 0, sec: 0 }, DMS { deg: 0, min: 0, sec: 0 }),
            (
                DMS { deg: 0, min: -59i32, sec: 53_830_760_000_000 },
                DMS { deg: 179, min: 17, sec: 48_029_970_000_000 },
            ),
        ),
        (
            (DMS { deg: 1, min: 0, sec: 0 }, DMS { deg: 0, min: 0, sec: 0 }),
            (
                DMS { deg: 1, min: 1, sec: 15_189_520_000_000 },
                DMS { deg: 179, min: 46, sec: 17_842_440_000_000 },
            ),
        ),
    ]
}

/// The problem between two points given in degrees, minutes and seconds.
pub open spec fn spec_to_inverse_problem(x: (DMS, DMS), y: (DMS, DMS)) -> InverseProblem {
    InverseProblem {
        x: LatLng { lat: x.0.spec_to_deg(), lng: x.1.spec_to_deg() },
        y: LatLng { lat: y.0.spec_to_deg(), lng: y.1.spec_to_deg() },
    }
}

/// The published solution of the line `i`.
pub open spec fn spec_inverse_solution(i: int) -> InverseSolution {
    InverseSolution {
        s: Dist { dist: DISTANCES[i] },
        az1: Az { az: spec_x_azimuths()[i].spec_to_deg() },
        az2: Some(Az { az: spec_y_azimuths()[i].spec_to_deg() }),
    }
}

/// The five inverse problems.
pub open spec fn spec_inverse_problems() -> Seq<InverseProblem> {
    Seq::new(
        5,
        |i: int|
            spec_to_inverse_problem(
                spec_inverse_problem_data()[i].0,
                spec_inverse_problem_data()[i].1,
            ),
    )
}

/// The five published solutions.
pub open spec fn spec_inverse_solutions() -> Seq<InverseSolution> {
    Seq::new(5, |i: int| spec_inverse_solution(i))
}

/// The bearings on which the five lines leave.
pub fn x_azimuths() -> (table: [DMS; 5])
    ensures
        table@ == spec_x_azimuths(),
{
    let table = [
        DMS { deg: 96, min: 36, sec: 8_799_600_000_000 },
        DMS { deg: 95, min: 27, sec: 59_630_890_000_000 },
        DMS { deg: 15, min: 44, sec: 23_748_500_000_000 },
        DMS { deg: 89, min: 0, sec: 0 },
        DMS { deg: 4, min: 59, sec: 59_999_950_000_000 },
    ];
    assert(table@ =~= spec_x_azimuths());
    table
}

/// The bearings on which the five lines arrive.
pub fn y_azimuths() -> (table: [DMS; 5])
    ensures
        table@ == spec_y_azimuths(),
{
    let table = [
        DMS { deg: 137, min: 52, sec: 22_014_540_000_000 },
        DMS { deg: 118, min: 5, sec: 58_961_610_000_000 },
        DMS { deg: 144, min: 55, sec: 39_921_470_000_000 },
        DMS { deg: 91, min: 0, sec: 6_117_330_000_000 },
        DMS { deg: 174, min: 59, sec: 59_884_810_000_000 },
    ];
    assert(table@ =~= spec_y_azimuths());
    table
}

/// The two ends of the five lines, each by latitude and longitude.
pub fn inverse_problem_data() -> (table: [((DMS, DMS), (DMS, DMS)); 5])
    ensures
        table@ == spec_inverse_problem_data(),
{
    let zero = DMS { deg: 0, min: 0, sec: 0 };
    let table = [
        (
            (DMS { deg: 55, min: 45, sec: 0 }, zero),
            (DMS { deg: -33, min: 26, sec: 0 }, DMS { deg: 108, min: 13, sec: 0 }),
        ),
        (
            (DMS { deg: 37, min: 19, sec: 54_953_670_000_000 }, zero),
            (
                DMS { deg: 26, min: 7, sec: 42_839_460_000_000 },
                DMS { deg: 41, min: 28, sec: 35_507_290_000_000 },
            ),
        ),
        (
            (DMS { deg: 35, min: 16, sec: 11_248_620_000_000 }, zero),
            (
                DMS { deg: 67, min: 22, sec: 14_776_380_000_000 },
                DMS { deg: 137, min: 47, sec: 28_314_350_000_000 },
            ),
        ),
        (
            (DMS { deg: 1, min: 0, sec: 0 }, zero),
            (
                DMS { deg: 0, min: -59, sec: 53_830_760_000_000 },
                DMS { deg: 179, min: 17, sec: 48_029_970_000_000 },
            ),
        ),
        (
            (DMS { deg: 1, min: 0, sec: 0 }, zero),
            (
                DMS { deg: 1, min: 1, sec: 15_189_520_000_000 },
                DMS { deg: 179, min: 46, sec: 17_842_440_000_000 },
            ),
        ),
    ];
    assert(table@ =~= spec_inverse_problem_data());
    table
}

/// The distance that both directions together may miss a published length
/// by: eight millimetres.
pub fn tolerance() -> (within: TestTolerance)
    ensures
        within.dist == 8_000,
{
    Dist { dist: 8_000 }
}

/// The bearing that a solution may miss a published one by: a sixtieth of
/// an arc second.
pub fn az_tolerance() -> (within: AzTolerance)
    ensures
        within == (DMS { deg: 0, min: 0, sec: 16_667_000_000 }),
{
    DMS { deg: 0, min: 0, sec: 16_667_000_000 }
}

fn to_inverse_problem(x: (DMS, DMS), y: (DMS, DMS)) -> (problem: InverseProblem)
    ensures
        problem == spec_to_inverse_problem(x, y),
{
    InverseProblem { x: LatLng::from(x), y: LatLng::from(y) }
}

/// The five lines as inverse problems.
pub fn inverse_problems() -> (problems: Vec<InverseProblem>)
    ensures
        problems@ == spec_inverse_problems(),
{
    let data = inverse_problem_data();
    let mut problems: Vec<InverseProblem> = Vec::new();
    let mut i: usize = 0;
    while i < 5
        invariant
            i <= 5,
            data@ == spec_inverse_problem_data(),
            problems@.len() == i,
            forall|j: int| 0 <= j < i ==> problems@[j] == spec_inverse_problems()[j],
        decreases 5 - i,
    {
        let (x, y) = data[i];
        problems.push(to_inverse_problem(x, y));
        i += 1;
    }
    assert(problems@ =~= spec_inverse_problems());
    problems
}

/// The published solutions of the five lines.
pub fn inverse_solutions() -> (solutions: Vec<InverseSolution>)
    ensures
        solutions@ == spec_inverse_solutions(),
{
    let distances = DISTANCES;
    let xs = x_azimuths();
    let ys = y_azimuths();
    let mut solutions: Vec<InverseSolution> = Vec::new();
    let mut i: usize = 0;
    while i < 5
        invariant
            i <= 5,
            distances == DISTANCES,
            xs@ == spec_x_azimuths(),
            ys@ == spec_y_azimuths(),
            solutions@.len() == i,
            forall|j: int| 0 <= j < i ==> solutions@[j] == spec_inverse_solution(j),
        decreases 5 - i,
    {
        solutions.push(
            InverseSolution {
                s: Dist { dist: distances[i] },
                az1: Az { az: xs[i].to_deg() },
                az2: Some(Az { az: ys[i].to_deg() }),
            },
        );
        i += 1;
    }
    assert(solutions@ =~= spec_inverse_solutions());
    solutions
}

/// Each of the five lines with its published solution.
pub fn direct_pairs() -> (pairs: Vec<(InverseProblem, InverseSolution)>)
    ensures
        pairs@.len() == 5,
        forall|i: int|
            0 <= i < 5 ==> pairs@[i] == (spec_inverse_problems()[i], spec_inverse_solutions()[i]),
{
    let problems = inverse_problems();
    let solutions = inverse_solutions();
    let mut pairs: Vec<(InverseProblem, InverseSolution)> = Vec::new();
    let mut i: usize = 0;
    while i < 5
        invariant
            i <= 5,
            problems@ == spec_inverse_problems(),
            solutions@ == spec_inverse_solutions(),
            pairs@.len() == i,
            forall|j: int|
                0 <= j < i ==> pairs@[j] == (
                    spec_inverse_problems()[j],
                    spec_inverse_solutions()[j],
                ),
        decreases 5 - i,
    {
        pairs.push((problems[i], solutions[i]));
        i += 1;
    }
    pairs
}

/// The five lines, as the direct problem takes them up.
pub fn direct_problems() -> (problems: Vec<InverseProblem>)
    ensures
        problems@ == spec_inverse_problems(),
{
    let pairs = direct_pairs();
    let mut problems: Vec<InverseProblem> = Vec::new();
    let mut i: usize = 0;
    while i < 5
        invariant
            i <= 5,
            pairs@.len() == 5,
            forall|j: int|
                0 <= j < 5 ==> pairs@[j] == (
                    spec_inverse_problems()[j],
                    spec_inverse_solutions()[j],
                ),
            problems@.len() == i,
            forall|j: int| 0 <= j < i ==> problems@[j] == spec_inverse_problems()[j],
        decreases 5 - i,
    {
        problems.push(pairs[i].0);
        i += 1;
    }
    assert(problems@ =~= spec_inverse_problems());
    problems
}

/// The published solutions, as the direct problem takes them up.
pub fn direct_solutions() -> (solutions: Vec<InverseSolution>)
    ensures
        solutions@ == spec_inverse_solutions(),
{
    let pairs = direct_pairs();
    let mut solutions: Vec<InverseSolution> = Vec::new();
    let mut i: usize = 0;
    while i < 5
        invariant
            i <= 5,
            pairs@.len() == 5,
            forall|j: int|
                0 <= j < 5 ==> pairs@[j] == (
                    spec_inverse_problems()[j],
                    spec_inverse_solutions()[j],
                ),
            solutions@.len() == i,
            forall|j: int| 0 <= j < i ==> solutions@[j] == spec_inverse_solutions()[j],
        decreases 5 - i,
    {
        solutions.push(pairs[i].1);
        i += 1;
    }
    assert(solutions@ =~= spec_inverse_solutions());
    solutions
}

/// The text of a comparison that did not hold: the preface on a line of its
/// own where there is one, then what was expected of the actual value.
pub open spec fn failure_text(
    preface: Seq<char>,
    actual: Seq<char>,
    cmp_symbol: Seq<char>,
    key: Seq<char>,
) -> Seq<char> {
    let head = if preface.len() == 0 {
        Seq::<char>::empty()
    } else {
        preface + seq!['\n']
    };
    head + "expected: "@ + actual + seq![' '] + cmp_symbol + seq![' '] + key
}

/// The outcome of a comparison that gave `holds`, with the text of its
/// failure written out.
pub open spec fn compared(
    holds: bool,
    preface: Seq<char>,
    actual: Seq<char>,
    cmp_symbol: Seq<char>,
    key: Seq<char>,
) -> Result<(), Seq<char>> {
    if holds {
        Ok(())
    } else {
        Err(failure_text(preface, actual, cmp_symbol, key))
    }
}

/// The outcome of a check with the text of its failure written out.
pub open spec fn outcome(checked: Assertion) -> Result<(), Seq<char>> {
    match checked {
        Ok(_) => Ok(()),
        Err(text) => Err(text@),
    }
}

/// A check that failed with `msg`.
pub fn assert_failure(msg: &str) -> (failed: Assertion)
    ensures
        outcome(failed) == Err::<(), Seq<char>>(msg@),
{
    Err(msg.to_string())
}

/// A check that holds where `b` does, and is `m` where it does not.
pub fn unless(b: bool, m: Assertion) -> (checked: Assertion)
    ensures
        checked == if b { Ok::<(), String>(()) } else { m },
{
    if b {
        Ok(())
    } else {
        m
    }
}

/// Writes out a comparison that did not hold.
fn failure(preface: &str, actual: &str, cmp_symbol: &str, key: &str) -> (text: String)
    ensures
        text@ == failure_text(preface@, actual@, cmp_symbol@, key@),
{
    let mut text = if preface.is_empty() {
        String::new()
    } else {
        String::from_str(preface).concat("\n")
    };
    text.append("expected: ");
    text.append(actual);
    text.append(" ");
    text.append(cmp_symbol);
    text.append(" ");
    text.append(key);
    proof {
        reveal_strlit("\n");
        reveal_strlit(" ");
        assert(text@ =~= failure_text(preface@, actual@, cmp_symbol@, key@));
    }
    text
}

/// Checks the actual value against the key by `compare`, which is written
/// `cmp_symbol`. Where the comparison does not hold, the check fails with
/// both values written out.
pub fn assert_compare<T: Show + PartialOrd, F: Fn(&T, &T) -> bool>(
    preface: &str,
    compare: F,
    cmp_symbol: &str,
    key: &T,
    actual: &T,
) -> (checked: Assertion)
    requires
        call_requires(compare, (actual, key)),
    ensures
        call_ensures(compare, (actual, key), checked is Ok),
        outcome(checked) == compared(
            checked is Ok,
            preface@,
            actual.text(),
            cmp_symbol@,
            key.text(),
        ),
{
    let text = failure(preface, actual.show().as_str(), cmp_symbol, key.show().as_str());
    unless(compare(actual, key), assert_failure(text.as_str()))
}

/// Checks the actual value against the key by `compare` on what `convert`
/// makes of each. Where the comparison does not hold, the check fails with
/// both values written out as they were given.
pub fn assert_compare_with<T: Show, U: PartialOrd, C: Fn(&T) -> U, F: Fn(&U, &U) -> bool>(
    convert: C,
    preface: &str,
    compare: F,
    cmp_symbol: &str,
    key: &T,
    actual: &T,
) -> (checked: Assertion)
    requires
        call_requires(convert, (actual,)),
        call_requires(convert, (key,)),
        forall|a: U, k: U|
            call_ensures(convert, (actual,), a) && call_ensures(convert, (key,), k)
                ==> call_requires(compare, (&a, &k)),
    ensures
        exists|a: U, k: U|
            call_ensures(convert, (actual,), a) && call_ensures(convert, (key,), k)
                && call_ensures(compare, (&a, &k), checked is Ok),
        outcome(checked) == compared(
            checked is Ok,
            preface@,
            actual.text(),
            cmp_symbol@,
            key.text(),
        ),
{
    let text = failure(preface, actual.show().as_str(), cmp_symbol, key.show().as_str());
    let a = convert(actual);
    let k = convert(key);
    unless(compare(&a, &k), assert_failure(text.as_str()))
}

/// How far apart two distances lie.
pub open spec fn spec_diff(x: int, y: int) -> int {
    if x >= y {
        x - y
    } else {
        y - x
    }
}

/// The check of a distance: it may lie no further from the length of the
/// solution than the tolerance. Where it fails, the two lengths are written
/// in metres.
pub open spec fn distance_check(
    tolerance: TestTolerance,
    span: Dist,
    soln: InverseSolution,
) -> Result<(), Seq<char>> {
    let actual = spec_diff(span.dist as int, soln.s.dist as int);
    compared(
        actual <= tolerance.dist,
        Seq::<char>::empty(),
        meters(actual),
        "<="@,
        meters(tolerance.dist as int),
    )
}

/// The check of a bearing by how far it lies from the published one: no
/// further than the tolerance.
pub open spec fn azimuth_check(tolerance: AzTolerance, actual: DMS) -> Result<(), Seq<char>> {
    compared(
        actual.units() <= tolerance.units(),
        Seq::<char>::empty(),
        actual.text(),
        "<="@,
        tolerance.text(),
    )
}

/// What holds of the check of a bearing that was found, or not, against an
/// expected one, where it is `diff` that measures how far apart `from` and
/// `to` lie: with no bearing found, or none expected, the check holds.
pub open spec fn azimuth_checked<D: Fn(DMS, DMS) -> DMS>(
    diff: D,
    tolerance: AzTolerance,
    from: Option<Az>,
    to: Option<Az>,
    checked: Assertion,
) -> bool {
    match (from, to) {
        (Some(a), Some(b)) => exists|actual: DMS|
            #[trigger] call_ensures(
                diff,
                (DMS::spec_from_deg(a.az.0 as int), DMS::spec_from_deg(b.az.0 as int)),
                actual,
            ) && outcome(checked) == azimuth_check(tolerance, actual),
        _ => checked is Ok,
    }
}

/// How many lines `inverse_checks` looks at: as many as the shortest of
/// what it is given holds.
pub open spec fn lines_checked(
    dist_tolerances: int,
    spans: int,
    az_fwds: int,
    az_revs: int,
    solns: int,
    probs: int,
) -> int {
    let a = if dist_tolerances <= spans { dist_tolerances } else { spans };
    let b = if az_fwds <= az_revs { az_fwds } else { az_revs };
    let c = if solns <= probs { solns } else { probs };
    let ab = if a <= b { a } else { b };
    if ab <= c {
        ab
    } else {
        c
    }
}

/// How far apart two distances lie.
pub fn diff(x: i64, y: i64) -> (apart: i128)
    ensures
        apart == spec_diff(x as int, y as int),
{
    if x >= y {
        x as i128 - y as i128
    } else {
        y as i128 - x as i128
    }
}

/// A bearing in degrees, minutes and seconds.
pub fn az_to_dms(az: Az) -> (dms: DMS)
    ensures
        dms == DMS::spec_from_deg(az.az.0 as int),
{
    DMS::from_deg(az.az)
}

/// Checks one bearing that was found against the one expected.
fn check_azimuth(tolerance: AzTolerance, actual: DMS) -> (checked: Assertion)
    ensures
        outcome(checked) == azimuth_check(tolerance, actual),
{
    let convert = |dms: &DMS| -> (units: i128)
        ensures
            units == dms.units(),
        { dms.to_deg().0 };
    let compare = |a: &i128, b: &i128| -> (holds: bool)
        ensures
            holds == (*a <= *b),
        { *a <= *b };
    proof {
        reveal_strlit("");
    }
    assert_compare_with(convert, "", compare, "<=", &tolerance, &actual)
}

/// Checks one distance that was found against the length of the solution.
fn check_distance(tolerance: &TestTolerance, span: &Dist, soln: &InverseSolution) -> (checked:
    Assertion)
    ensures
        outcome(checked) == distance_check(*tolerance, *span, *soln),
{
    let actual = Length(diff(span.dist, soln.s.dist));
    let key = Length(tolerance.dist as i128);
    let compare = |a: &Length, b: &Length| -> (holds: bool)
        ensures
            holds == (a.0 <= b.0),
        { a.0 <= b.0 };
    proof {
        reveal_strlit("");
    }
    assert_compare("", compare, "<=", &key, &actual)
}

/// Checks what a solution found for each line against what was published:
/// for each line the distance, then the bearing on which the line leaves,
/// then the bearing on which it arrives, in that order. A bearing is checked
/// only where one was found, and the second only where one was published;
/// `diff_az_fwd` takes the published bearing first, `diff_az_rev` the one
/// found.
pub fn inverse_checks<F: Fn(DMS, DMS) -> DMS, R: Fn(DMS, DMS) -> DMS>(
    diff_az_fwd: F,
    diff_az_rev: R,
    dist_tolerances: &[TestTolerance],
    az_tolerance: AzTolerance,
    spans: Vec<Dist>,
    az_fwds: Vec<Option<Az>>,
    az_revs: Vec<Option<Az>>,
    solns: &[InverseSolution],
    probs: &[InverseProblem],
) -> (checks: Vec<Assertion>)
    requires
        forall|a: DMS, b: DMS| call_requires(diff_az_fwd, (a, b)),
        forall|a: DMS, b: DMS| call_requires(diff_az_rev, (a, b)),
    ensures
        checks@.len() == 3 * lines_checked(
            dist_tolerances@.len() as int,
            spans@.len() as int,
            az_fwds@.len() as int,
            az_revs@.len() as int,
            solns@.len() as int,
            probs@.len() as int,
        ),
        forall|i: int|
            #![trigger solns@[i]]
            0 <= i && 3 * i < checks@.len() ==> {
                &&& outcome(checks@[3 * i]) == distance_check(
                    dist_tolerances@[i],
                    spans@[i],
                    solns@[i],
                )
                &&& azimuth_checked(
                    diff_az_fwd,
                    az_tolerance,
                    Some(solns@[i].az1),
                    az_fwds@[i],
                    checks@[3 * i + 1],
                )
                &&& azimuth_checked(
                    diff_az_rev,
                    az_tolerance,
                    az_revs@[i],
                    solns@[i].az2,
                    checks@[3 * i + 2],
                )
            },
{
    let mut n = dist_tolerances.len();
    if spans.len() < n {
        n = spans.len();
    }
    if az_fwds.len() < n {
        n = az_fwds.len();
    }
    if az_revs.len() < n {
        n = az_revs.len();
    }
    if solns.len() < n {
        n = solns.len();
    }
    if probs.len() < n {
        n = probs.len();
    }
    let mut checks: Vec<Assertion> = Vec::new();
    let mut i: usize = 0;
    while i < n
        invariant
            i <= n,
            n <= dist_tolerances@.len(),
            n <= spans@.len(),
            n <= az_fwds@.len(),
            n <= az_revs@.len(),
            n <= solns@.len(),
            forall|a: DMS, b: DMS| call_requires(diff_az_fwd, (a, b)),
            forall|a: DMS, b: DMS| call_requires(diff_az_rev, (a, b)),
            checks@.len() == 3 * i,
            forall|j: int|
                #![trigger solns@[j]]
                0 <= j < i ==> {
                    &&& outcome(checks@[3 * j]) == distance_check(
                        dist_tolerances@[j],
                        spans@[j],
                        solns@[j],
                    )
                    &&& azimuth_checked(
                        diff_az_fwd,
                        az_tolerance,
                        Some(solns@[j].az1),
                        az_fwds@[j],
                        checks@[3 * j + 1],
                    )
                    &&& azimuth_checked(
                        diff_az_rev,
                        az_tolerance,
                        az_revs@[j],
                        solns@[j].az2,
                        checks@[3 * j + 2],
                    )
                },
        decreases n - i,
    {
        let soln = solns[i];
        let first = check_distance(&dist_tolerances[i], &spans[i], &soln);
        let second = match az_fwds[i] {
            Some(az1_prime) => {
                let actual = diff_az_fwd(az_to_dms(soln.az1), az_to_dms(az1_prime));
                check_azimuth(az_tolerance, actual)
            },
            None => Ok(()),
        };
        let third = match (az_revs[i], soln.az2) {
            (Some(az2_prime), Some(az2)) => {
                let actual = diff_az_rev(az_to_dms(az2_prime), az_to_dms(az2));
                check_azimuth(az_tolerance, actual)
            },
            _ => Ok(()),
        };
        let ghost before = checks@;
        checks.push(first);
        checks.push(second);
        checks.push(third);
        proof {
            assert(forall|j: int| 0 <= j < 3 * i ==> checks@[j] == before[j]);
            assert(checks@[3 * i] == first);
            assert(checks@[3 * i + 1] == second);
            assert(checks@[3 * i + 2] == third);
        }
        i += 1;
    }
    checks
}

/// The check of a distance that was found for the published line `i`:
/// within the error that was published for that line.
pub open spec fn line_check(i: int, span: Dist) -> Result<(), Seq<char>> {
    distance_check(Dist { dist: INDIRECT_DISTANCE_TOLERANCES[i] }, span, spec_inverse_solution(i))
}

/// Checks the distances that a solution found for the five lines, in their
/// order, against the published ones, each within the error that was
/// published for its line, and hands back the first check that fails. No
/// bearing is checked. Of fewer than five distances those that are there are
/// checked, and what is given beyond five is not looked at.
pub fn vincenty_units(spans: Vec<Dist>) -> (checked: Result<(), String>)
    ensures
        match outcome(checked) {
            Ok(_) => forall|i: int|
                0 <= i < 5 && i < spans@.len() ==> (#[trigger] line_check(i, spans@[i])) is Ok,
            Err(text) => exists|i: int|
                {
                    &&& 0 <= i < 5 && i < spans@.len()
                    &&& #[trigger] line_check(i, spans@[i]) == Err::<(), Seq<char>>(text)
                    &&& forall|j: int| 0 <= j < i ==> (#[trigger] line_check(j, spans@[j])) is Ok
                },
        },
{
    let diff_az_fwd = |x: DMS, y: DMS| -> (d: DMS) { DMS::abs_diff_dms(x, y) };
    let diff_az_rev = |x: DMS, y: DMS| -> (d: DMS) { DMS::abs_diff_dms_180(y, x) };
    let within = INDIRECT_DISTANCE_TOLERANCES;
    let mut dist_tolerances: Vec<Dist> = Vec::new();
    let mut nothing: Vec<Option<Az>> = Vec::new();
    let mut k: usize = 0;
    while k < 5
        invariant
            k <= 5,
            within == INDIRECT_DISTANCE_TOLERANCES,
            dist_tolerances@.len() == k,
            nothing@.len() == k,
            forall|j: int|
                0 <= j < k ==> dist_tolerances@[j] == (Dist {
                    dist: INDIRECT_DISTANCE_TOLERANCES[j],
                }),
            forall|j: int| 0 <= j < k ==> nothing@[j] == None::<Az>,
        decreases 5 - k,
    {
        dist_tolerances.push(Dist { dist: within[k] });
        nothing.push(None);
        k += 1;
    }
    let none = nothing.clone();
    let solutions = inverse_solutions();
    let problems = inverse_problems();
    let ghost given = spans@;
    let ghost expected = Seq::new(
        if given.len() < 5 { given.len() } else { 5 },
        |j: int| line_check(j, given[j]),
    );
    let tolerances = dist_tolerances.as_slice();
    let solns = solutions.as_slice();
    let checks = inverse_checks(
        diff_az_fwd,
        diff_az_rev,
        tolerances,
        az_tolerance(),
        spans,
        nothing,
        none,
        solns,
        problems.as_slice(),
    );
    assert(checks@.len() == 3 * expected.len());
    assert forall|j: int| 0 <= j < expected.len() implies {
        &&& outcome(checks@[3 * j]) == #[trigger] expected[j]
        &&& checks@[3 * j + 1] is Ok
        &&& checks@[3 * j + 2] is Ok
    } by {
        assert(solns@[j] == spec_inverse_solution(j));
        assert(tolerances@[j] == (Dist { dist: INDIRECT_DISTANCE_TOLERANCES[j] }));
    }
    let mut i: usize = 0;
    while i < checks.len()
        invariant
            i <= checks@.len(),
            given == spans@,
            checks@.len() == 3 * expected.len(),
            expected.len() <= 5,
            expected.len() == 5 || expected.len() == given.len(),
            expected.len() <= given.len(),
            forall|j: int|
                0 <= j < expected.len() ==> #[trigger] expected[j] == line_check(j, given[j]),
            forall|j: int| 0 <= j < i ==> (#[trigger] checks@[j]) is Ok,
            forall|j: int|
                0 <= j < expected.len() ==> {
                    &&& outcome(checks@[3 * j]) == #[trigger] expected[j]
                    &&& checks@[3 * j + 1] is Ok
                    &&& checks@[3 * j + 2] is Ok
                },
        decreases checks@.len() - i,
    {
        match &checks[i] {
            Ok(_) => {},
            Err(text) => {
                let failed = text.clone();
                proof {
                    let line = i as int / 3;
                    assert(0 <= line < expected.len());
                    assert(outcome(checks@[3 * line]) == expected[line]);
                    assert(i as int == 3 * line + (i as int % 3));
                    assert(i as int == 3 * line);
                    assert forall|j: int| 0 <= j < line implies (#[trigger] line_check(
                        j,
                        given[j],
                    )) is Ok by {
                        assert(outcome(checks@[3 * j]) == expected[j]);
                        assert(checks@[3 * j] is Ok);
                    }
                    assert(line_check(line, given[line]) == Err::<(), Seq<char>>(failed@));
                    assert(0 <= line < 5 && line < given.len());
                }
                return Err(failed);
            },
        }
        i += 1;
    }
    proof {
        assert forall|j: int| 0 <= j < 5 && j < given.len() implies (#[trigger] line_check(
            j,
            given[j],
        )) is Ok by {
            assert(outcome(checks@[3 * j]) == expected[j]);
        }
    }
    Ok(())
}

} // verus!
