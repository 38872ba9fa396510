//! Angles held exactly, and the algebra that folds them into their ranges.
//!
//! An angle is a whole number of units, a million millionths of an arc
//! second each, so that degrees, minutes and seconds convert without loss.

use vstd::prelude::*;
use crate::units::convert::{
    folded, in_quarter_turn, is_even, is_plus_minus_half_pi_deg, lemma_folded_by_half_turns,
    lemma_folded_range, magnitude, normalized, plus_minus_pi_deg,
};

pub mod convert;
pub mod text;

verus! {

/// Units in one arc second.
pub const UNITS_PER_SECOND: i128 = 1_000_000_000_000;

/// Units in one arc minute.
pub const UNITS_PER_MINUTE: i128 = 60_000_000_000_000;

/// Units in one degree.
pub const UNITS_PER_DEGREE: i128 = 3_600_000_000_000_000;

/// Units in 90°.
pub const QUARTER_TURN: i128 = 324_000_000_000_000_000;

/// Units in 180°.
pub const HALF_TURN: i128 = 648_000_000_000_000_000;

/// Units in 360°.
pub const FULL_TURN: i128 = 1_296_000_000_000_000_000;

/// An angle in degrees, held as its number of units.
#[derive(Debug, PartialEq, Eq, Structural, Clone, Copy)]
pub struct Deg(pub i128);

/// A length in metres, held as its number of micrometres.
#[derive(Debug, PartialEq, Eq, Structural, Clone, Copy)]
pub struct Meter(pub i64);

/// A length in metres that is wide enough for the difference of any two
/// distances, held as its number of micrometres.
#[derive(Debug, PartialEq, Eq, Structural, PartialOrd, Ord, Clone, Copy)]
pub struct Length(pub i128);

/// The radius of a sphere or of an ellipsoid.
#[derive(Debug, PartialEq, Eq, Structural, Clone, Copy)]
pub struct Radius(pub Meter);

/// An angle in degrees, arc minutes and arc seconds, the seconds held as
/// their number of units.
///
/// The most significant field that is not zero carries the sign of the whole
/// angle, and the fields below it count in the same direction: `-0°1'30"` is
/// `deg: 0, min: -1` with thirty seconds in `sec`.
#[derive(Debug, PartialEq, Eq, Structural, Clone, Copy)]
pub struct DMS {
    pub deg: i32,
    pub min: i32,
    pub sec: i64,
}

/// What the representations of an angle have in common.
pub trait Angle: Sized {
    /// The size of the angle in units.
    spec fn units(&self) -> int;

    /// The angle reduced by whole turns into `[0°, 360°)`.
    fn normalize(&self) -> (turned: Self)
        ensures
            turned.units() == normalized(self.units()),
            0 <= turned.units() < FULL_TURN,
    ;

    /// The angle folded by whole turns into `(-180°, 180°]`.
    fn plus_minus_pi(&self) -> (halved: Self)
        ensures
            halved.units() == folded(self.units()),
            -HALF_TURN < halved.units() <= HALF_TURN,
    ;

    /// The folded angle where it lies in `[-90°, 90°]`, and nothing where it
    /// does not.
    fn plus_minus_half_pi(&self) -> (quartered: Option<Self>) where Self: Sized
        ensures
            quartered is Some <==> in_quarter_turn(folded(self.units())),
            quartered is Some ==> quartered->0.units() == folded(self.units()),
    ;

    /// The sum of the two angles, reduced by whole turns into `[0°, 360°)`.
    fn rotate(&self, other: Self) -> (turned: Self)
        ensures
            turned.units() == normalized(self.units() + other.units()),
            0 <= turned.units() < FULL_TURN,
    ;
}

/// A whole count of degrees or minutes as the field of a `DMS` holds it:
/// what does not fit stays at the largest value that does.
pub open spec fn saturated(count: int) -> int {
    if count > i32::MAX {
        i32::MAX as int
    } else {
        count
    }
}

/// The quotient and remainder of a division that rounds towards minus
/// infinity.
fn div_mod(n: i128, d: i128) -> (qr: (i128, i128))
    requires
        d > 0,
    ensures
        qr.0 == n as int / d as int,
        qr.1 == n as int % d as int,
{
    let q: i128 = n / d;
    let r: i128 = n % d;
    proof {
        let (x, m) = (n as int, d as int);
        if n < 0 {
            vstd::arithmetic::div_mod::lemma_fundamental_div_mod(-x, m);
            vstd::arithmetic::div_mod::lemma_mod_bound(-x, m);
            assert(x == q * m + r && -m < r <= 0) by (nonlinear_arith)
                requires
                    -x == m * (-q) + (-r),
                    0 <= -r < m,
            ;
        } else {
            vstd::arithmetic::div_mod::lemma_fundamental_div_mod(x, m);
            vstd::arithmetic::div_mod::lemma_mod_bound(x, m);
            assert(x == q * m + r) by (nonlinear_arith)
                requires
                    x == m * q + r,
            ;
        }
    }
    if r < 0 {
        proof {
            assert(n == (q - 1) * d + (r + d)) by (nonlinear_arith)
                requires
                    n == q * d + r,
            ;
            assert(q - 1 >= n) by (nonlinear_arith)
                requires
                    n == (q - 1) * d + (r + d),
                    0 <= r + d < d,
                    n < 0,
            ;
            vstd::arithmetic::div_mod::lemma_fundamental_div_mod_converse(
                n as int,
                d as int,
                q - 1,
                r + d,
            );
        }
        (q - 1, r + d)
    } else {
        proof {
            vstd::arithmetic::div_mod::lemma_fundamental_div_mod_converse(
                n as int,
                d as int,
                q as int,
                r as int,
            );
        }
        (q, r)
    }
}

impl DMS {
    /// Whether the fields are those of a decomposition: minutes and seconds
    /// below sixty, no field below the one that carries the sign negative,
    /// and the degrees not at the one value that has no positive
    /// counterpart.
    pub open spec fn is_canonical(self) -> bool {
        &&& self.deg > i32::MIN
        &&& -60 < self.min < 60
        &&& -UNITS_PER_MINUTE < self.sec < UNITS_PER_MINUTE
        &&& self.deg != 0 ==> self.min >= 0 && self.sec >= 0
        &&& self.min != 0 ==> self.sec >= 0
    }

    /// The decomposition of a degree value of `units` units.
    pub open spec fn spec_from_deg(units: int) -> DMS {
        let size = if units < 0 { -units } else { units };
        let dd = saturated(size / (UNITS_PER_DEGREE as int));
        let rest = size - dd * UNITS_PER_DEGREE;
        let mm = saturated(rest / (UNITS_PER_MINUTE as int));
        let ss = rest % (UNITS_PER_MINUTE as int);
        if units >= 0 {
            DMS { deg: dd as i32, min: mm as i32, sec: ss as i64 }
        } else if dd != 0 {
            DMS { deg: (-dd) as i32, min: mm as i32, sec: ss as i64 }
        } else if mm != 0 {
            DMS { deg: 0, min: (-mm) as i32, sec: ss as i64 }
        } else {
            DMS { deg: 0, min: 0, sec: (-ss) as i64 }
        }
    }

    /// Decomposes a degree value into whole degrees, whole minutes and
    /// seconds, and puts its sign on the most significant of them that is not
    /// zero. A value of 2³¹ degrees or more leaves the degrees, and with them
    /// the minutes, at the largest value their fields hold.
    pub fn from_deg(deg: Deg) -> (dms: DMS)
        ensures
            dms == DMS::spec_from_deg(deg.0 as int),
            -(i32::MAX + 1) * UNITS_PER_DEGREE < deg.0 < (i32::MAX + 1) * UNITS_PER_DEGREE ==> {
                &&& dms.is_canonical()
                &&& dms.units() == deg.0
            },
    {
        let Deg(units) = deg;
        proof {
            if -(i32::MAX + 1) * UNITS_PER_DEGREE < units < (i32::MAX + 1) * UNITS_PER_DEGREE {
                lemma_from_deg_to_deg(units as int);
            }
        }
        let d_abs: u128 = magnitude(units);
        let whole: u128 = d_abs / (UNITS_PER_DEGREE as u128);
        let dd: i32 = if whole > i32::MAX as u128 {
            i32::MAX
        } else {
            whole as i32
        };
        assert(dd * UNITS_PER_DEGREE <= d_abs) by {
            vstd::arithmetic::div_mod::lemma_fundamental_div_mod(
                d_abs as int,
                UNITS_PER_DEGREE as int,
            );
            vstd::arithmetic::div_mod::lemma_mod_bound(d_abs as int, UNITS_PER_DEGREE as int);
        }
        let d_frac: u128 = d_abs - (dd as u128) * (UNITS_PER_DEGREE as u128);
        let minutes: u128 = d_frac / (UNITS_PER_MINUTE as u128);
        let mm: i32 = if minutes > i32::MAX as u128 {
            i32::MAX
        } else {
            minutes as i32
        };
        let ss: i64 = (d_frac % (UNITS_PER_MINUTE as u128)) as i64;
        if units >= 0 {
            DMS { deg: dd, min: mm, sec: ss }
        } else if dd != 0 {
            DMS { deg: -dd, min: mm, sec: ss }
        } else if mm != 0 {
            DMS { deg: 0, min: -mm, sec: ss }
        } else {
            DMS { deg: 0, min: 0, sec: -ss }
        }
    }

    /// The degree value of the three fields together.
    pub open spec fn spec_to_deg(self) -> Deg {
        Deg(self.units() as i128)
    }

    /// The degree value of the three fields together: the field that carries
    /// the sign gives the direction in which the fields below it count.
    pub fn to_deg(&self) -> (deg: Deg)
        ensures
            deg.0 == self.units(),
            deg == self.spec_to_deg(),
    {
        let d: i128 = self.deg as i128;
        let m: i128 = self.min as i128;
        let s: i128 = self.sec as i128;
        if d < 0 {
            Deg(-(-d * UNITS_PER_DEGREE + m * UNITS_PER_MINUTE + s))
        } else if d > 0 {
            Deg(d * UNITS_PER_DEGREE + m * UNITS_PER_MINUTE + s)
        } else if m < 0 {
            Deg(-(-m * UNITS_PER_MINUTE + s))
        } else {
            Deg(m * UNITS_PER_MINUTE + s)
        }
    }

    /// The angle from `x` round to `y`, in `[0°, 360°)`.
    pub open spec fn spec_diff(x: DMS, y: DMS) -> int {
        normalized(y.units() - x.units())
    }

    /// The lesser of the two angles between `x` and `y`, in `[0°, 180°]`.
    pub open spec fn spec_abs_diff(x: DMS, y: DMS) -> int {
        let round = DMS::spec_diff(x, y);
        if round > HALF_TURN {
            FULL_TURN - round
        } else {
            round
        }
    }

    /// The angle from `x` round to `y`, reduced by whole turns into
    /// `[0°, 360°)`.
    pub fn diff_dms(x: DMS, y: DMS) -> (diff: DMS)
        ensures
            diff == DMS::spec_from_deg(DMS::spec_diff(x, y)),
            diff.units() == DMS::spec_diff(x, y),
            diff.is_canonical(),
    {
        DMS::from_deg(Deg(y.to_deg().0 - x.to_deg().0).normalize())
    }

    /// The lesser of the two angles between `x` and `y`: the angle from `x`
    /// round to `y`, taken the other way round where it is more than 180°.
    pub fn abs_diff_dms(x: DMS, y: DMS) -> (diff: DMS)
        ensures
            diff == DMS::spec_from_deg(DMS::spec_abs_diff(x, y)),
            diff.units() == DMS::spec_abs_diff(x, y),
            0 <= diff.units() <= HALF_TURN,
            diff.is_canonical(),
    {
        let d = Self::diff_dms(x, y);
        if d.to_deg().0 > (DMS { deg: 180, min: 0, sec: 0 }).to_deg().0 {
            Self::diff_dms(d, DMS { deg: 360, min: 0, sec: 0 })
        } else {
            d
        }
    }

    /// Folds the angle into `(-180°, 180°]` as `Angle::plus_minus_pi` does,
    /// by the whole half turns in it and what is left over them.
    pub fn dms_plus_minus_pi(dms: DMS) -> (halved: DMS)
        ensures
            halved == DMS::spec_from_deg(folded(dms.units())),
            halved.units() == folded(dms.units()),
            -HALF_TURN < halved.units() <= HALF_TURN,
            halved.is_canonical(),
    {
        let d = dms.to_deg().0;
        let (a, b) = div_mod(d, HALF_TURN);
        let band: u64 = (magnitude(a) % 2) as u64;
        proof {
            vstd::arithmetic::div_mod::lemma_fundamental_div_mod(d as int, HALF_TURN as int);
            assert(d == a * HALF_TURN + b) by (nonlinear_arith)
                requires
                    d == HALF_TURN * a + b,
            ;
            assert(band == 0 <==> a % 2 == 0);
            lemma_folded_by_half_turns(d as int, a as int, b as int);
            lemma_folded_range(d as int);
        }
        DMS::from_deg(
            Deg(
                if b == 0 {
                    if is_even(band) {
                        0
                    } else {
                        HALF_TURN
                    }
                } else if is_even(band) {
                    b
                } else {
                    b - HALF_TURN
                },
            ),
        )
    }

    /// The folded angle where it lies in `[-90°, 90°]`, and nothing where it
    /// does not.
    pub fn dms_plus_minus_half_pi(dms: DMS) -> (quartered: Option<DMS>)
        ensures
            quartered == if in_quarter_turn(folded(dms.units())) {
                Some(DMS::spec_from_deg(folded(dms.units())))
            } else {
                None
            },
    {
        let deg = Self::dms_plus_minus_pi(dms).to_deg().0;
        if deg < -QUARTER_TURN || deg > QUARTER_TURN {
            None
        } else {
            Some(DMS::from_deg(Deg(deg)))
        }
    }

    /// The direction opposite to `y`, in `[0°, 360°)`.
    pub open spec fn spec_opposite(y: DMS) -> DMS {
        DMS::spec_from_deg(normalized(HALF_TURN + y.units()))
    }

    /// The angle from the direction opposite to `y` round to `x`, in
    /// `[0°, 360°)`.
    pub fn diff_dms_180(y: DMS, x: DMS) -> (diff: DMS)
        ensures
            diff == DMS::spec_from_deg(DMS::spec_diff(DMS::spec_opposite(y), x)),
            diff.units() == normalized(x.units() - HALF_TURN - y.units()),
            diff.is_canonical(),
    {
        let opposite = DMS { deg: 180, min: 0, sec: 0 }.rotate(y);
        proof {
            vstd::arithmetic::div_mod::lemma_sub_mod_noop_right(
                x.units(),
                HALF_TURN + y.units(),
                FULL_TURN as int,
            );
        }
        Self::diff_dms(opposite, x)
    }

    /// The lesser of the two angles between `x` and the direction opposite
    /// to `y`, in `[0°, 180°]`.
    pub fn abs_diff_dms_180(y: DMS, x: DMS) -> (diff: DMS)
        ensures
            diff == DMS::spec_from_deg(DMS::spec_abs_diff(DMS::spec_opposite(y), x)),
            diff.units() == DMS::spec_abs_diff(DMS::spec_opposite(y), x),
            0 <= diff.units() <= HALF_TURN,
            diff.is_canonical(),
    {
        Self::abs_diff_dms(DMS { deg: 180, min: 0, sec: 0 }.rotate(y), x)
    }
}

/// The two ways round between two angles make up a whole turn, or nothing
/// where the angles agree up to whole turns; so the lesser of the two is the
/// same from either side.
pub proof fn lemma_abs_diff_symmetric(x: DMS, y: DMS)
    ensures
        DMS::spec_diff(y, x) == normalized(FULL_TURN - DMS::spec_diff(x, y)),
        DMS::spec_abs_diff(y, x) == DMS::spec_abs_diff(x, y),
        0 <= DMS::spec_abs_diff(x, y) <= HALF_TURN,
{
    let full = FULL_TURN as int;
    let a = y.units() - x.units();
    let d = a % full;
    vstd::arithmetic::div_mod::lemma_fundamental_div_mod(a, full);
    vstd::arithmetic::div_mod::lemma_mod_bound(a, full);
    let q = a / full;
    if d == 0 {
        assert(-a == (-q) * full + 0) by (nonlinear_arith)
            requires
                a == full * q + d,
                d == 0,
        ;
        vstd::arithmetic::div_mod::lemma_fundamental_div_mod_converse(-a, full, -q, 0);
        vstd::arithmetic::div_mod::lemma_mod_self_0(full);
    } else {
        assert(-a == (-q - 1) * full + (full - d)) by (nonlinear_arith)
            requires
                a == full * q + d,
        ;
        vstd::arithmetic::div_mod::lemma_fundamental_div_mod_converse(-a, full, -q - 1, full - d);
        vstd::arithmetic::div_mod::lemma_small_mod((full - d) as nat, full as nat);
    }
    assert(x.units() - y.units() == -a);
}

/// Decomposing a degree value below 2³¹ degrees in size and putting the
/// fields together again gives the value back.
pub proof fn lemma_from_deg_to_deg(units: int)
    requires
        -(i32::MAX + 1) * UNITS_PER_DEGREE < units < (i32::MAX + 1) * UNITS_PER_DEGREE,
    ensures
        DMS::spec_from_deg(units).is_canonical(),
        DMS::spec_from_deg(units).units() == units,
{
    let size = if units < 0 { -units } else { units };
    vstd::arithmetic::div_mod::lemma_fundamental_div_mod(size, UNITS_PER_DEGREE as int);
    vstd::arithmetic::div_mod::lemma_mod_bound(size, UNITS_PER_DEGREE as int);
    let dd = size / (UNITS_PER_DEGREE as int);
    assert(0 <= dd <= i32::MAX) by {
        vstd::arithmetic::div_mod::lemma_div_pos_is_pos(size, UNITS_PER_DEGREE as int);
        if dd > i32::MAX {
            assert(UNITS_PER_DEGREE * dd >= UNITS_PER_DEGREE * (i32::MAX + 1)) by (nonlinear_arith)
                requires
                    dd >= i32::MAX + 1,
            ;
        }
    }
    let rest = size - dd * UNITS_PER_DEGREE;
    assert(rest == size % (UNITS_PER_DEGREE as int)) by (nonlinear_arith)
        requires
            size == UNITS_PER_DEGREE * dd + size % (UNITS_PER_DEGREE as int),
            rest == size - dd * UNITS_PER_DEGREE,
    ;
    vstd::arithmetic::div_mod::lemma_fundamental_div_mod(rest, UNITS_PER_MINUTE as int);
    vstd::arithmetic::div_mod::lemma_mod_bound(rest, UNITS_PER_MINUTE as int);
    let mm = rest / (UNITS_PER_MINUTE as int);
    assert(0 <= mm < 60) by {
        vstd::arithmetic::div_mod::lemma_div_pos_is_pos(rest, UNITS_PER_MINUTE as int);
        if mm >= 60 {
            assert(UNITS_PER_MINUTE * mm >= UNITS_PER_MINUTE * 60) by (nonlinear_arith)
                requires
                    mm >= 60,
            ;
        }
    }
    assert(rest == mm * UNITS_PER_MINUTE + rest % (UNITS_PER_MINUTE as int)) by (nonlinear_arith)
        requires
            rest == UNITS_PER_MINUTE * mm + rest % (UNITS_PER_MINUTE as int),
    ;
}

/// Putting the fields of a decomposition together and decomposing the value
/// again gives the same fields back: a degree value has one decomposition.
pub proof fn lemma_to_deg_from_deg(dms: DMS)
    requires
        dms.is_canonical(),
    ensures
        DMS::spec_from_deg(dms.units()) == dms,
{
    let units = dms.units();
    let size = if units < 0 { -units } else { units };
    let d: int = if dms.deg < 0 { -dms.deg } else { dms.deg as int };
    let m: int = if dms.min < 0 { -dms.min } else { dms.min as int };
    let s: int = if dms.sec < 0 { -dms.sec } else { dms.sec as int };
    assert(size == d * UNITS_PER_DEGREE + m * UNITS_PER_MINUTE + s);
    let below = m * UNITS_PER_MINUTE + s;
    assert(0 <= below < UNITS_PER_DEGREE);
    assert(size == d * UNITS_PER_DEGREE + below);
    vstd::arithmetic::div_mod::lemma_fundamental_div_mod_converse(
        size,
        UNITS_PER_DEGREE as int,
        d,
        below,
    );
    vstd::arithmetic::div_mod::lemma_fundamental_div_mod_converse(
        below,
        UNITS_PER_MINUTE as int,
        m,
        s,
    );
    assert(size - d * UNITS_PER_DEGREE == below);
}

impl Angle for Deg {
    /// The number of units that the value holds.
    open spec fn units(&self) -> int {
        self.0 as int
    }

    fn normalize(&self) -> (turned: Deg) {
        let d = self.0;
        let x: i128 = d % FULL_TURN;
        proof {
            let full = FULL_TURN as int;
            vstd::arithmetic::div_mod::lemma_mod_bound(d as int, full);
            if d < 0 {
                let (q, r) = ((-d) / full, (-d) % full);
                vstd::arithmetic::div_mod::lemma_fundamental_div_mod(-d, full);
                vstd::arithmetic::div_mod::lemma_mod_bound(-d, full);
                if r == 0 {
                    assert(d == (-q) * full + 0) by (nonlinear_arith)
                        requires
                            -d == full * q + r,
                            r == 0,
                    ;
                    vstd::arithmetic::div_mod::lemma_fundamental_div_mod_converse(
                        d as int,
                        full,
                        -q,
                        0,
                    );
                } else {
                    assert(d == (-q - 1) * full + (full - r)) by (nonlinear_arith)
                        requires
                            -d == full * q + r,
                    ;
                    vstd::arithmetic::div_mod::lemma_fundamental_div_mod_converse(
                        d as int,
                        full,
                        -q - 1,
                        full - r,
                    );
                }
            }
        }
        assert(normalized(self.units()) == d as int % (FULL_TURN as int));
        if x == 0 {
            Deg(0)
        } else if x < 0 {
            Deg(FULL_TURN + x)
        } else {
            Deg(x)
        }
    }

    fn plus_minus_pi(&self) -> (halved: Deg) {
        plus_minus_pi_deg(*self)
    }

    fn plus_minus_half_pi(&self) -> (quartered: Option<Deg>) {
        is_plus_minus_half_pi_deg(*self)
    }

    fn rotate(&self, other: Deg) -> (turned: Deg) {
        let a = self.normalize();
        let b = other.normalize();
        proof {
            vstd::arithmetic::div_mod::lemma_add_mod_noop(
                self.0 as int,
                other.0 as int,
                FULL_TURN as int,
            );
        }
        Deg(a.0 + b.0).normalize()
    }
}

impl Angle for DMS {
    /// The three fields together: the most significant field that is not
    /// zero gives the direction, and the fields below it are counted in that
    /// direction as they stand.
    open spec fn units(&self) -> int {
        let below = self.min * UNITS_PER_MINUTE + self.sec;
        if self.deg < 0 {
            -(-self.deg * UNITS_PER_DEGREE + below)
        } else if self.deg > 0 {
            self.deg * UNITS_PER_DEGREE + below
        } else if self.min < 0 {
            -(-self.min * UNITS_PER_MINUTE + self.sec)
        } else {
            below
        }
    }

    fn normalize(&self) -> (turned: DMS)
        ensures
            turned == DMS::spec_from_deg(normalized(self.units())),
            turned.is_canonical(),
    {
        DMS::from_deg(DMS::to_deg(self).normalize())
    }

    fn plus_minus_pi(&self) -> (halved: DMS)
        ensures
            halved == DMS::spec_from_deg(folded(self.units())),
            halved.is_canonical(),
    {
        DMS::from_deg(DMS::to_deg(self).plus_minus_pi())
    }

    fn plus_minus_half_pi(&self) -> (quartered: Option<DMS>)
        ensures
            quartered is Some ==> quartered->0 == DMS::spec_from_deg(folded(self.units()))
                && quartered->0.is_canonical(),
    {
        match DMS::to_deg(self).plus_minus_half_pi() {
            Some(x) => Some(DMS::from_deg(x)),
            None => None,
        }
    }

    fn rotate(&self, other: DMS) -> (turned: DMS)
        ensures
            turned == DMS::spec_from_deg(normalized(self.units() + other.units())),
            turned.is_canonical(),
    {
        DMS::from_deg(DMS::to_deg(self).rotate(DMS::to_deg(&other)).normalize())
    }
}

} // verus!
