//! Folding of exact degree values into the half turn and the quarter turn.

use vstd::prelude::*;
use crate::units::{Deg, FULL_TURN, HALF_TURN, QUARTER_TURN};

verus! {

/// `x` reduced by whole turns into `[0, 360°)`.
pub open spec fn normalized(x: int) -> int {
    x % (FULL_TURN as int)
}

/// `x` folded into the half turn on either side of zero: the one angle in
/// `(-180°, 180°]` that lies whole turns from `x`.
pub open spec fn folded(x: int) -> int {
    let r = normalized(x);
    if r <= HALF_TURN {
        r
    } else {
        r - FULL_TURN
    }
}

/// Whether `x` lies in the quarter turn on either side of zero, `[-90°, 90°]`.
pub open spec fn in_quarter_turn(x: int) -> bool {
    -QUARTER_TURN <= x <= QUARTER_TURN
}

/// A value that is `a` whole half turns, counted towards minus infinity, and
/// `b` over them folds to `b` where `a` is even, and else to `b` less 180°,
/// or to 180° where nothing is left over.
pub proof fn lemma_folded_by_half_turns(x: int, a: int, b: int)
    requires
        0 <= b < HALF_TURN,
        x == a * HALF_TURN + b,
    ensures
        folded(x) == if a % 2 == 0 {
            b
        } else if b == 0 {
            HALF_TURN as int
        } else {
            b - HALF_TURN
        },
{
    let k = a / 2;
    if a % 2 == 0 {
        assert(x == k * FULL_TURN + b);
        vstd::arithmetic::div_mod::lemma_fundamental_div_mod_converse(x, FULL_TURN as int, k, b);
    } else {
        assert(x == k * FULL_TURN + (HALF_TURN + b));
        vstd::arithmetic::div_mod::lemma_fundamental_div_mod_converse(
            x,
            FULL_TURN as int,
            k,
            HALF_TURN + b,
        );
    }
}

/// Reducing by whole turns a second time changes nothing.
pub proof fn lemma_normalized_twice(x: int)
    ensures
        normalized(normalized(x)) == normalized(x),
        0 <= normalized(x) < FULL_TURN,
{
    vstd::arithmetic::div_mod::lemma_mod_bound(x, FULL_TURN as int);
    vstd::arithmetic::div_mod::lemma_mod_twice(x, FULL_TURN as int);
}

/// The fold lies in `(-180°, 180°]` and whole turns from the angle.
pub proof fn lemma_folded_range(x: int)
    ensures
        -HALF_TURN < folded(x) <= HALF_TURN,
        normalized(folded(x)) == normalized(x),
{
    let full = FULL_TURN as int;
    let r = x % full;
    vstd::arithmetic::div_mod::lemma_mod_bound(x, full);
    if r <= HALF_TURN {
        vstd::arithmetic::div_mod::lemma_small_mod(r as nat, full as nat);
    } else {
        assert(r - full == (-1) * full + r);
        vstd::arithmetic::div_mod::lemma_fundamental_div_mod_converse(r - full, full, -1, r);
    }
}

/// No other angle in `(-180°, 180°]` lies whole turns from `x` than the
/// fold of `x`.
pub proof fn lemma_folded_unique(x: int, y: int)
    requires
        -HALF_TURN < y <= HALF_TURN,
        normalized(y) == normalized(x),
    ensures
        y == folded(x),
{
    let full = FULL_TURN as int;
    if y >= 0 {
        vstd::arithmetic::div_mod::lemma_small_mod(y as nat, full as nat);
    } else {
        assert(y == (-1) * full + (y + full));
        vstd::arithmetic::div_mod::lemma_fundamental_div_mod_converse(y, full, -1, y + full);
    }
}

/// Folding a second time changes nothing.
pub proof fn lemma_folded_twice(x: int)
    ensures
        folded(folded(x)) == folded(x),
{
    lemma_folded_range(x);
}

/// Whether `x` is a multiple of two.
pub fn is_even(x: u64) -> (even: bool)
    ensures
        even == (x % 2 == 0),
{
    x % 2 == 0
}

/// The size of `x` without its sign.
pub(crate) fn magnitude(x: i128) -> (a: u128)
    ensures
        a == if x < 0 { -x } else { x as int },
{
    if x >= 0 {
        x as u128
    } else {
        let up: i128 = -(x + 1);
        (up as u128) + 1
    }
}

/// Folds a degree value into `(-180°, 180°]`: the magnitude is cut into
/// bands of 180°, and the band's parity says whether what is left over
/// stands as it is, with the sign of the value, or is taken from the far
/// side. An odd multiple of 180° gives 180°, whatever its sign.
pub fn plus_minus_pi_deg(deg_plus_minus: Deg) -> (folded_deg: Deg)
    ensures
        folded_deg.0 == folded(deg_plus_minus.0 as int),
        -HALF_TURN < folded_deg.0 <= HALF_TURN,
        normalized(folded_deg.0 as int) == normalized(deg_plus_minus.0 as int),
{
    let negative = deg_plus_minus.0 < 0;
    let deg: u128 = magnitude(deg_plus_minus.0);
    let half: u128 = HALF_TURN as u128;
    let n: u128 = deg / half;
    let d: u128 = deg % half;
    let band: u64 = (n % 2) as u64;
    let left: i128 = d as i128;
    proof {
        let x = deg_plus_minus.0 as int;
        vstd::arithmetic::div_mod::lemma_fundamental_div_mod(deg as int, HALF_TURN as int);
        vstd::arithmetic::div_mod::lemma_mod_bound(deg as int, HALF_TURN as int);
        vstd::arithmetic::div_mod::lemma_div_pos_is_pos(deg as int, HALF_TURN as int);
        assert(deg == n * HALF_TURN + d) by (nonlinear_arith)
            requires
                deg == HALF_TURN * n + d,
        ;
        if !negative {
            lemma_folded_by_half_turns(x, n as int, d as int);
        } else if d == 0 {
            assert(x == (-(n as int)) * HALF_TURN + 0);
            assert((-(n as int)) % 2 == 0 <==> n % 2 == 0);
            lemma_folded_by_half_turns(x, -(n as int), 0);
        } else {
            assert(x == (-(n as int) - 1) * HALF_TURN + (HALF_TURN - d));
            assert((-(n as int) - 1) % 2 == 0 <==> n % 2 != 0);
            lemma_folded_by_half_turns(x, -(n as int) - 1, HALF_TURN - d);
        }
        lemma_folded_range(x);
    }
    if d == 0 {
        if is_even(band) {
            Deg(0)
        } else {
            Deg(HALF_TURN)
        }
    } else if is_even(band) {
        if negative {
            Deg(-left)
        } else {
            Deg(left)
        }
    } else if negative {
        Deg(HALF_TURN - left)
    } else {
        Deg(left - HALF_TURN)
    }
}

/// Folds a degree value as `plus_minus_pi_deg` does and hands it back only
/// where it then lies in `[-90°, 90°]`.
pub fn is_plus_minus_half_pi_deg(deg: Deg) -> (within: Option<Deg>)
    ensures
        within == if in_quarter_turn(folded(deg.0 as int)) {
            Some(Deg(folded(deg.0 as int) as i128))
        } else {
            None
        },
{
    let deg = plus_minus_pi_deg(deg);
    if deg.0 < -QUARTER_TURN || deg.0 > QUARTER_TURN {
        None
    } else {
        Some(deg)
    }
}

} // verus!
