//! How values are written out: whole numbers in decimal, and an angle in
//! degrees, minutes and seconds.

use vstd::prelude::*;
use vstd::string::*;
use crate::units::convert::magnitude;
use crate::units::{Length, DMS};

verus! {

/// A value that can be written out.
pub trait Show {
    /// The value written out.
    spec fn text(&self) -> Seq<char>;

    /// Writes the value out.
    fn show(&self) -> (shown: String)
        ensures
            shown@ == self.text(),
    ;
}

/// The decimal digit for `d`, which is less than ten.
pub open spec fn digit(d: nat) -> char {
    if d == 0 {
        '0'
    } else if d == 1 {
        '1'
    } else if d == 2 {
        '2'
    } else if d == 3 {
        '3'
    } else if d == 4 {
        '4'
    } else if d == 5 {
        '5'
    } else if d == 6 {
        '6'
    } else if d == 7 {
        '7'
    } else if d == 8 {
        '8'
    } else {
        '9'
    }
}

/// `n` in decimal, without leading zeros.
pub open spec fn digits(n: nat) -> Seq<char>
    decreases n,
{
    if n < 10 {
        seq![digit(n)]
    } else {
        digits(n / 10).push(digit(n % 10))
    }
}

/// The last `width` decimal digits of `n`, with leading zeros where `n` is
/// short of them.
pub open spec fn padded(n: nat, width: nat) -> Seq<char>
    decreases width,
{
    if width == 0 {
        Seq::<char>::empty()
    } else {
        padded(n / 10, (width - 1) as nat).push(digit(n % 10))
    }
}

/// The digits behind the decimal point of `n` units of `10^-width`, with
/// the zeros at the end left out.
pub open spec fn fraction(n: nat, width: nat) -> Seq<char>
    decreases width,
{
    if width == 0 {
        Seq::<char>::empty()
    } else if n % 10 == 0 {
        fraction(n / 10, (width - 1) as nat)
    } else {
        padded(n, width)
    }
}

/// A whole number in decimal, with a minus sign where it is negative.
pub open spec fn signed(n: int) -> Seq<char> {
    if n < 0 {
        seq!['-'] + digits((-n) as nat)
    } else {
        digits(n as nat)
    }
}

/// Ten to the power `p`.
pub open spec fn pow10(p: nat) -> nat
    decreases p,
{
    if p == 0 {
        1
    } else {
        10 * pow10((p - 1) as nat)
    }
}

/// A count of units of `10^-places` as a decimal number: the whole part,
/// and behind a point the part below one, where there is any, without
/// zeros at its end.
pub open spec fn decimal(count: nat, places: nat) -> Seq<char> {
    let whole = count / pow10(places);
    let below = count % pow10(places);
    if below == 0 {
        digits(whole)
    } else {
        digits(whole) + seq!['.'] + fraction(below, places)
    }
}

/// A length of so many micrometres written in metres: `-0.000404` for 404
/// micrometres short.
pub open spec fn meters(micrometers: int) -> Seq<char> {
    if micrometers < 0 {
        seq!['-'] + decimal((-micrometers) as nat, 6)
    } else {
        decimal(micrometers as nat, 6)
    }
}

/// A count of units of a million millionth in units of `10^-precision`,
/// for a precision of twelve or less, rounded to the nearest of them and to
/// the even one where two are equally near.
pub open spec fn rounded(units: nat, precision: nat) -> nat {
    let step = pow10((12 - precision) as nat);
    let below = units / step;
    let over = units % step;
    if 2 * over > step || (2 * over == step && below % 2 == 1) {
        below + 1
    } else {
        below
    }
}

/// `count` zeros.
pub open spec fn zeros(count: nat) -> Seq<char> {
    Seq::new(count, |i: int| '0')
}

/// A count of units of a million millionth as a decimal number with
/// `precision` digits behind the point, rounded where the precision is less
/// than twelve; without digits behind the point there is no point.
pub open spec fn decimal_to(units: nat, precision: nat) -> Seq<char> {
    if precision == 0 {
        digits(rounded(units, 0))
    } else if precision <= 12 {
        let count = rounded(units, precision);
        digits(count / pow10(precision)) + seq!['.'] + padded(count % pow10(precision), precision)
    } else {
        digits(units / pow10(12)) + seq!['.'] + padded(units % pow10(12), 12) + zeros(
            (precision - 12) as nat,
        )
    }
}

fn digit_text(d: u8) -> (text: &'static str)
    requires
        d < 10,
    ensures
        text@ == seq![digit(d as nat)],
{
    proof {
        reveal_strlit("0");
        reveal_strlit("1");
        reveal_strlit("2");
        reveal_strlit("3");
        reveal_strlit("4");
        reveal_strlit("5");
        reveal_strlit("6");
        reveal_strlit("7");
        reveal_strlit("8");
        reveal_strlit("9");
    }
    let text = if d == 0 {
        "0"
    } else if d == 1 {
        "1"
    } else if d == 2 {
        "2"
    } else if d == 3 {
        "3"
    } else if d == 4 {
        "4"
    } else if d == 5 {
        "5"
    } else if d == 6 {
        "6"
    } else if d == 7 {
        "7"
    } else if d == 8 {
        "8"
    } else {
        "9"
    };
    assert(text@ =~= seq![digit(d as nat)]);
    text
}

/// Writes `n` in decimal at the end of `text`.
fn push_digits(text: &mut String, n: u128)
    ensures
        final(text)@ == old(text)@ + digits(n as nat),
    decreases n,
{
    if n >= 10 {
        push_digits(text, n / 10);
    }
    text.append(digit_text((n % 10) as u8));
    assert(final(text)@ =~= old(text)@ + digits(n as nat));
}

/// Writes the last `width` decimal digits of `n` at the end of `text`.
fn push_padded(text: &mut String, n: u128, width: u32)
    ensures
        final(text)@ == old(text)@ + padded(n as nat, width as nat),
    decreases width,
{
    if width > 0 {
        push_padded(text, n / 10, width - 1);
        text.append(digit_text((n % 10) as u8));
    }
    assert(final(text)@ =~= old(text)@ + padded(n as nat, width as nat));
}

/// Writes the digits behind the decimal point of `n` units of `10^-width`
/// at the end of `text`.
fn push_fraction(text: &mut String, n: u128, width: u32)
    ensures
        final(text)@ == old(text)@ + fraction(n as nat, width as nat),
    decreases width,
{
    if width == 0 {
        assert(final(text)@ =~= old(text)@ + fraction(n as nat, width as nat));
    } else if n % 10 == 0 {
        push_fraction(text, n / 10, width - 1);
    } else {
        push_padded(text, n, width);
    }
}

/// The powers of ten grow with the exponent, from one.
proof fn lemma_pow10_grows(p: nat, q: nat)
    requires
        p <= q,
    ensures
        1 <= pow10(p) <= pow10(q),
    decreases q,
{
    if p < q {
        lemma_pow10_grows(p, (q - 1) as nat);
    } else if p > 0 {
        lemma_pow10_grows((p - 1) as nat, (p - 1) as nat);
    }
}

/// Ten to the power `p`.
fn power_of_ten(p: u32) -> (power: u128)
    requires
        p <= 12,
    ensures
        power == pow10(p as nat),
        1 <= power <= 1_000_000_000_000,
    decreases p,
{
    proof {
        lemma_pow10_grows(p as nat, 12);
        assert(pow10(12) == 1_000_000_000_000) by {
            reveal_with_fuel(pow10, 13);
        }
    }
    if p == 0 {
        1
    } else {
        10 * power_of_ten(p - 1)
    }
}

/// Writes a count of units of `10^-places` as a decimal number at the end of
/// `text`.
fn push_decimal(text: &mut String, count: u128, places: u32)
    requires
        places <= 12,
    ensures
        final(text)@ == old(text)@ + decimal(count as nat, places as nat),
{
    let per: u128 = power_of_ten(places);
    let whole: u128 = count / per;
    let below: u128 = count % per;
    push_digits(text, whole);
    if below != 0 {
        text.append(".");
        proof {
            reveal_strlit(".");
        }
        push_fraction(text, below, places);
    }
    assert(final(text)@ =~= old(text)@ + decimal(count as nat, places as nat));
}

/// Writes a count of units of a million millionth as a decimal number with
/// `precision` digits behind the point at the end of `text`.
fn push_decimal_to(text: &mut String, units: u128, precision: usize)
    requires
        units <= u64::MAX,
    ensures
        final(text)@ == old(text)@ + decimal_to(units as nat, precision as nat),
{
    if precision <= 12 {
        let places = precision as u32;
        let step = power_of_ten(12 - places);
        let below = units / step;
        let over = units % step;
        let count = if 2 * over > step || (2 * over == step && below % 2 == 1) {
            below + 1
        } else {
            below
        };
        if places == 0 {
            push_digits(text, count);
        } else {
            let scale = power_of_ten(places);
            push_digits(text, count / scale);
            text.append(".");
            push_padded(text, count % scale, places);
        }
    } else {
        let scale = power_of_ten(12);
        push_digits(text, units / scale);
        text.append(".");
        push_padded(text, units % scale, 12);
        let ghost before = text@;
        let mut written: usize = 12;
        while written < precision
            invariant
                12 <= written <= precision,
                text@ == before + zeros((written - 12) as nat),
            decreases precision - written,
        {
            text.append("0");
            written += 1;
            proof {
                reveal_strlit("0");
                assert(text@ =~= before + zeros((written - 12) as nat));
            }
        }
    }
    proof {
        reveal_strlit(".");
        assert(final(text)@ =~= old(text)@ + decimal_to(units as nat, precision as nat));
    }
}

impl Show for i128 {
    open spec fn text(&self) -> Seq<char> {
        signed(*self as int)
    }

    fn show(&self) -> (shown: String) {
        let mut text = String::new();
        if *self < 0 {
            text.append("-");
            proof {
                reveal_strlit("-");
            }
        }
        push_digits(&mut text, magnitude(*self));
        assert(text@ =~= signed(*self as int));
        text
    }
}

impl Show for Length {
    /// The length in metres.
    open spec fn text(&self) -> Seq<char> {
        meters(self.0 as int)
    }

    fn show(&self) -> (shown: String) {
        let mut text = String::new();
        if self.0 < 0 {
            text.append("-");
            proof {
                reveal_strlit("-");
            }
        }
        push_decimal(&mut text, magnitude(self.0), 6);
        assert(text@ =~= meters(self.0 as int));
        text
    }
}

impl Show for DMS {
    /// The sign, which any negative field gives, then the sizes of the three
    /// fields: `-0°1'30.5"`.
    open spec fn text(&self) -> Seq<char> {
        let sign = if self.deg < 0 || self.min < 0 || self.sec < 0 {
            seq!['-']
        } else {
            Seq::<char>::empty()
        };
        let deg: nat = (if self.deg < 0 { -self.deg } else { self.deg as int }) as nat;
        let min: nat = (if self.min < 0 { -self.min } else { self.min as int }) as nat;
        let sec: nat = (if self.sec < 0 { -self.sec } else { self.sec as int }) as nat;
        sign + digits(deg) + seq!['°'] + digits(min) + seq!['\''] + decimal(sec, 12) + seq!['"']
    }

    fn show(&self) -> (shown: String) {
        let mut text = String::new();
        if self.deg < 0 || self.min < 0 || self.sec < 0 {
            text.append("-");
        }
        push_digits(&mut text, magnitude(self.deg as i128));
        text.append("°");
        push_digits(&mut text, magnitude(self.min as i128));
        text.append("'");
        push_decimal(&mut text, magnitude(self.sec as i128), 12);
        text.append("\"");
        proof {
            reveal_strlit("-");
            reveal_strlit("°");
            reveal_strlit("'");
            reveal_strlit("\"");
            assert(text@ =~= self.text());
        }
        text
    }
}

impl DMS {
    /// The angle written out with `precision` digits behind the point of
    /// the seconds. Seconds that are zero are written as `0` whatever the
    /// precision.
    pub open spec fn text_to(self, precision: nat) -> Seq<char> {
        let sign = if self.deg < 0 || self.min < 0 || self.sec < 0 {
            seq!['-']
        } else {
            Seq::<char>::empty()
        };
        let deg: nat = (if self.deg < 0 { -self.deg } else { self.deg as int }) as nat;
        let min: nat = (if self.min < 0 { -self.min } else { self.min as int }) as nat;
        let sec: nat = (if self.sec < 0 { -self.sec } else { self.sec as int }) as nat;
        let seconds = if sec == 0 {
            seq!['0']
        } else {
            decimal_to(sec, precision)
        };
        sign + digits(deg) + seq!['°'] + digits(min) + seq!['\''] + seconds + seq!['"']
    }

    /// Writes the angle out with the seconds rounded to `precision` digits
    /// behind the point: one sign for the whole angle, which any negative
    /// field gives, then the sizes of the fields.
    pub fn show_to(&self, precision: usize) -> (shown: String)
        ensures
            shown@ == self.text_to(precision as nat),
    {
        let mut text = String::new();
        if self.deg < 0 || self.min < 0 || self.sec < 0 {
            text.append("-");
        }
        push_digits(&mut text, magnitude(self.deg as i128));
        text.append("°");
        push_digits(&mut text, magnitude(self.min as i128));
        text.append("'");
        if self.sec == 0 {
            text.append("0");
        } else {
            push_decimal_to(&mut text, magnitude(self.sec as i128), precision);
        }
        text.append("\"");
        proof {
            reveal_strlit("-");
            reveal_strlit("°");
            reveal_strlit("'");
            reveal_strlit("0");
            reveal_strlit("\"");
            assert(text@ =~= self.text_to(precision as nat));
        }
        text
    }
}

} // verus!
