//! Exact decimal numbers with six fractional digits.
//!
//! Amounts, rates and ratios are all held as a whole number of millionths, so that
//! sums and differences are exact and every quotient is rounded in one stated way:
//! down to the next millionth. A text with more digits after the point than six
//! is read as the nearest millionth.

use vstd::prelude::*;
use crate::text::{decimal_digits, digit_char, push_decimal, to_chars};

verus! {

/// Millionths in one unit.
pub const SCALE: i128 = 1_000_000;

/// The largest magnitude, in millionths, that an input value may have: a
/// million millions of units.
pub const LIMIT: i128 = 1_000_000_000_000_000_000;

/// A decimal number, held as `micros` millionths.
#[derive(Clone, Copy, Debug, PartialEq, Eq, Structural)]
pub struct Decimal {
    pub micros: i128,
}

/// `a / b` rounded down to a whole number, for any sign of `a` and of `b`.
pub open spec fn floor_div(a: int, b: int) -> int
    recommends
        b != 0,
{
    if b > 0 {
        a / b
    } else {
        (-a) / (-b)
    }
}

/// The magnitude of `a`.
pub open spec fn magnitude(a: int) -> int {
    if a < 0 {
        -a
    } else {
        a
    }
}

/// `|a|` lies within `bound`.
pub open spec fn within(a: int, bound: int) -> bool {
    -bound <= a <= bound
}

/// The quotient `a / b` in millionths, rounded down, of two numbers given in
/// millionths.
pub open spec fn ratio_micros(a: int, b: int) -> int
    recommends
        b != 0,
{
    floor_div(a * SCALE as int, b)
}

/// The number of hundredths nearest to `m` millionths, where `m >= 0`; a value
/// that lies exactly between two hundredths goes to the even one.
pub open spec fn nearest_hundredth(m: int) -> int
    recommends
        m >= 0,
{
    let q = m / 10_000;
    let r = m % 10_000;
    if r > 5_000 || (r == 5_000 && q % 2 == 1) {
        q + 1
    } else {
        q
    }
}

/// The text of `m >= 0` millionths with two fractional digits: the whole part
/// without leading zeros, a point, and two digits.
pub open spec fn unsigned_two_places(m: int) -> Seq<char>
    recommends
        m >= 0,
{
    let h = nearest_hundredth(m);
    decimal_digits((h / 100) as nat) + seq!['.', digit_char((h / 10) % 10), digit_char(h % 10)]
}

/// The text of `m` millionths with two fractional digits, after a minus sign
/// where `m` is negative.
pub open spec fn two_places(m: int) -> Seq<char> {
    if m < 0 {
        seq!['-'] + unsigned_two_places(-m)
    } else {
        unsigned_two_places(m)
    }
}

/// `c` is one of the ten ASCII digits.
pub open spec fn is_digit(c: char) -> bool {
    '0' <= c <= '9'
}

/// The digit that `c` shows.
pub open spec fn digit_value(c: char) -> int {
    c as int - '0' as int
}

/// Every character of `s` is an ASCII digit.
pub open spec fn all_digits(s: Seq<char>) -> bool {
    forall|i: int| 0 <= i < s.len() ==> is_digit(#[trigger] s[i])
}

/// The number that a run of digits spells out; the empty run spells zero.
pub open spec fn digits_value(s: Seq<char>) -> nat
    decreases s.len(),
{
    if s.len() == 0 {
        0
    } else {
        (digits_value(s.drop_last()) * 10 + digit_value(s.last())) as nat
    }
}

/// Ten to the power `k`.
pub open spec fn pow10(k: nat) -> nat
    decreases k,
{
    if k == 0 {
        1
    } else {
        10 * pow10((k - 1) as nat)
    }
}

/// The place of the first `.` in `s`, or `s.len()` where there is none.
pub open spec fn point_position(s: Seq<char>) -> int
    decreases s.len(),
{
    if s.len() == 0 {
        0
    } else if s[0] == '.' {
        0
    } else {
        1 + point_position(s.drop_first())
    }
}

/// The text `s` carries a leading sign.
pub open spec fn has_sign(s: Seq<char>) -> bool {
    s.len() > 0 && (s[0] == '-' || s[0] == '+')
}

/// The text `s` after its sign, if it has one.
pub open spec fn unsigned_part(s: Seq<char>) -> Seq<char> {
    if has_sign(s) {
        s.drop_first()
    } else {
        s
    }
}

/// The digits before the point.
pub open spec fn whole_part(s: Seq<char>) -> Seq<char> {
    unsigned_part(s).take(point_position(unsigned_part(s)))
}

/// The digits after the point; empty where there is no point.
pub open spec fn fraction_part(s: Seq<char>) -> Seq<char> {
    let body = unsigned_part(s);
    let p = point_position(body);
    if p < body.len() {
        body.skip(p + 1)
    } else {
        Seq::empty()
    }
}

/// The digits after the point that count in full: the first six.
pub open spec fn kept_digits(f: Seq<char>) -> Seq<char> {
    if f.len() > 6 {
        f.take(6)
    } else {
        f
    }
}

/// The digits beyond the sixth make the magnitude one millionth larger: there is
/// a seventh digit and it is 5 or more.
pub open spec fn rounds_up(f: Seq<char>) -> bool {
    f.len() > 6 && digit_value(f[6]) >= 5
}

/// The millionths that the digits `f` after a point spell out, rounded to the
/// nearest millionth, and upwards from the middle.
pub open spec fn fraction_micros(f: Seq<char>) -> int {
    digits_value(kept_digits(f)) * pow10((6 - kept_digits(f).len()) as nat) + if rounds_up(f) {
        1int
    } else {
        0int
    }
}

/// The magnitude, in millionths, that a well-formed decimal text spells out: the
/// number it spells, rounded to the nearest millionth, and away from zero from
/// the middle.
pub open spec fn spelled_magnitude(s: Seq<char>) -> int {
    digits_value(whole_part(s)) * SCALE as int + fraction_micros(fraction_part(s))
}

/// The text is a decimal number that a `Decimal` can hold: an optional sign,
/// digits with at most one point among them, at least one digit, and a magnitude
/// that, rounded to a millionth, lies within `LIMIT`.
///
/// Nothing else is a decimal text. An exponent, a thousands separator, blanks
/// and the words for infinity and not-a-number are not read: facts are amounts
/// as documents print them, and a text in another form is more likely a
/// misreading than an amount.
pub open spec fn is_decimal_text(s: Seq<char>) -> bool {
    &&& all_digits(whole_part(s))
    &&& all_digits(fraction_part(s))
    &&& whole_part(s).len() + fraction_part(s).len() > 0
    &&& spelled_magnitude(s) <= LIMIT
}

/// The text is a number written plainly: digits with at most one point among
/// them, and at least one digit. It has no sign, and no bound on its size.
pub open spec fn is_plain_number(s: Seq<char>) -> bool {
    let p = point_position(s);
    let before = s.take(p);
    let after = if p < s.len() {
        s.skip(p + 1)
    } else {
        Seq::empty()
    };
    &&& all_digits(before)
    &&& all_digits(after)
    &&& before.len() + after.len() > 0
}

/// The value in millionths of a decimal text, where it is one.
pub open spec fn decimal_text_value(s: Seq<char>) -> Option<int> {
    if is_decimal_text(s) {
        if s[0] == '-' {
            Some(-spelled_magnitude(s))
        } else {
            Some(spelled_magnitude(s))
        }
    } else {
        None
    }
}

/// The text is a whole number that fits in an `i32`: an optional sign and at
/// least one digit, nothing else.
pub open spec fn is_i32_text(s: Seq<char>) -> bool {
    &&& unsigned_part(s).len() > 0
    &&& all_digits(unsigned_part(s))
    &&& if s[0] == '-' {
        digits_value(unsigned_part(s)) <= 2_147_483_648
    } else {
        digits_value(unsigned_part(s)) <= 2_147_483_647
    }
}

/// The value of a whole-number text, where it is one.
pub open spec fn i32_text_value(s: Seq<char>) -> Option<int> {
    if is_i32_text(s) {
        if s[0] == '-' {
            Some(-(digits_value(unsigned_part(s)) as int))
        } else {
            Some(digits_value(unsigned_part(s)) as int)
        }
    } else {
        None
    }
}

/// A longer run of digits spells a number at least as large as any of its
/// prefixes does.
proof fn lemma_digits_value_prefix(s: Seq<char>, k: int)
    requires
        all_digits(s),
        0 <= k <= s.len(),
    ensures
        digits_value(s.take(k)) <= digits_value(s),
    decreases s.len() - k,
{
    if k == s.len() {
        assert(s.take(k) =~= s);
    } else {
        lemma_digits_value_prefix(s, k + 1);
        let t = s.take(k + 1);
        assert(t.drop_last() =~= s.take(k));
        assert(is_digit(s[k]));
        assert(t.last() == s[k]);
    }
}

/// A run of `k` digits spells a number below ten to the power `k`.
proof fn lemma_digits_value_bound(s: Seq<char>)
    requires
        all_digits(s),
    ensures
        digits_value(s) < pow10(s.len()),
    decreases s.len(),
{
    if s.len() > 0 {
        let t = s.drop_last();
        assert(all_digits(t)) by {
            assert forall|i: int| 0 <= i < t.len() implies is_digit(#[trigger] t[i]) by {
                assert(t[i] == s[i]);
            }
        }
        lemma_digits_value_bound(t);
        assert(is_digit(s[s.len() - 1]));
    }
}

/// The place that `point_position` gives is the first point: no point stands
/// before it, and one stands there unless it is the end of the text.
proof fn lemma_point_position(s: Seq<char>)
    ensures
        0 <= point_position(s) <= s.len(),
        forall|i: int| 0 <= i < point_position(s) ==> s[i] != '.',
        point_position(s) < s.len() ==> s[point_position(s)] == '.',
    decreases s.len(),
{
    if s.len() > 0 && s[0] != '.' {
        let t = s.drop_first();
        lemma_point_position(t);
        assert forall|i: int| 0 <= i < point_position(s) implies s[i] != '.' by {
            if i > 0 {
                assert(s[i] == t[i - 1]);
            }
        }
    }
}

/// A place with no point before it, and with a point at it or at the end of the
/// text, is the place that `point_position` gives.
proof fn lemma_point_position_unique(s: Seq<char>, p: int)
    requires
        0 <= p <= s.len(),
        forall|i: int| 0 <= i < p ==> s[i] != '.',
        p < s.len() ==> s[p] == '.',
    ensures
        point_position(s) == p,
{
    lemma_point_position(s);
    let q = point_position(s);
    if q < p {
        assert(s[q] == '.');
    } else if p < q {
        assert(s[p] == '.');
    }
}

/// The magnitude of a machine integer.
fn magnitude_of(m: i128) -> (r: u128)
    ensures
        r == magnitude(m as int),
{
    if m < 0 {
        (-(m + 1)) as u128 + 1
    } else {
        m as u128
    }
}

/// Appends the text of `m` millionths with two fractional digits.
fn push_two_places(out: &mut String, m: u128)
    ensures
        final(out)@ == old(out)@ + unsigned_two_places(m as int),
{
    let q: u128 = m / 10_000;
    let r: u128 = m % 10_000;
    let h: u128 = if r > 5_000 || (r == 5_000 && q % 2 == 1) {
        q + 1
    } else {
        q
    };
    push_decimal(out, h / 100);
    out.push('.');
    push_decimal(out, (h / 10) % 10);
    push_decimal(out, h % 10);
    proof {
        let dh = decimal_digits((h / 100) as nat);
        assert(decimal_digits(((h / 10) % 10) as nat) =~= seq![digit_char(((h / 10) % 10) as int)]);
        assert(decimal_digits((h % 10) as nat) =~= seq![digit_char((h % 10) as int)]);
        assert(out@ =~= old(out)@ + (dh + seq![
            '.',
            digit_char(((h / 10) % 10) as int),
            digit_char((h % 10) as int),
        ]));
    }
}

impl Decimal {
    /// The number zero.
    pub fn zero() -> (d: Decimal)
        ensures
            d.micros == 0,
    {
        Decimal { micros: 0 }
    }

    /// The number of `micros` millionths.
    pub fn from_micros(micros: i128) -> (d: Decimal)
        ensures
            d.micros == micros,
    {
        Decimal { micros }
    }

    /// The whole number `units`.
    pub fn from_units(units: i64) -> (d: Decimal)
        ensures
            d.micros == units * SCALE,
    {
        let wide: i128 = units as i128;
        Decimal { micros: wide * SCALE }
    }

    /// The magnitude is within `LIMIT`, as every input to a calculation must be.
    pub open spec fn in_range(self) -> bool {
        within(self.micros as int, LIMIT as int)
    }

    /// Tests `in_range`.
    pub fn is_in_range(&self) -> (r: bool)
        ensures
            r == self.in_range(),
    {
        -LIMIT <= self.micros && self.micros <= LIMIT
    }

    /// The magnitude of the number.
    pub fn abs(&self) -> (d: Decimal)
        requires
            self.micros > i128::MIN,
        ensures
            d.micros == magnitude(self.micros as int),
    {
        if self.micros < 0 {
            Decimal { micros: -self.micros }
        } else {
            *self
        }
    }

    /// The text of the number with two fractional digits, rounded to the nearest
    /// hundredth (to the even one from the middle).
    pub fn format_2dp(&self) -> (s: String)
        ensures
            s@ == two_places(self.micros as int),
    {
        let mut s = String::new();
        if self.micros < 0 {
            s.push('-');
        }
        push_two_places(&mut s, magnitude_of(self.micros));
        proof {
            if self.micros < 0 {
                assert(s@ =~= seq!['-'] + unsigned_two_places(-self.micros));
            } else {
                assert(s@ =~= unsigned_two_places(self.micros as int));
            }
        }
        s
    }

    /// The text of the magnitude of the number with two fractional digits.
    pub fn format_magnitude_2dp(&self) -> (s: String)
        ensures
            s@ == unsigned_two_places(magnitude(self.micros as int)),
    {
        let mut s = String::new();
        push_two_places(&mut s, magnitude_of(self.micros));
        proof {
            assert(s@ =~= unsigned_two_places(magnitude(self.micros as int)));
        }
        s
    }
}

/// Rounding down turns the quotient of a negated number into the negated
/// quotient, lowered by one where the division leaves a remainder.
pub proof fn lemma_floor_of_negated(m: int, b: int)
    requires
        m >= 0,
        b > 0,
    ensures
        (-m) / b == if m % b == 0 {
            -(m / b)
        } else {
            -(m / b) - 1
        },
{
    let q = m / b;
    let r = m % b;
    vstd::arithmetic::div_mod::lemma_fundamental_div_mod(m, b);
    assert(b * q == q * b) by (nonlinear_arith);
    if r == 0 {
        assert(-m == (-q) * b + 0) by (nonlinear_arith)
            requires
                m == q * b + r,
                r == 0,
        ;
        vstd::arithmetic::div_mod::lemma_fundamental_div_mod_converse(-m, b, -q, 0);
    } else {
        assert(-m == (-q - 1) * b + (b - r)) by (nonlinear_arith)
            requires
                m == q * b + r,
        ;
        vstd::arithmetic::div_mod::lemma_fundamental_div_mod_converse(-m, b, -q - 1, b - r);
    }
}

/// The quotient is no larger in magnitude than the dividend.
pub proof fn lemma_floor_div_bound(a: int, b: int)
    requires
        b != 0,
    ensures
        within(floor_div(a, b), magnitude(a)),
{
    let x = if b > 0 {
        a
    } else {
        -a
    };
    let d = magnitude(b);
    assert(floor_div(a, b) == x / d);
    if x >= 0 {
        vstd::arithmetic::div_mod::lemma_div_pos_is_pos(x, d);
        vstd::arithmetic::div_mod::lemma_div_is_ordered_by_denominator(x, 1, d);
        assert(x / 1 == x);
    } else {
        lemma_floor_of_negated(-x, d);
        vstd::arithmetic::div_mod::lemma_div_pos_is_pos(-x, d);
        vstd::arithmetic::div_mod::lemma_div_is_ordered_by_denominator(-x, 1, d);
        assert((-x) / 1 == -x);
        vstd::arithmetic::div_mod::lemma_fundamental_div_mod(-x, d);
        if (-x) % d != 0 {
            // the quotient of the magnitude is below the magnitude itself
            assert((-x) / d < -x) by (nonlinear_arith)
                requires
                    -x == d * ((-x) / d) + ((-x) % d),
                    (-x) % d > 0,
                    d >= 1,
                    (-x) / d >= 0,
            ;
        }
    }
}

/// A dividend within `k` times a positive divisor gives a quotient within `k`.
pub proof fn lemma_floor_div_within(a: int, b: int, k: int)
    requires
        b > 0,
        k >= 0,
        within(a, k * b),
    ensures
        within(floor_div(a, b), k),
{
    vstd::arithmetic::div_mod::lemma_div_is_ordered(a, k * b, b);
    vstd::arithmetic::div_mod::lemma_div_is_ordered(-(k * b), a, b);
    vstd::arithmetic::div_mod::lemma_div_multiples_vanish(k, b);
    vstd::arithmetic::div_mod::lemma_div_multiples_vanish(-k, b);
    assert(b * k == k * b) by (nonlinear_arith);
    assert(b * (-k) == -(k * b)) by (nonlinear_arith);
}

/// `a / b`, rounded down.
pub fn div_floor(a: i128, b: i128) -> (q: i128)
    requires
        b != 0,
        a > i128::MIN,
        b > i128::MIN,
    ensures
        q == floor_div(a as int, b as int),
        within(q as int, magnitude(a as int)),
{
    let x: i128 = if b > 0 {
        a
    } else {
        -a
    };
    let d: i128 = if b > 0 {
        b
    } else {
        -b
    };
    proof {
        lemma_floor_div_bound(a as int, b as int);
    }
    if x >= 0 {
        x / d
    } else {
        let m: i128 = -x;
        let q: i128 = m / d;
        let r: i128 = m % d;
        proof {
            lemma_floor_of_negated(m as int, d as int);
        }
        if r == 0 {
            -q
        } else {
            -q - 1
        }
    }
}

/// Reads the digits `v[from..to]`: `Some` of the number they spell exactly when
/// all of them are digits and that number is at most `cap`.
fn scan_digits(v: &Vec<char>, from: usize, to: usize, cap: i128) -> (r: Option<i128>)
    requires
        from <= to <= v.len(),
        0 <= cap <= 1_000_000_000_000_000_000_000_000,
    ensures
        r is Some <==> all_digits(v@.subrange(from as int, to as int)) && digits_value(
            v@.subrange(from as int, to as int),
        ) <= cap,
        r matches Some(x) ==> x == digits_value(v@.subrange(from as int, to as int)),
{
    let ghost run = v@.subrange(from as int, to as int);
    let mut value: i128 = 0;
    let mut i: usize = from;
    while i < to
        invariant
            from <= i <= to <= v.len(),
            run == v@.subrange(from as int, to as int),
            all_digits(run.take(i - from)),
            value == digits_value(run.take(i - from)),
            0 <= value <= cap <= 1_000_000_000_000_000_000_000_000,
        decreases to - i,
    {
        let c: char = v[i];
        if !(c >= '0' && c <= '9') {
            proof {
                assert(run[i - from] == c);
            }
            return None;
        }
        let d: i128 = (c as u32 - '0' as u32) as i128;
        let next: i128 = value * 10 + d;
        proof {
            let t = run.take(i - from + 1);
            assert(t.drop_last() =~= run.take(i - from));
            assert(t.last() == c);
            assert(all_digits(t)) by {
                assert forall|j: int| 0 <= j < t.len() implies is_digit(#[trigger] t[j]) by {
                    if j < t.len() - 1 {
                        assert(t[j] == run.take(i - from)[j]);
                    }
                }
            }
            assert(next == digits_value(t));
        }
        if next > cap {
            proof {
                if all_digits(run) {
                    lemma_digits_value_prefix(run, i - from + 1);
                }
            }
            return None;
        }
        value = next;
        i = i + 1;
    }
    proof {
        assert(run.take(to - from) =~= run);
    }
    Some(value)
}

/// Tells whether the characters `v[from..to]` are all digits.
fn digits_only(v: &Vec<char>, from: usize, to: usize) -> (r: bool)
    requires
        from <= to <= v.len(),
    ensures
        r == all_digits(v@.subrange(from as int, to as int)),
{
    let ghost run = v@.subrange(from as int, to as int);
    let mut i: usize = from;
    while i < to
        invariant
            from <= i <= to <= v.len(),
            run == v@.subrange(from as int, to as int),
            forall|j: int| 0 <= j < i - from ==> is_digit(#[trigger] run[j]),
        decreases to - i,
    {
        let c: char = v[i];
        if !(c >= '0' && c <= '9') {
            proof {
                assert(run[i - from] == c);
            }
            return false;
        }
        i = i + 1;
    }
    true
}

/// The powers of ten up to a million.
proof fn lemma_pow10_values()
    ensures
        pow10(0) == 1,
        pow10(1) == 10,
        pow10(2) == 100,
        pow10(3) == 1_000,
        pow10(4) == 10_000,
        pow10(5) == 100_000,
        pow10(6) == 1_000_000,
{
    assert(pow10(0) == 1);
    assert(pow10(1) == 10 * pow10(0));
    assert(pow10(2) == 10 * pow10(1));
    assert(pow10(3) == 10 * pow10(2));
    assert(pow10(4) == 10 * pow10(3));
    assert(pow10(5) == 10 * pow10(4));
    assert(pow10(6) == 10 * pow10(5));
}

/// `part` times ten to the power `k`.
fn scale_up(part: i128, k: usize) -> (r: i128)
    requires
        k <= 6,
        0 <= part < pow10((6 - k) as nat),
    ensures
        r == part * pow10(k as nat),
        0 <= r < 1_000_000,
{
    proof {
        lemma_pow10_values();
    }
    if k == 0 {
        part
    } else if k == 1 {
        part * 10
    } else if k == 2 {
        part * 100
    } else if k == 3 {
        part * 1_000
    } else if k == 4 {
        part * 10_000
    } else if k == 5 {
        part * 100_000
    } else {
        part * 1_000_000
    }
}

/// The place of the first `.` at or after `start`, or the end of the text.
fn find_point(v: &Vec<char>, start: usize) -> (p: usize)
    requires
        start <= v.len(),
    ensures
        start <= p <= v.len(),
        p - start == point_position(v@.skip(start as int)),
{
    let mut p: usize = start;
    while p < v.len() && v[p] != '.'
        invariant
            start <= p <= v.len(),
            forall|i: int| start <= i < p ==> v@[i] != '.',
        decreases v.len() - p,
    {
        p = p + 1;
    }
    proof {
        let body = v@.skip(start as int);
        assert forall|i: int| 0 <= i < p - start implies body[i] != '.' by {
            assert(body[i] == v@[i + start]);
        }
        lemma_point_position_unique(body, p - start);
    }
    p
}

/// Reads the digits after a point, `v[from..]`: `Some` of the millionths they
/// spell exactly when all of them are digits.
fn read_fraction(v: &Vec<char>, from: usize) -> (r: Option<i128>)
    requires
        from <= v.len(),
    ensures
        r is Some <==> all_digits(v@.subrange(from as int, v.len() as int)),
        r matches Some(x) ==> x == fraction_micros(v@.subrange(from as int, v.len() as int)) && 0
            <= x <= 1_000_000,
{
    let kept_end: usize = if v.len() - from > 6 {
        from + 6
    } else {
        v.len()
    };
    let ghost frac = v@.subrange(from as int, v.len() as int);
    let ghost kept = kept_digits(frac);
    let ghost rest = v@.subrange(kept_end as int, v.len() as int);
    proof {
        assert(kept =~= v@.subrange(from as int, kept_end as int));
        assert forall|i: int| 0 <= i < kept.len() implies kept[i] == frac[i] by {}
        assert forall|i: int| 0 <= i < rest.len() implies rest[i] == frac[i + kept.len()] by {}
    }
    let part = match scan_digits(v, from, kept_end, 999_999) {
        Some(part) => part,
        None => {
            proof {
                if all_digits(frac) {
                    assert(all_digits(kept)) by {
                        assert forall|i: int| 0 <= i < kept.len() implies is_digit(
                            #[trigger] kept[i],
                        ) by {
                            assert(is_digit(frac[i]));
                        }
                    }
                    lemma_digits_value_bound(kept);
                    lemma_pow10_values();
                }
            }
            return None;
        },
    };
    if !digits_only(v, kept_end, v.len()) {
        proof {
            if all_digits(frac) {
                assert forall|i: int| 0 <= i < rest.len() implies is_digit(#[trigger] rest[i]) by {
                    assert(is_digit(frac[i + kept.len()]));
                }
            }
        }
        return None;
    }
    proof {
        assert(all_digits(frac)) by {
            assert forall|i: int| 0 <= i < frac.len() implies is_digit(#[trigger] frac[i]) by {
                if i < kept.len() {
                    assert(is_digit(kept[i]));
                } else {
                    assert(is_digit(rest[i - kept.len()]));
                }
            }
        }
        lemma_digits_value_bound(kept);
    }
    let scaled = scale_up(part, 6 - (kept_end - from));
    if v.len() - from > 6 && v[from + 6] >= '5' {
        proof {
            assert(frac[6] == v@[from + 6]);
            assert(is_digit(frac[6]));
        }
        Some(scaled + 1)
    } else {
        proof {
            if v.len() - from > 6 {
                assert(frac[6] == v@[from + 6]);
                assert(is_digit(frac[6]));
            }
        }
        Some(scaled)
    }
}

impl Decimal {
    /// Reads a decimal text: `Some` of its value exactly when the text is a
    /// decimal number that fits, `None` for every other text. Digits beyond the
    /// sixth after the point are not kept: the value is rounded to the nearest
    /// millionth.
    pub fn parse(s: &str) -> (r: Option<Decimal>)
        ensures
            r is Some <==> is_decimal_text(s@),
            r matches Some(d) ==> Some(d.micros as int) == decimal_text_value(s@) && d.in_range(),
    {
        let v = to_chars(s);
        let start: usize = if v.len() > 0 && (v[0] == '-' || v[0] == '+') {
            1
        } else {
            0
        };
        let negative: bool = v.len() > 0 && v[0] == '-';
        let p = find_point(&v, start);
        let frac_start: usize = if p < v.len() {
            p + 1
        } else {
            p
        };
        let ghost whole = whole_part(s@);
        let ghost frac = fraction_part(s@);
        proof {
            assert(unsigned_part(s@) =~= v@.skip(start as int));
            assert(whole =~= v@.subrange(start as int, p as int));
            assert(frac =~= v@.subrange(frac_start as int, v.len() as int));
        }
        if (p - start) + (v.len() - frac_start) == 0 {
            return None;
        }
        let part = match read_fraction(&v, frac_start) {
            Some(part) => part,
            None => {
                return None;
            },
        };
        let units = match scan_digits(&v, start, p, 1_000_000_000_000) {
            Some(units) => units,
            None => {
                proof {
                    if all_digits(whole) {
                        assert(digits_value(whole) * SCALE as int > LIMIT) by (nonlinear_arith)
                            requires
                                digits_value(whole) > 1_000_000_000_000,
                                SCALE == 1_000_000,
                                LIMIT == 1_000_000_000_000_000_000,
                        ;
                    }
                }
                return None;
            },
        };
        let total: i128 = units * SCALE + part;
        if total > LIMIT {
            return None;
        }
        if negative {
            Some(Decimal { micros: -total })
        } else {
            Some(Decimal { micros: total })
        }
    }
}

/// A number written plainly is a decimal text, unless it is too large to hold.
pub proof fn law_plain_numbers_are_read(s: Seq<char>)
    requires
        is_plain_number(s),
    ensures
        is_decimal_text(s) <==> spelled_magnitude(s) <= LIMIT,
{
    lemma_point_position(s);
    let p = point_position(s);
    if p == 0 {
        assert(s[0] == '.');
    } else {
        assert(s.take(p)[0] == s[0]);
        assert(is_digit(s[0]));
    }
    assert(!has_sign(s));
}

/// Tells whether a text is a number written plainly.
pub fn is_plain_number_text(s: &str) -> (r: bool)
    ensures
        r == is_plain_number(s@),
{
    let v = to_chars(s);
    let p = find_point(&v, 0);
    proof {
        assert(v@.skip(0) =~= v@);
        assert(v@.take(p as int) =~= v@.subrange(0, p as int));
        if p < v.len() {
            assert(v@.skip(p + 1) =~= v@.subrange(p + 1, v.len() as int));
        }
    }
    let after: usize = if p < v.len() {
        v.len() - (p + 1)
    } else {
        0
    };
    if p + after == 0 {
        return false;
    }
    if !digits_only(&v, 0, p) {
        return false;
    }
    if p < v.len() {
        digits_only(&v, p + 1, v.len())
    } else {
        true
    }
}

/// Reads a whole number: `Some` of its value exactly when the text is an optional
/// sign followed by digits that spell a number an `i32` can hold.
pub fn parse_i32(s: &str) -> (r: Option<i32>)
    ensures
        r is Some <==> is_i32_text(s@),
        r matches Some(n) ==> Some(n as int) == i32_text_value(s@),
{
    let v = to_chars(s);
    let start: usize = if v.len() > 0 && (v[0] == '-' || v[0] == '+') {
        1
    } else {
        0
    };
    let negative: bool = v.len() > 0 && v[0] == '-';
    proof {
        assert(unsigned_part(s@) =~= v@.subrange(start as int, v.len() as int));
    }
    if v.len() == start {
        return None;
    }
    let cap: i128 = if negative {
        2_147_483_648
    } else {
        2_147_483_647
    };
    match scan_digits(&v, start, v.len(), cap) {
        Some(value) => {
            if negative {
                Some((-value) as i32)
            } else {
                Some(value as i32)
            }
        },
        None => None,
    }
}

} // verus!
