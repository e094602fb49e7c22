//! The fixed-point scalar that every coordinate of the crate is measured in.
//!
//! A [`Fixed`] is an integer count of steps of `1/ONE`. Every derived quantity in the
//! crate is computed exactly in wide integers, rounded toward minus infinity once, and
//! saturated at `LIMIT` steps, so a contract can name the result as an integer formula.

use vstd::prelude::*;

verus! {

/// Raw steps per unit: a `Fixed` with raw value `ONE` stands for the number one.
pub const ONE: i64 = 65536;

/// Largest raw magnitude a `Fixed` can hold (2 to the 47th).
pub const LIMIT: i64 = 140737488355328;

/// Clamps an exact integer to the representable raw range.
pub open spec fn sat(v: int) -> int {
    if v < -(LIMIT as int) {
        -(LIMIT as int)
    } else if v > LIMIT as int {
        LIMIT as int
    } else {
        v
    }
}

/// The quotient `n / d` rounded toward minus infinity and saturated.
///
/// A zero divisor gives the saturated value with the sign of `n`, and zero for `0 / 0`.
pub open spec fn quotient(n: int, d: int) -> int {
    if d > 0 {
        sat(n / d)
    } else if d < 0 {
        sat((-n) / (-d))
    } else if n > 0 {
        LIMIT as int
    } else if n < 0 {
        -(LIMIT as int)
    } else {
        0
    }
}

/// A number on a grid of `1/ONE` steps, saturating at `LIMIT` raw steps either way.
#[derive(Clone, Copy, Debug, PartialEq, Eq, Structural)]
pub struct Fixed {
    raw: i64,
}

impl View for Fixed {
    type V = int;

    /// The raw step count.
    closed spec fn view(&self) -> int {
        self.raw as int
    }
}

impl Fixed {
    /// Every value that exists at run time lies within the saturation limits.
    #[verifier::type_invariant]
    pub open spec fn in_range(self) -> bool {
        -LIMIT <= self@ <= LIMIT
    }

    /// The value with the given raw step count.
    pub closed spec fn of(raw: int) -> Fixed {
        Fixed { raw: raw as i64 }
    }

    /// The value nearest to the exact integer `v`.
    pub open spec fn clamped(v: int) -> Fixed {
        Fixed::of(sat(v))
    }

    /// The quotient `n / d`, rounded down to the grid and saturated.
    pub open spec fn quot(n: int, d: int) -> Fixed {
        Fixed::of(quotient(n, d))
    }

    /// `of` is the inverse of the view on every representable step count.
    pub broadcast proof fn lemma_of_view(raw: int)
        requires
            -LIMIT <= raw <= LIMIT,
        ensures
            (#[trigger] Fixed::of(raw))@ == raw,
    {
    }

    /// Two values with the same step count are the same value.
    pub proof fn lemma_view_injective(a: Fixed, b: Fixed)
        requires
            a@ == b@,
        ensures
            a == b,
    {
    }

    /// A value is rebuilt from its own step count.
    pub broadcast proof fn lemma_of_own_view(a: Fixed)
        ensures
            Fixed::of(#[trigger] a@) == a,
    {
    }

    /// Zero.
    pub fn zero() -> (r: Fixed)
        ensures
            r@ == 0,
            r == Fixed::of(0),
    {
        Fixed { raw: 0 }
    }

    /// One.
    pub fn one() -> (r: Fixed)
        ensures
            r@ == ONE,
            r == Fixed::of(ONE as int),
    {
        Fixed { raw: ONE }
    }

    /// The value with the given raw step count, saturated.
    pub fn from_raw(raw: i64) -> (r: Fixed)
        ensures
            r@ == sat(raw as int),
            r == Fixed::clamped(raw as int),
    {
        if raw < -LIMIT {
            Fixed { raw: -LIMIT }
        } else if raw > LIMIT {
            Fixed { raw: LIMIT }
        } else {
            Fixed { raw }
        }
    }

    /// The whole number `n`, which is always representable.
    pub fn from_int(n: i32) -> (r: Fixed)
        ensures
            r@ == n * ONE,
            r == Fixed::of(n * ONE),
    {
        let wide: i64 = n as i64;
        Fixed { raw: wide * ONE }
    }

    /// The fraction `num / den`, rounded down to the grid.
    pub fn from_ratio(num: i64, den: i64) -> (r: Fixed)
        ensures
            r@ == quotient(num * ONE, den as int),
            r == Fixed::quot(num * ONE, den as int),
    {
        proof {
            lemma_product_bound(num as int, ONE as int, 0x8000_0000_0000_0000, 65536);
        }
        let n: i128 = num as i128 * (ONE as i128);
        Fixed::ratio(n, den as i128)
    }

    /// The raw step count.
    pub fn raw(self) -> (r: i64)
        ensures
            r == self@,
            -LIMIT <= r <= LIMIT,
    {
        proof {
            use_type_invariant(&self);
        }
        self.raw
    }

    /// The raw step count, widened for exact intermediate arithmetic.
    pub fn wide(self) -> (r: i128)
        ensures
            r == self@,
            -LIMIT <= r <= LIMIT,
    {
        proof {
            use_type_invariant(&self);
        }
        self.raw as i128
    }

    /// The value nearest to the exact integer `v`.
    pub fn saturate(v: i128) -> (r: Fixed)
        ensures
            r@ == sat(v as int),
            r == Fixed::clamped(v as int),
    {
        if v < -(LIMIT as i128) {
            Fixed { raw: -LIMIT }
        } else if v > LIMIT as i128 {
            Fixed { raw: LIMIT }
        } else {
            Fixed { raw: v as i64 }
        }
    }

    /// The quotient of two exact integers, rounded down and saturated.
    pub(crate) fn ratio(n: i128, d: i128) -> (r: Fixed)
        requires
            n > i128::MIN,
            d > i128::MIN,
        ensures
            r@ == quotient(n as int, d as int),
            r == Fixed::quot(n as int, d as int),
    {
        if d > 0 {
            Fixed::saturate(floor_div(n, d))
        } else if d < 0 {
            Fixed::saturate(floor_div(-n, -d))
        } else if n > 0 {
            Fixed { raw: LIMIT }
        } else if n < 0 {
            Fixed { raw: -LIMIT }
        } else {
            Fixed { raw: 0 }
        }
    }
}

/// A product is bounded by the product of the bounds of its factors.
pub proof fn lemma_product_bound(x: int, y: int, a: int, b: int)
    requires
        -a <= x <= a,
        -b <= y <= b,
    ensures
        -(a * b) <= x * y <= a * b,
{
    assert(-(a * b) <= x * y <= a * b) by (nonlinear_arith)
        requires
            -a <= x <= a,
            -b <= y <= b,
    ;
}

/// Division rounded toward minus infinity, for a positive divisor.
pub(crate) fn floor_div(n: i128, d: i128) -> (q: i128)
    requires
        d > 0,
    ensures
        q == (n as int) / (d as int),
{
    if n >= 0 {
        n / d
    } else {
        let q: i128 = n / d;
        let r: i128 = n % d;
        proof {
            lemma_floor_of_negative(n as int, d as int);
        }
        if r == 0 {
            q
        } else {
            q - 1
        }
    }
}

/// How the floor quotient of a negative numerator follows from that of its negation.
proof fn lemma_floor_of_negative(n: int, d: int)
    requires
        n < 0,
        d > 0,
    ensures
        (-n) % d == 0 ==> n / d == -((-n) / d),
        (-n) % d != 0 ==> n / d == -((-n) / d) - 1,
        0 <= (-n) / d <= -n,
        (-n) % d != 0 ==> (-n) / d < -n,
{
    let m = -n;
    let q = m / d;
    let r = m % d;
    vstd::arithmetic::div_mod::lemma_fundamental_div_mod(m, d);
    vstd::arithmetic::div_mod::lemma_mod_bound(m, d);
    assert(0 <= q <= m && (r != 0 ==> q < m)) by (nonlinear_arith)
        requires
            m == d * q + r,
            0 <= r < d,
            m > 0,
            d > 0,
    ;
    if r == 0 {
        assert(n == (-q) * d + 0) by (nonlinear_arith)
            requires
                m == d * q + r,
                r == 0,
                n == -m,
        ;
        vstd::arithmetic::div_mod::lemma_fundamental_div_mod_converse(n, d, -q, 0);
    } else {
        assert(n == (-q - 1) * d + (d - r)) by (nonlinear_arith)
            requires
                m == d * q + r,
                n == -m,
        ;
        vstd::arithmetic::div_mod::lemma_fundamental_div_mod_converse(n, d, -q - 1, d - r);
    }
}

/// The floor quotient is the one integer `q` with `q * d <= n < (q + 1) * d`.
pub proof fn lemma_floor_bounds(n: int, d: int)
    requires
        d > 0,
    ensures
        (n / d) * d <= n < (n / d + 1) * d,
{
    vstd::arithmetic::div_mod::lemma_fundamental_div_mod(n, d);
    vstd::arithmetic::div_mod::lemma_mod_bound(n, d);
    assert((n / d) * d <= n < (n / d + 1) * d) by (nonlinear_arith)
        requires
            n == d * (n / d) + n % d,
            0 <= n % d < d,
    ;
}

/// Any integer `q` with `q * d <= n < (q + 1) * d` is the floor quotient.
pub proof fn lemma_floor_unique(n: int, d: int, q: int)
    requires
        d > 0,
        q * d <= n < (q + 1) * d,
    ensures
        n / d == q,
{
    let r = n - q * d;
    assert(0 <= r < d && n == q * d + r) by (nonlinear_arith)
        requires
            r == n - q * d,
            q * d <= n < (q + 1) * d,
    ;
    vstd::arithmetic::div_mod::lemma_fundamental_div_mod_converse(n, d, q, r);
}

/// A whole multiple of a positive divisor divides back exactly.
pub proof fn lemma_multiple_divides(v: int, d: int)
    requires
        d > 0,
    ensures
        (v * d) / d == v,
        (d * v) / d == v,
{
    assert(v * d <= v * d < (v + 1) * d) by (nonlinear_arith)
        requires
            d > 0,
    ;
    lemma_floor_unique(v * d, d, v);
    assert(d * v == v * d) by (nonlinear_arith);
}

/// Floor division is monotone in the numerator.
pub proof fn lemma_floor_monotone(a: int, b: int, d: int)
    requires
        d > 0,
        a <= b,
    ensures
        a / d <= b / d,
{
    vstd::arithmetic::div_mod::lemma_div_is_ordered(a, b, d);
}

} // verus!
