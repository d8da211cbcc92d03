//! Exact rational arithmetic for gas figures, and decimal parsing.
//!
//! Gas prices and gas adjustments are decimals in configuration; the client
//! carries them as exact ratios so that the adjusted gas and the fee are
//! computed with integer ceiling division, never floating point.

use vstd::prelude::*;

verus! {

use vstd::arithmetic::div_mod::{
    lemma_div_is_ordered, lemma_fundamental_div_mod, lemma_div_pos_is_pos,
};
use vstd::arithmetic::mul::lemma_mul_inequality;

/// `ceil(a / b)` for non-negative `a` and positive `b`, written with
/// integer flooring division.
pub open spec fn ceil_div(a: int, b: int) -> int {
    (a + b - 1) / b
}

/// An exact non-negative rational number `num / den`.
///
/// A decimal such as `1.25` is carried as `125 / 100`.
#[derive(Clone, Copy, Debug, PartialEq, Eq, Structural)]
pub struct Ratio {
    pub num: u64,
    pub den: u64,
}

impl Ratio {
    /// A ratio is usable only with a positive denominator.
    pub open spec fn wf(self) -> bool {
        self.den > 0
    }

    pub fn new(num: u64, den: u64) -> (r: Ratio)
        requires
            den > 0,
        ensures
            r.wf(),
            r.num == num,
            r.den == den,
    {
        Ratio { num, den }
    }
}

/// `ceil(x * r)` as an unbounded integer.
pub open spec fn ratio_ceil(x: int, r: Ratio) -> int {
    ceil_div(x * r.num, r.den as int)
}

/// `ceil_div` really is the ceiling: the value it returns, multiplied back
/// by the denominator, covers `a` but overshoots by less than `b`.
pub proof fn lemma_ceil_div_is_ceiling(a: int, b: int)
    requires
        a >= 0,
        b > 0,
    ensures
        b * ceil_div(a, b) >= a,
        b * ceil_div(a, b) < a + b,
        ceil_div(a, b) >= 0,
        a % b == 0 ==> ceil_div(a, b) == a / b,
        a % b != 0 ==> ceil_div(a, b) == a / b + 1,
{
    lemma_fundamental_div_mod(a + b - 1, b);
    lemma_fundamental_div_mod(a, b);
    lemma_div_pos_is_pos(a + b - 1, b);
    let q = a / b;
    let r = a % b;
    if r == 0 {
        assert((a + b - 1) / b == q + (b - 1) / b) by {
            vstd::arithmetic::div_mod::lemma_hoist_over_denominator(b - 1, q, b as nat);
        }
        assert((b - 1) / b == 0) by {
            vstd::arithmetic::div_mod::lemma_basic_div(b - 1, b);
        }
    } else {
        assert(a + b - 1 == (q + 1) * b + (r - 1)) by (nonlinear_arith)
            requires a == q * b + r, true,
        ;
        assert((a + b - 1) / b == q + 1) by {
            vstd::arithmetic::div_mod::lemma_fundamental_div_mod_converse(
                a + b - 1, b, q + 1, r - 1);
        }
    }
    assert(b * ceil_div(a, b) >= a && b * ceil_div(a, b) < a + b) by (nonlinear_arith)
        requires
            b > 0,
            a >= 0,
            a == b * (a / b) + a % b,
            0 <= a % b < b,
            a % b == 0 ==> ceil_div(a, b) == a / b,
            a % b != 0 ==> ceil_div(a, b) == a / b + 1,
    ;
}

/// Apply an adjustment ratio to a gas figure, rounding up: returns
/// `Some(ceil(x * r))` exactly when that value fits in `u64`.
pub fn apply_ratio_ceil(x: u64, r: &Ratio) -> (res: Option<u64>)
    requires
        r.wf(),
    ensures
        ratio_ceil(x as int, *r) <= u64::MAX <==> res is Some,
        res is Some ==> res.unwrap() == ratio_ceil(x as int, *r),
{
    proof {
        lemma_mul_inequality(x as int, u64::MAX as int, r.num as int);
        lemma_mul_inequality(r.num as int, u64::MAX as int, u64::MAX as int);
        assert((x as int) * (r.num as int) <= (u64::MAX as int) * (u64::MAX as int))
            by (nonlinear_arith)
            requires x <= u64::MAX, r.num <= u64::MAX,
        ;
        assert((u64::MAX as int) * (u64::MAX as int) + (u64::MAX as int) < u128::MAX as int)
            by (nonlinear_arith);
    }
    let p: u128 = (x as u128) * (r.num as u128);
    let q: u128 = (p + (r.den as u128) - 1) / (r.den as u128);
    if q <= u64::MAX as u128 {
        Some(q as u64)
    } else {
        None
    }
}

/// The fee owed for a gas limit at a given gas price, rounded up.
///
/// The product of two `u64`-bounded factors always fits `u128`, so the fee
/// amount is exact with no failure case.
pub fn fee_amount(gas: u64, price: &Ratio) -> (res: u128)
    requires
        price.wf(),
    ensures
        res == ratio_ceil(gas as int, *price),
{
    proof {
        lemma_mul_inequality(gas as int, u64::MAX as int, price.num as int);
        assert((gas as int) * (price.num as int) <= (u64::MAX as int) * (u64::MAX as int))
            by (nonlinear_arith)
            requires gas <= u64::MAX, price.num <= u64::MAX,
        ;
        assert((u64::MAX as int) * (u64::MAX as int) + (u64::MAX as int) < u128::MAX as int)
            by (nonlinear_arith);
    }
    let p: u128 = (gas as u128) * (price.num as u128);
    (p + (price.den as u128) - 1) / (price.den as u128)
}

/// Raising the adjustment ratio (same denominator, larger numerator) never
/// lowers the adjusted gas figure.
pub proof fn lemma_ratio_ceil_monotone(x: int, r1: Ratio, r2: Ratio)
    requires
        x >= 0,
        r1.wf(),
        r2.wf(),
        r1.den == r2.den,
        r1.num <= r2.num,
    ensures
        ratio_ceil(x, r1) <= ratio_ceil(x, r2),
{
    lemma_mul_inequality(r1.num as int, r2.num as int, x);
    assert(x * r1.num <= x * r2.num) by (nonlinear_arith)
        requires x >= 0, r1.num <= r2.num,
    ;
    lemma_div_is_ordered(x * r1.num + r1.den - 1, x * r2.num + r2.den - 1, r1.den as int);
}

/// Whether a character is a decimal digit.
pub open spec fn is_digit(c: char) -> bool {
    48 <= c as u32 <= 57
}

/// The numeric value of a digit character.
pub open spec fn digit_val(c: char) -> int {
    c as u32 - 48
}

/// Whether every character of a string is a decimal digit.
pub open spec fn all_digits(s: Seq<char>) -> bool {
    forall|i: int| 0 <= i < s.len() ==> is_digit(#[trigger] s[i])
}

/// The value of a digit string read in base ten.
pub open spec fn dec_val(s: Seq<char>) -> int
    decreases s.len(),
{
    if s.len() == 0 {
        0
    } else {
        dec_val(s.drop_last()) * 10 + digit_val(s.last())
    }
}

pub proof fn lemma_dec_val_nonneg(s: Seq<char>)
    requires
        all_digits(s),
    ensures
        dec_val(s) >= 0,
    decreases s.len(),
{
    if s.len() > 0 {
        assert(all_digits(s.drop_last())) by {
            assert(forall|i: int| 0 <= i < s.len() - 1 ==> s.drop_last()[i] == s[i]);
        }
        lemma_dec_val_nonneg(s.drop_last());
        assert(dec_val(s.drop_last()) * 10 >= 0) by (nonlinear_arith)
            requires dec_val(s.drop_last()) >= 0,
        ;
    }
}

/// A digit string is worth at least as much as any of its prefixes.
pub proof fn lemma_dec_val_prefix_le(s: Seq<char>, i: int)
    requires
        all_digits(s),
        0 <= i <= s.len(),
    ensures
        dec_val(s.subrange(0, i)) <= dec_val(s),
    decreases s.len() - i,
{
    if i == s.len() {
        assert(s.subrange(0, i) =~= s);
    } else {
        let p = s.subrange(0, i);
        let q = s.subrange(0, i + 1);
        assert(q.drop_last() =~= p);
        assert(all_digits(p));
        lemma_dec_val_nonneg(p);
        assert(dec_val(q) == dec_val(p) * 10 + digit_val(s[i]));
        assert(dec_val(p) * 10 >= dec_val(p)) by (nonlinear_arith)
            requires dec_val(p) >= 0,
        ;
        lemma_dec_val_prefix_le(s, i + 1);
    }
}

/// What `parse_u64` returns: the value of a non-empty digit string, when
/// it fits in a `u64`.
pub open spec fn spec_parse_u64(s: Seq<char>) -> Option<u64> {
    if s.len() > 0 && all_digits(s) && dec_val(s) <= u64::MAX {
        Some(dec_val(s) as u64)
    } else {
        None
    }
}


/// Parse a decimal digit string into a `u64`.
///
/// Returns `Some` exactly when the string is non-empty, holds decimal
/// digits only, and its value fits in a `u64`.
pub fn parse_u64(s: &str) -> (res: Option<u64>)
    ensures
        res == spec_parse_u64(s@),
{
    let n = s.unicode_len();
    if n == 0 {
        return None;
    }
    let mut acc: u64 = 0;
    let mut i: usize = 0;
    while i < n
        invariant
            0 < n == s@.len(),
            0 <= i <= n,
            all_digits(s@.subrange(0, i as int)),
            acc == dec_val(s@.subrange(0, i as int)),
        decreases n - i,
    {
        let c = s.get_char(i);
        let u = c as u32;
        if u < 48 || u > 57 {
            return None;
        }
        let d: u64 = (u - 48) as u64;
        proof {
            assert(s@.subrange(0, i + 1).drop_last() =~= s@.subrange(0, i as int));
            assert(all_digits(s@.subrange(0, i + 1)));
        }
        if acc > (u64::MAX - d) / 10 {
            proof {
                assert(dec_val(s@.subrange(0, i + 1)) == acc * 10 + d);
                assert(acc * 10 + d > u64::MAX) by (nonlinear_arith)
                    requires
                        acc > (u64::MAX - d) / 10,
                        0 <= d <= 9,
                        acc >= 0,
                ;
                if all_digits(s@) {
                    lemma_dec_val_prefix_le(s@, i + 1);
                }
            }
            return None;
        }
        proof {
            assert(acc * 10 + d <= u64::MAX) by (nonlinear_arith)
                requires
                    acc <= (u64::MAX - d) / 10,
                    0 <= d <= 9,
                    acc >= 0,
            ;
        }
        acc = acc * 10 + d;
        i = i + 1;
    }
    proof {
        assert(s@.subrange(0, n as int) =~= s@);
    }
    Some(acc)
}

/// Doubling a whole-number adjustment strictly increases the adjusted gas:
/// with adjustment `1` the figure is `x` itself, with adjustment `2` it is
/// `2 * x`.
pub proof fn lemma_ratio_ceil_doubles(x: int)
    requires
        x >= 1,
    ensures
        ratio_ceil(x, Ratio { num: 1, den: 1 }) == x,
        ratio_ceil(x, Ratio { num: 2, den: 1 }) == 2 * x,
        ratio_ceil(x, Ratio { num: 1, den: 1 }) < ratio_ceil(x, Ratio { num: 2, den: 1 }),
{
    assert(x * 1int == x) by (nonlinear_arith);
    assert(x * 2int == 2 * x) by (nonlinear_arith);
    lemma_ceil_div_is_ceiling(x, 1);
    lemma_ceil_div_is_ceiling(2 * x, 1);
    assert(1int * ceil_div(x, 1) == ceil_div(x, 1)) by (nonlinear_arith);
    assert(1int * ceil_div(2 * x, 1) == ceil_div(2 * x, 1)) by (nonlinear_arith);
}

} // verus!
