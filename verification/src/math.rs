//! Overflow-checked arithmetic over wide integers, and the `mul_div`
//! primitive with an explicit rounding direction.
//!
//! Every monetary computation in the crate goes through these helpers.
//! Overflow, underflow and division by zero are panic-class faults in the
//! host environment, so each helper excludes them by precondition instead
//! of returning a typed error.

use vstd::prelude::*;

verus! {

use vstd::arithmetic::div_mod::{
    lemma_div_basics_1,
    lemma_div_is_strictly_smaller,
    lemma_div_nonincreasing,
    lemma_div_pos_is_pos,
    lemma_fundamental_div_mod,
    lemma_fundamental_div_mod_converse,
    lemma_mod_bound,
};
use vstd::math::abs;

/// Rounding direction for `mul_div`.  The direction matters only when the
/// product is not exactly divisible by the denominator.
#[derive(Clone, Copy, Debug, PartialEq, Eq, Structural)]
pub enum Rounding {
    /// Toward negative infinity.
    Floor,
    /// Toward positive infinity.
    Ceil,
    /// Toward zero.
    Trunc,
    /// Away from zero.
    Expand,
}

/// `a` raised to the power `b`, as a mathematical integer.
pub open spec fn pow_int(a: int, b: nat) -> int
    decreases b,
{
    if b == 0 {
        1
    } else {
        a * pow_int(a, (b - 1) as nat)
    }
}

/// True when `x` fits in an `i128`.
pub open spec fn in_i128(x: int) -> bool {
    i128::MIN <= x <= i128::MAX
}

/// Quotient of `p` by `d`, rounded toward negative infinity.
///
/// The built-in spec division rounds toward negative infinity when the
/// divisor is positive, so a negative divisor is handled by negating both
/// operands.
pub open spec fn div_floor(p: int, d: int) -> int
    recommends
        d != 0,
{
    if d > 0 {
        p / d
    } else {
        (p * -1) / (d * -1)
    }
}

/// Quotient of `p` by `d`, rounded toward positive infinity.
pub open spec fn div_ceil(p: int, d: int) -> int
    recommends
        d != 0,
{
    div_floor(p * -1, d) * -1
}

/// Quotient of `p` by `d`, rounded toward zero.
pub open spec fn div_trunc(p: int, d: int) -> int
    recommends
        d != 0,
{
    if (p >= 0) == (d > 0) {
        div_floor(p, d)
    } else {
        div_ceil(p, d)
    }
}

/// Quotient of `p` by `d`, rounded away from zero.
pub open spec fn div_expand(p: int, d: int) -> int
    recommends
        d != 0,
{
    if (p >= 0) == (d > 0) {
        div_ceil(p, d)
    } else {
        div_floor(p, d)
    }
}

/// What `mul_div` returns: zero when either factor is non-positive (a
/// deliberate policy of the accounting engine), otherwise the rounded
/// quotient of the exact product.
pub open spec fn mul_div_spec(a: int, b: int, denominator: int, rounding: Rounding) -> int
    recommends
        a > 0 && b > 0 ==> denominator != 0,
{
    if a <= 0 || b <= 0 {
        0
    } else {
        match rounding {
            Rounding::Floor => div_floor(a * b, denominator),
            Rounding::Ceil => div_ceil(a * b, denominator),
            Rounding::Trunc => div_trunc(a * b, denominator),
            Rounding::Expand => div_expand(a * b, denominator),
        }
    }
}

/// The quotients rounded down and rounded up agree when the division is
/// exact, and otherwise differ by exactly one.
pub proof fn lemma_ceil_floor_relation(p: int, d: int)
    requires
        d != 0,
    ensures
        p % abs(d) as int == 0 ==> div_ceil(p, d) == div_floor(p, d),
        p % abs(d) as int != 0 ==> div_ceil(p, d) == div_floor(p, d) + 1,
{
    let m = abs(d) as int;
    let q = div_floor(p, d);
    if d > 0 {
        lemma_fundamental_div_mod(p, d);
        let r = p % d;
        assert(p == d * q + r);
        if r == 0 {
            assert(p * -1 == (q * -1) * d + 0) by (nonlinear_arith)
                requires
                    p == d * q,
            ;
            lemma_fundamental_div_mod_converse(p * -1, d, q * -1, 0);
        } else {
            assert(p * -1 == ((q + 1) * -1) * d + (d - r)) by (nonlinear_arith)
                requires
                    p == d * q + r,
            ;
            lemma_fundamental_div_mod_converse(p * -1, d, (q + 1) * -1, d - r);
        }
    } else {
        let pn = p * -1;
        let dn = d * -1;
        lemma_fundamental_div_mod(pn, dn);
        let r = pn % dn;
        assert(pn == dn * q + r);
        if r == 0 {
            assert(p == (q * -1) * dn + 0) by (nonlinear_arith)
                requires
                    pn == dn * q && pn == p * -1 && dn == d * -1,
            ;
            lemma_fundamental_div_mod_converse(p, dn, q * -1, 0);
            assert(p % m == 0);
        } else {
            assert(p == ((q + 1) * -1) * dn + (dn - r)) by (nonlinear_arith)
                requires
                    pn == dn * q + r && pn == p * -1 && dn == d * -1,
            ;
            lemma_fundamental_div_mod_converse(p, dn, (q + 1) * -1, dn - r);
            assert(p % m != 0);
        }
    }
}

/// Rounding up never returns less than rounding down.
pub proof fn lemma_div_ceil_ge_floor(p: int, d: int)
    requires
        d != 0,
    ensures
        div_ceil(p, d) >= div_floor(p, d),
{
    lemma_ceil_floor_relation(p, d);
    if d > 0 {
        lemma_mod_bound(p, d);
    } else {
        lemma_mod_bound(p, d * -1);
    }
}

/// Powers of a base of at least one are at least one.
pub proof fn lemma_pow_lower(a: int, b: nat)
    requires
        a >= 1,
    ensures
        pow_int(a, b) >= 1,
    decreases b,
{
    if b > 0 {
        lemma_pow_lower(a, (b - 1) as nat);
        assert(a * pow_int(a, (b - 1) as nat) >= 1) by (nonlinear_arith)
            requires
                a >= 1 && pow_int(a, (b - 1) as nat) >= 1,
        ;
    }
}

/// A non-negative dividend with a positive divisor has a truncating
/// quotient between zero and the dividend.
pub proof fn lemma_div_trunc_bounds(p: int, d: int)
    requires
        p >= 0,
        d >= 1,
    ensures
        0 <= div_trunc(p, d) <= p,
{
    lemma_div_pos_is_pos(p, d);
    lemma_div_nonincreasing(p, d);
}

/// The floor quotient times a positive divisor never exceeds the
/// dividend.
pub proof fn lemma_div_floor_mul_le(p: int, d: int)
    requires
        d > 0,
    ensures
        div_floor(p, d) * d <= p,
{
    lemma_fundamental_div_mod(p, d);
    lemma_mod_bound(p, d);
    assert(d * (p / d) == (p / d) * d) by (nonlinear_arith);
}

/// A bound on the product bounds the ceiling quotient.
pub proof fn lemma_div_ceil_le(x: int, o: int, m: int)
    requires
        m > 0,
        x <= o * m,
    ensures
        div_ceil(x, m) <= o,
{
    assert(o * m * -1 <= x * -1);
    assert(o * m * -1 == m * (o * -1)) by (nonlinear_arith);
    vstd::arithmetic::div_mod::lemma_div_is_ordered(m * (o * -1), x * -1, m);
    vstd::arithmetic::div_mod::lemma_div_multiples_vanish(o * -1, m);
}

/// Rounding a product's quotient up never returns less than rounding it
/// down, whatever the operands.
pub proof fn lemma_mul_div_ceil_ge_floor(a: int, b: int, denominator: int)
    requires
        a > 0 && b > 0 ==> denominator != 0,
    ensures
        mul_div_spec(a, b, denominator, Rounding::Ceil) >= mul_div_spec(
            a,
            b,
            denominator,
            Rounding::Floor,
        ),
{
    if a > 0 && b > 0 {
        lemma_div_ceil_ge_floor(a * b, denominator);
    }
}

/// Checked addition on `u32`.
pub fn safe_add_u32(a: u32, b: u32) -> (r: u32)
    requires
        a + b <= u32::MAX,
    ensures
        r == a + b,
{
    a + b
}

/// Checked addition on `i128`.
pub fn safe_add_i128(a: i128, b: i128) -> (r: i128)
    requires
        in_i128(a + b),
    ensures
        r == a + b,
{
    a + b
}

/// Checked subtraction on `i128`.
pub fn safe_sub_i128(a: i128, b: i128) -> (r: i128)
    requires
        in_i128(a - b),
    ensures
        r == a - b,
{
    a - b
}

/// Absolute value of the product is the product of absolute values.
proof fn lemma_abs_mul(a: int, b: int)
    ensures
        abs(a * b) == abs(a) * abs(b),
{
    assert(abs(a * b) == abs(a) * abs(b)) by (nonlinear_arith);
}

/// With a base of magnitude at least one, powers have magnitude at least
/// one as well.
proof fn lemma_pow_mag_pos(a: int, b: nat)
    requires
        abs(a) >= 1,
    ensures
        abs(pow_int(a, b)) >= 1,
    decreases b,
{
    if b > 0 {
        lemma_pow_mag_pos(a, (b - 1) as nat);
        lemma_abs_mul(a, pow_int(a, (b - 1) as nat));
        assert(abs(a) * abs(pow_int(a, (b - 1) as nat)) >= 1) by (nonlinear_arith)
            requires
                abs(a) >= 1 && abs(pow_int(a, (b - 1) as nat)) >= 1,
        ;
    }
}

/// With a base of magnitude at least two, each further power at least
/// doubles the magnitude.
proof fn lemma_pow_mag_grows(a: int, i: nat, b: nat)
    requires
        abs(a) >= 2,
        i < b,
    ensures
        2 * abs(pow_int(a, i)) <= abs(pow_int(a, b)),
    decreases b,
{
    lemma_pow_mag_pos(a, i);
    lemma_abs_mul(a, pow_int(a, (b - 1) as nat));
    if b == i + 1 {
        assert(2 * abs(pow_int(a, i)) <= abs(a) * abs(pow_int(a, i))) by (nonlinear_arith)
            requires
                abs(a) >= 2 && abs(pow_int(a, i)) >= 1,
        ;
    } else {
        lemma_pow_mag_grows(a, i, (b - 1) as nat);
        lemma_pow_mag_pos(a, (b - 1) as nat);
        assert(abs(pow_int(a, (b - 1) as nat)) <= abs(a) * abs(pow_int(a, (b - 1) as nat)))
            by (nonlinear_arith)
            requires
                abs(a) >= 2 && abs(pow_int(a, (b - 1) as nat)) >= 1,
        ;
    }
}

/// When the final power fits in an `i128`, every earlier power fits too.
proof fn lemma_pow_prefix_fits(a: int, i: nat, b: nat)
    requires
        i <= b,
        in_i128(pow_int(a, b)),
    ensures
        in_i128(pow_int(a, i)),
{
    if abs(a) <= 1 {
        lemma_pow_mag_small(a, i);
    } else if i < b {
        lemma_pow_mag_grows(a, i, b);
    }
}

/// With a base of magnitude at most one, every power has magnitude at
/// most one.
proof fn lemma_pow_mag_small(a: int, b: nat)
    requires
        abs(a) <= 1,
    ensures
        abs(pow_int(a, b)) <= 1,
    decreases b,
{
    if b > 0 {
        lemma_pow_mag_small(a, (b - 1) as nat);
        lemma_abs_mul(a, pow_int(a, (b - 1) as nat));
        assert(abs(a) * abs(pow_int(a, (b - 1) as nat)) <= 1) by (nonlinear_arith)
            requires
                abs(a) <= 1 && abs(pow_int(a, (b - 1) as nat)) <= 1,
        ;
    }
}

/// Checked exponentiation on `i128`.
pub fn safe_pow(a: i128, b: u32) -> (r: i128)
    requires
        in_i128(pow_int(a as int, b as nat)),
    ensures
        r == pow_int(a as int, b as nat),
{
    let mut result: i128 = 1;
    let mut i: u32 = 0;
    while i < b
        invariant
            i <= b,
            result == pow_int(a as int, i as nat),
            in_i128(pow_int(a as int, b as nat)),
        decreases b - i,
    {
        proof {
            lemma_pow_prefix_fits(a as int, (i + 1) as nat, b as nat);
            assert(pow_int(a as int, (i + 1) as nat) == a as int * pow_int(a as int, i as nat));
        }
        result = match result.checked_mul(a) {
            Some(v) => v,
            None => {
                proof {
                    assert(false);
                }
                0
            },
        };
        i = i + 1;
    }
    result
}

/// Checked multiplication on `i128`.
pub fn safe_mul(a: i128, b: i128) -> (r: i128)
    requires
        in_i128(a * b),
    ensures
        r == a * b,
{
    match a.checked_mul(b) {
        Some(v) => v,
        None => {
            proof {
                assert(false);
            }
            0
        },
    }
}

/// Checked division on `i128`, truncating toward zero as the machine
/// division does.
pub fn safe_div(a: i128, b: i128) -> (r: i128)
    requires
        b != 0,
        in_i128(div_trunc(a as int, b as int)),
    ensures
        r == div_trunc(a as int, b as int),
{
    proof {
        lemma_checked_div_is_trunc(a as int, b as int);
    }
    match a.checked_div(b) {
        Some(q) => q,
        None => {
            proof {
                assert(false);
            }
            0
        },
    }
}

/// The quotient that the standard checked division is specified with is
/// the truncating quotient.
proof fn lemma_checked_div_is_trunc(x: int, d: int)
    requires
        d != 0,
    ensures
        x == 0 ==> div_trunc(x, d) == 0,
        x > 0 && d > 0 ==> div_trunc(x, d) == x / d,
        x < 0 && d < 0 ==> div_trunc(x, d) == (x * -1) / (d * -1),
        x < 0 && d > 0 ==> div_trunc(x, d) == ((x * -1) / d) * -1,
        x > 0 && d < 0 ==> div_trunc(x, d) == (x / (d * -1)) * -1,
{
    if x == 0 {
        if d > 0 {
            lemma_div_basics_1(d);
        } else {
            lemma_div_basics_1(d * -1);
        }
    }
}

/// `floor(a * b / denominator)`, `ceil`, `trunc` or `expand` per the given
/// rounding direction; zero whenever `a` or `b` is non-positive, whatever
/// the direction.
pub fn mul_div(a: i128, b: i128, denominator: i128, rounding: Rounding) -> (r: i128)
    requires
        a > 0 && b > 0 ==> denominator != 0 && in_i128(a * b),
    ensures
        r == mul_div_spec(a as int, b as int, denominator as int, rounding),
{
    if a <= 0 || b <= 0 {
        0
    } else {
        let p = safe_mul(a, b);
        let d = denominator;
        proof {
            assert(p > 0) by (nonlinear_arith)
                requires
                    a > 0 && b > 0 && p == a * b,
            ;
            lemma_rounded_quotients_fit(p as int, d as int);
            lemma_ceil_floor_relation(p as int, d as int);
        }
        let q = match p.checked_div(d) {
            Some(q) => q,
            None => {
                proof {
                    assert(false);
                }
                0
            },
        };
        let rem = match p.checked_rem(d) {
            Some(rem) => rem,
            None => {
                proof {
                    assert(false);
                }
                0
            },
        };
        match rounding {
            Rounding::Trunc => q,
            Rounding::Floor => {
                if d > 0 || rem == 0 {
                    q
                } else {
                    q - 1
                }
            },
            Rounding::Ceil => {
                if d < 0 || rem == 0 {
                    q
                } else {
                    q + 1
                }
            },
            Rounding::Expand => {
                if rem == 0 {
                    q
                } else if d > 0 {
                    q + 1
                } else {
                    q - 1
                }
            },
        }
    }
}

/// The ceiling quotient of positive operands is at least one.
pub proof fn lemma_div_ceil_pos(p: int, d: int)
    requires
        p >= 1,
        d >= 1,
    ensures
        div_ceil(p, d) >= 1,
{
    vstd::arithmetic::div_mod::lemma_div_is_ordered(p * -1, -1, d);
    lemma_fundamental_div_mod_converse(-1, d, -1, d - 1);
}

/// A rounded quotient of positive operands whose product fits lies
/// between zero and the largest `i128`.
pub proof fn lemma_mul_div_spec_in_range(a: int, b: int, den: int, rounding: Rounding)
    requires
        a > 0,
        b > 0,
        den > 0,
        a * b <= i128::MAX,
    ensures
        0 <= mul_div_spec(a, b, den, rounding) <= i128::MAX,
{
    assert(a * b > 0) by (nonlinear_arith)
        requires
            a > 0 && b > 0,
    ;
    lemma_rounded_quotients_fit(a * b, den);
    lemma_div_ceil_ge_floor(a * b, den);
    lemma_div_pos_is_pos(a * b, den);
}

/// Inverting a floor-rounded conversion with a ceiling-rounded one never
/// overshoots: if `a` is at most the floor of `o * num / den`, then the
/// ceiling of `a * den / num` is at most `o`.
pub proof fn lemma_mul_div_ceil_inverse_le(a: int, o: int, num: int, den: int)
    requires
        num > 0,
        den > 0,
        o >= 0,
        a > 0,
        a <= mul_div_spec(o, num, den, Rounding::Floor),
    ensures
        mul_div_spec(a, den, num, Rounding::Ceil) <= o,
{
    if o > 0 {
        let f = div_floor(o * num, den);
        lemma_div_floor_mul_le(o * num, den);
        assert(a * den <= f * den) by (nonlinear_arith)
            requires
                a <= f && den > 0,
        ;
        lemma_div_ceil_le(a * den, o, num);
    }
}

/// For a positive dividend that fits in an `i128`, all four rounded
/// quotients fit in an `i128` as well.
pub proof fn lemma_rounded_quotients_fit(p: int, d: int)
    requires
        0 < p <= i128::MAX,
        d != 0,
    ensures
        in_i128(div_floor(p, d)),
        in_i128(div_ceil(p, d)),
        in_i128(div_trunc(p, d)),
        in_i128(div_expand(p, d)),
{
    lemma_ceil_floor_relation(p, d);
    if d > 0 {
        lemma_div_pos_is_pos(p, d);
        lemma_div_nonincreasing(p, d);
        lemma_mod_bound(p, d);
        assert(0 <= div_floor(p, d) <= p);
        if p % d != 0 {
            if d == 1 {
                lemma_fundamental_div_mod(p, 1);
            } else {
                lemma_div_is_strictly_smaller(p, d);
            }
        }
    } else {
        let dn = d * -1;
        lemma_div_pos_is_pos(p, dn);
        lemma_div_nonincreasing(p, dn);
        lemma_mod_bound(p, dn);
        let m = p / dn;
        assert(0 <= m <= p);
        assert(div_ceil(p, d) == m * -1) by {
            assert(div_floor(p * -1, d) == ((p * -1) * -1) / (d * -1));
            assert((p * -1) * -1 == p);
        };
        assert(-(i128::MAX as int) >= i128::MIN as int + 1);
        if p % dn != 0 {
            if dn == 1 {
                lemma_fundamental_div_mod(p, 1);
            } else {
                lemma_div_is_strictly_smaller(p, dn);
            }
        }
    }
}

} // verus!
