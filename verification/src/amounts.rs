//! Arithmetic on amounts: sums and differences that saturate, and progress
//! towards a goal in basis points.
use vstd::prelude::*;

verus! {

/// One hundred per cent, in basis points.
pub const FULL_BPS: u32 = 10_000;

/// `value`, moved to the nearer of `low` and `high` when it is outside them.
pub open spec fn clamped(value: int, low: int, high: int) -> int {
    if value < low {
        low
    } else if value > high {
        high
    } else {
        value
    }
}

/// `a + b`, moved to the nearer bound of `i128` when it does not fit.
pub open spec fn saturated_sum(a: int, b: int) -> int {
    clamped(a + b, i128::MIN as int, i128::MAX as int)
}

/// What is left of `whole` once `part` is taken from it: never negative, and
/// at most the largest `i128`.
pub open spec fn shortfall_of(whole: int, part: int) -> int {
    clamped(whole - part, 0, i128::MAX as int)
}

/// `a` divided by `b`, rounded towards zero.
pub open spec fn truncated_quotient(a: int, b: int) -> int
    recommends
        b != 0,
{
    if a >= 0 {
        a / b
    } else {
        -((-a) / b)
    }
}

/// The share of `goal` that `raised` covers, in basis points from 0 to
/// 10 000: 0 for a zero goal, and 10 000 once the goal is met.
pub open spec fn progress(raised: i128, goal: i128) -> int {
    if goal == 0 {
        0
    } else {
        clamped(truncated_quotient(raised * 10_000, goal as int), 0, FULL_BPS as int)
    }
}

/// Adds two amounts, saturating at the bounds of `i128`.
pub fn saturating_sum(a: i128, b: i128) -> (sum: i128)
    ensures
        sum == saturated_sum(a as int, b as int),
{
    if b > 0 && a > i128::MAX - b {
        i128::MAX
    } else if b < 0 && a < i128::MIN - b {
        i128::MIN
    } else {
        a + b
    }
}

/// How much of `whole` is not covered by `part`.
pub fn shortfall(whole: i128, part: i128) -> (rest: i128)
    ensures
        rest == shortfall_of(whole as int, part as int),
{
    if whole <= part {
        0
    } else if part < 0 && whole > i128::MAX + part {
        i128::MAX
    } else {
        whole - part
    }
}

/// The distance of `amount` from zero.
fn magnitude(amount: i128) -> (distance: u128)
    ensures
        distance == (if amount < 0 {
            -amount
        } else {
            amount as int
        }),
{
    if amount < 0 {
        // The distance of the smallest amount has no place in `i128`.
        (-(amount + 1)) as u128 + 1
    } else {
        amount as u128
    }
}

/// Divides `times` times `part` by `whole`, giving the quotient and the
/// remainder. The product is built by doubling, and reduced at each step.
fn divide_multiple(part: u128, whole: u128, times: u32) -> (res: (u32, u128))
    requires
        part < whole <= 0x8000_0000_0000_0000_0000_0000_0000_0000,
    ensures
        times * part == res.0 * whole + res.1,
        res.0 <= times,
        res.1 < whole,
    decreases times,
{
    if times == 0 {
        return (0, 0);
    }
    let half: u32 = times / 2;
    let (half_quotient, half_rest) = divide_multiple(part, whole, half);
    let mut quotient: u32 = half_quotient * 2;
    let mut rest: u128 = half_rest * 2;
    assert(2 * half * part == quotient * whole + rest) by (nonlinear_arith)
        requires
            half * part == half_quotient * whole + half_rest,
            quotient == half_quotient * 2,
            rest == half_rest * 2,
    ;
    if rest >= whole {
        proof {
            lemma_quotient_below(2 * half, part as int, whole as int, quotient as int, rest as int);
            lemma_carry(whole as int, quotient as int, rest as int);
        }
        rest = rest - whole;
        quotient = quotient + 1;
    }
    if times % 2 == 1 {
        assert(times * part == 2 * half * part + part) by (nonlinear_arith)
            requires
                times == 2 * half + 1,
        ;
        rest = rest + part;
        if rest >= whole {
            proof {
                lemma_quotient_below(
                    times as int,
                    part as int,
                    whole as int,
                    quotient as int,
                    rest as int,
                );
                lemma_carry(whole as int, quotient as int, rest as int);
            }
            rest = rest - whole;
            quotient = quotient + 1;
        }
    }
    (quotient, rest)
}

/// A quotient whose remainder is still too large is below the multiplier.
proof fn lemma_quotient_below(times: int, part: int, whole: int, quotient: int, rest: int)
    requires
        times >= 0,
        0 <= part < whole,
        times * part == quotient * whole + rest,
        rest >= whole,
    ensures
        quotient < times,
{
    assert(quotient < times) by (nonlinear_arith)
        requires
            times >= 0,
            0 <= part < whole,
            times * part == quotient * whole + rest,
            rest >= whole,
    ;
}

/// Moving one `whole` from the remainder to the quotient keeps their sum.
proof fn lemma_carry(whole: int, quotient: int, rest: int)
    ensures
        quotient * whole + rest == (quotient + 1) * whole + (rest - whole),
{
    assert(quotient * whole + rest == (quotient + 1) * whole + (rest - whole)) by (nonlinear_arith);
}

/// Progress looks only at whether the amounts are on the same side of zero and
/// at their distances from it.
pub(crate) proof fn lemma_progress_by_magnitude(raised: i128, goal: i128)
    requires
        goal != 0,
    ensures
        raised > 0 && goal > 0 ==> progress(raised, goal) == clamped(
            (raised * 10_000) / (goal as int),
            0,
            FULL_BPS as int,
        ),
        raised < 0 && goal < 0 ==> progress(raised, goal) == clamped(
            ((-raised) * 10_000) / (-goal),
            0,
            FULL_BPS as int,
        ),
        !(raised > 0 && goal > 0) && !(raised < 0 && goal < 0) ==> progress(raised, goal) == 0,
{
    let product = raised * 10_000;
    let divisor = goal as int;
    if product >= 0 && divisor < 0 {
        assert(product / divisor <= 0) by (nonlinear_arith)
            requires
                product >= 0,
                divisor < 0,
        ;
    } else if product < 0 && divisor > 0 {
        assert((-product) / divisor >= 0) by (nonlinear_arith)
            requires
                product < 0,
                divisor > 0,
        ;
    } else if product < 0 {
        let n = -product;
        let d = -divisor;
        assert(n / divisor == -(n / d)) by (nonlinear_arith)
            requires
                n > 0,
                d > 0,
                divisor == -d,
        ;
    } else if product == 0 {
        assert(0int / divisor == 0) by (nonlinear_arith)
            requires
                divisor != 0,
        ;
    }
}

/// The share of `goal` that `raised` covers, in basis points: 0 for a zero
/// goal, and never more than 10 000.
pub fn progress_bps(raised: i128, goal: i128) -> (bps: u32)
    ensures
        bps == progress(raised, goal),
{
    if goal == 0 {
        return 0;
    }
    proof {
        lemma_progress_by_magnitude(raised, goal);
    }
    if raised == 0 || (raised < 0) != (goal < 0) {
        return 0;
    }
    let part: u128 = magnitude(raised);
    let whole: u128 = magnitude(goal);
    if part >= whole {
        assert((part * 10_000) / (whole as int) >= 10_000) by (nonlinear_arith)
            requires
                part >= whole > 0,
        ;
        return FULL_BPS;
    }
    let (quotient, rest) = divide_multiple(part, whole, FULL_BPS);
    proof {
        vstd::arithmetic::div_mod::lemma_fundamental_div_mod_converse(
            part * 10_000,
            whole as int,
            quotient as int,
            rest as int,
        );
    }
    quotient
}

} // verus!
