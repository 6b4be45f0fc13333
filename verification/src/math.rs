use vstd::prelude::*;

use crate::error::NestError;

verus! {

/// `x` when it fits in a `u128`, otherwise `MathOverflow`.
pub open spec fn fit_u128(x: int) -> Result<u128, NestError> {
    if 0 <= x <= u128::MAX {
        Ok(x as u128)
    } else {
        Err(NestError::MathOverflow)
    }
}

/// Smallest `q` with `q * d >= p`, for `p >= 0` and `d > 0`.
pub open spec fn ceil_div(p: int, d: int) -> int {
    if p == 0 {
        0
    } else {
        (p - 1) / d + 1
    }
}

pub open spec fn min_u128(a: u128, b: u128) -> u128 {
    if a <= b {
        a
    } else {
        b
    }
}

/// Ten to the power `e`.
pub open spec fn pow10_spec(e: nat) -> nat
    decreases e,
{
    if e == 0 {
        1
    } else {
        10 * pow10_spec((e - 1) as nat)
    }
}

pub open spec fn spec_checked_add(a: u128, b: u128) -> Result<u128, NestError> {
    fit_u128(a + b)
}

pub open spec fn spec_checked_sub(a: u128, b: u128) -> Result<u128, NestError> {
    fit_u128(a - b)
}

pub open spec fn spec_checked_mul(a: u128, b: u128) -> Result<u128, NestError> {
    fit_u128(a * b)
}

/// `a * b / d` rounded down; fails on a zero denominator or an overflowing product.
pub open spec fn spec_mul_div_down(a: u128, b: u128, d: u128) -> Result<u128, NestError> {
    if d == 0 {
        Err(NestError::DivisionByZero)
    } else if a * b > u128::MAX {
        Err(NestError::MathOverflow)
    } else {
        Ok(((a * b) / (d as int)) as u128)
    }
}

/// `a * b / d` rounded up; fails on a zero denominator or an overflowing product.
pub open spec fn spec_mul_div_up(a: u128, b: u128, d: u128) -> Result<u128, NestError> {
    if d == 0 {
        Err(NestError::DivisionByZero)
    } else if a * b > u128::MAX {
        Err(NestError::MathOverflow)
    } else {
        Ok(ceil_div(a * b, d as int) as u128)
    }
}

pub open spec fn spec_pow10(e: u8) -> Result<u128, NestError> {
    fit_u128(pow10_spec(e as nat) as int)
}

pub proof fn lemma_ceil_div_bounds(p: int, d: int)
    requires
        p >= 0,
        d > 0,
    ensures
        ceil_div(p, d) * d >= p,
        p > 0 ==> (ceil_div(p, d) - 1) * d < p,
        0 <= ceil_div(p, d),
        ceil_div(p, d) <= p,
        ceil_div(p, d) >= p / d,
        ceil_div(p, d) <= p / d + 1,
{
    if p > 0 {
        let q = (p - 1) / d;
        let r = (p - 1) % d;
        assert(p - 1 == d * q + r) by (nonlinear_arith)
            requires
                d > 0,
                q == (p - 1) / d,
                r == (p - 1) % d,
        ;
        assert(0 <= r < d) by (nonlinear_arith)
            requires
                d > 0,
                r == (p - 1) % d,
        ;
        assert((q + 1) * d >= p) by (nonlinear_arith)
            requires
                p - 1 == d * q + r,
                0 <= r < d,
        ;
        assert(q * d < p) by (nonlinear_arith)
            requires
                p - 1 == d * q + r,
                0 <= r,
        ;
        assert(q >= 0) by (nonlinear_arith)
            requires
                p - 1 >= 0,
                d > 0,
                q == (p - 1) / d,
        ;
        assert(q + 1 <= p) by (nonlinear_arith)
            requires
                p - 1 == d * q + r,
                0 <= r,
                d >= 1,
                q >= 0,
        ;
        let f = p / d;
        assert(f * d <= p && p < (f + 1) * d) by (nonlinear_arith)
            requires
                d > 0,
                f == p / d,
        ;
        assert(q + 1 >= f) by (nonlinear_arith)
            requires
                (q + 1) * d >= p,
                f * d <= p,
                d > 0,
                q * d < p,
                p < (f + 1) * d,
        ;
        assert(q <= f) by (nonlinear_arith)
            requires
                q * d < p,
                p < (f + 1) * d,
                d > 0,
        ;
    }
}

pub proof fn lemma_pow10_positive(e: nat)
    ensures
        pow10_spec(e) >= 1,
    decreases e,
{
    if e > 0 {
        lemma_pow10_positive((e - 1) as nat);
    }
}

pub proof fn lemma_pow10_monotone(a: nat, b: nat)
    requires
        a <= b,
    ensures
        pow10_spec(a) <= pow10_spec(b),
    decreases b,
{
    if a < b {
        lemma_pow10_monotone(a, (b - 1) as nat);
        lemma_pow10_positive((b - 1) as nat);
    }
}

/// `a + b`, or `MathOverflow`.
pub fn checked_add(a: u128, b: u128) -> (r: Result<u128, NestError>)
    ensures
        r == spec_checked_add(a, b),
{
    match a.checked_add(b) {
        Some(v) => Ok(v),
        None => Err(NestError::MathOverflow),
    }
}

/// `a - b`, or `MathOverflow` when `b > a`.
pub fn checked_sub(a: u128, b: u128) -> (r: Result<u128, NestError>)
    ensures
        r == spec_checked_sub(a, b),
{
    match a.checked_sub(b) {
        Some(v) => Ok(v),
        None => Err(NestError::MathOverflow),
    }
}

/// `a * b`, or `MathOverflow`.
pub fn checked_mul(a: u128, b: u128) -> (r: Result<u128, NestError>)
    ensures
        r == spec_checked_mul(a, b),
{
    match a.checked_mul(b) {
        Some(v) => Ok(v),
        None => Err(NestError::MathOverflow),
    }
}

/// `floor(a * b / denominator)`.
pub fn mul_div_down(a: u128, b: u128, denominator: u128) -> (r: Result<u128, NestError>)
    ensures
        r == spec_mul_div_down(a, b, denominator),
{
    if denominator == 0 {
        return Err(NestError::DivisionByZero);
    }
    let product = checked_mul(a, b)?;
    Ok(product / denominator)
}

/// `ceil(a * b / denominator)`.
pub fn mul_div_up(a: u128, b: u128, denominator: u128) -> (r: Result<u128, NestError>)
    ensures
        r == spec_mul_div_up(a, b, denominator),
{
    if denominator == 0 {
        return Err(NestError::DivisionByZero);
    }
    let product = checked_mul(a, b)?;
    if product == 0 {
        Ok(0)
    } else {
        proof {
            lemma_ceil_div_bounds(product as int, denominator as int);
        }
        let q = (product - 1) / denominator;
        Ok(q + 1)
    }
}

/// `10^exp`, or `MathOverflow` when it exceeds `u128::MAX`.
pub fn pow10(exp: u8) -> (r: Result<u128, NestError>)
    ensures
        r == spec_pow10(exp),
{
    let mut value: u128 = 1;
    let mut i: u8 = 0;
    while i < exp
        invariant
            i <= exp,
            value as nat == pow10_spec(i as nat),
        decreases exp - i,
    {
        match value.checked_mul(10) {
            Some(v) => {
                value = v;
            },
            None => {
                proof {
                    lemma_pow10_monotone((i + 1) as nat, exp as nat);
                }
                return Err(NestError::MathOverflow);
            },
        }
        i = i + 1;
    }
    Ok(value)
}

} // verus!
