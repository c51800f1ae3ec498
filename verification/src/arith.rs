//! Checked arithmetic on amounts and timestamps. Every operation either
//! returns the exact mathematical result or says why it cannot.

use vstd::prelude::*;

verus! {

/// Why an arithmetic step was refused.
#[derive(Clone, Copy, Debug, PartialEq, Eq, Structural)]
pub enum ArithError {
    Overflow,
    Underflow,
    DivisionByZero,
}

/// Basis points in one whole: 10000 bps are 100%.
pub const BASIS_POINTS: u64 = 10000;

pub open spec fn fits_u64(x: int) -> bool {
    0 <= x <= u64::MAX
}

pub open spec fn fits_i64(x: int) -> bool {
    i64::MIN <= x <= i64::MAX
}

/// Quotient rounded toward zero, as machine division of signed integers
/// rounds.
pub open spec fn quotient_toward_zero(x: int, d: int) -> int
    recommends
        d != 0,
{
    if x >= 0 && d > 0 {
        x / d
    } else if x < 0 && d < 0 {
        (-x) / (-d)
    } else if x < 0 {
        -((-x) / d)
    } else {
        -(x / (-d))
    }
}

/// `a + b`, or `Overflow` when the sum does not fit.
pub fn safe_add(a: u64, b: u64) -> (r: Result<u64, ArithError>)
    ensures
        fits_u64(a + b) ==> r == Ok::<u64, ArithError>((a + b) as u64),
        !fits_u64(a + b) ==> r == Err::<u64, ArithError>(ArithError::Overflow),
{
    match a.checked_add(b) {
        Some(sum) => Ok(sum),
        None => Err(ArithError::Overflow),
    }
}

/// `a - b`, or `Underflow` when `b` exceeds `a`.
pub fn safe_sub(a: u64, b: u64) -> (r: Result<u64, ArithError>)
    ensures
        b <= a ==> r == Ok::<u64, ArithError>((a - b) as u64),
        b > a ==> r == Err::<u64, ArithError>(ArithError::Underflow),
{
    match a.checked_sub(b) {
        Some(difference) => Ok(difference),
        None => Err(ArithError::Underflow),
    }
}

/// `a * b`, or `Overflow` when the product does not fit.
pub fn safe_mul(a: u64, b: u64) -> (r: Result<u64, ArithError>)
    ensures
        fits_u64(a * b) ==> r == Ok::<u64, ArithError>((a * b) as u64),
        !fits_u64(a * b) ==> r == Err::<u64, ArithError>(ArithError::Overflow),
{
    match a.checked_mul(b) {
        Some(product) => Ok(product),
        None => Err(ArithError::Overflow),
    }
}

/// `a / b` rounded down, or `DivisionByZero`.
pub fn safe_div(a: u64, b: u64) -> (r: Result<u64, ArithError>)
    ensures
        b != 0 ==> r == Ok::<u64, ArithError>(a / b),
        b == 0 ==> r == Err::<u64, ArithError>(ArithError::DivisionByZero),
{
    if b == 0 {
        return Err(ArithError::DivisionByZero);
    }
    match a.checked_div(b) {
        Some(quotient) => Ok(quotient),
        None => Err(ArithError::Underflow),
    }
}

/// `basis_points / 10000` of `amount`, rounded down; `Overflow` when
/// `amount * basis_points` does not fit in 64 bits.
pub fn safe_percentage(amount: u64, basis_points: u16) -> (r: Result<u64, ArithError>)
    ensures
        fits_u64(amount * basis_points) ==> r == Ok::<u64, ArithError>(
            ((amount * basis_points) / 10000) as u64,
        ),
        !fits_u64(amount * basis_points) ==> r == Err::<u64, ArithError>(ArithError::Overflow),
{
    match safe_mul(amount, basis_points as u64) {
        Ok(scaled) => safe_div(scaled, BASIS_POINTS),
        Err(e) => Err(e),
    }
}

/// `a + b` on timestamps, or `Overflow` when the sum is not representable.
pub fn safe_add_i64(a: i64, b: i64) -> (r: Result<i64, ArithError>)
    ensures
        fits_i64(a + b) ==> r == Ok::<i64, ArithError>((a + b) as i64),
        !fits_i64(a + b) ==> r == Err::<i64, ArithError>(ArithError::Overflow),
{
    match a.checked_add(b) {
        Some(sum) => Ok(sum),
        None => Err(ArithError::Overflow),
    }
}

/// `a - b` on timestamps, or `Underflow` when the difference is not
/// representable.
pub fn safe_sub_i64(a: i64, b: i64) -> (r: Result<i64, ArithError>)
    ensures
        fits_i64(a - b) ==> r == Ok::<i64, ArithError>((a - b) as i64),
        !fits_i64(a - b) ==> r == Err::<i64, ArithError>(ArithError::Underflow),
{
    match a.checked_sub(b) {
        Some(difference) => Ok(difference),
        None => Err(ArithError::Underflow),
    }
}

/// `a / b` rounded toward zero; `DivisionByZero` when `b` is zero and
/// `Underflow` when the quotient is not representable.
pub fn safe_div_i64(a: i64, b: i64) -> (r: Result<i64, ArithError>)
    ensures
        b == 0 ==> r == Err::<i64, ArithError>(ArithError::DivisionByZero),
        b != 0 && fits_i64(quotient_toward_zero(a as int, b as int)) ==> r == Ok::<
            i64,
            ArithError,
        >(quotient_toward_zero(a as int, b as int) as i64),
        b != 0 && !fits_i64(quotient_toward_zero(a as int, b as int)) ==> r == Err::<
            i64,
            ArithError,
        >(ArithError::Underflow),
{
    if b == 0 {
        return Err(ArithError::DivisionByZero);
    }
    match a.checked_div(b) {
        Some(quotient) => Ok(quotient),
        None => Err(ArithError::Underflow),
    }
}

} // verus!
