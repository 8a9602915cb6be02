//! Checked arithmetic helpers with explicit overflow and division errors.
//!
//! Every balance mutation and the distribution formula route through these:
//! nothing in the sale core wraps or truncates silently.

use vstd::prelude::*;

use crate::errors::CustomError;

verus! {

/// `a + b`, or `ArithmeticOverflow` when the sum leaves the 64-bit range.
pub fn checked_add_u64(a: u64, b: u64) -> (r: Result<u64, CustomError>)
    ensures
        r == (if a + b <= u64::MAX {
            Ok::<u64, CustomError>((a + b) as u64)
        } else {
            Err::<u64, CustomError>(CustomError::ArithmeticOverflow)
        }),
{
    if a <= u64::MAX - b {
        Ok(a + b)
    } else {
        Err(CustomError::ArithmeticOverflow)
    }
}

/// `a - b`, or `ArithmeticOverflow` when `b` exceeds `a`.
pub fn checked_sub_u64(a: u64, b: u64) -> (r: Result<u64, CustomError>)
    ensures
        r == (if a >= b {
            Ok::<u64, CustomError>((a - b) as u64)
        } else {
            Err::<u64, CustomError>(CustomError::ArithmeticOverflow)
        }),
{
    if a >= b {
        Ok(a - b)
    } else {
        Err(CustomError::ArithmeticOverflow)
    }
}

/// `a - b`, stopping at zero; for the investor counters, which must never
/// go negative.
pub fn saturating_sub_u64(a: u64, b: u64) -> (r: u64)
    ensures
        r == (if a >= b { a - b } else { 0 }),
{
    if a >= b {
        a - b
    } else {
        0
    }
}

/// `a * b` in 128-bit precision, or `ArithmeticOverflow` when even that
/// overflows.
pub fn checked_mul_u128(a: u128, b: u128) -> (r: Result<u128, CustomError>)
    ensures
        r == (if a * b <= u128::MAX {
            Ok::<u128, CustomError>((a * b) as u128)
        } else {
            Err::<u128, CustomError>(CustomError::ArithmeticOverflow)
        }),
{
    if b == 0 {
        Ok(0)
    } else if a <= u128::MAX / b {
        proof {
            vstd::arithmetic::mul::lemma_mul_inequality(
                a as int,
                (u128::MAX / b) as int,
                b as int,
            );
            vstd::arithmetic::div_mod::lemma_fundamental_div_mod(u128::MAX as int, b as int);
            vstd::arithmetic::div_mod::lemma_mod_bound(u128::MAX as int, b as int);
        }
        Ok(a * b)
    } else {
        proof {
            let q = (u128::MAX / b) as int;
            vstd::arithmetic::div_mod::lemma_fundamental_div_mod(u128::MAX as int, b as int);
            vstd::arithmetic::div_mod::lemma_mod_bound(u128::MAX as int, b as int);
            assert(q * b == u128::MAX - u128::MAX % b);
            vstd::arithmetic::mul::lemma_mul_inequality(q + 1, a as int, b as int);
            vstd::arithmetic::mul::lemma_mul_is_distributive_add_other_way(b as int, q, 1);
            assert((q + 1) * b == q * b + b);
            assert(a * b >= q * b + b);
            assert(a * b > u128::MAX);
        }
        Err(CustomError::ArithmeticOverflow)
    }
}

/// `a / b`, or `DivisionByZero` when `b` is zero.
pub fn checked_div_u128(a: u128, b: u128) -> (r: Result<u128, CustomError>)
    ensures
        r == (if b != 0 {
            Ok::<u128, CustomError>((a / b) as u128)
        } else {
            Err::<u128, CustomError>(CustomError::DivisionByZero)
        }),
{
    if b != 0 {
        Ok(a / b)
    } else {
        Err(CustomError::DivisionByZero)
    }
}

} // verus!
