//! The pro-rata plus tiered-bonus distribution formula, run once per
//! non-cancelled participant at claim time.
//!
//! A fixed bonus pool of `BONUS_TOKENS` per early-investor flag in force and
//! per large investor is reserved off the top; what remains is split
//! pro-rata by contribution, and the participant's own bonuses are added
//! back on top of their base share.

use vstd::prelude::*;

use crate::arith::{checked_add_u64, checked_div_u128, checked_mul_u128};
use crate::errors::CustomError;
use crate::state::{BONUS_TOKENS, LARGE_INVESTOR_THRESHOLD};

verus! {

/// The tokens held back from pro-rata distribution to fund the bonuses.
pub open spec fn bonus_reserve(active_early_investor_count: u64, large_investor_count: u64) -> int {
    active_early_investor_count * BONUS_TOKENS + large_investor_count * BONUS_TOKENS
}

/// The pool actually split pro-rata: the deposited tokens less the bonus
/// reserve, stopping at zero.
pub open spec fn distributable_tokens(
    active_early_investor_count: u64,
    large_investor_count: u64,
    total_tokens: u64,
) -> int {
    let reserve = bonus_reserve(active_early_investor_count, large_investor_count);
    if total_tokens >= reserve {
        total_tokens - reserve
    } else {
        0
    }
}

/// A participant's base share: the distributable pool times their
/// contribution over the total non-cancelled contribution, rounded down.
/// Meaningful only when `total_contributed` is not zero.
pub open spec fn base_share(
    active_early_investor_count: u64,
    large_investor_count: u64,
    total_tokens: u64,
    amount: u64,
    total_contributed: u64,
) -> int {
    distributable_tokens(active_early_investor_count, large_investor_count, total_tokens) * amount
        / (total_contributed as int)
}

/// The full distribution formula: the base share plus `BONUS_TOKENS` for an
/// early-investor flag and `BONUS_TOKENS` again for a large contribution.
/// Fails with `DivisionByZero` when nothing was contributed, and with
/// `ArithmeticOverflow` when the share would leave the 64-bit range.
pub open spec fn share_spec(
    active_early_investor_count: u64,
    large_investor_count: u64,
    total_tokens: u64,
    amount: u64,
    total_contributed: u64,
    is_early_investor: bool,
) -> Result<u64, CustomError> {
    if total_contributed == 0 {
        Err(CustomError::DivisionByZero)
    } else {
        let share = base_share(
            active_early_investor_count,
            large_investor_count,
            total_tokens,
            amount,
            total_contributed,
        ) + (if is_early_investor {
            BONUS_TOKENS as int
        } else {
            0
        }) + (if amount >= LARGE_INVESTOR_THRESHOLD {
            BONUS_TOKENS as int
        } else {
            0
        });
        if share > u64::MAX {
            Err(CustomError::ArithmeticOverflow)
        } else {
            Ok(share as u64)
        }
    }
}

/// Computes a non-cancelled participant's token share, in 128-bit
/// precision, exactly as `share_spec` states it.
pub fn compute_share(
    active_early_investor_count: u64,
    large_investor_count: u64,
    total_tokens: u64,
    amount: u64,
    total_contributed: u64,
    is_early_investor: bool,
) -> (r: Result<u64, CustomError>)
    ensures
        r == share_spec(
            active_early_investor_count,
            large_investor_count,
            total_tokens,
            amount,
            total_contributed,
            is_early_investor,
        ),
{
    let reserve: u128 = active_early_investor_count as u128 * BONUS_TOKENS as u128
        + large_investor_count as u128 * BONUS_TOKENS as u128;
    let distributable: u128 = if total_tokens as u128 >= reserve {
        total_tokens as u128 - reserve
    } else {
        0
    };
    let product = match checked_mul_u128(distributable, amount as u128) {
        Ok(v) => v,
        Err(e) => {
            proof {
                vstd::arithmetic::mul::lemma_mul_upper_bound(
                    distributable as int,
                    u64::MAX as int,
                    amount as int,
                    u64::MAX as int,
                );
            }
            return Err(e);
        },
    };
    let quotient = match checked_div_u128(product, total_contributed as u128) {
        Ok(v) => v,
        Err(e) => {
            return Err(e);
        },
    };
    if quotient > u64::MAX as u128 {
        return Err(CustomError::ArithmeticOverflow);
    }
    let mut share = quotient as u64;
    if is_early_investor {
        share = match checked_add_u64(share, BONUS_TOKENS) {
            Ok(v) => v,
            Err(e) => {
                return Err(e);
            },
        };
    }
    if amount >= LARGE_INVESTOR_THRESHOLD {
        share = match checked_add_u64(share, BONUS_TOKENS) {
            Ok(v) => v,
            Err(e) => {
                return Err(e);
            },
        };
    }
    Ok(share)
}

} // verus!
