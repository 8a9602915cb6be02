//! The sale's operations: phase validation and the exact state transition of
//! each, stated as a pure spec function and proved of the executable body.
//!
//! Each operation either commits the whole transition and returns the
//! currency or token movement the host must perform, or returns an error
//! and leaves every record exactly as it was.

use vstd::prelude::*;

use crate::arith::{checked_add_u64, checked_sub_u64, saturating_sub_u64};
use crate::distribution::{compute_share, share_spec};
use crate::errors::CustomError;
use crate::state::{
    AccountId, AssetId, ParticipantAccount, State, EARLY_INVESTOR_LIMIT, LARGE_INVESTOR_THRESHOLD,
    MAX_CONTRIBUTION, RAISE_CAP,
};

verus! {

/// What a successful claim asks the host to move: the participant's token
/// share out of the program's token custody, or their currency refund out
/// of the sale's custody account.
#[derive(Clone, Copy, Debug, PartialEq, Eq, Structural)]
pub enum ClaimAction {
    /// Move this many tokens to the participant's token account.
    TokenShare(u64),
    /// Move this many base-currency units back to the participant.
    Refund(u64),
}

/// The transition `init` makes: a one-time setup recording the three
/// authorized principals and the fixed raise cap.
pub open spec fn init_spec(
    s: State,
    token_provider: AccountId,
    beneficiary: AccountId,
    safeguarding_account: AccountId,
) -> Result<State, CustomError> {
    if s.initialized {
        Err(CustomError::AlreadyInitialized)
    } else {
        Ok(
            State {
                initialized: true,
                token_provider,
                beneficiary,
                safeguarding_account,
                raise_cap: RAISE_CAP,
                ..s
            },
        )
    }
}

/// Initializes the sale once; fails `AlreadyInitialized` on any later call.
pub fn init(
    state: &mut State,
    token_provider: AccountId,
    beneficiary: AccountId,
    safeguarding_account: AccountId,
) -> (r: Result<(), CustomError>)
    ensures
        (match init_spec(*old(state), token_provider, beneficiary, safeguarding_account) {
            Ok(s2) => r == Ok::<(), CustomError>(()) && *final(state) == s2,
            Err(e) => r == Err::<(), CustomError>(e) && *final(state) == *old(state),
        }),
{
    if state.initialized {
        return Err(CustomError::AlreadyInitialized);
    }
    state.token_provider = token_provider;
    state.beneficiary = beneficiary;
    state.safeguarding_account = safeguarding_account;
    state.initialized = true;
    state.raise_cap = RAISE_CAP;
    Ok(())
}

/// The transition `deposit` makes: the token provider funds the token pool
/// exactly once, fixing the token asset and the pool size.
pub open spec fn deposit_spec(
    s: State,
    caller: AccountId,
    token_mint: AssetId,
    amount: u64,
) -> Result<State, CustomError> {
    if caller != s.token_provider {
        Err(CustomError::UnauthorizedCaller)
    } else if s.total_tokens != 0 {
        Err(CustomError::TokensAlreadyDeposited)
    } else {
        Ok(State { token_mint, total_tokens: amount, ..s })
    }
}

/// Records the one-time token deposit. On success the host must move
/// `amount` of `token_mint` from the caller's token account into the
/// program's token custody.
pub fn deposit(state: &mut State, caller: AccountId, token_mint: AssetId, amount: u64) -> (r:
    Result<(), CustomError>)
    ensures
        (match deposit_spec(*old(state), caller, token_mint, amount) {
            Ok(s2) => r == Ok::<(), CustomError>(()) && *final(state) == s2,
            Err(e) => r == Err::<(), CustomError>(e) && *final(state) == *old(state),
        }),
{
    if caller != state.token_provider {
        return Err(CustomError::UnauthorizedCaller);
    }
    if state.total_tokens != 0 {
        return Err(CustomError::TokensAlreadyDeposited);
    }
    state.token_mint = token_mint;
    state.total_tokens = amount;
    Ok(())
}

/// The transition `activate` makes: the token provider opens the
/// participation window once, ending `duration` after the clock reading.
pub open spec fn activate_spec(s: State, caller: AccountId, duration: u64, now: u64) -> Result<
    State,
    CustomError,
> {
    if caller != s.token_provider {
        Err(CustomError::UnauthorizedCaller)
    } else if s.participation_active {
        Err(CustomError::AlreadyActivated)
    } else {
        Ok(
            State {
                participation_active: true,
                duration,
                participation_end: (now + duration) as u64,
                ..s
            },
        )
    }
}

/// Opens the participation window once. `now` is the host clock reading.
pub fn activate(state: &mut State, caller: AccountId, duration: u64, now: u64) -> (r: Result<
    (),
    CustomError,
>)
    requires
        now + duration <= u64::MAX,
    ensures
        (match activate_spec(*old(state), caller, duration, now) {
            Ok(s2) => r == Ok::<(), CustomError>(()) && *final(state) == s2,
            Err(e) => r == Err::<(), CustomError>(e) && *final(state) == *old(state),
        }),
{
    if caller != state.token_provider {
        return Err(CustomError::UnauthorizedCaller);
    }
    if state.participation_active {
        return Err(CustomError::AlreadyActivated);
    }
    state.participation_active = true;
    state.duration = duration;
    state.participation_end = now + duration;
    Ok(())
}

/// The transition `participate` makes: within the open window and under
/// both caps, the contribution is added to the participant's record and the
/// total, maintaining the unique-, early- and large-investor counters.
/// Only a participant's first non-zero contribution counts them as a new
/// unique investor (and, within the limit, an early one) and stamps their
/// participation time: a zero contribution is accepted but counts no one.
pub open spec fn participate_spec(s: State, p: ParticipantAccount, amount: u64, now: u64) -> Result<
    (State, ParticipantAccount),
    CustomError,
> {
    if !s.participation_active {
        Err(CustomError::NotActive)
    } else if now > s.participation_end {
        Err(CustomError::ParticipationClosed)
    } else if s.total_contributed + amount > s.raise_cap {
        Err(CustomError::RaiseCapExceeded)
    } else if p.cancelled {
        Err(CustomError::ParticipationCancelledAlready)
    } else if p.amount + amount > MAX_CONTRIBUTION {
        Err(CustomError::MaxContributionExceeded)
    } else {
        let first = p.amount == 0 && amount > 0;
        let new_unique = if first {
            s.unique_investor_count + 1
        } else {
            s.unique_investor_count as int
        };
        let early = first && new_unique <= EARLY_INVESTOR_LIMIT;
        let new_early = if early {
            s.active_early_investor_count + 1
        } else {
            s.active_early_investor_count as int
        };
        let crossed = p.amount < LARGE_INVESTOR_THRESHOLD && p.amount + amount
            >= LARGE_INVESTOR_THRESHOLD;
        let new_large = if crossed {
            s.large_investor_count + 1
        } else {
            s.large_investor_count as int
        };
        if new_unique > u64::MAX || new_early > u64::MAX || new_large > u64::MAX {
            Err(CustomError::ArithmeticOverflow)
        } else {
            Ok(
                (
                    State {
                        unique_investor_count: new_unique as u64,
                        active_early_investor_count: new_early as u64,
                        large_investor_count: new_large as u64,
                        total_contributed: (s.total_contributed + amount) as u64,
                        ..s
                    },
                    ParticipantAccount {
                        amount: (p.amount + amount) as u64,
                        participation_time: if amount > 0 {
                            now
                        } else {
                            p.participation_time
                        },
                        is_early_investor: p.is_early_investor || early,
                        ..p
                    },
                ),
            )
        }
    }
}

/// Accepts a contribution of `amount` at clock reading `now`. On success
/// the host must move `amount` base-currency units from the participant
/// into the sale's custody account.
pub fn participate(
    state: &mut State,
    participant: &mut ParticipantAccount,
    amount: u64,
    now: u64,
) -> (r: Result<(), CustomError>)
    ensures
        (match participate_spec(*old(state), *old(participant), amount, now) {
            Ok((s2, p2)) => r == Ok::<(), CustomError>(()) && *final(state) == s2 && *final(participant) == p2,
            Err(e) => r == Err::<(), CustomError>(e) && *final(state) == *old(state) && *final(participant) == *old(participant),
        }),
{
    if !state.participation_active {
        return Err(CustomError::NotActive);
    }
    if now > state.participation_end {
        return Err(CustomError::ParticipationClosed);
    }
    if state.total_contributed > state.raise_cap || amount > state.raise_cap
        - state.total_contributed {
        return Err(CustomError::RaiseCapExceeded);
    }
    if participant.cancelled {
        return Err(CustomError::ParticipationCancelledAlready);
    }
    if participant.amount > MAX_CONTRIBUTION || amount > MAX_CONTRIBUTION - participant.amount {
        return Err(CustomError::MaxContributionExceeded);
    }
    let first = participant.amount == 0 && amount > 0;
    let mut new_unique = state.unique_investor_count;
    let mut new_early = state.active_early_investor_count;
    let mut new_large = state.large_investor_count;
    let mut early = false;
    if first {
        new_unique = match checked_add_u64(new_unique, 1) {
            Ok(v) => v,
            Err(e) => {
                return Err(e);
            },
        };
        if new_unique <= EARLY_INVESTOR_LIMIT {
            early = true;
            new_early = match checked_add_u64(new_early, 1) {
                Ok(v) => v,
                Err(e) => {
                    return Err(e);
                },
            };
        }
    }
    let was_large = participant.amount >= LARGE_INVESTOR_THRESHOLD;
    let new_amount = participant.amount + amount;
    if !was_large && new_amount >= LARGE_INVESTOR_THRESHOLD {
        new_large = match checked_add_u64(new_large, 1) {
            Ok(v) => v,
            Err(e) => {
                return Err(e);
            },
        };
    }
    let new_total = match checked_add_u64(state.total_contributed, amount) {
        Ok(v) => v,
        Err(e) => {
            return Err(e);
        },
    };
    state.unique_investor_count = new_unique;
    state.active_early_investor_count = new_early;
    state.large_investor_count = new_large;
    state.total_contributed = new_total;
    participant.amount = new_amount;
    if amount > 0 {
        participant.participation_time = now;
    }
    if early {
        participant.is_early_investor = true;
    }
    Ok(())
}

/// The transition `cancel` makes: before the window closes and before
/// distribution, a contributing participant withdraws; their amount moves
/// from the contributed total to the refund set-aside, and the counters
/// give back what the participant earned.
pub open spec fn cancel_spec(s: State, p: ParticipantAccount, now: u64) -> Result<
    (State, ParticipantAccount),
    CustomError,
> {
    if now > s.participation_end {
        Err(CustomError::WithdrawalClosed)
    } else if s.tokens_distributed {
        Err(CustomError::DistributionAlreadyStarted)
    } else if p.amount == 0 {
        Err(CustomError::NoContribution)
    } else if p.cancelled {
        Err(CustomError::AlreadyCancelled)
    } else if s.total_cancelled + p.amount > u64::MAX || s.total_contributed < p.amount {
        Err(CustomError::ArithmeticOverflow)
    } else {
        let new_large = if p.amount >= LARGE_INVESTOR_THRESHOLD && s.large_investor_count > 0 {
            (s.large_investor_count - 1) as u64
        } else {
            s.large_investor_count
        };
        let new_early = if p.is_early_investor && s.active_early_investor_count > 0 {
            (s.active_early_investor_count - 1) as u64
        } else {
            s.active_early_investor_count
        };
        Ok(
            (
                State {
                    large_investor_count: new_large,
                    active_early_investor_count: new_early,
                    total_cancelled: (s.total_cancelled + p.amount) as u64,
                    total_contributed: (s.total_contributed - p.amount) as u64,
                    ..s
                },
                ParticipantAccount { cancelled: true, is_early_investor: false, ..p },
            ),
        )
    }
}

/// Cancels the caller's participation. No currency moves now: the refund is
/// paid when the participant claims it after distribution.
pub fn cancel(state: &mut State, participant: &mut ParticipantAccount, now: u64) -> (r: Result<
    (),
    CustomError,
>)
    ensures
        (match cancel_spec(*old(state), *old(participant), now) {
            Ok((s2, p2)) => r == Ok::<(), CustomError>(()) && *final(state) == s2 && *final(participant) == p2,
            Err(e) => r == Err::<(), CustomError>(e) && *final(state) == *old(state) && *final(participant) == *old(participant),
        }),
{
    if now > state.participation_end {
        return Err(CustomError::WithdrawalClosed);
    }
    if state.tokens_distributed {
        return Err(CustomError::DistributionAlreadyStarted);
    }
    let amount = participant.amount;
    if amount == 0 {
        return Err(CustomError::NoContribution);
    }
    if participant.cancelled {
        return Err(CustomError::AlreadyCancelled);
    }
    let new_cancelled = match checked_add_u64(state.total_cancelled, amount) {
        Ok(v) => v,
        Err(e) => {
            return Err(e);
        },
    };
    let new_contributed = match checked_sub_u64(state.total_contributed, amount) {
        Ok(v) => v,
        Err(e) => {
            return Err(e);
        },
    };
    if amount >= LARGE_INVESTOR_THRESHOLD {
        state.large_investor_count = saturating_sub_u64(state.large_investor_count, 1);
    }
    if participant.is_early_investor {
        participant.is_early_investor = false;
        state.active_early_investor_count = saturating_sub_u64(
            state.active_early_investor_count,
            1,
        );
    }
    state.total_cancelled = new_cancelled;
    participant.cancelled = true;
    state.total_contributed = new_contributed;
    Ok(())
}

/// What `safeguard` may move: everything in custody above the refund
/// set-aside and the minimum reserve the ledger requires the account to
/// keep.
pub open spec fn safeguard_spec(
    s: State,
    caller: AccountId,
    custody_balance: u64,
    minimum_reserve: u64,
) -> Result<u64, CustomError> {
    if s.tokens_distributed {
        Err(CustomError::DistributionAlreadyStarted)
    } else if caller != s.safeguarding_account {
        Err(CustomError::UnauthorizedSafeguardingAccount)
    } else if custody_balance < s.total_cancelled + minimum_reserve {
        Err(CustomError::ArithmeticOverflow)
    } else {
        Ok((custody_balance - s.total_cancelled - minimum_reserve) as u64)
    }
}

/// Computes the surplus the safeguarding authority may skim before
/// distribution. On success the host must move exactly that amount from
/// custody to the safeguarding account. The sale record itself does not
/// change, so the operation may run any number of times.
pub fn safeguard(state: &State, caller: AccountId, custody_balance: u64, minimum_reserve: u64) -> (
    r: Result<u64, CustomError>)
    ensures
        r == safeguard_spec(*state, caller, custody_balance, minimum_reserve),
{
    if state.tokens_distributed {
        return Err(CustomError::DistributionAlreadyStarted);
    }
    if caller != state.safeguarding_account {
        return Err(CustomError::UnauthorizedSafeguardingAccount);
    }
    let set_aside = match checked_add_u64(state.total_cancelled, minimum_reserve) {
        Ok(v) => v,
        Err(e) => {
            return Err(e);
        },
    };
    match checked_sub_u64(custody_balance, set_aside) {
        Ok(v) => Ok(v),
        Err(e) => Err(e),
    }
}

/// The transition `distribute` makes: once the window plus the same
/// duration again have passed, and custody still covers the refunds owed,
/// the sale enters the claim phase and the whole non-reserved custody
/// balance goes to the beneficiary.
pub open spec fn distribute_spec(
    s: State,
    now: u64,
    custody_balance: u64,
    minimum_reserve: u64,
) -> Result<(State, u64), CustomError> {
    if s.tokens_distributed {
        Err(CustomError::DistributionAlreadyStarted)
    } else if now < s.participation_end + s.duration {
        Err(CustomError::WithdrawalWindowStillOpen)
    } else if custody_balance < s.total_cancelled {
        Err(CustomError::InsufficientRefundBalance)
    } else if custody_balance < minimum_reserve {
        Err(CustomError::ArithmeticOverflow)
    } else {
        let payout = (custody_balance - minimum_reserve) as u64;
        Ok((State { tokens_distributed: true, recipient_lamports: payout, ..s }, payout))
    }
}

/// Starts the claim phase, once. Callable by anyone. On success the host
/// must move the returned amount from custody to the beneficiary.
pub fn distribute(state: &mut State, now: u64, custody_balance: u64, minimum_reserve: u64) -> (r:
    Result<u64, CustomError>)
    ensures
        (match distribute_spec(*old(state), now, custody_balance, minimum_reserve) {
            Ok((s2, payout)) => r == Ok::<u64, CustomError>(payout) && *final(state) == s2,
            Err(e) => r == Err::<u64, CustomError>(e) && *final(state) == *old(state),
        }),
{
    if state.tokens_distributed {
        return Err(CustomError::DistributionAlreadyStarted);
    }
    if state.participation_end > u64::MAX - state.duration || now < state.participation_end
        + state.duration {
        return Err(CustomError::WithdrawalWindowStillOpen);
    }
    if custody_balance < state.total_cancelled {
        return Err(CustomError::InsufficientRefundBalance);
    }
    let payout = match checked_sub_u64(custody_balance, minimum_reserve) {
        Ok(v) => v,
        Err(e) => {
            return Err(e);
        },
    };
    state.tokens_distributed = true;
    state.recipient_lamports = payout;
    Ok(payout)
}

/// The outcome `claim` owes: after distribution, a participant who
/// contributed gets either their token share by the distribution formula,
/// or, if they cancelled, a currency refund of exactly their amount,
/// provided custody still covers it.
pub open spec fn claim_spec(s: State, p: ParticipantAccount, custody_balance: u64) -> Result<
    ClaimAction,
    CustomError,
> {
    if !s.tokens_distributed {
        Err(CustomError::TokensNotDistributed)
    } else if p.participation_time == 0 {
        Err(CustomError::NeverParticipated)
    } else if !p.cancelled {
        match share_spec(
            s.active_early_investor_count,
            s.large_investor_count,
            s.total_tokens,
            p.amount,
            s.total_contributed,
            p.is_early_investor,
        ) {
            Ok(share) => Ok(ClaimAction::TokenShare(share)),
            Err(e) => Err(e),
        }
    } else if custody_balance < p.amount {
        Err(CustomError::InsufficientRefundBalance)
    } else {
        Ok(ClaimAction::Refund(p.amount))
    }
}

/// Settles one participant's claim. On success the host must perform the
/// returned movement and close the participant's record so it cannot be
/// claimed twice; `Sale::claim_at` does the closing for a registered
/// record.
pub fn claim(state: &State, participant: &ParticipantAccount, custody_balance: u64) -> (r: Result<
    ClaimAction,
    CustomError,
>)
    ensures
        r == claim_spec(*state, *participant, custody_balance),
{
    if !state.tokens_distributed {
        return Err(CustomError::TokensNotDistributed);
    }
    if participant.participation_time == 0 {
        return Err(CustomError::NeverParticipated);
    }
    if !participant.cancelled {
        match compute_share(
            state.active_early_investor_count,
            state.large_investor_count,
            state.total_tokens,
            participant.amount,
            state.total_contributed,
            participant.is_early_investor,
        ) {
            Ok(share) => Ok(ClaimAction::TokenShare(share)),
            Err(e) => Err(e),
        }
    } else if custody_balance < participant.amount {
        Err(CustomError::InsufficientRefundBalance)
    } else {
        Ok(ClaimAction::Refund(participant.amount))
    }
}

/// The transition `end` makes: the token provider closes the participation
/// and cancellation windows at once, an administrative escape hatch.
pub open spec fn end_spec(s: State, caller: AccountId, now: u64) -> Result<State, CustomError> {
    if caller != s.token_provider {
        Err(CustomError::UnauthorizedCaller)
    } else {
        Ok(State { participation_end: now, duration: 0, ..s })
    }
}

/// Immediately closes the participation window, making distribution
/// eligible at once.
pub fn end(state: &mut State, caller: AccountId, now: u64) -> (r: Result<(), CustomError>)
    ensures
        (match end_spec(*old(state), caller, now) {
            Ok(s2) => r == Ok::<(), CustomError>(()) && *final(state) == s2,
            Err(e) => r == Err::<(), CustomError>(e) && *final(state) == *old(state),
        }),
{
    if caller != state.token_provider {
        return Err(CustomError::UnauthorizedCaller);
    }
    state.participation_end = now;
    state.duration = 0;
    Ok(())
}

} // verus!
