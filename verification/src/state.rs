//! The sale's data model: the single global `State` record and the
//! per-participant `ParticipantAccount` record.

use vstd::prelude::*;

verus! {

/// A principal on the host ledger, reduced to what the core needs of it:
/// an identity that can be compared for equality.
pub type AccountId = u64;

/// A token asset on the host ledger, likewise reduced to an identity.
pub type AssetId = u64;

/// The fixed raise cap, set once at initialization: 5,000 units at the
/// 10^9 base-unit scale.
pub const RAISE_CAP: u64 = 5_000_000_000_000;

/// The per-participant contribution cap: 250 units at the 10^9 scale.
pub const MAX_CONTRIBUTION: u64 = 250_000_000_000;

/// The cumulative contribution at which a participant counts as a large
/// investor: 100 units at the 10^9 scale.
pub const LARGE_INVESTOR_THRESHOLD: u64 = 100_000_000_000;

/// How many of the first unique investors earn the early-investor flag.
pub const EARLY_INVESTOR_LIMIT: u64 = 100;

/// The fixed token bonus paid per early-investor flag and per
/// large-investor status at claim time.
pub const BONUS_TOKENS: u64 = 1000;

/// The single global sale record: phase flags, configuration, and the
/// running totals every operation keeps mutually consistent.
#[derive(Clone, Copy, Debug, PartialEq, Eq, Structural)]
pub struct State {
    /// Set once by `init`; no other operation runs before it.
    pub initialized: bool,
    /// Set once by `activate`; opens the participation window.
    pub participation_active: bool,
    /// Timestamp at which the participation window closes.
    pub participation_end: u64,
    /// Most the sale will accept in total, fixed at initialization.
    pub raise_cap: u64,
    /// Sum of `amount` over all non-cancelled participant records.
    pub total_contributed: u64,
    /// Size of the token pool, set once at deposit.
    pub total_tokens: u64,
    /// Set once by `distribute`; opens the claim phase.
    pub tokens_distributed: bool,
    /// Amount forwarded to the beneficiary at distribution (audit field).
    pub recipient_lamports: u64,
    /// Principal allowed to deposit tokens, activate, and force-end.
    pub token_provider: AccountId,
    /// Principal paid the raised funds at distribution.
    pub beneficiary: AccountId,
    /// Principal allowed to skim surplus custody funds.
    pub safeguarding_account: AccountId,
    /// The token asset of the pool, recorded at deposit.
    pub token_mint: AssetId,
    /// Sum of `amount` over all cancelled participant records; the refund
    /// set-aside.
    pub total_cancelled: u64,
    /// How many participants currently hold at least
    /// `LARGE_INVESTOR_THRESHOLD`.
    pub large_investor_count: u64,
    /// How many distinct participants ever made a first contribution.
    pub unique_investor_count: u64,
    /// How many early-investor flags are currently in force (cancelling
    /// clears the flag).
    pub active_early_investor_count: u64,
    /// Length of the participation window; the claim phase may start
    /// `duration` after `participation_end`.
    pub duration: u64,
}

/// One record per participant, created by `init_participant` on first
/// interaction and removed after a successful claim.
#[derive(Clone, Copy, Debug, PartialEq, Eq, Structural)]
pub struct ParticipantAccount {
    /// The participant's identity; immutable after creation.
    pub participant: AccountId,
    /// Cumulative non-cancelled contribution, at most `MAX_CONTRIBUTION`.
    pub amount: u64,
    /// Timestamp of the most recent contribution; zero means "never
    /// contributed".
    pub participation_time: u64,
    /// Set by `cancel`; a cancelled participant is refunded at claim time
    /// instead of receiving tokens.
    pub cancelled: bool,
    /// Sticky flag given to the first `EARLY_INVESTOR_LIMIT` unique
    /// investors; cleared again if they cancel.
    pub is_early_investor: bool,
}

/// The value every unit of contributed currency is accounted under: once
/// accepted it sits either in `total_contributed` (still in) or in
/// `total_cancelled` (owed back), never in both and never in neither.
pub open spec fn accepted(s: State) -> int {
    s.total_contributed + s.total_cancelled
}

/// The counter invariant the operations maintain: the early-investor flags
/// in force never outnumber the limit, nor the unique investors seen.
pub open spec fn counters_wf(s: State) -> bool {
    &&& s.active_early_investor_count <= EARLY_INVESTOR_LIMIT
    &&& s.active_early_investor_count <= s.unique_investor_count
}

impl State {
    /// The all-zero record a freshly allocated sale account holds before
    /// `init` runs.
    pub open spec fn initial_spec() -> State {
        State {
            initialized: false,
            participation_active: false,
            participation_end: 0,
            raise_cap: 0,
            total_contributed: 0,
            total_tokens: 0,
            tokens_distributed: false,
            recipient_lamports: 0,
            token_provider: 0,
            beneficiary: 0,
            safeguarding_account: 0,
            token_mint: 0,
            total_cancelled: 0,
            large_investor_count: 0,
            unique_investor_count: 0,
            active_early_investor_count: 0,
            duration: 0,
        }
    }

    /// A freshly allocated, not yet initialized sale record.
    pub fn new() -> (s: State)
        ensures
            s == State::initial_spec(),
    {
        State {
            initialized: false,
            participation_active: false,
            participation_end: 0,
            raise_cap: 0,
            total_contributed: 0,
            total_tokens: 0,
            tokens_distributed: false,
            recipient_lamports: 0,
            token_provider: 0,
            beneficiary: 0,
            safeguarding_account: 0,
            token_mint: 0,
            total_cancelled: 0,
            large_investor_count: 0,
            unique_investor_count: 0,
            active_early_investor_count: 0,
            duration: 0,
        }
    }
}

impl ParticipantAccount {
    /// The record `init_participant` creates: all counters zero, no flags.
    pub open spec fn fresh_spec(owner: AccountId) -> ParticipantAccount {
        ParticipantAccount {
            participant: owner,
            amount: 0,
            participation_time: 0,
            cancelled: false,
            is_early_investor: false,
        }
    }

    /// A fresh record for `owner` that has never contributed.
    pub fn new(owner: AccountId) -> (p: ParticipantAccount)
        ensures
            p == ParticipantAccount::fresh_spec(owner),
    {
        ParticipantAccount {
            participant: owner,
            amount: 0,
            participation_time: 0,
            cancelled: false,
            is_early_investor: false,
        }
    }
}

} // verus!
