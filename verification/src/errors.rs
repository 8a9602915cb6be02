//! The typed failure outcomes of the sale operations.
//!
//! Every operation either commits all of its state changes and reports the
//! transfer it needs, or leaves the state untouched and returns one of these.

use vstd::prelude::*;

verus! {

/// Why a sale operation was refused.
///
/// Grouped by concern: caller authorization, phase sequencing, cap and
/// invariant violations, arithmetic, and refund liquidity.
#[derive(Clone, Copy, Debug, PartialEq, Eq, Structural)]
pub enum CustomError {
    /// `init` was called on an already-initialized sale.
    AlreadyInitialized,
    /// The caller is not the principal the operation requires.
    UnauthorizedCaller,
    /// `deposit` was called after the token pool was already funded.
    TokensAlreadyDeposited,
    /// The token asset offered does not match the recorded one.
    InvalidTokenMint,
    /// `activate` was called on an already-activated sale.
    AlreadyActivated,
    /// `participate` was called before the participation window opened.
    NotActive,
    /// `participate` was called after the participation window closed.
    ParticipationClosed,
    /// Accepting the contribution would push the total over the raise cap.
    RaiseCapExceeded,
    /// The participant cancelled earlier and may not contribute again.
    ParticipationCancelledAlready,
    /// The contribution would push the participant over the per-participant cap.
    MaxContributionExceeded,
    /// `cancel` was called after the cancellation window closed.
    WithdrawalClosed,
    /// The operation is only allowed before distribution starts.
    DistributionAlreadyStarted,
    /// `cancel` was called by a participant who never contributed.
    NoContribution,
    /// `cancel` was called twice on the same participant.
    AlreadyCancelled,
    /// `distribute` was called before the distribution-eligibility time.
    WithdrawalWindowStillOpen,
    /// The custody balance cannot cover the refunds owed.
    InsufficientRefundBalance,
    /// `claim` was called before distribution started.
    TokensNotDistributed,
    /// `claim` was called by a participant who never contributed.
    NeverParticipated,
    /// The caller is not the safeguarding authority.
    UnauthorizedSafeguardingAccount,
    /// A checked addition, subtraction or narrowing left the 64-bit range.
    ArithmeticOverflow,
    /// A division had a zero divisor.
    DivisionByZero,
    /// The participant has not claimed yet.
    ParticipantHasNotClaimed,
    /// `init_participant` was called twice for the same participant.
    ParticipantAlreadyInitialized,
}

} // verus!
