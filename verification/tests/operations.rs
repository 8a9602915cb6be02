//! One test per refusal: each error variant is produced by the input that
//! owes it, and a failed operation leaves the state untouched.

use swan::errors::CustomError;
use swan::ops;
use swan::state::{ParticipantAccount, State};

const PROVIDER: u64 = 1;
const BENEFICIARY: u64 = 2;
const SAFEGUARDING: u64 = 3;

fn active_state() -> State {
    let mut s = State::new();
    ops::init(&mut s, PROVIDER, BENEFICIARY, SAFEGUARDING).unwrap();
    ops::deposit(&mut s, PROVIDER, 9, 1_000_000).unwrap();
    ops::activate(&mut s, PROVIDER, 1_000, 0).unwrap();
    s
}

#[test]
fn init_twice_fails() {
    let mut s = State::new();
    assert_eq!(ops::init(&mut s, PROVIDER, BENEFICIARY, SAFEGUARDING), Ok(()));
    let before = s;
    assert_eq!(
        ops::init(&mut s, 7, 8, 9),
        Err(CustomError::AlreadyInitialized)
    );
    assert_eq!(s, before);
}

#[test]
fn deposit_requires_the_token_provider() {
    let mut s = State::new();
    ops::init(&mut s, PROVIDER, BENEFICIARY, SAFEGUARDING).unwrap();
    let before = s;
    assert_eq!(
        ops::deposit(&mut s, BENEFICIARY, 9, 5),
        Err(CustomError::UnauthorizedCaller)
    );
    assert_eq!(s, before);
}

#[test]
fn deposit_twice_fails() {
    let mut s = State::new();
    ops::init(&mut s, PROVIDER, BENEFICIARY, SAFEGUARDING).unwrap();
    ops::deposit(&mut s, PROVIDER, 9, 5).unwrap();
    let before = s;
    assert_eq!(
        ops::deposit(&mut s, PROVIDER, 9, 5),
        Err(CustomError::TokensAlreadyDeposited)
    );
    assert_eq!(s, before);
}

#[test]
fn activate_requires_the_token_provider() {
    let mut s = State::new();
    ops::init(&mut s, PROVIDER, BENEFICIARY, SAFEGUARDING).unwrap();
    assert_eq!(
        ops::activate(&mut s, SAFEGUARDING, 10, 0),
        Err(CustomError::UnauthorizedCaller)
    );
}

#[test]
fn activate_twice_fails() {
    let mut s = active_state();
    let before = s;
    assert_eq!(
        ops::activate(&mut s, PROVIDER, 10, 0),
        Err(CustomError::AlreadyActivated)
    );
    assert_eq!(s, before);
}

#[test]
fn participate_before_activation_fails() {
    let mut s = State::new();
    ops::init(&mut s, PROVIDER, BENEFICIARY, SAFEGUARDING).unwrap();
    let mut p = ParticipantAccount::new(5);
    assert_eq!(
        ops::participate(&mut s, &mut p, 100, 0),
        Err(CustomError::NotActive)
    );
}

#[test]
fn participate_after_the_window_fails() {
    let mut s = active_state();
    let mut p = ParticipantAccount::new(5);
    assert_eq!(
        ops::participate(&mut s, &mut p, 100, 1_001),
        Err(CustomError::ParticipationClosed)
    );
}

#[test]
fn participate_after_cancel_fails() {
    let mut s = active_state();
    let mut p = ParticipantAccount::new(5);
    ops::participate(&mut s, &mut p, 100, 10).unwrap();
    ops::cancel(&mut s, &mut p, 20).unwrap();
    let before = (s, p);
    assert_eq!(
        ops::participate(&mut s, &mut p, 100, 30),
        Err(CustomError::ParticipationCancelledAlready)
    );
    assert_eq!((s, p), before);
}

#[test]
fn participate_over_the_per_participant_cap_fails() {
    let mut s = active_state();
    let mut p = ParticipantAccount::new(5);
    ops::participate(&mut s, &mut p, 250_000_000_000, 10).unwrap();
    assert_eq!(p.amount, 250_000_000_000);
    let before = (s, p);
    assert_eq!(
        ops::participate(&mut s, &mut p, 1, 20),
        Err(CustomError::MaxContributionExceeded)
    );
    assert_eq!((s, p), before);
}

#[test]
fn cancel_after_the_window_fails() {
    let mut s = active_state();
    let mut p = ParticipantAccount::new(5);
    ops::participate(&mut s, &mut p, 100, 10).unwrap();
    assert_eq!(
        ops::cancel(&mut s, &mut p, 1_001),
        Err(CustomError::WithdrawalClosed)
    );
}

#[test]
fn cancel_after_distribution_fails() {
    let mut s = active_state();
    let mut p = ParticipantAccount::new(5);
    ops::participate(&mut s, &mut p, 100, 10).unwrap();
    s.tokens_distributed = true;
    assert_eq!(
        ops::cancel(&mut s, &mut p, 20),
        Err(CustomError::DistributionAlreadyStarted)
    );
}

#[test]
fn cancel_without_contribution_fails() {
    let mut s = active_state();
    let mut p = ParticipantAccount::new(5);
    assert_eq!(ops::cancel(&mut s, &mut p, 10), Err(CustomError::NoContribution));
}

#[test]
fn safeguard_requires_the_safeguarding_account() {
    let s = active_state();
    assert_eq!(
        ops::safeguard(&s, PROVIDER, 1_000, 10),
        Err(CustomError::UnauthorizedSafeguardingAccount)
    );
}

#[test]
fn safeguard_after_distribution_fails() {
    let mut s = active_state();
    s.tokens_distributed = true;
    assert_eq!(
        ops::safeguard(&s, SAFEGUARDING, 1_000, 10),
        Err(CustomError::DistributionAlreadyStarted)
    );
}

#[test]
fn safeguard_under_the_set_aside_fails() {
    let mut s = active_state();
    s.total_cancelled = 900;
    assert_eq!(
        ops::safeguard(&s, SAFEGUARDING, 1_000, 200),
        Err(CustomError::ArithmeticOverflow)
    );
    assert_eq!(ops::safeguard(&s, SAFEGUARDING, 1_100, 200), Ok(0));
}

#[test]
fn distribute_before_the_eligibility_time_fails() {
    let mut s = active_state();
    let before = s;
    assert_eq!(
        ops::distribute(&mut s, 1_999, 5_000, 100),
        Err(CustomError::WithdrawalWindowStillOpen)
    );
    assert_eq!(s, before);
    assert_eq!(ops::distribute(&mut s, 2_000, 5_000, 100), Ok(4_900));
}

#[test]
fn distribute_twice_fails() {
    let mut s = active_state();
    ops::distribute(&mut s, 2_000, 5_000, 100).unwrap();
    let before = s;
    assert_eq!(
        ops::distribute(&mut s, 2_000, 5_000, 100),
        Err(CustomError::DistributionAlreadyStarted)
    );
    assert_eq!(s, before);
}

#[test]
fn distribute_without_refund_cover_fails() {
    let mut s = active_state();
    s.total_cancelled = 6_000;
    assert_eq!(
        ops::distribute(&mut s, 2_000, 5_000, 100),
        Err(CustomError::InsufficientRefundBalance)
    );
    assert!(!s.tokens_distributed);
}

#[test]
fn claim_before_distribution_fails() {
    let s = active_state();
    let p = ParticipantAccount {
        participation_time: 10,
        amount: 100,
        ..ParticipantAccount::new(5)
    };
    assert_eq!(
        ops::claim(&s, &p, 1_000),
        Err(CustomError::TokensNotDistributed)
    );
}

#[test]
fn claim_without_participation_fails() {
    let mut s = active_state();
    ops::distribute(&mut s, 2_000, 5_000, 100).unwrap();
    let p = ParticipantAccount::new(5);
    assert_eq!(ops::claim(&s, &p, 1_000), Err(CustomError::NeverParticipated));
}

#[test]
fn claim_refund_without_cover_fails() {
    let mut s = active_state();
    let mut p = ParticipantAccount::new(5);
    ops::participate(&mut s, &mut p, 100, 10).unwrap();
    ops::cancel(&mut s, &mut p, 20).unwrap();
    ops::distribute(&mut s, 2_000, 5_000, 100).unwrap();
    assert_eq!(
        ops::claim(&s, &p, 99),
        Err(CustomError::InsufficientRefundBalance)
    );
}

#[test]
fn claim_with_nothing_contributed_overall_fails() {
    // A non-cancelled participant cannot be paid pro-rata out of a zero
    // total: the formula refuses the division.
    let mut s = active_state();
    ops::distribute(&mut s, 2_000, 5_000, 100).unwrap();
    let p = ParticipantAccount {
        participation_time: 10,
        amount: 100,
        ..ParticipantAccount::new(5)
    };
    assert_eq!(ops::claim(&s, &p, 1_000), Err(CustomError::DivisionByZero));
}

#[test]
fn claim_share_overflow_fails() {
    // An adversarial record larger than the whole contributed total can
    // push the 128-bit quotient past the 64-bit range; the claim is
    // refused rather than truncated.
    let mut s = active_state();
    s.total_tokens = u64::MAX;
    s.total_contributed = 1;
    ops::distribute(&mut s, 2_000, 5_000, 100).unwrap();
    let p = ParticipantAccount {
        participation_time: 10,
        amount: 3,
        ..ParticipantAccount::new(5)
    };
    assert_eq!(ops::claim(&s, &p, 1_000), Err(CustomError::ArithmeticOverflow));
}
