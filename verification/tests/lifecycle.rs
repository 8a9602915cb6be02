//! A full sale run through the registry: setup, deposit, activation,
//! participation, cancellation, distribution, and both kinds of claim.

use swan::errors::CustomError;
use swan::ops::ClaimAction;
use swan::sale::Sale;
use swan::state::{ParticipantAccount, State};

const PROVIDER: u64 = 11;
const BENEFICIARY: u64 = 22;
const SAFEGUARDING: u64 = 33;
const MINT: u64 = 44;

#[test]
fn full_sale_lifecycle() {
    let mut sale = Sale::new();

    // Setup phase.
    assert_eq!(
        swan::ops::init(&mut sale.state, PROVIDER, BENEFICIARY, SAFEGUARDING),
        Ok(())
    );
    assert!(sale.state.initialized);
    assert_eq!(sale.state.raise_cap, 5_000_000_000_000);
    assert_eq!(
        swan::ops::deposit(&mut sale.state, PROVIDER, MINT, 1_000_000),
        Ok(())
    );
    assert_eq!(sale.state.total_tokens, 1_000_000);
    assert_eq!(sale.state.token_mint, MINT);
    assert_eq!(swan::ops::activate(&mut sale.state, PROVIDER, 1_000, 50), Ok(()));
    assert_eq!(sale.state.participation_end, 1_050);
    assert_eq!(sale.state.duration, 1_000);

    // Two participants register and contribute within the window.
    let alice = sale.init_participant(100).unwrap();
    let bob = sale.init_participant(200).unwrap();
    assert_eq!(sale.participate_at(alice, 50_000_000_000, 100), Ok(()));
    assert_eq!(sale.participate_at(bob, 100_000_000_000, 200), Ok(()));
    assert_eq!(sale.state.total_contributed, 150_000_000_000);
    assert_eq!(sale.state.unique_investor_count, 2);
    assert_eq!(sale.state.active_early_investor_count, 2);
    assert_eq!(sale.state.large_investor_count, 1);

    // Bob cancels in time: his amount moves to the refund set-aside.
    assert_eq!(sale.cancel_at(bob, 300), Ok(()));
    assert_eq!(sale.state.total_contributed, 50_000_000_000);
    assert_eq!(sale.state.total_cancelled, 100_000_000_000);
    assert_eq!(sale.state.active_early_investor_count, 1);
    assert_eq!(sale.state.large_investor_count, 0);

    // Surplus above the refund set-aside and the reserve is safeguarded.
    let custody = 50_000_000_000 + 100_000_000_000 + 2_000;
    let skim = swan::ops::safeguard(&sale.state, SAFEGUARDING, custody, 2_000);
    assert_eq!(skim, Ok(50_000_000_000));
    let custody = custody - 50_000_000_000;

    // After the window plus the duration again, anyone may distribute.
    let payout = swan::ops::distribute(&mut sale.state, 2_050, custody, 2_000);
    assert_eq!(payout, Ok(100_000_000_000));
    assert!(sale.state.tokens_distributed);
    assert_eq!(sale.state.recipient_lamports, 100_000_000_000);

    // Alice claims her pro-rata share of the pool less the bonus reserve,
    // plus her early-investor bonus: (1_000_000 - 1_000) * 1 + 1_000.
    let a = sale.find_participant(100).unwrap();
    assert_eq!(
        sale.claim_at(a, 2_000),
        Ok(ClaimAction::TokenShare(999_000 + 1_000))
    );
    assert_eq!(sale.find_participant(100), None);

    // Bob claims his refund of exactly his cancelled amount.
    let b = sale.find_participant(200).unwrap();
    assert_eq!(
        sale.claim_at(b, 100_000_000_000),
        Ok(ClaimAction::Refund(100_000_000_000))
    );
    assert_eq!(sale.find_participant(200), None);
    assert_eq!(sale.participants.len(), 0);
}

#[test]
fn init_participant_is_idempotent_guarded() {
    let mut sale = Sale::new();
    assert!(sale.init_participant(7).is_ok());
    assert_eq!(
        sale.init_participant(7),
        Err(CustomError::ParticipantAlreadyInitialized)
    );
    assert_eq!(sale.participants.len(), 1);
    assert_eq!(sale.participants[0], ParticipantAccount::new(7));
}

#[test]
fn fresh_state_is_all_zero() {
    let s = State::new();
    assert!(!s.initialized);
    assert!(!s.participation_active);
    assert!(!s.tokens_distributed);
    assert_eq!(s.total_contributed, 0);
    assert_eq!(s.total_cancelled, 0);
    assert_eq!(s.raise_cap, 0);
    assert_eq!(s.unique_investor_count, 0);
}

#[test]
fn end_closes_the_window_immediately() {
    let mut s = State::new();
    assert_eq!(swan::ops::init(&mut s, PROVIDER, BENEFICIARY, SAFEGUARDING), Ok(()));
    assert_eq!(swan::ops::activate(&mut s, PROVIDER, 1_000_000, 10), Ok(()));
    assert_eq!(swan::ops::end(&mut s, 99, 500), Err(CustomError::UnauthorizedCaller));
    assert_eq!(swan::ops::end(&mut s, PROVIDER, 500), Ok(()));
    assert_eq!(s.participation_end, 500);
    assert_eq!(s.duration, 0);

    // The window and the distribution-eligibility time are now both at 500.
    let mut p = ParticipantAccount::new(5);
    assert_eq!(
        swan::ops::participate(&mut s, &mut p, 1_000, 501),
        Err(CustomError::ParticipationClosed)
    );
    assert_eq!(swan::ops::distribute(&mut s, 500, 3_000, 1_000), Ok(2_000));
}
