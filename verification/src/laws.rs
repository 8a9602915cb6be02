//! The sale's global guarantees, stated and proved over the operations'
//! transition functions.

use vstd::prelude::*;

use crate::distribution::{base_share, share_spec};
use crate::errors::CustomError;
use crate::ops::{
    activate_spec, cancel_spec, claim_spec, deposit_spec, distribute_spec, end_spec, init_spec,
    participate_spec, ClaimAction,
};
use crate::sale::{
    active_sum, lemma_active_sum_push, lemma_active_sum_remove, lemma_active_sum_update,
};
use crate::state::{
    accepted, counters_wf, ParticipantAccount, State, BONUS_TOKENS, LARGE_INVESTOR_THRESHOLD,
};

verus! {

/// Conservation: a successful `participate` grows the accepted total —
/// `total_contributed + total_cancelled` — by exactly the contributed
/// amount, so the accepted total always equals the sum of everything ever
/// accepted, and never decreases.
pub proof fn lemma_conservation_participate(s: State, p: ParticipantAccount, amount: u64, now: u64)
    ensures
        participate_spec(s, p, amount, now) matches Ok((s2, p2)) ==> accepted(s2) == accepted(s)
            + amount,
{
}

/// Conservation: `cancel` only moves a participant's amount from the
/// contributed total to the refund set-aside; the accepted total is
/// unchanged.
pub proof fn lemma_conservation_cancel(s: State, p: ParticipantAccount, now: u64)
    ensures
        cancel_spec(s, p, now) matches Ok((s2, p2)) ==> accepted(s2) == accepted(s),
{
}

/// Conservation: no operation other than `participate` and `cancel` touches
/// the accepted total at all.
pub proof fn lemma_conservation_others(
    s: State,
    id_a: u64,
    id_b: u64,
    id_c: u64,
    amount: u64,
    now: u64,
)
    ensures
        init_spec(s, id_a, id_b, id_c) matches Ok(s2) ==> accepted(s2) == accepted(s),
        deposit_spec(s, id_a, id_b, amount) matches Ok(s2) ==> accepted(s2) == accepted(s),
        activate_spec(s, id_a, amount, now) matches Ok(s2) ==> accepted(s2) == accepted(s),
        distribute_spec(s, now, id_b, id_c) matches Ok((s2, payout)) ==> accepted(s2) == accepted(
            s,
        ),
        end_spec(s, id_a, now) matches Ok(s2) ==> accepted(s2) == accepted(s),
{
}

/// No double cancel: once a `cancel` has succeeded, a second `cancel` of
/// the same record fails, at any later clock reading and whatever has
/// happened to the global state since — the record's `cancelled` flag is
/// set and the cancelled branch can never be taken again.
pub proof fn lemma_no_double_cancel(
    s: State,
    p: ParticipantAccount,
    now: u64,
    s_later: State,
    now_later: u64,
)
    ensures
        cancel_spec(s, p, now) matches Ok((s2, p2)) ==> cancel_spec(s_later, p2, now_later).is_err(),
        cancel_spec(s, p, now) matches Ok((s2, p2)) ==> (now_later <= s_later.participation_end
            && !s_later.tokens_distributed ==> cancel_spec(s_later, p2, now_later) == Err::<
            (State, ParticipantAccount),
            CustomError,
        >(CustomError::AlreadyCancelled)),
{
}

/// Cap enforcement: a contribution that would push the total over the
/// raise cap, or the participant over the per-participant cap, is refused
/// (and the executable `participate` then leaves all state unchanged).
/// Conversely, after any accepted contribution both caps hold.
pub proof fn lemma_cap_enforced(s: State, p: ParticipantAccount, amount: u64, now: u64)
    ensures
        s.total_contributed + amount > s.raise_cap ==> participate_spec(
            s,
            p,
            amount,
            now,
        ).is_err(),
        p.amount + amount > crate::state::MAX_CONTRIBUTION ==> participate_spec(
            s,
            p,
            amount,
            now,
        ).is_err(),
        participate_spec(s, p, amount, now) matches Ok((s2, p2)) ==> s2.total_contributed
            <= s.raise_cap && p2.amount <= crate::state::MAX_CONTRIBUTION,
{
}

/// Early-investor monotonicity: `active_early_investor_count` never
/// exceeds the early-investor limit, nor `unique_investor_count`; the
/// bound holds of a fresh sale and every operation preserves it.
pub proof fn lemma_counters_initial()
    ensures
        counters_wf(State::initial_spec()),
{
}

/// Early-investor monotonicity across `participate`: an accepted
/// contribution keeps `active_early_investor_count <= min(limit,
/// unique_investor_count)`.
pub proof fn lemma_counters_participate(s: State, p: ParticipantAccount, amount: u64, now: u64)
    requires
        counters_wf(s),
    ensures
        participate_spec(s, p, amount, now) matches Ok((s2, p2)) ==> counters_wf(s2),
{
}

/// Early-investor monotonicity across `cancel`: the early counter only
/// steps down (saturating) and the unique counter is untouched.
pub proof fn lemma_counters_cancel(s: State, p: ParticipantAccount, now: u64)
    requires
        counters_wf(s),
    ensures
        cancel_spec(s, p, now) matches Ok((s2, p2)) ==> counters_wf(s2),
{
}

/// Early-investor monotonicity across the remaining operations: none of
/// them touches the two counters.
pub proof fn lemma_counters_others(s: State, id_a: u64, id_b: u64, id_c: u64, amount: u64, now: u64)
    requires
        counters_wf(s),
    ensures
        init_spec(s, id_a, id_b, id_c) matches Ok(s2) ==> counters_wf(s2),
        deposit_spec(s, id_a, id_b, amount) matches Ok(s2) ==> counters_wf(s2),
        activate_spec(s, id_a, amount, now) matches Ok(s2) ==> counters_wf(s2),
        distribute_spec(s, now, id_b, id_c) matches Ok((s2, payout)) ==> counters_wf(s2),
        end_spec(s, id_a, now) matches Ok(s2) ==> counters_wf(s2),
{
}

/// Bonus stacking: a participant holding the early-investor flag whose
/// contribution reaches the large-investor threshold receives their base
/// share plus twice the fixed bonus.
pub proof fn lemma_bonus_stacking(
    active_early_investor_count: u64,
    large_investor_count: u64,
    total_tokens: u64,
    amount: u64,
    total_contributed: u64,
)
    requires
        amount >= LARGE_INVESTOR_THRESHOLD,
    ensures
        share_spec(
            active_early_investor_count,
            large_investor_count,
            total_tokens,
            amount,
            total_contributed,
            true,
        ) matches Ok(share) ==> share == base_share(
            active_early_investor_count,
            large_investor_count,
            total_tokens,
            amount,
            total_contributed,
        ) + 2 * BONUS_TOKENS,
{
}

/// Post-cancel exclusion, first half: a successful `cancel` removes the
/// participant's amount from `total_contributed`, the divisor and scale of
/// every later pro-rata share, so other participants' shares are computed
/// without it.
pub proof fn lemma_cancel_excludes_amount(s: State, p: ParticipantAccount, now: u64)
    ensures
        cancel_spec(s, p, now) matches Ok((s2, p2)) ==> s2.total_contributed
            == s.total_contributed - p.amount,
{
}

/// Post-cancel exclusion, second half: a cancelled participant's claim is
/// a currency refund of exactly their recorded amount, never a token
/// share.
pub proof fn lemma_cancelled_claim_is_refund(s: State, p: ParticipantAccount, custody_balance: u64)
    requires
        p.cancelled,
    ensures
        claim_spec(s, p, custody_balance) matches Ok(action) ==> action == ClaimAction::Refund(
            p.amount,
        ),
{
}

/// A claim never fails silently into the wrong branch either: a
/// non-cancelled participant's successful claim is always a token share by
/// the distribution formula, never a refund.
pub proof fn lemma_kept_claim_is_share(s: State, p: ParticipantAccount, custody_balance: u64)
    requires
        !p.cancelled,
    ensures
        claim_spec(s, p, custody_balance) matches Ok(action) ==> action matches
            ClaimAction::TokenShare(share) && share_spec(
            s.active_early_investor_count,
            s.large_investor_count,
            s.total_tokens,
            p.amount,
            s.total_contributed,
            p.is_early_investor,
        ) == Ok::<u64, CustomError>(share),
{
}

/// Unique-investor counting: an accepted contribution raises
/// `unique_investor_count` exactly when it is the participant's first
/// non-zero contribution; a zero contribution counts no one, grants no
/// early flag, and stamps no participation time.
pub proof fn lemma_first_contribution_counting(
    s: State,
    p: ParticipantAccount,
    amount: u64,
    now: u64,
)
    ensures
        participate_spec(s, p, amount, now) matches Ok((s2, p2)) ==> s2.unique_investor_count
            == s.unique_investor_count + (if p.amount == 0 && amount > 0 {
            1int
        } else {
            0int
        }),
        amount == 0 ==> (participate_spec(s, p, amount, now) matches Ok((s2, p2)) ==> s2 == s && p2
            == p),
{
}

/// Ledger consistency: registering a participant leaves the pro-rata base
/// untouched — a fresh record contributes nothing.
pub proof fn lemma_consistency_init_participant(
    ps: Seq<ParticipantAccount>,
    owner: crate::state::AccountId,
)
    ensures
        active_sum(ps.push(ParticipantAccount::fresh_spec(owner))) == active_sum(ps),
{
    lemma_active_sum_push(ps, ParticipantAccount::fresh_spec(owner));
}

/// Ledger consistency across `participate`: if `total_contributed` equals
/// the sum of the non-cancelled records' amounts, it still does after an
/// accepted contribution is written back to the registry.
pub proof fn lemma_consistency_participate(
    s: State,
    ps: Seq<ParticipantAccount>,
    i: int,
    amount: u64,
    now: u64,
)
    requires
        0 <= i < ps.len(),
        s.total_contributed == active_sum(ps),
    ensures
        participate_spec(s, ps[i], amount, now) matches Ok((s2, p2)) ==> s2.total_contributed
            == active_sum(ps.update(i, p2)),
{
    match participate_spec(s, ps[i], amount, now) {
        Ok((s2, p2)) => {
            lemma_active_sum_update(ps, i, p2);
        },
        Err(_) => {},
    }
}

/// Ledger consistency across `cancel`: the cancelled record stops counting
/// toward the pro-rata base exactly as its amount leaves
/// `total_contributed`.
pub proof fn lemma_consistency_cancel(s: State, ps: Seq<ParticipantAccount>, i: int, now: u64)
    requires
        0 <= i < ps.len(),
        s.total_contributed == active_sum(ps),
    ensures
        cancel_spec(s, ps[i], now) matches Ok((s2, p2)) ==> s2.total_contributed == active_sum(
            ps.update(i, p2),
        ),
{
    match cancel_spec(s, ps[i], now) {
        Ok((s2, p2)) => {
            lemma_active_sum_update(ps, i, p2);
        },
        Err(_) => {},
    }
}

/// Ledger consistency across a refund claim: closing a cancelled record
/// removes nothing from the pro-rata base, which the untouched
/// `total_contributed` still matches.
pub proof fn lemma_consistency_refund_claim(
    s: State,
    ps: Seq<ParticipantAccount>,
    i: int,
    custody_balance: u64,
)
    requires
        0 <= i < ps.len(),
        ps[i].cancelled,
        s.total_contributed == active_sum(ps),
    ensures
        claim_spec(s, ps[i], custody_balance) matches Ok(action) ==> s.total_contributed
            == active_sum(ps.remove(i)),
{
    lemma_active_sum_remove(ps, i);
}

} // verus!
