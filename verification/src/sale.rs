//! The whole sale as one owned value: the global `State` plus the registry
//! of participant records, keyed by participant identity.
//!
//! The registry reproduces the host ledger's account rules: a record is
//! created at most once per identity (`init_participant`), and a record is
//! closed after a successful claim (`claim_at`), so no participant can claim
//! twice.

use vstd::prelude::*;

use crate::errors::CustomError;
use crate::ops;
use crate::ops::ClaimAction;
use crate::state::{AccountId, ParticipantAccount, State};

verus! {

/// Whether some record in `ps` belongs to `owner`.
pub open spec fn has_owner(ps: Seq<ParticipantAccount>, owner: AccountId) -> bool {
    exists|i: int| 0 <= i < ps.len() && ps[i].participant == owner
}

/// What one record currently contributes to the pro-rata base: its amount
/// unless it cancelled.
pub open spec fn contribution(p: ParticipantAccount) -> int {
    if p.cancelled {
        0
    } else {
        p.amount as int
    }
}

/// The pro-rata base the registry carries: the sum of `amount` over all
/// non-cancelled records.
pub open spec fn active_sum(ps: Seq<ParticipantAccount>) -> int
    decreases ps.len(),
{
    if ps.len() == 0 {
        0
    } else {
        active_sum(ps.drop_last()) + contribution(ps.last())
    }
}

/// Appending a record adds exactly its contribution to the sum.
pub proof fn lemma_active_sum_push(ps: Seq<ParticipantAccount>, p: ParticipantAccount)
    ensures
        active_sum(ps.push(p)) == active_sum(ps) + contribution(p),
{
    assert(ps.push(p).drop_last() =~= ps);
}

/// Replacing one record moves the sum by the difference of the two
/// contributions.
pub proof fn lemma_active_sum_update(ps: Seq<ParticipantAccount>, i: int, p: ParticipantAccount)
    requires
        0 <= i < ps.len(),
    ensures
        active_sum(ps.update(i, p)) == active_sum(ps) - contribution(ps[i]) + contribution(p),
    decreases ps.len(),
{
    if i == ps.len() - 1 {
        assert(ps.update(i, p).drop_last() =~= ps.drop_last());
    } else {
        lemma_active_sum_update(ps.drop_last(), i, p);
        assert(ps.update(i, p).drop_last() =~= ps.drop_last().update(i, p));
        assert(ps.update(i, p).last() == ps.last());
    }
}

/// Removing one record takes exactly its contribution out of the sum.
pub proof fn lemma_active_sum_remove(ps: Seq<ParticipantAccount>, i: int)
    requires
        0 <= i < ps.len(),
    ensures
        active_sum(ps.remove(i)) == active_sum(ps) - contribution(ps[i]),
    decreases ps.len(),
{
    if i == ps.len() - 1 {
        assert(ps.remove(i) =~= ps.drop_last());
    } else {
        lemma_active_sum_remove(ps.drop_last(), i);
        assert(ps.remove(i).drop_last() =~= ps.drop_last().remove(i));
        assert(ps.remove(i).last() == ps.last());
    }
}

/// The sale's full state: the single global record and one record per
/// registered participant.
pub struct Sale {
    /// The global sale record.
    pub state: State,
    /// The registered participant records, at most one per identity.
    pub participants: Vec<ParticipantAccount>,
}

impl Sale {
    /// The registry invariant: no identity owns two records.
    pub open spec fn wf(self) -> bool {
        forall|i: int, j: int|
            0 <= i < j < self.participants@.len() ==> self.participants@[i].participant
                != self.participants@[j].participant
    }

    /// A fresh sale: an uninitialized state record and no participants.
    pub fn new() -> (sale: Sale)
        ensures
            sale.state == State::initial_spec(),
            sale.participants@ =~= Seq::<ParticipantAccount>::empty(),
            sale.wf(),
    {
        Sale { state: State::new(), participants: Vec::new() }
    }

    /// Finds the record registered for `owner`, if any.
    pub fn find_participant(&self, owner: AccountId) -> (r: Option<usize>)
        ensures
            (match r {
                Some(i) => i < self.participants@.len() && self.participants@[i as int].participant
                    == owner,
                None => !has_owner(self.participants@, owner),
            }),
    {
        let n = self.participants.len();
        let mut i: usize = 0;
        while i < n
            invariant
                i <= n,
                n == self.participants@.len(),
                forall|j: int| 0 <= j < i ==> self.participants@[j].participant != owner,
            decreases n - i,
        {
            if self.participants[i].participant == owner {
                return Some(i);
            }
            i = i + 1;
        }
        None
    }

    /// Registers `owner` with a fresh record; fails
    /// `ParticipantAlreadyInitialized` if a record for `owner` already
    /// exists, leaving everything unchanged.
    pub fn init_participant(&mut self, owner: AccountId) -> (r: Result<usize, CustomError>)
        ensures
            (match r {
                Ok(i) => !has_owner(old(self).participants@, owner) && final(self).state == old(self).state && final(self).participants@ =~= old(self).participants@.push(
                    ParticipantAccount::fresh_spec(owner),
                ) && i + 1 == final(self).participants@.len(),
                Err(e) => e == CustomError::ParticipantAlreadyInitialized && has_owner(
                    old(self).participants@,
                    owner,
                ) && *final(self) == *old(self),
            }),
            old(self).wf() ==> final(self).wf(),
            has_owner(final(self).participants@, owner),
    {
        match self.find_participant(owner) {
            Some(_) => Err(CustomError::ParticipantAlreadyInitialized),
            None => {
                let i = self.participants.len();
                self.participants.push(ParticipantAccount::new(owner));
                proof {
                    assert(self.participants@[i as int].participant == owner);
                }
                Ok(i)
            },
        }
    }

    /// Accepts a contribution for the record at `idx`, exactly as
    /// `ops::participate` does; every other record is untouched.
    pub fn participate_at(&mut self, idx: usize, amount: u64, now: u64) -> (r: Result<
        (),
        CustomError,
    >)
        requires
            idx < old(self).participants@.len(),
        ensures
            (match ops::participate_spec(
                old(self).state,
                old(self).participants@[idx as int],
                amount,
                now,
            ) {
                Ok((s2, p2)) => r == Ok::<(), CustomError>(()) && final(self).state == s2 && final(self).participants@ =~= old(self).participants@.update(idx as int, p2),
                Err(e) => r == Err::<(), CustomError>(e) && *final(self) == *old(self),
            }),
            old(self).wf() ==> final(self).wf(),
    {
        let mut record = self.participants[idx];
        let r = ops::participate(&mut self.state, &mut record, amount, now);
        match r {
            Ok(()) => {
                self.participants.set(idx, record);
                proof {
                    assert forall|i: int, j: int|
                        old(self).wf() && 0 <= i < j < final(self).participants@.len() implies final(self).participants@[i].participant != final(self).participants@[j].participant by {
                        assert(final(self).participants@[i].participant == old(self).participants@[i].participant);
                        assert(final(self).participants@[j].participant == old(self).participants@[j].participant);
                    }
                }
                Ok(())
            },
            Err(e) => Err(e),
        }
    }

    /// Cancels the participation of the record at `idx`, exactly as
    /// `ops::cancel` does; every other record is untouched.
    pub fn cancel_at(&mut self, idx: usize, now: u64) -> (r: Result<(), CustomError>)
        requires
            idx < old(self).participants@.len(),
        ensures
            (match ops::cancel_spec(old(self).state, old(self).participants@[idx as int], now) {
                Ok((s2, p2)) => r == Ok::<(), CustomError>(()) && final(self).state == s2 && final(self).participants@ =~= old(self).participants@.update(idx as int, p2),
                Err(e) => r == Err::<(), CustomError>(e) && *final(self) == *old(self),
            }),
            old(self).wf() ==> final(self).wf(),
    {
        let mut record = self.participants[idx];
        let r = ops::cancel(&mut self.state, &mut record, now);
        match r {
            Ok(()) => {
                self.participants.set(idx, record);
                proof {
                    assert forall|i: int, j: int|
                        old(self).wf() && 0 <= i < j < final(self).participants@.len() implies final(self).participants@[i].participant != final(self).participants@[j].participant by {
                        assert(final(self).participants@[i].participant == old(self).participants@[i].participant);
                        assert(final(self).participants@[j].participant == old(self).participants@[j].participant);
                    }
                }
                Ok(())
            },
            Err(e) => Err(e),
        }
    }

    /// Settles the claim of the record at `idx`, exactly as `ops::claim`
    /// does. On success the record is closed: it leaves the registry, so a
    /// second claim for the same identity finds no record.
    pub fn claim_at(&mut self, idx: usize, custody_balance: u64) -> (r: Result<
        ClaimAction,
        CustomError,
    >)
        requires
            idx < old(self).participants@.len(),
        ensures
            (match ops::claim_spec(
                old(self).state,
                old(self).participants@[idx as int],
                custody_balance,
            ) {
                Ok(action) => r == Ok::<ClaimAction, CustomError>(action) && final(self).state
                    == old(self).state && final(self).participants@ =~= old(self).participants@.remove(idx as int),
                Err(e) => r == Err::<ClaimAction, CustomError>(e) && *final(self) == *old(self),
            }),
            old(self).wf() ==> final(self).wf(),
    {
        let record = self.participants[idx];
        let r = ops::claim(&self.state, &record, custody_balance);
        match r {
            Ok(action) => {
                self.participants.remove(idx);
                proof {
                    assert forall|i: int, j: int|
                        old(self).wf() && 0 <= i < j < final(self).participants@.len() implies final(self).participants@[i].participant != final(self).participants@[j].participant by {
                        let oi = if i < idx { i } else { i + 1 };
                        let oj = if j < idx { j } else { j + 1 };
                        assert(final(self).participants@[i] == old(self).participants@[oi]);
                        assert(final(self).participants@[j] == old(self).participants@[oj]);
                    }
                }
                Ok(action)
            },
            Err(e) => Err(e),
        }
    }
}

} // verus!
