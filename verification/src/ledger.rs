//! Arithmetic of shares and payments.
//!
//! The sums are taken over unbounded integers, so that a statement about a
//! sum is a statement about the amounts and never about a machine word.

use vstd::prelude::*;
use crate::types::{Participant, ParticipantView};

verus! {

/// The sum of a list of shares.
pub open spec fn sum_shares(shares: Seq<i128>) -> int
    decreases shares.len(),
{
    if shares.len() == 0 {
        0
    } else {
        sum_shares(shares.drop_last()) + shares.last()
    }
}

/// What the participants owe together.
pub open spec fn total_owed(participants: Seq<ParticipantView>) -> int
    decreases participants.len(),
{
    if participants.len() == 0 {
        0
    } else {
        total_owed(participants.drop_last()) + participants.last().share_amount
    }
}

/// What the participants have paid together.
pub open spec fn total_paid(participants: Seq<ParticipantView>) -> int
    decreases participants.len(),
{
    if participants.len() == 0 {
        0
    } else {
        total_paid(participants.drop_last()) + participants.last().amount_paid
    }
}

/// Whether no share of the list is below zero.
pub open spec fn all_non_negative(shares: Seq<i128>) -> bool {
    forall|i: int| 0 <= i < shares.len() ==> shares[i] >= 0
}

impl ParticipantView {
    /// What a participant looks like before any payment.
    pub open spec fn fresh(address: Seq<char>, share: int) -> ParticipantView {
        ParticipantView { address, share_amount: share, amount_paid: 0, has_paid: false }
    }

    /// The rules that every participant record obeys: nothing is negative,
    /// nothing is paid beyond the share, and the flag of a share above zero
    /// tells whether it is paid in full.
    pub open spec fn wf(self) -> bool {
        &&& 0 <= self.amount_paid <= self.share_amount
        &&& self.share_amount > 0 ==> self.has_paid == (self.amount_paid >= self.share_amount)
    }

    /// What is still owed.
    pub open spec fn remaining(self) -> int {
        self.share_amount - self.amount_paid
    }

    /// The record after a payment of `amount`.
    pub open spec fn credited(self, amount: int) -> ParticipantView {
        ParticipantView {
            amount_paid: self.amount_paid + amount,
            has_paid: self.amount_paid + amount >= self.share_amount,
            ..self
        }
    }
}

/// Whether every record of the sequence obeys the rules of a participant.
pub open spec fn all_wf(participants: Seq<ParticipantView>) -> bool {
    forall|i: int| 0 <= i < participants.len() ==> (#[trigger] participants[i]).wf()
}

/// Replacing one record changes the sum of the payments by the difference of
/// the two records, and the sum of the shares likewise.
pub proof fn lemma_totals_update(participants: Seq<ParticipantView>, i: int, p: ParticipantView)
    requires
        0 <= i < participants.len(),
    ensures
        total_paid(participants.update(i, p)) == total_paid(participants)
            - participants[i].amount_paid + p.amount_paid,
        total_owed(participants.update(i, p)) == total_owed(participants)
            - participants[i].share_amount + p.share_amount,
    decreases participants.len(),
{
    let updated = participants.update(i, p);
    if i == participants.len() - 1 {
        assert(updated.drop_last() =~= participants.drop_last());
    } else {
        lemma_totals_update(participants.drop_last(), i, p);
        assert(updated.drop_last() =~= participants.drop_last().update(i, p));
    }
}

/// Well-formed records have paid nothing below zero and together no more than
/// they owe.
pub proof fn lemma_paid_within_owed(participants: Seq<ParticipantView>)
    requires
        all_wf(participants),
    ensures
        0 <= total_paid(participants) <= total_owed(participants),
    decreases participants.len(),
{
    if participants.len() > 0 {
        let front = participants.drop_last();
        assert forall|i: int| 0 <= i < front.len() implies (#[trigger] front[i]).wf() by {
            assert(participants[i].wf());
        }
        lemma_paid_within_owed(front);
        assert(participants.last().wf());
    }
}

/// Where well-formed records have together paid all that they owe, each of
/// them has paid its share: nothing remains.
pub proof fn lemma_fully_paid(participants: Seq<ParticipantView>, i: int)
    requires
        all_wf(participants),
        total_paid(participants) >= total_owed(participants),
        0 <= i < participants.len(),
    ensures
        participants[i].remaining() == 0,
    decreases participants.len(),
{
    let front = participants.drop_last();
    assert forall|j: int| 0 <= j < front.len() implies (#[trigger] front[j]).wf() by {
        assert(participants[j].wf());
    }
    lemma_paid_within_owed(front);
    assert(participants.last().wf());
    if i < participants.len() - 1 {
        lemma_fully_paid(front, i);
    }
}

/// Taking one more record into a prefix adds its share to what the prefix
/// owes and its payment to what the prefix has paid.
pub proof fn lemma_totals_step(participants: Seq<ParticipantView>, n: int)
    requires
        0 <= n < participants.len(),
    ensures
        total_owed(participants.take(n + 1)) == total_owed(participants.take(n))
            + participants[n].share_amount,
        total_paid(participants.take(n + 1)) == total_paid(participants.take(n))
            + participants[n].amount_paid,
{
    assert(participants.take(n + 1).drop_last() =~= participants.take(n));
}

/// A prefix of well-formed records owes no more than all of them.
pub proof fn lemma_owed_prefix(participants: Seq<ParticipantView>, n: int)
    requires
        all_wf(participants),
        0 <= n <= participants.len(),
    ensures
        total_owed(participants.take(n)) <= total_owed(participants),
    decreases participants.len() - n,
{
    if n < participants.len() {
        lemma_owed_prefix(participants, n + 1);
        lemma_totals_step(participants, n);
        assert(participants[n].wf());
    } else {
        assert(participants.take(n) =~= participants);
    }
}

/// What `participant` still owes.
pub fn remaining_of(participant: &Participant) -> (r: i128)
    requires
        participant@.wf(),
    ensures
        r == participant@.remaining(),
{
    participant.share_amount - participant.amount_paid
}

/// Whether no share of the list is below zero.
pub fn shares_non_negative(shares: &Vec<i128>) -> (r: bool)
    ensures
        r == all_non_negative(shares@),
{
    let mut i: usize = 0;
    while i < shares.len()
        invariant
            i <= shares.len(),
            forall|j: int| 0 <= j < i ==> shares@[j] >= 0,
        decreases shares.len() - i,
    {
        if shares[i] < 0 {
            return false;
        }
        i += 1;
    }
    true
}

/// The sum of a prefix of non-negative shares is not below zero and not above
/// the sum of the whole list.
pub proof fn lemma_sum_shares_prefix(shares: Seq<i128>, n: int)
    requires
        all_non_negative(shares),
        0 <= n <= shares.len(),
    ensures
        0 <= sum_shares(shares.take(n)) <= sum_shares(shares),
    decreases shares.len() - n,
{
    lemma_sum_shares_non_negative(shares.take(n));
    if n < shares.len() {
        lemma_sum_shares_prefix(shares, n + 1);
        assert(shares.take(n + 1).drop_last() =~= shares.take(n));
    } else {
        assert(shares.take(n) =~= shares);
    }
}

/// Shares that are not below zero do not add up to less than zero.
pub proof fn lemma_sum_shares_non_negative(shares: Seq<i128>)
    requires
        all_non_negative(shares),
    ensures
        0 <= sum_shares(shares),
    decreases shares.len(),
{
    if shares.len() > 0 {
        lemma_sum_shares_non_negative(shares.drop_last());
    }
}

/// Whether the shares add up to `total`, for shares that are not below zero.
/// The sum is taken exactly: where it exceeds every machine amount, it equals
/// no total.
pub fn shares_sum_to(shares: &Vec<i128>, total: i128) -> (r: bool)
    requires
        all_non_negative(shares@),
    ensures
        r == (sum_shares(shares@) == total),
{
    if total < 0 {
        proof {
            lemma_sum_shares_non_negative(shares@);
        }
        return false;
    }
    let mut sum: i128 = 0;
    let mut i: usize = 0;
    while i < shares.len()
        invariant
            i <= shares.len(),
            all_non_negative(shares@),
            sum == sum_shares(shares@.take(i as int)),
            0 <= sum <= total,
        decreases shares.len() - i,
    {
        let share: i128 = shares[i];
        proof {
            assert(shares@.take(i + 1).drop_last() =~= shares@.take(i as int));
            lemma_sum_shares_prefix(shares@, i + 1);
        }
        if share > total - sum {
            return false;
        }
        sum = sum + share;
        i += 1;
    }
    proof {
        assert(shares@.take(i as int) =~= shares@);
    }
    sum == total
}

} // verus!
