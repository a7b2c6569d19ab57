//! The lifecycle of one split: opening it, taking deposits, releasing and
//! cancelling.
//!
//! Each operation is stated twice: as a function on the view, which says what
//! the operation means, and as executable code that is proved to do the same.

use vstd::prelude::*;
use crate::address::Address;
use crate::errors::{EscrowError, InvalidStateError, NotFoundError, ValidationError};
use crate::ledger::{
    all_non_negative, all_wf, lemma_owed_prefix, lemma_paid_within_owed, lemma_totals_step,
    lemma_totals_update, remaining_of, shares_non_negative, shares_sum_to, sum_shares, total_owed,
    total_paid,
};
use crate::registry::{
    address_views, credit, enroll, entry_of, find_participant, fresh_participants, has_member,
    lemma_member_has_entry,
};
use crate::types::{Split, SplitStatus, SplitView};

verus! {

/// Why a split with these inputs cannot be opened, or nothing where it can.
/// The first rule that is broken decides: as many shares as participants, at
/// least one participant, no share below zero, and shares that add up to the
/// total.
pub open spec fn creation_refusal(total_amount: int, participants: nat, shares: Seq<i128>) -> Option<
    ValidationError,
> {
    if participants != shares.len() {
        Some(ValidationError::LengthMismatch)
    } else if participants == 0 {
        Some(ValidationError::NoParticipants)
    } else if !all_non_negative(shares) {
        Some(ValidationError::NegativeShare)
    } else if sum_shares(shares) != total_amount {
        Some(ValidationError::ShareSumMismatch)
    } else {
        None
    }
}

impl SplitView {
    /// Whether the status agrees with what has been collected: nothing while
    /// pending, less than the total while active, and the total once completed
    /// or released.
    pub open spec fn status_matches_funding(self) -> bool {
        match self.status {
            SplitStatus::Pending => self.amount_collected == 0,
            SplitStatus::Active => self.amount_collected < self.total_amount,
            SplitStatus::Completed | SplitStatus::Released => self.amount_collected
                >= self.total_amount,
            SplitStatus::Cancelled => true,
        }
    }

    /// The rules that every split obeys at all times: it has a participant,
    /// each participant record is well formed, the total is the sum of the
    /// shares, the collected amount is the sum of the payments, and the status
    /// agrees with the collected amount.
    pub open spec fn wf(self) -> bool {
        &&& self.participants.len() >= 1
        &&& all_wf(self.participants)
        &&& self.total_amount == total_owed(self.participants)
        &&& self.amount_collected == total_paid(self.participants)
        &&& self.status_matches_funding()
    }

    /// The split that opening yields: pending, nothing collected, nothing paid
    /// by anybody.
    pub open spec fn opened(
        id: u64,
        creator: Seq<char>,
        description: Seq<char>,
        total_amount: int,
        addresses: Seq<Seq<char>>,
        shares: Seq<i128>,
        created_at: u64,
    ) -> SplitView {
        SplitView {
            id,
            creator,
            description,
            total_amount,
            amount_collected: 0,
            participants: fresh_participants(addresses, shares),
            status: SplitStatus::Pending,
            created_at,
        }
    }

    /// Whether the split takes deposits: while it is pending or active.
    pub open spec fn accepts_deposits(self) -> bool {
        self.status == SplitStatus::Pending || self.status == SplitStatus::Active
    }

    /// Why a deposit of `amount` by `who` is refused, or nothing where it is
    /// accepted. The first rule that is broken decides: the split takes
    /// deposits, `who` is a participant, the amount is not below zero, and it
    /// is not above what the entry of `who` still owes.
    pub open spec fn deposit_refusal(self, who: Seq<char>, amount: int) -> Option<EscrowError> {
        if !self.accepts_deposits() {
            Some(EscrowError::InvalidState(InvalidStateError::NotAcceptingDeposits))
        } else if !has_member(self.participants, who) {
            Some(EscrowError::NotFound(NotFoundError::Participant))
        } else if amount < 0 {
            Some(EscrowError::Validation(ValidationError::NegativeAmount))
        } else if amount > self.participants[entry_of(self.participants, who)].remaining() {
            Some(EscrowError::Overpayment)
        } else {
            None
        }
    }

    /// The split after an accepted deposit of `amount` by `who`: the amount is
    /// credited to the entry of `who` and added to what was collected; the
    /// split is completed where the total is reached and active where not.
    pub open spec fn after_deposit(self, who: Seq<char>, amount: int) -> SplitView {
        let i = entry_of(self.participants, who);
        let collected = self.amount_collected + amount;
        SplitView {
            amount_collected: collected,
            participants: self.participants.update(i, self.participants[i].credited(amount)),
            status: if collected >= self.total_amount {
                SplitStatus::Completed
            } else {
                SplitStatus::Active
            },
            ..self
        }
    }

    /// Why the funds cannot be released, or nothing where they can: only a
    /// completed split is released.
    pub open spec fn release_refusal(self) -> Option<EscrowError> {
        if self.status != SplitStatus::Completed {
            Some(EscrowError::InvalidState(InvalidStateError::NotCompleted))
        } else {
            None
        }
    }

    /// Why the split cannot be cancelled, or nothing where it can: only a
    /// released split is past cancelling.
    pub open spec fn cancel_refusal(self) -> Option<EscrowError> {
        if self.status == SplitStatus::Released {
            Some(EscrowError::InvalidState(InvalidStateError::AlreadyReleased))
        } else {
            None
        }
    }

    /// The split after it was cancelled: nothing changes but the status.
    pub open spec fn cancelled(self) -> SplitView {
        SplitView { status: SplitStatus::Cancelled, ..self }
    }
}

/// Participants who have paid nothing are well formed where no share is below
/// zero; they have paid nothing together and owe the sum of the shares.
pub proof fn lemma_fresh_participants(addresses: Seq<Seq<char>>, shares: Seq<i128>)
    requires
        addresses.len() == shares.len(),
        all_non_negative(shares),
    ensures
        all_wf(fresh_participants(addresses, shares)),
        total_paid(fresh_participants(addresses, shares)) == 0,
        total_owed(fresh_participants(addresses, shares)) == sum_shares(shares),
    decreases shares.len(),
{
    let fresh = fresh_participants(addresses, shares);
    if shares.len() > 0 {
        lemma_fresh_participants(addresses.drop_last(), shares.drop_last());
        assert(fresh.drop_last() =~= fresh_participants(addresses.drop_last(), shares.drop_last()));
    }
}

/// An accepted deposit keeps a split well formed, collects no more than the
/// total and keeps the number of participants.
pub proof fn lemma_deposit_keeps_wf(split: SplitView, who: Seq<char>, amount: int)
    requires
        split.wf(),
        split.deposit_refusal(who, amount) is None,
    ensures
        split.after_deposit(who, amount).wf(),
        split.after_deposit(who, amount).amount_collected <= split.total_amount,
        split.after_deposit(who, amount).participants.len() == split.participants.len(),
{
    let i = entry_of(split.participants, who);
    lemma_member_has_entry(split.participants, who);
    let after = split.after_deposit(who, amount);
    assert(split.participants[i].wf());
    lemma_totals_update(split.participants, i, split.participants[i].credited(amount));
    assert forall|j: int| 0 <= j < after.participants.len() implies (#[trigger] after.participants[j]).wf() by {
        if j != i {
            assert(split.participants[j].wf());
        }
    }
    lemma_paid_within_owed(after.participants);
}

/// Checks the inputs from which a split is opened.
pub fn check_creation(total_amount: i128, participants: usize, shares: &Vec<i128>) -> (r: Result<
    (),
    ValidationError,
>)
    ensures
        match creation_refusal(total_amount as int, participants as nat, shares@) {
            Some(e) => r == Err::<(), ValidationError>(e),
            None => r is Ok,
        },
{
    if participants != shares.len() {
        Err(ValidationError::LengthMismatch)
    } else if participants == 0 {
        Err(ValidationError::NoParticipants)
    } else if !shares_non_negative(shares) {
        Err(ValidationError::NegativeShare)
    } else if !shares_sum_to(shares, total_amount) {
        Err(ValidationError::ShareSumMismatch)
    } else {
        Ok(())
    }
}

impl Split {
    /// Whether the split obeys the rules of [`SplitView::wf`].
    pub open spec fn wf(&self) -> bool {
        self@.wf()
    }

    /// Checks the rules of [`SplitView::wf`] on a split that comes from
    /// elsewhere, such as a record read back from storage.
    pub fn is_well_formed(&self) -> (r: bool)
        ensures
            r == self.wf(),
    {
        let ghost views = self@.participants;
        if self.participants.len() == 0 || self.total_amount < 0 {
            proof {
                if all_wf(views) {
                    lemma_paid_within_owed(views);
                }
            }
            return false;
        }
        let mut owed: i128 = 0;
        let mut paid: i128 = 0;
        let mut i: usize = 0;
        while i < self.participants.len()
            invariant
                i <= self.participants.len(),
                views == self@.participants,
                all_wf(views.take(i as int)),
                owed == total_owed(views.take(i as int)),
                paid == total_paid(views.take(i as int)),
                0 <= paid <= owed <= self.total_amount,
            decreases self.participants.len() - i,
        {
            let p = &self.participants[i];
            assert(p@ == views[i as int]);
            let flag_agrees: bool = p.share_amount <= 0 || p.has_paid == (p.amount_paid
                >= p.share_amount);
            if p.amount_paid < 0 || p.amount_paid > p.share_amount || !flag_agrees {
                assert(!views[i as int].wf());
                return false;
            }
            proof {
                lemma_totals_step(views, i as int);
                if all_wf(views) {
                    lemma_owed_prefix(views, i + 1);
                }
            }
            if p.share_amount > self.total_amount - owed {
                return false;
            }
            owed = owed + p.share_amount;
            paid = paid + p.amount_paid;
            proof {
                assert forall|j: int| 0 <= j < i + 1 implies (#[trigger] views.take(i + 1)[j]).wf() by {
                    if j < i {
                        assert(views.take(i as int)[j].wf());
                    }
                }
            }
            i += 1;
        }
        proof {
            assert(views.take(i as int) =~= views);
        }
        let status_agrees: bool = match self.status {
            SplitStatus::Pending => self.amount_collected == 0,
            SplitStatus::Active => self.amount_collected < self.total_amount,
            SplitStatus::Completed => self.amount_collected >= self.total_amount,
            SplitStatus::Released => self.amount_collected >= self.total_amount,
            SplitStatus::Cancelled => true,
        };
        owed == self.total_amount && paid == self.amount_collected && status_agrees
    }

    /// Opens a split: one participant for each identity with the share at the
    /// same place, nothing paid, nothing collected, status pending. The inputs
    /// are refused as [`creation_refusal`] says.
    pub fn create(
        id: u64,
        creator: Address,
        description: String,
        total_amount: i128,
        participant_addresses: &Vec<Address>,
        participant_shares: &Vec<i128>,
        created_at: u64,
    ) -> (r: Result<Split, ValidationError>)
        ensures
            match creation_refusal(
                total_amount as int,
                participant_addresses@.len(),
                participant_shares@,
            ) {
                Some(e) => r == Err::<Split, ValidationError>(e),
                None => r is Ok && r->Ok_0@ == SplitView::opened(
                    id,
                    creator@,
                    description@,
                    total_amount as int,
                    address_views(participant_addresses@),
                    participant_shares@,
                    created_at,
                ) && r->Ok_0.wf(),
            },
    {
        match check_creation(total_amount, participant_addresses.len(), participant_shares) {
            Err(e) => Err(e),
            Ok(()) => {
                let participants = enroll(participant_addresses, participant_shares);
                proof {
                    lemma_fresh_participants(
                        address_views(participant_addresses@),
                        participant_shares@,
                    );
                }
                Ok(
                    Split {
                        id,
                        creator,
                        description,
                        total_amount,
                        amount_collected: 0,
                        participants,
                        status: SplitStatus::Pending,
                        created_at,
                    },
                )
            },
        }
    }

    /// Takes a deposit of `amount` from `participant`. The deposit is refused
    /// as [`SplitView::deposit_refusal`] says, and then the split is
    /// unchanged; an accepted deposit changes the split as
    /// [`SplitView::after_deposit`] says.
    pub fn deposit(&mut self, participant: &Address, amount: i128) -> (r: Result<(), EscrowError>)
        requires
            old(self).wf(),
        ensures
            match old(self)@.deposit_refusal(participant@, amount as int) {
                Some(e) => r == Err::<(), EscrowError>(e) && final(self)@ == old(self)@,
                None => r is Ok && final(self)@ == old(self)@.after_deposit(
                    participant@,
                    amount as int,
                ),
            },
            final(self).wf(),
    {
        if self.status != SplitStatus::Pending && self.status != SplitStatus::Active {
            return Err(EscrowError::InvalidState(InvalidStateError::NotAcceptingDeposits));
        }
        let index: usize = match find_participant(&self.participants, participant) {
            None => {
                return Err(EscrowError::NotFound(NotFoundError::Participant));
            },
            Some(index) => index,
        };
        if amount < 0 {
            return Err(EscrowError::Validation(ValidationError::NegativeAmount));
        }
        assert(self@.participants[index as int].wf());
        if amount > remaining_of(&self.participants[index]) {
            return Err(EscrowError::Overpayment);
        }
        proof {
            lemma_deposit_keeps_wf(self@, participant@, amount as int);
        }
        credit(&mut self.participants, index, amount);
        self.amount_collected = self.amount_collected + amount;
        if self.amount_collected >= self.total_amount {
            self.status = SplitStatus::Completed;
        } else {
            self.status = SplitStatus::Active;
        }
        Ok(())
    }

    /// Decides whether the funds may be released and tells how much there is
    /// to release: the collected amount of a completed split. Any other
    /// status refuses. The split itself does not change.
    pub fn release(&self) -> (r: Result<i128, EscrowError>)
        ensures
            match self@.release_refusal() {
                Some(e) => r == Err::<i128, EscrowError>(e),
                None => r == Ok::<i128, EscrowError>(self.amount_collected),
            },
    {
        if self.status != SplitStatus::Completed {
            Err(EscrowError::InvalidState(InvalidStateError::NotCompleted))
        } else {
            Ok(self.amount_collected)
        }
    }

    /// Cancels the split, whatever its status, unless it was released: a
    /// released split refuses and is unchanged.
    pub fn cancel(&mut self) -> (r: Result<(), EscrowError>)
        ensures
            match old(self)@.cancel_refusal() {
                Some(e) => r == Err::<(), EscrowError>(e) && final(self)@ == old(self)@,
                None => r is Ok && final(self)@ == old(self)@.cancelled(),
            },
            old(self).wf() ==> final(self).wf(),
    {
        if self.status == SplitStatus::Released {
            Err(EscrowError::InvalidState(InvalidStateError::AlreadyReleased))
        } else {
            self.status = SplitStatus::Cancelled;
            Ok(())
        }
    }
}

} // verus!
