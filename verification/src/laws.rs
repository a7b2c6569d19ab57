//! What holds of the escrow whatever is asked of it.
//!
//! Each law is a theorem about the functions on views by which the
//! operations are specified, so it holds of every run of the executable
//! operations.

use vstd::prelude::*;
use crate::errors::{EscrowError, InvalidStateError};
use crate::ledger::{lemma_fully_paid, sum_shares};
use crate::registry::lemma_member_has_entry;
use crate::split::{lemma_deposit_keeps_wf, lemma_fresh_participants};
use crate::storage::StoreView;
use crate::types::{SplitStatus, SplitView};

verus! {

/// A request to deposit: who pays, and how much.
pub struct DepositRequest {
    pub who: Seq<char>,
    pub amount: int,
}

impl SplitView {
    /// The split after a deposit was asked for: changed where the deposit is
    /// accepted, the same where it is refused.
    pub open spec fn after_request(self, request: DepositRequest) -> SplitView {
        if self.deposit_refusal(request.who, request.amount) is None {
            self.after_deposit(request.who, request.amount)
        } else {
            self
        }
    }

    /// The split after a sequence of requests, taken in order.
    pub open spec fn after_requests(self, requests: Seq<DepositRequest>) -> SplitView
        decreases requests.len(),
    {
        if requests.len() == 0 {
            self
        } else {
            self.after_requests(requests.drop_last()).after_request(requests.last())
        }
    }

    /// The sum of the amounts of those requests of a sequence that are
    /// accepted when the requests are taken in order.
    pub open spec fn accepted_total(self, requests: Seq<DepositRequest>) -> int
        decreases requests.len(),
    {
        if requests.len() == 0 {
            0
        } else {
            let before = self.after_requests(requests.drop_last());
            let last = requests.last();
            self.accepted_total(requests.drop_last()) + if before.deposit_refusal(
                last.who,
                last.amount,
            ) is None {
                last.amount
            } else {
                0
            }
        }
    }
}

/// A split is opened only where the shares add up to the total, and it gets
/// an identifier above every identifier issued before, under which no split
/// is recorded yet. The store stays well formed.
pub proof fn law_creation_is_balanced_and_new(
    store: StoreView,
    caller: Seq<char>,
    creator: Seq<char>,
    description: Seq<char>,
    total_amount: int,
    addresses: Seq<Seq<char>>,
    shares: Seq<i128>,
    now: u64,
)
    requires
        store.wf(),
        store.split_counter < u64::MAX,
        store.create_split_refusal(caller, creator, total_amount, addresses.len(), shares) is None,
    ensures
        sum_shares(shares) == total_amount,
        forall|earlier: u64| store.was_issued(earlier) ==> earlier < store.next_split_id(),
        forall|id: u64| store.splits.contains_key(id) ==> id < store.next_split_id(),
        store.after_create_split(
            creator,
            description,
            total_amount,
            addresses,
            shares,
            now,
        ).was_issued(store.next_split_id()),
        store.after_create_split(creator, description, total_amount, addresses, shares, now).wf(),
{
    lemma_fresh_participants(addresses, shares);
    let after = store.after_create_split(
        creator,
        description,
        total_amount,
        addresses,
        shares,
        now,
    );
    assert forall|id: u64| #[trigger] after.splits.contains_key(id) implies after.admits(
        id,
        after.splits[id],
    ) by {
        if id != store.next_split_id() {
            assert(store.splits.contains_key(id));
        }
    }
}

/// Of two splits opened one after the other, the second gets the greater
/// identifier.
pub proof fn law_identifiers_increase(store: StoreView)
    requires
        store.split_counter + 1 < u64::MAX,
    ensures
        store.next_split_id() < store.with_next_id().next_split_id(),
{
}

/// Whatever deposits are asked of a well-formed split, in whatever order:
/// what it has collected grows by exactly the sum of the accepted amounts,
/// the split stays well formed, so that nobody has paid more than their
/// share, and the total and the number of participants stay as they were.
pub proof fn law_deposits_are_accounted(split: SplitView, requests: Seq<DepositRequest>)
    requires
        split.wf(),
    ensures
        split.after_requests(requests).wf(),
        split.after_requests(requests).amount_collected == split.amount_collected
            + split.accepted_total(requests),
        split.after_requests(requests).total_amount == split.total_amount,
        split.after_requests(requests).participants.len() == split.participants.len(),
        forall|i: int|
            0 <= i < split.participants.len() ==> (#[trigger] split.after_requests(
                requests,
            ).participants[i]).amount_paid <= split.after_requests(
                requests,
            ).participants[i].share_amount,
    decreases requests.len(),
{
    let after = split.after_requests(requests);
    if requests.len() > 0 {
        law_deposits_are_accounted(split, requests.drop_last());
        let before = split.after_requests(requests.drop_last());
        let last = requests.last();
        assert(after == before.after_request(last));
        if before.deposit_refusal(last.who, last.amount) is None {
            lemma_deposit_keeps_wf(before, last.who, last.amount);
        }
    }
    assert forall|i: int| 0 <= i < split.participants.len() implies (#[trigger] after.participants[i]).amount_paid
        <= after.participants[i].share_amount by {
        assert(after.participants[i].wf());
    }
}

/// A split that is completed, released or cancelled refuses every deposit,
/// and in a completed split nobody owes anything any more.
pub proof fn law_no_deposit_after_settlement(split: SplitView, who: Seq<char>, amount: int)
    requires
        split.wf(),
        split.status == SplitStatus::Completed || split.status == SplitStatus::Released
            || split.status == SplitStatus::Cancelled,
    ensures
        split.deposit_refusal(who, amount) == Some(
            EscrowError::InvalidState(InvalidStateError::NotAcceptingDeposits),
        ),
        split.after_request(DepositRequest { who, amount }) == split,
        split.status == SplitStatus::Completed ==> forall|i: int|
            0 <= i < split.participants.len() ==> (#[trigger] split.participants[i]).remaining()
                == 0,
{
    if split.status == SplitStatus::Completed {
        assert forall|i: int| 0 <= i < split.participants.len() implies (#[trigger] split.participants[i]).remaining()
            == 0 by {
            lemma_fully_paid(split.participants, i);
        }
    }
}

/// The status moves forward only: an accepted deposit leaves the split
/// active or completed, never pending, and completed exactly where the total
/// is reached.
pub proof fn law_deposit_moves_status_forward(split: SplitView, who: Seq<char>, amount: int)
    requires
        split.wf(),
        split.deposit_refusal(who, amount) is None,
    ensures
        split.after_deposit(who, amount).status == SplitStatus::Active || split.after_deposit(
            who,
            amount,
        ).status == SplitStatus::Completed,
        split.after_deposit(who, amount).status == SplitStatus::Completed <==> split.after_deposit(
            who,
            amount,
        ).amount_collected == split.total_amount,
{
    lemma_deposit_keeps_wf(split, who, amount);
}

/// No sequence of deposit requests changes a split that is completed,
/// released or cancelled.
pub proof fn law_settled_split_is_stable(split: SplitView, requests: Seq<DepositRequest>)
    requires
        split.wf(),
        split.status == SplitStatus::Completed || split.status == SplitStatus::Released
            || split.status == SplitStatus::Cancelled,
    ensures
        split.after_requests(requests) == split,
        split.accepted_total(requests) == 0,
    decreases requests.len(),
{
    if requests.len() > 0 {
        law_settled_split_is_stable(split, requests.drop_last());
        law_no_deposit_after_settlement(split, requests.last().who, requests.last().amount);
    }
}

/// Released and cancelled are final. A released split refuses every
/// operation. A cancelled split refuses deposits and release, and cancelling
/// it again changes nothing.
pub proof fn law_released_and_cancelled_are_final(split: SplitView, who: Seq<char>, amount: int)
    requires
        split.status == SplitStatus::Released || split.status == SplitStatus::Cancelled,
    ensures
        split.deposit_refusal(who, amount) is Some,
        split.release_refusal() is Some,
        split.status == SplitStatus::Released ==> split.cancel_refusal() is Some,
        split.status == SplitStatus::Cancelled ==> split.cancel_refusal() is None
            && split.cancelled() == split,
{
}

/// The terms of a split are fixed when it is opened: no deposit and no
/// cancellation changes its identifier, creator, description, total or time
/// of opening, nor who takes part and with which share.
pub proof fn law_terms_are_fixed(split: SplitView, who: Seq<char>, amount: int)
    requires
        split.wf(),
        split.deposit_refusal(who, amount) is None,
    ensures
        ({
            let after = split.after_deposit(who, amount);
            &&& after.id == split.id
            &&& after.creator == split.creator
            &&& after.description == split.description
            &&& after.total_amount == split.total_amount
            &&& after.created_at == split.created_at
            &&& after.participants.len() == split.participants.len()
            &&& forall|i: int|
                0 <= i < split.participants.len() ==> (#[trigger] after.participants[i]).address
                    == split.participants[i].address && after.participants[i].share_amount
                    == split.participants[i].share_amount
        }),
        ({
            let after = split.cancelled();
            &&& after.id == split.id
            &&& after.creator == split.creator
            &&& after.description == split.description
            &&& after.total_amount == split.total_amount
            &&& after.amount_collected == split.amount_collected
            &&& after.created_at == split.created_at
            &&& after.participants == split.participants
        }),
{
    lemma_deposit_keeps_wf(split, who, amount);
    lemma_member_has_entry(split.participants, who);
}

/// After a split was opened, a lookup under its identifier finds the split
/// as it was opened, and every other lookup finds what it found before.
pub proof fn law_lookup_after_creation(
    store: StoreView,
    creator: Seq<char>,
    description: Seq<char>,
    total_amount: int,
    addresses: Seq<Seq<char>>,
    shares: Seq<i128>,
    now: u64,
)
    ensures
        store.after_create_split(creator, description, total_amount, addresses, shares, now).split(
            store.next_split_id(),
        ) == Some(
            SplitView::opened(
                store.next_split_id(),
                creator,
                description,
                total_amount,
                addresses,
                shares,
                now,
            ),
        ),
        forall|other: u64|
            other != store.next_split_id() ==> #[trigger] store.after_create_split(
                creator,
                description,
                total_amount,
                addresses,
                shares,
                now,
            ).split(other) == store.split(other),
{
}

/// After an accepted deposit, a lookup under the identifier of the split
/// finds the split with the deposit taken, and every other lookup finds what
/// it found before.
pub proof fn law_lookup_after_deposit(
    store: StoreView,
    caller: Seq<char>,
    split_id: u64,
    who: Seq<char>,
    amount: int,
)
    requires
        store.deposit_refusal(caller, split_id, who, amount) is None,
    ensures
        store.split(split_id) is Some,
        store.after_deposit(split_id, who, amount).split(split_id) == Some(
            store.split(split_id)->Some_0.after_deposit(who, amount),
        ),
        forall|other: u64|
            other != split_id ==> #[trigger] store.after_deposit(split_id, who, amount).split(other)
                == store.split(other),
{
}

/// After a split was cancelled, a lookup under its identifier finds it
/// cancelled and otherwise as it was, and every other lookup finds what it
/// found before.
pub proof fn law_lookup_after_cancel(store: StoreView, caller: Seq<char>, split_id: u64)
    requires
        store.cancel_refusal(caller, split_id) is None,
    ensures
        store.split(split_id) is Some,
        store.after_cancel(split_id).split(split_id) == Some(
            store.split(split_id)->Some_0.cancelled(),
        ),
        forall|other: u64|
            other != split_id ==> #[trigger] store.after_cancel(split_id).split(other)
                == store.split(other),
{
}

} // verus!
