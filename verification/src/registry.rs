//! The participants of one split: who they are, finding one by identity and
//! crediting a payment to one.
//!
//! Nothing requires the identities of a split to differ. Where an identity
//! occurs more than once, its entry is the first one that carries it: that is
//! the entry which a lookup finds and to which a payment is credited.

use vstd::prelude::*;
use crate::address::Address;
use crate::types::{views_of, Participant, ParticipantView};

verus! {

/// Whether `who` is the identity of one of the participants.
pub open spec fn has_member(participants: Seq<ParticipantView>, who: Seq<char>) -> bool {
    exists|i: int| 0 <= i < participants.len() && (#[trigger] participants[i]).address == who
}

/// Whether `i` is the place of the first participant whose identity is `who`.
pub open spec fn is_entry_of(participants: Seq<ParticipantView>, who: Seq<char>, i: int) -> bool {
    &&& 0 <= i < participants.len()
    &&& participants[i].address == who
    &&& forall|j: int| 0 <= j < i ==> (#[trigger] participants[j]).address != who
}

/// The place of the first participant whose identity is `who`, where there is
/// one.
pub open spec fn entry_of(participants: Seq<ParticipantView>, who: Seq<char>) -> int {
    choose|i: int| is_entry_of(participants, who, i)
}

/// An identity has at most one entry: a place that is the entry is the one
/// that `entry_of` names.
pub proof fn lemma_entry_is_unique(participants: Seq<ParticipantView>, who: Seq<char>, i: int)
    requires
        is_entry_of(participants, who, i),
    ensures
        has_member(participants, who),
        entry_of(participants, who) == i,
{
    let chosen = entry_of(participants, who);
    assert(is_entry_of(participants, who, chosen));
    if chosen < i {
        assert(participants[chosen].address != who);
    } else if i < chosen {
        assert(participants[i].address != who);
    }
}

/// Every member has an entry.
pub proof fn lemma_member_has_entry(participants: Seq<ParticipantView>, who: Seq<char>)
    requires
        has_member(participants, who),
    ensures
        is_entry_of(participants, who, entry_of(participants, who)),
{
    let k = choose|i: int| 0 <= i < participants.len() && (#[trigger] participants[i]).address == who;
    lemma_first_match_below(participants, who, k);
}

/// Below a place that carries `who` lies the first place that does.
proof fn lemma_first_match_below(participants: Seq<ParticipantView>, who: Seq<char>, k: int)
    requires
        0 <= k < participants.len(),
        participants[k].address == who,
    ensures
        exists|i: int| is_entry_of(participants, who, i),
    decreases k,
{
    if exists|j: int| 0 <= j < k && (#[trigger] participants[j]).address == who {
        let j = choose|j: int| 0 <= j < k && (#[trigger] participants[j]).address == who;
        lemma_first_match_below(participants, who, j);
    } else {
        assert(is_entry_of(participants, who, k));
    }
}

/// The records of participants who have paid nothing yet, one for each
/// identity with its share.
pub open spec fn fresh_participants(addresses: Seq<Seq<char>>, shares: Seq<i128>) -> Seq<
    ParticipantView,
> {
    Seq::new(addresses.len(), |i: int| ParticipantView::fresh(addresses[i], shares[i] as int))
}

/// The views of a sequence of addresses, one for one.
pub open spec fn address_views(addresses: Seq<Address>) -> Seq<Seq<char>> {
    Seq::new(addresses.len(), |i: int| addresses[i]@)
}

/// Finds the entry of `who` among the participants: the place of the first
/// participant that carries the identity, or nothing where none does.
pub fn find_participant(participants: &Vec<Participant>, who: &Address) -> (r: Option<usize>)
    ensures
        (r is Some) == has_member(views_of(participants@), who@),
        r matches Some(i) ==> is_entry_of(views_of(participants@), who@, i as int) && i
            == entry_of(views_of(participants@), who@),
{
    let ghost views = views_of(participants@);
    let mut i: usize = 0;
    while i < participants.len()
        invariant
            i <= participants.len(),
            views == views_of(participants@),
            forall|j: int| 0 <= j < i ==> (#[trigger] views[j]).address != who@,
        decreases participants.len() - i,
    {
        if participants[i].address == *who {
            proof {
                assert(views[i as int].address == who@);
                lemma_entry_is_unique(views, who@, i as int);
            }
            return Some(i);
        }
        assert(views[i as int].address != who@);
        i += 1;
    }
    None
}

/// Builds the records of a new split: one participant for each identity, with
/// the share at the same place and nothing paid.
pub fn enroll(addresses: &Vec<Address>, shares: &Vec<i128>) -> (r: Vec<Participant>)
    requires
        addresses.len() == shares.len(),
    ensures
        views_of(r@) == fresh_participants(address_views(addresses@), shares@),
{
    let mut participants: Vec<Participant> = Vec::new();
    let mut i: usize = 0;
    while i < addresses.len()
        invariant
            i <= addresses.len(),
            addresses.len() == shares.len(),
            participants.len() == i,
            forall|j: int|
                0 <= j < i ==> (#[trigger] participants@[j])@ == ParticipantView::fresh(
                    addresses@[j]@,
                    shares@[j] as int,
                ),
        decreases addresses.len() - i,
    {
        participants.push(
            Participant {
                address: addresses[i].clone(),
                share_amount: shares[i],
                amount_paid: 0,
                has_paid: false,
            },
        );
        i += 1;
    }
    assert(views_of(participants@) =~= fresh_participants(address_views(addresses@), shares@));
    participants
}

/// Credits a payment of `amount` to the participant at `index`: the payment
/// is added to what the participant has paid, and the flag says whether the
/// share is now paid in full. No other record changes.
pub fn credit(participants: &mut Vec<Participant>, index: usize, amount: i128)
    requires
        index < old(participants).len(),
        old(participants)@[index as int]@.wf(),
        0 <= amount <= old(participants)@[index as int]@.remaining(),
    ensures
        views_of(final(participants)@) == views_of(old(participants)@).update(
            index as int,
            views_of(old(participants)@)[index as int].credited(amount as int),
        ),
{
    let paid: i128 = participants[index].amount_paid + amount;
    let full: bool = paid >= participants[index].share_amount;
    participants[index].amount_paid = paid;
    participants[index].has_paid = full;
    assert(views_of(participants@) =~= views_of(old(participants)@).update(
        index as int,
        views_of(old(participants)@)[index as int].credited(amount as int),
    ));
}

} // verus!
