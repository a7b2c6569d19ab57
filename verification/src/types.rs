//! The data of a split and their mathematical views.
//!
//! Each executable type has a view in which amounts are unbounded integers,
//! texts are sequences of characters and collections are sequences. The
//! contracts of the library speak of the views.

use vstd::prelude::*;
use crate::address::Address;

verus! {

/// Lifecycle state of a split.
///
/// `Pending` has seen no deposit, `Active` has seen at least one and is not
/// fully funded, `Completed` is fully funded, `Released` has been withdrawn by
/// its creator and `Cancelled` was called off. The last two are terminal.
#[derive(Clone, Copy, Debug, PartialEq, Eq, Structural)]
pub enum SplitStatus {
    Pending,
    Active,
    Completed,
    Released,
    Cancelled,
}

/// One party of a split, with what it owes and what it has paid.
#[derive(Debug)]
pub struct Participant {
    /// Who owes the share.
    pub address: Address,
    /// The amount owed.
    pub share_amount: i128,
    /// The amount paid so far.
    pub amount_paid: i128,
    /// Whether the share is paid in full.
    pub has_paid: bool,
}

/// The view of a [`Participant`].
pub struct ParticipantView {
    pub address: Seq<char>,
    pub share_amount: int,
    pub amount_paid: int,
    pub has_paid: bool,
}

impl View for Participant {
    type V = ParticipantView;

    open spec fn view(&self) -> ParticipantView {
        ParticipantView {
            address: self.address@,
            share_amount: self.share_amount as int,
            amount_paid: self.amount_paid as int,
            has_paid: self.has_paid,
        }
    }
}

impl Clone for Participant {
    fn clone(&self) -> (r: Participant)
        ensures
            r@ == self@,
    {
        Participant {
            address: self.address.clone(),
            share_amount: self.share_amount,
            amount_paid: self.amount_paid,
            has_paid: self.has_paid,
        }
    }
}

/// One bill-splitting escrow: a fixed total, the parties that share it and
/// what has been collected from them.
#[derive(Debug)]
pub struct Split {
    /// The identifier under which the split is recorded.
    pub id: u64,
    /// The party that opened the split and alone may release or cancel it.
    pub creator: Address,
    /// Free text.
    pub description: String,
    /// The amount to be collected, fixed when the split is opened.
    pub total_amount: i128,
    /// The amount collected so far.
    pub amount_collected: i128,
    /// The parties, in the order in which they were named.
    pub participants: Vec<Participant>,
    /// Where the split stands in its lifecycle.
    pub status: SplitStatus,
    /// When the split was opened.
    pub created_at: u64,
}

/// The view of a [`Split`].
pub struct SplitView {
    pub id: u64,
    pub creator: Seq<char>,
    pub description: Seq<char>,
    pub total_amount: int,
    pub amount_collected: int,
    pub participants: Seq<ParticipantView>,
    pub status: SplitStatus,
    pub created_at: u64,
}

/// The views of a sequence of participants, one for one.
pub open spec fn views_of(participants: Seq<Participant>) -> Seq<ParticipantView> {
    Seq::new(participants.len(), |i: int| participants[i]@)
}

impl View for Split {
    type V = SplitView;

    open spec fn view(&self) -> SplitView {
        SplitView {
            id: self.id,
            creator: self.creator@,
            description: self.description@,
            total_amount: self.total_amount as int,
            amount_collected: self.amount_collected as int,
            participants: views_of(self.participants@),
            status: self.status,
            created_at: self.created_at,
        }
    }
}

impl Clone for Split {
    fn clone(&self) -> (r: Split)
        ensures
            r@ == self@,
    {
        let participants = self.participants.clone();
        assert(views_of(participants@) =~= views_of(self.participants@));
        Split {
            id: self.id,
            creator: self.creator.clone(),
            description: self.description.clone(),
            total_amount: self.total_amount,
            amount_collected: self.amount_collected,
            participants,
            status: self.status,
            created_at: self.created_at,
        }
    }
}

/// Settings of a deployment.
#[derive(Debug)]
pub struct ContractConfig {
    /// The administrator.
    pub admin: Address,
    /// Whether operations are suspended.
    pub is_paused: bool,
}

/// The view of a [`ContractConfig`].
pub struct ContractConfigView {
    pub admin: Seq<char>,
    pub is_paused: bool,
}

impl Clone for ContractConfig {
    fn clone(&self) -> (r: ContractConfig)
        ensures
            r@ == self@,
    {
        ContractConfig { admin: self.admin.clone(), is_paused: self.is_paused }
    }
}

impl View for ContractConfig {
    type V = ContractConfigView;

    open spec fn view(&self) -> ContractConfigView {
        ContractConfigView { admin: self.admin@, is_paused: self.is_paused }
    }
}

} // verus!
