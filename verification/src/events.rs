//! What an operation announces when it succeeds.
//!
//! The library emits nothing itself. A successful operation returns the event
//! that its caller is to publish; a refused operation returns none.

use vstd::prelude::*;
use crate::address::Address;

verus! {

/// An announcement of a successful operation.
#[derive(Debug)]
pub enum Event {
    /// The administrator was recorded.
    Initialized { admin: Address },
    /// A split was opened.
    SplitCreated { split_id: u64, creator: Address, total_amount: i128 },
    /// A participant paid towards its share.
    DepositReceived { split_id: u64, participant: Address, amount: i128 },
    /// The creator released the collected funds.
    FundsReleased { split_id: u64, creator: Address, amount: i128 },
    /// The creator cancelled the split.
    SplitCancelled { split_id: u64 },
}

/// The view of an [`Event`].
pub enum EventView {
    Initialized { admin: Seq<char> },
    SplitCreated { split_id: u64, creator: Seq<char>, total_amount: int },
    DepositReceived { split_id: u64, participant: Seq<char>, amount: int },
    FundsReleased { split_id: u64, creator: Seq<char>, amount: int },
    SplitCancelled { split_id: u64 },
}

impl View for Event {
    type V = EventView;

    open spec fn view(&self) -> EventView {
        match self {
            Event::Initialized { admin } => EventView::Initialized { admin: admin@ },
            Event::SplitCreated { split_id, creator, total_amount } => EventView::SplitCreated {
                split_id: *split_id,
                creator: creator@,
                total_amount: *total_amount as int,
            },
            Event::DepositReceived { split_id, participant, amount } => EventView::DepositReceived {
                split_id: *split_id,
                participant: participant@,
                amount: *amount as int,
            },
            Event::FundsReleased { split_id, creator, amount } => EventView::FundsReleased {
                split_id: *split_id,
                creator: creator@,
                amount: *amount as int,
            },
            Event::SplitCancelled { split_id } => EventView::SplitCancelled { split_id: *split_id },
        }
    }
}

} // verus!
