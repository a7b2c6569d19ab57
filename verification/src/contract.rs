//! The operations of the escrow on its records.
//!
//! Each operation takes the store and the identity that the caller has
//! proved to hold. It checks, in a fixed order, whether it may go ahead; if
//! so it changes the store and returns the event to publish, and if not it
//! returns the error and changes nothing.

use vstd::prelude::*;
use crate::address::Address;
use crate::errors::{EscrowError, NotFoundError};
use crate::events::{Event, EventView};
use crate::ledger::sum_shares;
use crate::registry::address_views;
use crate::split::creation_refusal;
use crate::storage::{get_admin, get_next_split_id, get_split, set_admin, set_split, Store, StoreView};
use crate::types::{Split, SplitView};

verus! {

/// The escrow: its operations, each on a [`Store`].
pub struct SplitEscrowContract;

impl StoreView {
    /// Why the administrator cannot be recorded, or nothing where it can:
    /// there is none yet, and the caller is the administrator to be.
    pub open spec fn initialize_refusal(self, caller: Seq<char>, admin: Seq<char>) -> Option<
        EscrowError,
    > {
        if self.admin is Some {
            Some(EscrowError::AlreadyInitialized)
        } else if caller != admin {
            Some(EscrowError::Unauthorized)
        } else {
            None
        }
    }

    /// Why a split cannot be opened, or nothing where it can: the caller is
    /// the creator, and the inputs pass [`creation_refusal`].
    pub open spec fn create_split_refusal(
        self,
        caller: Seq<char>,
        creator: Seq<char>,
        total_amount: int,
        participants: nat,
        shares: Seq<i128>,
    ) -> Option<EscrowError> {
        if caller != creator {
            Some(EscrowError::Unauthorized)
        } else {
            match creation_refusal(total_amount, participants, shares) {
                Some(e) => Some(EscrowError::Validation(e)),
                None => None,
            }
        }
    }

    /// The identifier that the next split gets.
    pub open spec fn next_split_id(self) -> u64 {
        (self.split_counter + 1) as u64
    }

    /// The store after a split was opened: the next identifier is issued and
    /// the new split is recorded under it.
    pub open spec fn after_create_split(
        self,
        creator: Seq<char>,
        description: Seq<char>,
        total_amount: int,
        addresses: Seq<Seq<char>>,
        shares: Seq<i128>,
        now: u64,
    ) -> StoreView {
        self.with_next_id().with_split(
            self.next_split_id(),
            SplitView::opened(
                self.next_split_id(),
                creator,
                description,
                total_amount,
                addresses,
                shares,
                now,
            ),
        )
    }

    /// Why a deposit is refused, or nothing where it is accepted: the caller
    /// is the participant, the split exists, and the split accepts the
    /// deposit.
    pub open spec fn deposit_refusal(
        self,
        caller: Seq<char>,
        split_id: u64,
        who: Seq<char>,
        amount: int,
    ) -> Option<EscrowError> {
        if caller != who {
            Some(EscrowError::Unauthorized)
        } else {
            match self.split(split_id) {
                None => Some(EscrowError::NotFound(NotFoundError::Split)),
                Some(split) => split.deposit_refusal(who, amount),
            }
        }
    }

    /// The store after an accepted deposit: the split under `split_id` has
    /// taken it, and nothing else has changed.
    pub open spec fn after_deposit(self, split_id: u64, who: Seq<char>, amount: int) -> StoreView {
        self.with_split(split_id, self.splits[split_id].after_deposit(who, amount))
    }

    /// Why the funds are not released, or nothing where they are: the split
    /// exists, the caller is its creator, and it is completed.
    pub open spec fn release_refusal(self, caller: Seq<char>, split_id: u64) -> Option<
        EscrowError,
    > {
        match self.split(split_id) {
            None => Some(EscrowError::NotFound(NotFoundError::Split)),
            Some(split) => if caller != split.creator {
                Some(EscrowError::Unauthorized)
            } else {
                split.release_refusal()
            },
        }
    }

    /// Why the split is not cancelled, or nothing where it is: the split
    /// exists, the caller is its creator, and it was not released.
    pub open spec fn cancel_refusal(self, caller: Seq<char>, split_id: u64) -> Option<EscrowError> {
        match self.split(split_id) {
            None => Some(EscrowError::NotFound(NotFoundError::Split)),
            Some(split) => if caller != split.creator {
                Some(EscrowError::Unauthorized)
            } else {
                split.cancel_refusal()
            },
        }
    }

    /// The store after the split under `split_id` was cancelled; nothing else
    /// has changed.
    pub open spec fn after_cancel(self, split_id: u64) -> StoreView {
        self.with_split(split_id, self.splits[split_id].cancelled())
    }
}

impl SplitEscrowContract {
    /// Records the administrator, once. A second call is refused, and so is a
    /// caller who is not the administrator to be.
    pub fn initialize(store: &mut Store, caller: &Address, admin: Address) -> (r: Result<
        Event,
        EscrowError,
    >)
        ensures
            match old(store)@.initialize_refusal(caller@, admin@) {
                Some(e) => r == Err::<Event, EscrowError>(e) && final(store)@ == old(store)@,
                None => r is Ok && r->Ok_0@ == (EventView::Initialized { admin: admin@ })
                    && final(store)@ == old(store)@.with_admin(admin@),
            },
            old(store).wf() ==> final(store).wf(),
    {
        if get_admin(store).is_ok() {
            return Err(EscrowError::AlreadyInitialized);
        }
        if !(*caller == admin) {
            return Err(EscrowError::Unauthorized);
        }
        set_admin(store, &admin);
        Ok(Event::Initialized { admin })
    }

    /// Opens a split at the time `now` and records it under the next
    /// identifier, which is returned with the event. The call is refused where
    /// the caller is not the creator, and then as [`creation_refusal`] says.
    /// The identifier is issued only once the inputs have passed: a refused
    /// call leaves the counter where it was. The identifier is above every
    /// identifier issued before. The counter must have an identifier left to
    /// issue.
    pub fn create_split(
        store: &mut Store,
        caller: &Address,
        creator: Address,
        description: String,
        total_amount: i128,
        participant_addresses: Vec<Address>,
        participant_shares: Vec<i128>,
        now: u64,
    ) -> (r: Result<(u64, Event), EscrowError>)
        requires
            old(store).wf(),
            old(store)@.split_counter < u64::MAX,
        ensures
            match old(store)@.create_split_refusal(
                caller@,
                creator@,
                total_amount as int,
                participant_addresses@.len(),
                participant_shares@,
            ) {
                Some(e) => r == Err::<(u64, Event), EscrowError>(e) && final(store)@ == old(
                    store,
                )@,
                None => r is Ok && r->Ok_0.0 == old(store)@.next_split_id() && r->Ok_0.1@ == (
                EventView::SplitCreated {
                    split_id: old(store)@.next_split_id(),
                    creator: creator@,
                    total_amount: total_amount as int,
                }) && final(store)@ == old(store)@.after_create_split(
                    creator@,
                    description@,
                    total_amount as int,
                    address_views(participant_addresses@),
                    participant_shares@,
                    now,
                ),
            },
            r is Ok ==> sum_shares(participant_shares@) == total_amount,
            r is Ok ==> forall|earlier: u64|
                old(store)@.was_issued(earlier) ==> earlier < r->Ok_0.0,
            final(store).wf(),
    {
        if !(*caller == creator) {
            return Err(EscrowError::Unauthorized);
        }
        let announced = creator.clone();
        let id: u64 = store.split_counter() + 1;
        match Split::create(
            id,
            creator,
            description,
            total_amount,
            &participant_addresses,
            &participant_shares,
            now,
        ) {
            Err(e) => Err(EscrowError::Validation(e)),
            Ok(split) => {
                let issued = get_next_split_id(store);
                set_split(store, issued, &split);
                Ok((issued, Event::SplitCreated { split_id: issued, creator: announced, total_amount }))
            },
        }
    }

    /// Takes a deposit of `amount` from `participant` into the split under
    /// `split_id`. The call is refused where the caller is not the
    /// participant, where no such split is recorded, and then as
    /// [`SplitView::deposit_refusal`] says.
    pub fn deposit(
        store: &mut Store,
        caller: &Address,
        split_id: u64,
        participant: &Address,
        amount: i128,
    ) -> (r: Result<Event, EscrowError>)
        requires
            old(store).wf(),
        ensures
            match old(store)@.deposit_refusal(caller@, split_id, participant@, amount as int) {
                Some(e) => r == Err::<Event, EscrowError>(e) && final(store)@ == old(store)@,
                None => r is Ok && r->Ok_0@ == (EventView::DepositReceived {
                    split_id,
                    participant: participant@,
                    amount: amount as int,
                }) && final(store)@ == old(store)@.after_deposit(
                    split_id,
                    participant@,
                    amount as int,
                ),
            },
            final(store).wf(),
    {
        if !(*caller == *participant) {
            return Err(EscrowError::Unauthorized);
        }
        let mut split = match get_split(store, split_id) {
            Err(e) => {
                return Err(e);
            },
            Ok(split) => split,
        };
        match split.deposit(participant, amount) {
            Err(e) => Err(e),
            Ok(()) => {
                set_split(store, split_id, &split);
                Ok(Event::DepositReceived { split_id, participant: participant.clone(), amount })
            },
        }
    }

    /// Decides the release of the funds of the split under `split_id` to its
    /// creator and announces the amount: what the completed split has
    /// collected. The call is refused where no such split is recorded, where
    /// the caller is not its creator, and where it is not completed.
    ///
    /// The release is decided and announced, not recorded: the split stays
    /// completed, so it can be released again and can still be cancelled.
    /// Moving the funds is left to whoever publishes the event.
    pub fn release_funds(store: &Store, caller: &Address, split_id: u64) -> (r: Result<
        Event,
        EscrowError,
    >)
        ensures
            match store@.release_refusal(caller@, split_id) {
                Some(e) => r == Err::<Event, EscrowError>(e),
                None => r is Ok && r->Ok_0@ == (EventView::FundsReleased {
                    split_id,
                    creator: store@.splits[split_id].creator,
                    amount: store@.splits[split_id].amount_collected,
                }),
            },
    {
        let split = match get_split(store, split_id) {
            Err(e) => {
                return Err(e);
            },
            Ok(split) => split,
        };
        if !(*caller == split.creator) {
            return Err(EscrowError::Unauthorized);
        }
        match split.release() {
            Err(e) => Err(e),
            Ok(amount) => Ok(Event::FundsReleased { split_id, creator: split.creator, amount }),
        }
    }

    /// Cancels the split under `split_id`, whatever was paid into it. The
    /// call is refused where no such split is recorded, where the caller is
    /// not its creator, and where the split was released. Paying back what
    /// was collected is left to whoever publishes the event.
    pub fn cancel_split(store: &mut Store, caller: &Address, split_id: u64) -> (r: Result<
        Event,
        EscrowError,
    >)
        requires
            old(store).wf(),
        ensures
            match old(store)@.cancel_refusal(caller@, split_id) {
                Some(e) => r == Err::<Event, EscrowError>(e) && final(store)@ == old(store)@,
                None => r is Ok && r->Ok_0@ == (EventView::SplitCancelled { split_id })
                    && final(store)@ == old(store)@.after_cancel(split_id),
            },
            final(store).wf(),
    {
        let mut split = match get_split(store, split_id) {
            Err(e) => {
                return Err(e);
            },
            Ok(split) => split,
        };
        if !(*caller == split.creator) {
            return Err(EscrowError::Unauthorized);
        }
        match split.cancel() {
            Err(e) => Err(e),
            Ok(()) => {
                set_split(store, split_id, &split);
                Ok(Event::SplitCancelled { split_id })
            },
        }
    }

    /// A copy of the split recorded under `split_id`, or the error that
    /// there is none.
    pub fn get_split(store: &Store, split_id: u64) -> (r: Result<Split, EscrowError>)
        ensures
            match store@.split(split_id) {
                Some(found) => r is Ok && r->Ok_0@ == found,
                None => r == Err::<Split, EscrowError>(
                    EscrowError::NotFound(NotFoundError::Split),
                ),
            },
    {
        get_split(store, split_id)
    }

    /// The administrator, or the error that none is recorded.
    pub fn get_admin(store: &Store) -> (r: Result<Address, EscrowError>)
        ensures
            match store@.admin {
                Some(a) => r is Ok && r->Ok_0@ == a,
                None => r == Err::<Address, EscrowError>(
                    EscrowError::NotFound(NotFoundError::Admin),
                ),
            },
    {
        get_admin(store)
    }
}

} // verus!
