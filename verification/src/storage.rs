//! The records that the escrow keeps: the administrator, the counter from
//! which identifiers are issued, and the splits by identifier.
//!
//! A [`Store`] holds the records in memory. Its rules hold of every store that
//! this module hands out: each split is well formed, is recorded under its
//! own identifier, and that identifier was issued.

use vstd::prelude::*;
use std::collections::HashMap;
use crate::address::Address;
use crate::errors::{EscrowError, NotFoundError};
use crate::types::{Split, SplitView};

verus! {

broadcast use vstd::std_specs::hash::group_hash_axioms;

/// The key of a record.
#[derive(Clone, Copy, Debug, PartialEq, Eq, Structural)]
pub enum DataKey {
    /// The administrator.
    Admin,
    /// The counter from which identifiers are issued.
    SplitCounter,
    /// The split with the given identifier.
    Split(u64),
    /// Reserved; no operation writes it.
    Initialized,
}

/// The records of the escrow.
pub struct Store {
    admin: Option<Address>,
    split_counter: u64,
    splits: HashMap<u64, Split>,
}

/// The view of a [`Store`].
pub struct StoreView {
    /// The administrator, once recorded.
    pub admin: Option<Seq<char>>,
    /// The identifier issued last; zero before the first.
    pub split_counter: u64,
    /// The splits by identifier.
    pub splits: Map<u64, SplitView>,
}

impl StoreView {
    /// The store before anything was recorded.
    pub open spec fn empty() -> StoreView {
        StoreView { admin: None, split_counter: 0, splits: Map::empty() }
    }

    /// Whether `id` has been issued: identifiers are issued from one upwards
    /// without a gap.
    pub open spec fn was_issued(self, id: u64) -> bool {
        1 <= id <= self.split_counter
    }

    /// Whether `split` may be recorded under `id`: it is well formed, it
    /// carries that identifier, and the identifier was issued.
    pub open spec fn admits(self, id: u64, split: SplitView) -> bool {
        &&& split.wf()
        &&& split.id == id
        &&& self.was_issued(id)
    }

    /// The rules of the store: every recorded split is admitted under its key.
    pub open spec fn wf(self) -> bool {
        forall|id: u64| #[trigger]
            self.splits.contains_key(id) ==> self.admits(id, self.splits[id])
    }

    /// Whether a record exists under `key`. The counter exists once an
    /// identifier was issued.
    pub open spec fn has(self, key: DataKey) -> bool {
        match key {
            DataKey::Admin => self.admin is Some,
            DataKey::SplitCounter => self.split_counter > 0,
            DataKey::Split(id) => self.splits.contains_key(id),
            DataKey::Initialized => false,
        }
    }

    /// The store with `admin` as its administrator.
    pub open spec fn with_admin(self, admin: Seq<char>) -> StoreView {
        StoreView { admin: Some(admin), ..self }
    }

    /// The store after the next identifier was issued.
    pub open spec fn with_next_id(self) -> StoreView {
        StoreView { split_counter: (self.split_counter + 1) as u64, ..self }
    }

    /// The store with `split` recorded under `id`.
    pub open spec fn with_split(self, id: u64, split: SplitView) -> StoreView {
        StoreView { splits: self.splits.insert(id, split), ..self }
    }

    /// The split recorded under `id`, where there is one.
    pub open spec fn split(self, id: u64) -> Option<SplitView> {
        if self.splits.contains_key(id) {
            Some(self.splits[id])
        } else {
            None
        }
    }

    /// The store without a record under `id`.
    pub open spec fn without_split(self, id: u64) -> StoreView {
        StoreView { splits: self.splits.remove(id), ..self }
    }
}

impl View for Store {
    type V = StoreView;

    closed spec fn view(&self) -> StoreView {
        StoreView {
            admin: match self.admin {
                Some(a) => Some(a@),
                None => None,
            },
            split_counter: self.split_counter,
            splits: Map::new(
                |id: u64| self.splits@.contains_key(id),
                |id: u64| self.splits@[id]@,
            ),
        }
    }
}

impl Store {
    /// Whether the store obeys the rules of [`StoreView::wf`].
    pub open spec fn wf(&self) -> bool {
        self@.wf()
    }

    /// A store in which nothing is recorded.
    pub fn new() -> (r: Store)
        ensures
            r@ == StoreView::empty(),
            r.wf(),
    {
        let r = Store { admin: None, split_counter: 0, splits: HashMap::new() };
        assert(r@.splits =~= Map::empty());
        r
    }

    /// A store that holds an administrator, where one is given, and a
    /// counter, and no split yet.
    pub fn restore(admin: Option<Address>, split_counter: u64) -> (r: Store)
        ensures
            r@ == (StoreView {
                admin: match admin {
                    Some(a) => Some(a@),
                    None => None,
                },
                split_counter,
                splits: Map::empty(),
            }),
            r.wf(),
    {
        let r = Store { admin, split_counter, splits: HashMap::new() };
        assert(r@.splits =~= Map::empty());
        r
    }

    /// The identifier issued last; zero before the first.
    pub fn split_counter(&self) -> (r: u64)
        ensures
            r == self@.split_counter,
    {
        self.split_counter
    }
}

/// Whether a record exists under `key`.
pub fn has(store: &Store, key: &DataKey) -> (r: bool)
    ensures
        r == store@.has(*key),
{
    match key {
        DataKey::Admin => store.admin.is_some(),
        DataKey::SplitCounter => store.split_counter > 0,
        DataKey::Split(id) => store.splits.contains_key(id),
        DataKey::Initialized => false,
    }
}

/// Whether an administrator is recorded.
pub fn has_admin(store: &Store) -> (r: bool)
    ensures
        r == store@.has(DataKey::Admin),
{
    has(store, &DataKey::Admin)
}

/// The administrator, or the error that none is recorded.
pub fn get_admin(store: &Store) -> (r: Result<Address, EscrowError>)
    ensures
        match store@.admin {
            Some(a) => r is Ok && r->Ok_0@ == a,
            None => r == Err::<Address, EscrowError>(EscrowError::NotFound(NotFoundError::Admin)),
        },
{
    match &store.admin {
        Some(a) => Ok(a.clone()),
        None => Err(EscrowError::NotFound(NotFoundError::Admin)),
    }
}

/// Records `admin` as the administrator, in place of any earlier one.
pub fn set_admin(store: &mut Store, admin: &Address)
    ensures
        final(store)@ == old(store)@.with_admin(admin@),
        old(store).wf() ==> final(store).wf(),
{
    store.admin = Some(admin.clone());
}

/// Issues the next identifier: one above the identifier issued last, which
/// the store then remembers. The first identifier is one.
pub fn get_next_split_id(store: &mut Store) -> (r: u64)
    requires
        old(store)@.split_counter < u64::MAX,
    ensures
        r == old(store)@.split_counter + 1,
        final(store)@ == old(store)@.with_next_id(),
        old(store).wf() ==> final(store).wf(),
{
    let next: u64 = store.split_counter + 1;
    store.split_counter = next;
    next
}

/// A copy of the split recorded under `split_id`, or the error that there is
/// none.
pub fn get_split(store: &Store, split_id: u64) -> (r: Result<Split, EscrowError>)
    ensures
        match store@.split(split_id) {
            Some(found) => r is Ok && r->Ok_0@ == found,
            None => r == Err::<Split, EscrowError>(EscrowError::NotFound(NotFoundError::Split)),
        },
{
    match store.splits.get(&split_id) {
        Some(split) => Ok(split.clone()),
        None => Err(EscrowError::NotFound(NotFoundError::Split)),
    }
}

/// Whether a split is recorded under `split_id`.
pub fn has_split(store: &Store, split_id: u64) -> (r: bool)
    ensures
        r == store@.has(DataKey::Split(split_id)),
{
    has(store, &DataKey::Split(split_id))
}

/// Records a copy of `split` under `split_id`, in place of any earlier
/// record under that identifier. The store admits only a well-formed split
/// under its own, issued identifier.
pub fn set_split(store: &mut Store, split_id: u64, split: &Split)
    requires
        old(store)@.admits(split_id, split@),
    ensures
        final(store)@ == old(store)@.with_split(split_id, split@),
        old(store).wf() ==> final(store).wf(),
{
    store.splits.insert(split_id, split.clone());
    assert(store@.splits =~= old(store)@.splits.insert(split_id, split@));
}

/// Removes the record under `split_id`, where there is one.
pub fn remove_split(store: &mut Store, split_id: u64)
    ensures
        final(store)@ == old(store)@.without_split(split_id),
        old(store).wf() ==> final(store).wf(),
{
    store.splits.remove(&split_id);
    assert(store@.splits =~= old(store)@.splits.remove(split_id));
}

} // verus!
