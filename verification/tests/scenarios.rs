//! Whole courses of a split, from opening to settlement.

use split_escrow::{
    Address, EscrowError, Event, InvalidStateError, Split, SplitEscrowContract, SplitStatus, Store,
    ValidationError,
};

fn open_split(
    store: &mut Store,
    creator: &Address,
    total_amount: i128,
    parties: Vec<(Address, i128)>,
) -> Result<(u64, Event), EscrowError> {
    let mut addresses: Vec<Address> = Vec::new();
    let mut shares: Vec<i128> = Vec::new();
    for (address, share) in parties {
        addresses.push(address);
        shares.push(share);
    }
    SplitEscrowContract::create_split(
        store,
        creator,
        creator.clone(),
        String::from("Shared bill"),
        total_amount,
        addresses,
        shares,
        42,
    )
}

fn lookup(store: &Store, split_id: u64) -> Split {
    SplitEscrowContract::get_split(store, split_id).expect("the split is recorded")
}

#[test]
fn two_participants_pay_in_instalments_until_completed() {
    let mut store = Store::new();
    let creator = Address::new("creator");
    let alice = Address::new("alice");
    let bob = Address::new("bob");
    let (id, _) =
        open_split(&mut store, &creator, 100, vec![(alice.clone(), 60), (bob.clone(), 40)]).unwrap();

    SplitEscrowContract::deposit(&mut store, &alice, id, &alice, 30).unwrap();
    let split = lookup(&store, id);
    assert_eq!(split.status, SplitStatus::Active);
    assert_eq!(split.amount_collected, 30);
    assert_eq!(split.participants[0].amount_paid, 30);
    assert!(!split.participants[0].has_paid);

    SplitEscrowContract::deposit(&mut store, &alice, id, &alice, 30).unwrap();
    let split = lookup(&store, id);
    assert!(split.participants[0].has_paid);
    assert_eq!(split.participants[0].amount_paid, 60);
    assert_eq!(split.amount_collected, 60);
    assert_eq!(split.status, SplitStatus::Active);
    assert!(!split.participants[1].has_paid);

    SplitEscrowContract::deposit(&mut store, &bob, id, &bob, 40).unwrap();
    let split = lookup(&store, id);
    assert_eq!(split.amount_collected, 100);
    assert_eq!(split.status, SplitStatus::Completed);
    assert!(split.participants[1].has_paid);
    assert_eq!(split.total_amount, 100);
}

#[test]
fn a_deposit_above_the_share_is_refused_and_nothing_is_collected() {
    let mut store = Store::new();
    let creator = Address::new("creator");
    let alice = Address::new("alice");
    let (id, _) = open_split(&mut store, &creator, 100, vec![(alice.clone(), 100)]).unwrap();

    let outcome = SplitEscrowContract::deposit(&mut store, &alice, id, &alice, 150);
    assert_eq!(outcome.unwrap_err(), EscrowError::Overpayment);

    let split = lookup(&store, id);
    assert_eq!(split.amount_collected, 0);
    assert_eq!(split.participants[0].amount_paid, 0);
    assert_eq!(split.status, SplitStatus::Pending);
}

#[test]
fn a_split_without_participants_is_refused_before_an_identifier_is_issued() {
    let mut store = Store::new();
    let creator = Address::new("creator");

    let outcome = open_split(&mut store, &creator, 0, Vec::new());
    assert_eq!(
        outcome.unwrap_err(),
        EscrowError::Validation(ValidationError::NoParticipants)
    );
    assert_eq!(store.split_counter(), 0);

    let alice = Address::new("alice");
    let (id, _) = open_split(&mut store, &creator, 100, vec![(alice, 100)]).unwrap();
    assert_eq!(id, 1);
}

#[test]
fn a_cancelled_split_takes_no_deposit() {
    let mut store = Store::new();
    let creator = Address::new("creator");
    let alice = Address::new("alice");
    let (id, _) = open_split(&mut store, &creator, 100, vec![(alice.clone(), 100)]).unwrap();

    SplitEscrowContract::cancel_split(&mut store, &creator, id).unwrap();
    assert_eq!(lookup(&store, id).status, SplitStatus::Cancelled);

    let outcome = SplitEscrowContract::deposit(&mut store, &alice, id, &alice, 10);
    assert_eq!(
        outcome.unwrap_err(),
        EscrowError::InvalidState(InvalidStateError::NotAcceptingDeposits)
    );
    assert_eq!(lookup(&store, id).amount_collected, 0);
}

#[test]
fn a_completed_split_is_released_by_its_creator_only() {
    let mut store = Store::new();
    let creator = Address::new("creator");
    let stranger = Address::new("stranger");
    let alice = Address::new("alice");
    let (id, _) = open_split(&mut store, &creator, 100, vec![(alice.clone(), 100)]).unwrap();

    SplitEscrowContract::deposit(&mut store, &alice, id, &alice, 100).unwrap();
    assert_eq!(lookup(&store, id).status, SplitStatus::Completed);

    let event = SplitEscrowContract::release_funds(&store, &creator, id).unwrap();
    match event {
        Event::FundsReleased { split_id, creator: to, amount } => {
            assert_eq!(split_id, id);
            assert_eq!(to, creator);
            assert_eq!(amount, 100);
        }
        other => panic!("unexpected event {:?}", other),
    }

    let outcome = SplitEscrowContract::release_funds(&store, &stranger, id);
    assert_eq!(outcome.unwrap_err(), EscrowError::Unauthorized);
}

#[test]
fn a_release_records_nothing_so_the_split_stays_completed() {
    let mut store = Store::new();
    let creator = Address::new("creator");
    let alice = Address::new("alice");
    let (id, _) = open_split(&mut store, &creator, 100, vec![(alice.clone(), 100)]).unwrap();
    SplitEscrowContract::deposit(&mut store, &alice, id, &alice, 100).unwrap();

    SplitEscrowContract::release_funds(&store, &creator, id).unwrap();
    assert_eq!(lookup(&store, id).status, SplitStatus::Completed);
    SplitEscrowContract::release_funds(&store, &creator, id).unwrap();

    SplitEscrowContract::cancel_split(&mut store, &creator, id).unwrap();
    assert_eq!(lookup(&store, id).status, SplitStatus::Cancelled);
    assert_eq!(lookup(&store, id).amount_collected, 100);
}

#[test]
fn a_split_in_released_status_refuses_to_be_cancelled() {
    let creator = Address::new("creator");
    let alice = Address::new("alice");
    let mut released = Split::create(
        1,
        creator.clone(),
        String::from("Settled"),
        100,
        &vec![alice.clone()],
        &vec![100],
        42,
    )
    .unwrap();
    released.deposit(&alice, 100).unwrap();
    released.status = SplitStatus::Released;
    assert!(released.is_well_formed());

    let mut store = Store::restore(None, 1);
    split_escrow::storage::set_split(&mut store, 1, &released);

    let outcome = SplitEscrowContract::cancel_split(&mut store, &creator, 1);
    assert_eq!(
        outcome.unwrap_err(),
        EscrowError::InvalidState(InvalidStateError::AlreadyReleased)
    );
    assert_eq!(lookup(&store, 1).status, SplitStatus::Released);

    let outcome = SplitEscrowContract::deposit(&mut store, &alice, 1, &alice, 0);
    assert_eq!(
        outcome.unwrap_err(),
        EscrowError::InvalidState(InvalidStateError::NotAcceptingDeposits)
    );
    let outcome = SplitEscrowContract::release_funds(&store, &creator, 1);
    assert_eq!(
        outcome.unwrap_err(),
        EscrowError::InvalidState(InvalidStateError::NotCompleted)
    );
}

#[test]
fn a_split_is_completed_in_one_step_by_a_full_deposit() {
    let mut store = Store::new();
    let creator = Address::new("creator");
    let alice = Address::new("alice");
    let (id, event) = open_split(&mut store, &creator, 100, vec![(alice.clone(), 100)]).unwrap();
    match event {
        Event::SplitCreated { split_id, creator: by, total_amount } => {
            assert_eq!(split_id, id);
            assert_eq!(by, creator);
            assert_eq!(total_amount, 100);
        }
        other => panic!("unexpected event {:?}", other),
    }

    let event = SplitEscrowContract::deposit(&mut store, &alice, id, &alice, 100).unwrap();
    match event {
        Event::DepositReceived { split_id, participant, amount } => {
            assert_eq!(split_id, id);
            assert_eq!(participant, alice);
            assert_eq!(amount, 100);
        }
        other => panic!("unexpected event {:?}", other),
    }
    let split = lookup(&store, id);
    assert_eq!(split.status, SplitStatus::Completed);
    assert!(split.participants[0].has_paid);
}
