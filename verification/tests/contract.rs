//! The operations of the escrow, one call after the other, as a caller sees
//! them.

use split_escrow::{
    Address, EscrowError, Event, Split, SplitEscrowContract, SplitStatus, Store,
};

/// A fresh store and the address of its administrator to be.
fn setup_test() -> (Store, Address) {
    (Store::new(), Address::new("GADMIN"))
}

/// Records the administrator.
fn initialize_contract(store: &mut Store, admin: &Address) {
    must(SplitEscrowContract::initialize(store, admin, admin.clone()));
}

/// The value of a successful operation; a refusal panics with its message.
fn must<T>(outcome: Result<T, EscrowError>) -> T {
    match outcome {
        Ok(value) => value,
        Err(error) => panic!("{}", error.message()),
    }
}

/// Opens a split in the name of its creator.
fn create(
    store: &mut Store,
    creator: &Address,
    description: &str,
    total_amount: i128,
    addresses: Vec<Address>,
    shares: Vec<i128>,
) -> u64 {
    let (split_id, _event) = must(SplitEscrowContract::create_split(
        store,
        creator,
        creator.clone(),
        description.to_string(),
        total_amount,
        addresses,
        shares,
        1_700_000_000,
    ));
    split_id
}

fn get(store: &Store, split_id: u64) -> Split {
    must(SplitEscrowContract::get_split(store, split_id))
}

#[test]
fn test_initialize() {
    let (mut store, admin) = setup_test();

    initialize_contract(&mut store, &admin);

    let stored_admin = must(SplitEscrowContract::get_admin(&store));
    assert_eq!(stored_admin, admin);
}

#[test]
#[should_panic(expected = "Contract already initialized")]
fn test_double_initialize_fails() {
    let (mut store, admin) = setup_test();

    initialize_contract(&mut store, &admin);
    initialize_contract(&mut store, &admin);
}

#[test]
fn test_create_split() {
    let (mut store, admin) = setup_test();
    initialize_contract(&mut store, &admin);

    let creator = Address::new("GCREATOR");
    let participant1 = Address::new("GPARTICIPANT1");
    let participant2 = Address::new("GPARTICIPANT2");

    let description = "Dinner at Joe's";
    let total_amount: i128 = 100_0000000;

    let addresses = vec![participant1.clone(), participant2.clone()];
    let shares: Vec<i128> = vec![50_0000000i128, 50_0000000i128];

    let split_id = create(&mut store, &creator, description, total_amount, addresses, shares);

    assert_eq!(split_id, 1);

    let split = get(&store, split_id);
    assert_eq!(split.id, 1);
    assert_eq!(split.creator, creator);
    assert_eq!(split.total_amount, total_amount);
    assert_eq!(split.status, SplitStatus::Pending);
    assert_eq!(split.participants.len(), 2);
}

#[test]
#[should_panic(expected = "Participant shares must sum to total amount")]
fn test_create_split_invalid_shares() {
    let (mut store, admin) = setup_test();
    initialize_contract(&mut store, &admin);

    let creator = Address::new("GCREATOR");
    let participant = Address::new("GPARTICIPANT1");

    let total_amount: i128 = 100_0000000;
    let addresses = vec![participant];
    let shares: Vec<i128> = vec![50_0000000i128];

    create(&mut store, &creator, "Bad split", total_amount, addresses, shares);
}

#[test]
#[should_panic(expected = "At least one participant is required")]
fn test_create_split_no_participants() {
    let (mut store, admin) = setup_test();
    initialize_contract(&mut store, &admin);

    let creator = Address::new("GCREATOR");
    let addresses: Vec<Address> = Vec::new();
    let shares: Vec<i128> = Vec::new();

    create(&mut store, &creator, "Empty split", 0, addresses, shares);
}

#[test]
fn test_deposit() {
    let (mut store, admin) = setup_test();
    initialize_contract(&mut store, &admin);

    let creator = Address::new("GCREATOR");
    let participant = Address::new("GPARTICIPANT1");

    let total_amount: i128 = 100_0000000;
    let addresses = vec![participant.clone()];
    let shares: Vec<i128> = vec![100_0000000i128];

    let split_id = create(&mut store, &creator, "Test split", total_amount, addresses, shares);

    must(SplitEscrowContract::deposit(&mut store, &participant, split_id, &participant, 50_0000000));

    let split = get(&store, split_id);
    assert_eq!(split.status, SplitStatus::Active);
    assert_eq!(split.amount_collected, 50_0000000);

    must(SplitEscrowContract::deposit(&mut store, &participant, split_id, &participant, 50_0000000));

    let split = get(&store, split_id);
    assert_eq!(split.status, SplitStatus::Completed);
    assert_eq!(split.amount_collected, 100_0000000);
}

#[test]
#[should_panic(expected = "Deposit exceeds remaining amount owed")]
fn test_deposit_exceeds_share() {
    let (mut store, admin) = setup_test();
    initialize_contract(&mut store, &admin);

    let creator = Address::new("GCREATOR");
    let participant = Address::new("GPARTICIPANT1");

    let addresses = vec![participant.clone()];
    let shares: Vec<i128> = vec![100_0000000i128];

    let split_id = create(&mut store, &creator, "Test split", 100_0000000, addresses, shares);

    must(SplitEscrowContract::deposit(&mut store, &participant, split_id, &participant, 150_0000000));
}

#[test]
fn test_cancel_split() {
    let (mut store, admin) = setup_test();
    initialize_contract(&mut store, &admin);

    let creator = Address::new("GCREATOR");
    let participant = Address::new("GPARTICIPANT1");

    let addresses = vec![participant];
    let shares: Vec<i128> = vec![100_0000000i128];

    let split_id = create(&mut store, &creator, "Test split", 100_0000000, addresses, shares);

    must(SplitEscrowContract::cancel_split(&mut store, &creator, split_id));

    let split = get(&store, split_id);
    assert_eq!(split.status, SplitStatus::Cancelled);
}

#[test]
fn test_release_funds() {
    let (mut store, admin) = setup_test();
    initialize_contract(&mut store, &admin);

    let creator = Address::new("GCREATOR");
    let participant = Address::new("GPARTICIPANT1");

    let addresses = vec![participant.clone()];
    let shares: Vec<i128> = vec![100_0000000i128];

    let split_id = create(&mut store, &creator, "Test split", 100_0000000, addresses, shares);

    must(SplitEscrowContract::deposit(&mut store, &participant, split_id, &participant, 100_0000000));

    let event = must(SplitEscrowContract::release_funds(&store, &creator, split_id));
    match event {
        Event::FundsReleased { split_id: released, creator: to, amount } => {
            assert_eq!(released, split_id);
            assert_eq!(to, creator);
            assert_eq!(amount, 100_0000000);
        }
        other => panic!("unexpected event {:?}", other),
    }
}

#[test]
#[should_panic(expected = "Split is not completed")]
fn test_release_incomplete_split() {
    let (mut store, admin) = setup_test();
    initialize_contract(&mut store, &admin);

    let creator = Address::new("GCREATOR");
    let participant = Address::new("GPARTICIPANT1");

    let addresses = vec![participant];
    let shares: Vec<i128> = vec![100_0000000i128];

    let split_id = create(&mut store, &creator, "Test split", 100_0000000, addresses, shares);

    must(SplitEscrowContract::release_funds(&store, &creator, split_id));
}
