use pallets::kitties::genetics::random_value;
use pallets::kitties::migrations::v2::v0_Kitty;
use pallets::kitties::migrations::StoredKitties;
use pallets::kitties::pallet::Config;
use pallets::kitties::pallet::Pallet;
use pallets::kitties::snapshot::Snapshot;
use pallets::kitties::types::AccountId;
use pallets::kitties::types::Balance;
use pallets::kitties::types::Error;
use pallets::kitties::types::Event;
use pallets::kitties::types::Kitty;
use pallets::kitties::types::KittyId;
use pallets::kitties::types::Payment;
use pallets::kitties::types::Weight;
use sp_runtime::DispatchError;
use sp_runtime::TokenError;
use std::collections::HashMap;

const PRICE: Balance = 1_000;
const TREASURY: AccountId = 99;
const ALICE: AccountId = 1;
const BOB: AccountId = 2;
const CAROL: AccountId = 3;

/// A runtime for the tests: balances that refuse a payment that the payer
/// cannot afford, a fixed seed and a counter of calls.
struct Runtime {
    balances: HashMap<AccountId, Balance>,
    seed: Vec<u8>,
    calls: u32,
    transfers: Vec<(AccountId, AccountId, Balance)>,
}

impl Runtime {
    fn funded(accounts: &[AccountId]) -> Runtime {
        let mut balances = HashMap::new();
        for account in accounts {
            balances.insert(*account, 10 * PRICE);
        }
        Runtime { balances, seed: vec![7u8; 32], calls: 0, transfers: Vec::new() }
    }

    fn free_balance(&self, who: AccountId) -> Balance {
        self.balances.get(&who).copied().unwrap_or(0)
    }
}

impl Config for Runtime {
    fn random_seed(&mut self) -> Vec<u8> {
        self.seed.clone()
    }

    fn extrinsic_index(&mut self) -> Option<u32> {
        self.calls += 1;
        Some(self.calls)
    }

    fn transfer(
        &mut self,
        source: AccountId,
        dest: AccountId,
        value: Balance,
    ) -> Result<(), DispatchError> {
        let free = self.free_balance(source);
        if free < value {
            return Err(DispatchError::Token(TokenError::FundsUnavailable));
        }
        self.balances.insert(source, free - value);
        let held = self.free_balance(dest);
        self.balances.insert(dest, held + value);
        self.transfers.push((source, dest, value));
        Ok(())
    }
}

const FUNDS_UNAVAILABLE: DispatchError = DispatchError::Token(TokenError::FundsUnavailable);

fn registry_with(kitties: &[(AccountId, [u8; 16])]) -> Pallet {
    let mut registry = Pallet::new(PRICE, TREASURY);
    for (owner, dna) in kitties {
        assert!(registry.complete_create(*owner, *b"abcdefgg", *dna, Ok(())).is_ok());
    }
    registry
}

#[test]
fn new_registry_is_empty() {
    let registry = Pallet::new(PRICE, TREASURY);
    assert_eq!(registry.next_kitty_id(), 0);
    assert_eq!(registry.kitty_price(), PRICE);
    assert_eq!(registry.get_account_id(), TREASURY);
    assert_eq!(registry.kitties(0), None);
    assert_eq!(registry.kitty_owner(0), None);
    assert_eq!(registry.kitty_parents(0), None);
    assert_eq!(registry.kitties_on_sale(0), None);
}

#[test]
fn identifiers_count_successful_creations() {
    let mut registry = Pallet::new(PRICE, TREASURY);
    let mut runtime = Runtime::funded(&[ALICE]);
    for expected in 0..5u32 {
        assert_eq!(registry.next_kitty_id(), expected);
        match registry.create(&mut runtime, ALICE, *b"abcdefgg") {
            Ok(Event::RecordCreated { owner, id, .. }) => {
                assert_eq!(owner, ALICE);
                assert_eq!(id, expected);
            },
            other => panic!("unexpected {:?}", other),
        }
    }
    match registry.breed(&mut runtime, ALICE, 0, 4, *b"abcdefgg") {
        Ok(Event::RecordCreated { id, .. }) => assert_eq!(id, 5),
        other => panic!("unexpected {:?}", other),
    }
    assert_eq!(registry.next_kitty_id(), 6);
}

#[test]
fn failed_calls_consume_no_identifier() {
    let mut registry = Pallet::new(PRICE, TREASURY);
    let mut runtime = Runtime::funded(&[ALICE]);
    assert!(registry.create(&mut runtime, ALICE, *b"abcdefgg").is_ok());
    assert!(registry.create(&mut runtime, BOB, *b"abcdefgg").is_err());
    assert!(registry.breed(&mut runtime, ALICE, 0, 0, *b"abcdefgg").is_err());
    assert!(registry.breed(&mut runtime, ALICE, 0, 7, *b"abcdefgg").is_err());
    assert!(registry.transfer(BOB, ALICE, 0).is_err());
    assert_eq!(registry.next_kitty_id(), 1);
    assert_eq!(registry.create(&mut runtime, ALICE, *b"abcdefgg").map(|_| ()), Ok(()));
    assert_eq!(registry.next_kitty_id(), 2);
    assert!(registry.kitties(1).is_some());
}

#[test]
fn create_draws_the_payload_from_seed_caller_and_index() {
    let mut registry = Pallet::new(PRICE, TREASURY);
    let mut runtime = Runtime::funded(&[ALICE]);
    let created = registry.create(&mut runtime, ALICE, *b"abcdefgg");
    let dna = random_value(ALICE, &[7u8; 32], Some(1));
    let record = Kitty { dna, name: *b"abcdefgg" };
    assert_eq!(created, Ok(Event::RecordCreated { owner: ALICE, id: 0, record }));
    assert_eq!(registry.kitties(0), Some(record));
    assert_eq!(dna, [22, 185, 33, 19, 177, 23, 144, 146, 118, 220, 196, 37, 97, 89, 234, 205]);
}

#[test]
fn create_pays_the_price_to_the_registry_account() {
    let mut registry = Pallet::new(PRICE, TREASURY);
    let mut runtime = Runtime::funded(&[ALICE]);
    assert_eq!(
        registry.create_payment(ALICE),
        Ok(Payment { source: ALICE, dest: TREASURY, value: PRICE })
    );
    assert!(registry.create(&mut runtime, ALICE, *b"abcdefgg").is_ok());
    assert_eq!(runtime.transfers, vec![(ALICE, TREASURY, PRICE)]);
    assert_eq!(runtime.free_balance(ALICE), 9 * PRICE);
    assert_eq!(runtime.free_balance(TREASURY), PRICE);
}

#[test]
fn create_without_funds_changes_nothing() {
    let mut registry = Pallet::new(PRICE, TREASURY);
    let mut runtime = Runtime::funded(&[]);
    let before = registry.clone();
    assert_eq!(
        registry.create(&mut runtime, ALICE, *b"abcdefgg"),
        Err(Error::ExternalTransferFailed(FUNDS_UNAVAILABLE))
    );
    assert_eq!(registry, before);
    assert_eq!(registry.next_kitty_id(), 0);
    assert_eq!(registry.kitties(0), None);
}

#[test]
fn create_at_the_maximum_overflows_every_time_and_asks_for_no_payment() {
    let mut registry = Pallet::new(PRICE, TREASURY);
    let mut runtime = Runtime::funded(&[ALICE]);
    assert!(registry.set_next_kitty_id(KittyId::MAX));
    let before = registry.clone();
    assert_eq!(registry.create_payment(ALICE), Err(Error::IdentifierOverflow));
    for _ in 0..3 {
        assert_eq!(
            registry.create(&mut runtime, ALICE, *b"abcdefgg"),
            Err(Error::IdentifierOverflow)
        );
        assert_eq!(registry.next_kitty_id(), KittyId::MAX);
        assert_eq!(registry, before);
    }
    assert!(runtime.transfers.is_empty());
    assert_eq!(runtime.calls, 0);
    assert_eq!(
        registry.complete_create(ALICE, *b"abcdefgg", [0; 16], Ok(())),
        Err(Error::IdentifierOverflow)
    );
    assert_eq!(
        registry.complete_create(ALICE, *b"abcdefgg", [0; 16], Err(FUNDS_UNAVAILABLE)),
        Err(Error::IdentifierOverflow)
    );
    assert_eq!(registry, before);
}

#[test]
fn the_last_identifier_below_the_maximum_is_handed_out() {
    let mut registry = Pallet::new(PRICE, TREASURY);
    assert!(registry.set_next_kitty_id(KittyId::MAX - 1));
    assert_eq!(
        registry.complete_create(ALICE, *b"abcdefgg", [5; 16], Ok(())),
        Ok(Event::RecordCreated {
            owner: ALICE,
            id: KittyId::MAX - 1,
            record: Kitty { dna: [5; 16], name: *b"abcdefgg" },
        })
    );
    assert_eq!(registry.next_kitty_id(), KittyId::MAX);
    assert_eq!(
        registry.complete_create(ALICE, *b"abcdefgg", [5; 16], Ok(())),
        Err(Error::IdentifierOverflow)
    );
}

#[test]
fn the_counter_moves_forward_only() {
    let mut registry = registry_with(&[(ALICE, [1; 16]), (ALICE, [2; 16])]);
    let before = registry.clone();
    assert!(!registry.set_next_kitty_id(1));
    assert_eq!(registry, before);
    assert!(registry.set_next_kitty_id(2));
    assert_eq!(registry, before);
    assert!(registry.set_next_kitty_id(10));
    assert_eq!(registry.next_kitty_id(), 10);
    assert!(registry.kitties(0).is_some());
    assert!(registry.kitties(1).is_some());
}

#[test]
fn breed_with_itself_is_refused_whether_or_not_it_exists() {
    let mut registry = registry_with(&[(ALICE, [1; 16])]);
    let mut runtime = Runtime::funded(&[ALICE]);
    let before = registry.clone();
    for id in [0u32, 1, 77, KittyId::MAX] {
        assert_eq!(registry.breed_payment(ALICE, id, id), Err(Error::SameIdentifier));
        assert_eq!(
            registry.breed(&mut runtime, ALICE, id, id, *b"abcdefgg"),
            Err(Error::SameIdentifier)
        );
        assert_eq!(
            registry.complete_breed(ALICE, id, id, *b"abcdefgg", [0xFF; 16], Ok(())),
            Err(Error::SameIdentifier)
        );
    }
    assert_eq!(registry, before);
    assert!(runtime.transfers.is_empty());
}

#[test]
fn breed_with_an_unknown_parent_is_refused_before_payment_and_allocation() {
    let mut registry = registry_with(&[(ALICE, [1; 16])]);
    let mut runtime = Runtime::funded(&[ALICE]);
    let before = registry.clone();
    for (id1, id2) in [(0u32, 1u32), (1, 0), (5, 6)] {
        assert_eq!(registry.breed_payment(ALICE, id1, id2), Err(Error::UnknownIdentifier));
        assert_eq!(
            registry.breed(&mut runtime, ALICE, id1, id2, *b"abcdefgg"),
            Err(Error::UnknownIdentifier)
        );
    }
    assert_eq!(registry, before);
    assert_eq!(registry.next_kitty_id(), 1);
    assert!(runtime.transfers.is_empty());
    assert_eq!(runtime.calls, 0);
    assert_eq!(runtime.free_balance(ALICE), 10 * PRICE);
}

#[test]
fn breed_mixes_the_parents_under_the_selector() {
    let mut registry = registry_with(&[(ALICE, [0xFF; 16]), (BOB, [0x00; 16])]);
    let bred = registry.complete_breed(CAROL, 0, 1, *b"children", [0x0F; 16], Ok(()));
    let record = Kitty { dna: [0x0F; 16], name: *b"children" };
    assert_eq!(bred, Ok(Event::RecordCreated { owner: CAROL, id: 2, record }));
    assert_eq!(registry.kitties(2), Some(record));
    assert_eq!(registry.kitty_owner(2), Some(CAROL));
    assert_eq!(registry.kitty_parents(2), Some((0, 1)));
    assert_eq!(registry.kitties(0), Some(Kitty { dna: [0xFF; 16], name: *b"abcdefgg" }));
    assert_eq!(registry.kitties(1), Some(Kitty { dna: [0x00; 16], name: *b"abcdefgg" }));
    assert_eq!(registry.kitty_parents(0), None);
    assert_eq!(registry.kitty_parents(1), None);
}

#[test]
fn breed_through_the_runtime_uses_the_drawn_selector() {
    let parent1: [u8; 16] = [0xF0; 16];
    let parent2: [u8; 16] = [0x3C; 16];
    let mut registry = registry_with(&[(ALICE, parent1), (ALICE, parent2)]);
    let mut runtime = Runtime::funded(&[BOB]);
    let bred = registry.breed(&mut runtime, BOB, 1, 0, *b"abcdefgg");
    let selector = random_value(BOB, &[7u8; 32], Some(1));
    let mut dna = [0u8; 16];
    for i in 0..16 {
        dna[i] = selector[i] & (parent1[i] | parent2[i]);
    }
    let record = Kitty { dna, name: *b"abcdefgg" };
    assert_eq!(bred, Ok(Event::RecordCreated { owner: BOB, id: 2, record }));
    assert_eq!(registry.kitty_parents(2), Some((1, 0)));
    assert_eq!(runtime.transfers, vec![(BOB, TREASURY, PRICE)]);
}

#[test]
fn breed_without_funds_changes_nothing() {
    let mut registry = registry_with(&[(ALICE, [1; 16]), (ALICE, [2; 16])]);
    let mut runtime = Runtime::funded(&[]);
    let before = registry.clone();
    assert_eq!(
        registry.breed_payment(ALICE, 0, 1),
        Ok(Payment { source: ALICE, dest: TREASURY, value: PRICE })
    );
    assert_eq!(
        registry.breed(&mut runtime, ALICE, 0, 1, *b"abcdefgg"),
        Err(Error::ExternalTransferFailed(FUNDS_UNAVAILABLE))
    );
    assert_eq!(registry, before);
    assert_eq!(registry.next_kitty_id(), 2);
    assert_eq!(runtime.calls, 0);
    assert_eq!(
        registry.complete_breed(ALICE, 0, 1, *b"abcdefgg", [0xFF; 16], Err(FUNDS_UNAVAILABLE)),
        Err(Error::ExternalTransferFailed(FUNDS_UNAVAILABLE))
    );
    assert_eq!(registry, before);
}

#[test]
fn breed_at_the_maximum_overflows_and_asks_for_no_payment() {
    let mut registry = registry_with(&[(ALICE, [1; 16]), (ALICE, [2; 16])]);
    let mut runtime = Runtime::funded(&[ALICE]);
    assert!(registry.set_next_kitty_id(KittyId::MAX));
    let before = registry.clone();
    assert_eq!(
        registry.breed(&mut runtime, ALICE, 0, 1, *b"abcdefgg"),
        Err(Error::IdentifierOverflow)
    );
    assert_eq!(registry, before);
    assert!(runtime.transfers.is_empty());
}

#[test]
fn transfer_moves_ownership_and_the_old_owner_loses_it() {
    let mut registry = registry_with(&[(ALICE, [1; 16])]);
    assert_eq!(registry.transfer(BOB, CAROL, 0), Err(Error::NotOwner));
    assert_eq!(registry.kitty_owner(0), Some(ALICE));
    assert_eq!(
        registry.transfer(ALICE, BOB, 0),
        Ok(Event::RecordTransferred { from: ALICE, to: BOB, id: 0 })
    );
    assert_eq!(registry.kitty_owner(0), Some(BOB));
    assert_eq!(registry.transfer(ALICE, CAROL, 0), Err(Error::NotOwner));
    assert_eq!(registry.transfer(ALICE, ALICE, 0), Err(Error::NotOwner));
    assert_eq!(registry.kitty_owner(0), Some(BOB));
    assert_eq!(
        registry.transfer(BOB, CAROL, 0),
        Ok(Event::RecordTransferred { from: BOB, to: CAROL, id: 0 })
    );
    assert_eq!(registry.kitty_owner(0), Some(CAROL));
}

#[test]
fn transfer_to_oneself_keeps_the_kitty() {
    let mut registry = registry_with(&[(ALICE, [1; 16])]);
    assert_eq!(
        registry.transfer(ALICE, ALICE, 0),
        Ok(Event::RecordTransferred { from: ALICE, to: ALICE, id: 0 })
    );
    assert_eq!(registry.kitty_owner(0), Some(ALICE));
    assert!(registry.transfer(ALICE, BOB, 0).is_ok());
}

#[test]
fn transfer_of_an_unknown_kitty_is_refused() {
    let mut registry = registry_with(&[(ALICE, [1; 16])]);
    let before = registry.clone();
    assert_eq!(registry.transfer(ALICE, BOB, 1), Err(Error::UnknownIdentifier));
    assert_eq!(registry, before);
}

#[test]
fn transfer_keeps_a_listing() {
    let mut registry = registry_with(&[(ALICE, [1; 16])]);
    assert!(registry.sale(ALICE, 0).is_ok());
    assert!(registry.transfer(ALICE, BOB, 0).is_ok());
    assert_eq!(registry.kitties_on_sale(0), Some(()));
    assert_eq!(registry.sale(BOB, 0), Err(Error::AlreadyListed));
}

#[test]
fn sale_refusals_in_their_order() {
    let mut registry = registry_with(&[(ALICE, [1; 16])]);
    assert_eq!(registry.sale(ALICE, 3), Err(Error::UnknownIdentifier));
    assert_eq!(registry.sale(BOB, 3), Err(Error::UnknownIdentifier));
    assert_eq!(registry.sale(BOB, 0), Err(Error::NotOwner));
    assert_eq!(registry.kitties_on_sale(0), None);
    assert_eq!(registry.sale(ALICE, 0), Ok(Event::RecordListed { owner: ALICE, id: 0 }));
    assert_eq!(registry.kitties_on_sale(0), Some(()));
    assert_eq!(registry.sale(ALICE, 0), Err(Error::AlreadyListed));
    assert_eq!(registry.sale(BOB, 0), Err(Error::NotOwner));
    assert_eq!(registry.kitties_on_sale(0), Some(()));
}

#[test]
fn buy_refusals_in_their_order() {
    let mut registry = registry_with(&[(ALICE, [1; 16])]);
    let mut runtime = Runtime::funded(&[ALICE, BOB]);
    let before = registry.clone();
    assert_eq!(registry.buy(&mut runtime, BOB, 4), Err(Error::UnknownIdentifier));
    assert_eq!(registry.buy(&mut runtime, ALICE, 0), Err(Error::AlreadyOwner));
    assert_eq!(registry.buy(&mut runtime, BOB, 0), Err(Error::NotListed));
    assert_eq!(registry.buy_payment(BOB, 0), Err(Error::NotListed));
    assert_eq!(registry, before);
    assert!(registry.sale(ALICE, 0).is_ok());
    let before = registry.clone();
    assert_eq!(registry.buy(&mut runtime, ALICE, 0), Err(Error::AlreadyOwner));
    assert_eq!(registry.buy_payment(ALICE, 0), Err(Error::AlreadyOwner));
    assert_eq!(registry, before);
    assert!(runtime.transfers.is_empty());
}

#[test]
fn buy_pays_the_owner_and_changes_hands() {
    let mut registry = registry_with(&[(ALICE, [1; 16])]);
    let mut runtime = Runtime::funded(&[BOB]);
    assert!(registry.sale(ALICE, 0).is_ok());
    assert_eq!(
        registry.buy_payment(BOB, 0),
        Ok(Payment { source: BOB, dest: ALICE, value: PRICE })
    );
    assert_eq!(registry.buy(&mut runtime, BOB, 0), Ok(()));
    assert_eq!(registry.kitty_owner(0), Some(BOB));
    assert_eq!(registry.kitties_on_sale(0), None);
    assert_eq!(runtime.transfers, vec![(BOB, ALICE, PRICE)]);
    assert_eq!(runtime.free_balance(BOB), 9 * PRICE);
    assert_eq!(runtime.free_balance(ALICE), PRICE);
    assert_eq!(registry.buy(&mut runtime, CAROL, 0), Err(Error::NotListed));
    assert_eq!(registry.buy(&mut runtime, BOB, 0), Err(Error::AlreadyOwner));
}

#[test]
fn buy_without_funds_changes_nothing() {
    let mut registry = registry_with(&[(ALICE, [1; 16])]);
    let mut runtime = Runtime::funded(&[]);
    assert!(registry.sale(ALICE, 0).is_ok());
    let before = registry.clone();
    assert_eq!(
        registry.buy(&mut runtime, BOB, 0),
        Err(Error::ExternalTransferFailed(FUNDS_UNAVAILABLE))
    );
    assert_eq!(registry, before);
    assert_eq!(registry.kitty_owner(0), Some(ALICE));
    assert_eq!(registry.kitties_on_sale(0), Some(()));
    assert_eq!(
        registry.complete_buy(BOB, 0, Err(DispatchError::Other("refused"))),
        Err(Error::ExternalTransferFailed(DispatchError::Other("refused")))
    );
    assert_eq!(registry, before);
    assert_eq!(registry.complete_buy(BOB, 0, Ok(())), Ok(()));
    assert_eq!(registry.kitty_owner(0), Some(BOB));
}

#[test]
fn end_to_end_scenario() {
    let mut registry = Pallet::new(PRICE, TREASURY);
    let mut runtime = Runtime::funded(&[ALICE, BOB, CAROL]);
    match registry.create(&mut runtime, ALICE, *b"abcdefgg") {
        Ok(Event::RecordCreated { id, .. }) => assert_eq!(id, 0),
        other => panic!("unexpected {:?}", other),
    }
    match registry.create(&mut runtime, ALICE, *b"abcdefgg") {
        Ok(Event::RecordCreated { id, .. }) => assert_eq!(id, 1),
        other => panic!("unexpected {:?}", other),
    }
    match registry.breed(&mut runtime, ALICE, 0, 1, *b"abcdefgg") {
        Ok(Event::RecordCreated { id, owner, .. }) => {
            assert_eq!(id, 2);
            assert_eq!(owner, ALICE);
        },
        other => panic!("unexpected {:?}", other),
    }
    assert_eq!(registry.kitty_parents(2), Some((0, 1)));
    assert_eq!(
        registry.transfer(ALICE, BOB, 2),
        Ok(Event::RecordTransferred { from: ALICE, to: BOB, id: 2 })
    );
    assert_eq!(registry.sale(BOB, 2), Ok(Event::RecordListed { owner: BOB, id: 2 }));
    assert_eq!(registry.buy(&mut runtime, CAROL, 2), Ok(()));
    assert_eq!(registry.kitty_owner(2), Some(CAROL));
    assert_eq!(registry.kitties_on_sale(2), None);
    assert_eq!(registry.kitty_parents(2), Some((0, 1)));
    assert_eq!(registry.kitty_owner(0), Some(ALICE));
    assert_eq!(registry.kitty_owner(1), Some(ALICE));
    assert_eq!(registry.next_kitty_id(), 3);
    assert_eq!(
        runtime.transfers,
        vec![
            (ALICE, TREASURY, PRICE),
            (ALICE, TREASURY, PRICE),
            (ALICE, TREASURY, PRICE),
            (CAROL, BOB, PRICE),
        ]
    );
}

fn snapshot() -> Snapshot {
    Snapshot {
        kitty_price: PRICE,
        account_id: TREASURY,
        next_kitty_id: 3,
        kitties: vec![
            (0, Kitty { dna: [1; 16], name: *b"abcdefgh" }),
            (1, Kitty { dna: [2; 16], name: *b"abcdefgh" }),
            (2, Kitty { dna: [3; 16], name: *b"abcdefgh" }),
        ],
        kitty_owner: vec![(0, ALICE), (1, ALICE), (2, BOB)],
        kitty_parents: vec![(2, (0, 1))],
        kitties_on_sale: vec![2],
    }
}

#[test]
fn restore_brings_back_every_part() {
    let registry = Pallet::restore(&snapshot()).unwrap();
    assert_eq!(registry.kitty_price(), PRICE);
    assert_eq!(registry.get_account_id(), TREASURY);
    assert_eq!(registry.next_kitty_id(), 3);
    assert_eq!(registry.kitties(1), Some(Kitty { dna: [2; 16], name: *b"abcdefgh" }));
    assert_eq!(registry.kitties(3), None);
    assert_eq!(registry.kitty_owner(2), Some(BOB));
    assert_eq!(registry.kitty_parents(2), Some((0, 1)));
    assert_eq!(registry.kitty_parents(1), None);
    assert_eq!(registry.kitties_on_sale(2), Some(()));
    assert_eq!(registry.kitties_on_sale(0), None);
}

#[test]
fn restore_gives_the_registry_that_the_calls_built() {
    let mut built = Pallet::new(PRICE, TREASURY);
    assert!(built.complete_create(ALICE, *b"abcdefgh", [1; 16], Ok(())).is_ok());
    assert!(built.complete_create(ALICE, *b"abcdefgh", [2; 16], Ok(())).is_ok());
    assert!(built.complete_breed(BOB, 0, 1, *b"abcdefgh", [0xFF; 16], Ok(())).is_ok());
    assert!(built.sale(BOB, 2).is_ok());
    assert_eq!(Pallet::restore(&snapshot()), Some(built));
}

#[test]
fn restore_refuses_parts_that_do_not_fit() {
    let mut parts = snapshot();
    parts.next_kitty_id = 2;
    assert_eq!(Pallet::restore(&parts), None);
    let mut parts = snapshot();
    parts.kitty_owner.pop();
    assert_eq!(Pallet::restore(&parts), None);
    let mut parts = snapshot();
    parts.kitty_owner.push((3, CAROL));
    assert_eq!(Pallet::restore(&parts), None);
    let mut parts = snapshot();
    parts.kitties_on_sale.push(7);
    assert_eq!(Pallet::restore(&parts), None);
    let mut parts = snapshot();
    parts.kitty_parents = vec![(2, (1, 1))];
    assert_eq!(Pallet::restore(&parts), None);
    let mut parts = snapshot();
    parts.kitty_parents = vec![(2, (0, 9))];
    assert_eq!(Pallet::restore(&parts), None);
    let mut parts = snapshot();
    parts.kitty_parents = vec![(5, (0, 1))];
    assert_eq!(Pallet::restore(&parts), None);
}

#[test]
fn restore_counts_the_last_entry_of_an_identifier() {
    let mut parts = snapshot();
    parts.kitty_owner.push((0, CAROL));
    parts.kitty_parents = vec![(2, (1, 1)), (2, (1, 0))];
    let registry = Pallet::restore(&parts).unwrap();
    assert_eq!(registry.kitty_owner(0), Some(CAROL));
    assert_eq!(registry.kitty_parents(2), Some((1, 0)));
}

#[test]
fn restore_of_nothing_is_a_new_registry() {
    let parts = Snapshot {
        kitty_price: PRICE,
        account_id: TREASURY,
        next_kitty_id: 0,
        kitties: vec![],
        kitty_owner: vec![],
        kitty_parents: vec![],
        kitties_on_sale: vec![],
    };
    assert_eq!(Pallet::restore(&parts), Some(Pallet::new(PRICE, TREASURY)));
}

#[test]
fn runtime_upgrade_brings_records_to_the_current_layout() {
    let mut stored = StoredKitties::V0(vec![(0, v0_Kitty([1; 16])), (1, v0_Kitty([2; 16]))]);
    assert_eq!(Pallet::on_runtime_upgrade(&mut stored), Weight::zero());
    let expected = vec![
        (0, Kitty { dna: [1; 16], name: *b"abcdefgh" }),
        (1, Kitty { dna: [2; 16], name: *b"abcdefgh" }),
    ];
    assert_eq!(stored, StoredKitties::V2(expected.clone()));
    assert_eq!(Pallet::on_runtime_upgrade(&mut stored), Weight::zero());
    assert_eq!(stored, StoredKitties::V2(expected));
}
