use pallets::kitties::pallet::Config;
use pallets::kitties::pallet::Pallet;
use pallets::kitties::types::AccountId;
use pallets::kitties::types::Balance;
use pallets::kitties::types::Error;
use pallets::kitties::types::Event;
use pallets::kitties::types::KittyId;
use sp_runtime::DispatchError;
use sp_runtime::TokenError;
use std::collections::HashMap;

const KITTY_PRICE: Balance = 1_000;
const PALLET_ACCOUNT: AccountId = 99;
const EXISTENTIAL_DEPOSIT: Balance = 1;

/// A runtime for the tests: balances that refuse a payment that would not
/// leave the payer alive, a fixed seed and a counter of calls.
struct Runtime {
    balances: HashMap<AccountId, Balance>,
    seed: Vec<u8>,
    calls: u32,
    transfers: Vec<(AccountId, AccountId, Balance)>,
}

impl Runtime {
    fn new() -> Runtime {
        Runtime { balances: HashMap::new(), seed: vec![7u8; 32], calls: 0, transfers: Vec::new() }
    }

    fn force_set_balance(&mut self, who: AccountId, free: Balance) {
        self.balances.insert(who, free);
    }

    fn free_balance(&self, who: AccountId) -> Balance {
        self.balances.get(&who).copied().unwrap_or(0)
    }
}

impl Config for Runtime {
    fn random_seed(&mut self) -> Vec<u8> {
        self.seed.clone()
    }

    fn extrinsic_index(&mut self) -> Option<u32> {
        self.calls += 1;
        Some(self.calls)
    }

    fn transfer(
        &mut self,
        source: AccountId,
        dest: AccountId,
        value: Balance,
    ) -> Result<(), DispatchError> {
        let free = self.free_balance(source);
        if free < value || free - value < EXISTENTIAL_DEPOSIT {
            return Err(DispatchError::Token(TokenError::FundsUnavailable));
        }
        self.balances.insert(source, free - value);
        let held = self.free_balance(dest);
        self.balances.insert(dest, held + value);
        self.transfers.push((source, dest, value));
        Ok(())
    }
}

fn new_test_ext() -> (Pallet, Runtime) {
    (Pallet::new(KITTY_PRICE, PALLET_ACCOUNT), Runtime::new())
}

#[test]
fn create_kities_works() {
    let (mut kitties_module, mut runtime) = new_test_ext();
    let kitty_id: KittyId = 0;
    let account_id: AccountId = 1;

    runtime.force_set_balance(account_id, 1_000_000_000);

    assert_eq!(kitties_module.next_kitty_id(), kitty_id);
    let created = kitties_module.create(&mut runtime, account_id, *b"abcdefgg");
    assert!(created.is_ok());
    assert_eq!(
        created,
        Ok(Event::RecordCreated {
            owner: account_id,
            id: kitty_id,
            record: kitties_module.kitties(kitty_id).unwrap(),
        })
    );
    assert_eq!(kitties_module.next_kitty_id(), kitty_id + 1);
    assert_eq!(kitties_module.kitties(kitty_id).is_some(), true);
    assert_eq!(kitties_module.kitty_owner(kitty_id), Some(account_id));
    assert_eq!(kitties_module.kitty_parents(kitty_id), None);

    assert!(kitties_module.set_next_kitty_id(KittyId::max_value()));
    let before = kitties_module.clone();
    assert_eq!(
        kitties_module.create(&mut runtime, account_id, *b"abcdefgg"),
        Err(Error::IdentifierOverflow)
    );
    assert_eq!(kitties_module, before);
}

#[test]
fn breed_kitties_works() {
    let (mut kitties_module, mut runtime) = new_test_ext();
    let kitty_id: KittyId = 0;
    let account_id: AccountId = 1;

    runtime.force_set_balance(account_id, 1_000_000_000);

    let before = kitties_module.clone();
    assert_eq!(
        kitties_module.breed(&mut runtime, account_id, kitty_id, kitty_id, *b"abcdefgg"),
        Err(Error::SameIdentifier)
    );
    assert_eq!(kitties_module, before);
    assert_eq!(
        kitties_module.breed(&mut runtime, account_id, kitty_id, kitty_id + 1, *b"abcdefgg"),
        Err(Error::UnknownIdentifier)
    );
    assert_eq!(kitties_module, before);

    assert!(kitties_module.create(&mut runtime, account_id, *b"abcdefgg").is_ok());
    assert!(kitties_module.create(&mut runtime, account_id, *b"abcdefgg").is_ok());

    assert_eq!(kitties_module.next_kitty_id(), kitty_id + 2);

    let bred = kitties_module.breed(&mut runtime, account_id, kitty_id, kitty_id + 1, *b"abcdefgg");
    assert!(bred.is_ok());
    assert_eq!(
        bred,
        Ok(Event::RecordCreated {
            owner: account_id,
            id: kitty_id + 2,
            record: kitties_module.kitties(kitty_id + 2).unwrap(),
        })
    );
    let breed_kitty_id: KittyId = 2;

    assert_eq!(kitties_module.next_kitty_id(), breed_kitty_id + 1);
    assert_eq!(kitties_module.kitties(breed_kitty_id).is_some(), true);
    assert_eq!(kitties_module.kitty_owner(breed_kitty_id), Some(account_id));
    assert_eq!(kitties_module.kitty_parents(breed_kitty_id), Some((kitty_id, kitty_id + 1)));
}

#[test]
fn transfer_kitties_works() {
    let (mut kitties_module, mut runtime) = new_test_ext();
    let kitty_id: KittyId = 0;
    let account_id: AccountId = 1;
    let receiver_id: AccountId = 2;

    runtime.force_set_balance(account_id, 1_000_000_000);

    assert_eq!(kitties_module.next_kitty_id(), kitty_id);

    let before = kitties_module.clone();
    assert_eq!(
        kitties_module.transfer(account_id, receiver_id, kitty_id),
        Err(Error::UnknownIdentifier)
    );
    assert_eq!(kitties_module, before);

    assert!(kitties_module.create(&mut runtime, account_id, *b"abcdefgg").is_ok());

    let before = kitties_module.clone();
    assert_eq!(
        kitties_module.transfer(receiver_id, account_id + 2, kitty_id),
        Err(Error::NotOwner)
    );
    assert_eq!(kitties_module, before);

    let transferred = kitties_module.transfer(account_id, receiver_id, kitty_id);
    assert!(transferred.is_ok());

    assert_eq!(kitties_module.kitty_owner(kitty_id), Some(receiver_id));

    assert_eq!(
        transferred,
        Ok(Event::RecordTransferred { from: account_id, to: receiver_id, id: kitty_id })
    );
}

#[test]
fn sale_kitties_works() {
    let (mut kitties_module, mut runtime) = new_test_ext();
    let kitty_id: KittyId = 0;
    let account_id: AccountId = 1;

    runtime.force_set_balance(account_id, 1_000_000_000);

    assert_eq!(kitties_module.next_kitty_id(), kitty_id);
    let before = kitties_module.clone();
    assert_eq!(kitties_module.sale(account_id, kitty_id), Err(Error::UnknownIdentifier));
    assert_eq!(kitties_module, before);

    assert!(kitties_module.create(&mut runtime, account_id, *b"abcdefgg").is_ok());

    let before = kitties_module.clone();
    assert_eq!(kitties_module.sale(account_id + 1, kitty_id), Err(Error::NotOwner));
    assert_eq!(kitties_module, before);

    let offered = kitties_module.sale(account_id, kitty_id);
    assert!(offered.is_ok());

    let before = kitties_module.clone();
    assert_eq!(kitties_module.sale(account_id, kitty_id), Err(Error::AlreadyListed));
    assert_eq!(kitties_module, before);

    assert_eq!(offered, Ok(Event::RecordListed { owner: account_id, id: kitty_id }));
}

#[test]
fn buy_kitties_works() {
    let (mut kitties_module, mut runtime) = new_test_ext();
    let kitty_id: KittyId = 0;
    let owner_id: AccountId = 1;
    let buyer_id: AccountId = 2;
    runtime.force_set_balance(owner_id, 1_000_000_000);
    runtime.force_set_balance(buyer_id, 1_000_000_000);

    assert_eq!(kitties_module.next_kitty_id(), kitty_id);
    assert!(kitties_module.create(&mut runtime, owner_id, *b"abcdefgg").is_ok());

    let before = kitties_module.clone();
    assert_eq!(
        kitties_module.buy(&mut runtime, owner_id, kitty_id + 1),
        Err(Error::UnknownIdentifier)
    );
    assert_eq!(kitties_module, before);

    assert!(kitties_module.sale(owner_id, kitty_id).is_ok());

    assert!(kitties_module.buy(&mut runtime, buyer_id, kitty_id).is_ok());

    assert_eq!(kitties_module.kitties_on_sale(kitty_id).is_none(), true);

    assert_eq!(kitties_module.kitty_owner(kitty_id).unwrap(), buyer_id);
}
