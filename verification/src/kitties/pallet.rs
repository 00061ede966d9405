//! The registry and its five operations: create, breed, transfer, sale and
//! buy. Each operation either takes full effect or refuses and changes
//! nothing.

use vstd::prelude::*;
use sp_runtime::DispatchError;
use crate::kitties::genetics::blake2_128_digest;
use crate::kitties::genetics::breed_dna;
use crate::kitties::genetics::random_payload;
use crate::kitties::genetics::random_value;
use crate::kitties::ledgers::IdAllocator;
use crate::kitties::ledgers::KittyStore;
use crate::kitties::ledgers::LineageLedger;
use crate::kitties::ledgers::MarketplaceListings;
use crate::kitties::ledgers::OwnershipLedger;
use crate::kitties::migrations::v2::migrate;
use crate::kitties::migrations::v2::migrate_spec;
use crate::kitties::migrations::StoredKitties;
use crate::kitties::migrations::STORAGE_VERSION;
use crate::kitties::snapshot::lemma_map_of_keys;
use crate::kitties::snapshot::Snapshot;
use crate::kitties::state::RegistryState;
use crate::kitties::types::AccountId;
use crate::kitties::types::Balance;
use crate::kitties::types::Error;
use crate::kitties::types::Event;
use crate::kitties::types::Kitty;
use crate::kitties::types::KittyId;
use crate::kitties::types::Payment;
use crate::kitties::types::Weight;

verus! {

/// The runtime around the registry: where the seed of a random value comes
/// from, what tells two calls of one caller apart, and how funds move.
/// The registry relies on nothing about what these return.
pub trait Config {
    /// The seed of the randomness provider, as the bytes that stand for it.
    fn random_seed(&mut self) -> Vec<u8>;

    /// What distinguishes this call from the caller's other calls, if the
    /// runtime counts them.
    fn extrinsic_index(&mut self) -> Option<u32>;

    /// Moves `value` from `source` to `dest`, or says why it did not.
    fn transfer(
        &mut self,
        source: AccountId,
        dest: AccountId,
        value: Balance,
    ) -> Result<(), DispatchError>;
}

/// The registry.
#[derive(Clone, Debug, PartialEq, Eq)]
pub struct Pallet {
    kitty_price: Balance,
    account_id: AccountId,
    next_kitty_id: IdAllocator,
    kitties: KittyStore,
    kitty_owner: OwnershipLedger,
    kitty_parents: LineageLedger,
    kitties_on_sale: MarketplaceListings,
}

impl Pallet {
    /// What the registry keeps.
    pub closed spec fn view(&self) -> RegistryState {
        RegistryState {
            kitty_price: self.kitty_price,
            account_id: self.account_id,
            next_kitty_id: self.next_kitty_id@,
            kitties: self.kitties@,
            kitty_owner: self.kitty_owner@,
            kitty_parents: self.kitty_parents@,
            kitties_on_sale: self.kitties_on_sale@,
        }
    }

    /// What every operation relies on and keeps.
    pub open spec fn wf(&self) -> bool {
        self@.wf()
    }

    /// A registry without kitties, in which a kitty costs `kitty_price`,
    /// paid to `account_id`.
    pub fn new(kitty_price: Balance, account_id: AccountId) -> (pallet: Pallet)
        ensures
            pallet.wf(),
            pallet@ == RegistryState::empty(kitty_price, account_id),
    {
        let pallet = Pallet {
            kitty_price,
            account_id,
            next_kitty_id: IdAllocator::new(),
            kitties: KittyStore::new(),
            kitty_owner: OwnershipLedger::new(),
            kitty_parents: LineageLedger::new(),
            kitties_on_sale: MarketplaceListings::new(),
        };
        assert(pallet@ =~= RegistryState::empty(kitty_price, account_id));
        pallet
    }

    /// The registry that the parts of `snapshot` stand for, if they stand
    /// for one: if exactly the kitties have an owner, only kitties are for
    /// sale or have parents on record, the parents are two different
    /// kitties, and every identifier in use lies below the next one.
    pub fn restore(snapshot: &Snapshot) -> (restored: Option<Pallet>)
        ensures
            restored is Some <==> snapshot.state().wf(),
            restored matches Some(pallet) ==> pallet.wf() && pallet@ == snapshot.state(),
    {
        let pallet = Pallet {
            kitty_price: snapshot.kitty_price,
            account_id: snapshot.account_id,
            next_kitty_id: IdAllocator::starting_at(snapshot.next_kitty_id),
            kitties: KittyStore::from_entries(&snapshot.kitties),
            kitty_owner: OwnershipLedger::from_entries(&snapshot.kitty_owner),
            kitty_parents: LineageLedger::from_entries(&snapshot.kitty_parents),
            kitties_on_sale: MarketplaceListings::from_entries(&snapshot.kitties_on_sale),
        };
        let ghost state = snapshot.state();
        assert(pallet@ =~= state);
        proof {
            pallet.kitties.lemma_finite();
        }
        let mut i: usize = 0;
        while i < snapshot.kitties.len()
            invariant
                i <= snapshot.kitties.len(),
                pallet@ == state,
                state == snapshot.state(),
                forall|j: int|
                    0 <= j < i ==> (#[trigger] snapshot.kitties[j]).0 < state.next_kitty_id
                        && state.kitty_owner.contains_key(snapshot.kitties[j].0),
            decreases snapshot.kitties.len() - i,
        {
            let id: KittyId = snapshot.kitties[i].0;
            proof {
                lemma_map_of_keys(snapshot.kitties@, id);
            }
            if id >= pallet.next_kitty_id.next_id() || pallet.kitty_owner.owner_of(id).is_none() {
                return None;
            }
            i = i + 1;
        }
        let mut i: usize = 0;
        while i < snapshot.kitty_owner.len()
            invariant
                i <= snapshot.kitty_owner.len(),
                pallet@ == state,
                state == snapshot.state(),
                forall|j: int|
                    0 <= j < i ==> state.kitties.contains_key(
                        (#[trigger] snapshot.kitty_owner[j]).0,
                    ),
            decreases snapshot.kitty_owner.len() - i,
        {
            let id: KittyId = snapshot.kitty_owner[i].0;
            proof {
                lemma_map_of_keys(snapshot.kitty_owner@, id);
            }
            if !pallet.kitties.contains(id) {
                return None;
            }
            i = i + 1;
        }
        let mut i: usize = 0;
        while i < snapshot.kitty_parents.len()
            invariant
                i <= snapshot.kitty_parents.len(),
                pallet@ == state,
                state == snapshot.state(),
                forall|j: int|
                    0 <= j < i ==> {
                        let id = (#[trigger] snapshot.kitty_parents[j]).0;
                        &&& state.kitties.contains_key(id)
                        &&& state.kitty_parents[id].0 != state.kitty_parents[id].1
                        &&& state.kitties.contains_key(state.kitty_parents[id].0)
                        &&& state.kitties.contains_key(state.kitty_parents[id].1)
                    },
            decreases snapshot.kitty_parents.len() - i,
        {
            let id: KittyId = snapshot.kitty_parents[i].0;
            proof {
                lemma_map_of_keys(snapshot.kitty_parents@, id);
            }
            match pallet.kitty_parents.parents_of(id) {
                Some((parent1, parent2)) => {
                    if !pallet.kitties.contains(id) || parent1 == parent2
                        || !pallet.kitties.contains(parent1) || !pallet.kitties.contains(parent2) {
                        return None;
                    }
                },
                None => {
                    return None;
                },
            }
            i = i + 1;
        }
        let mut i: usize = 0;
        while i < snapshot.kitties_on_sale.len()
            invariant
                i <= snapshot.kitties_on_sale.len(),
                pallet@ == state,
                state == snapshot.state(),
                forall|j: int|
                    0 <= j < i ==> state.kitties.contains_key(
                        #[trigger] snapshot.kitties_on_sale[j],
                    ),
            decreases snapshot.kitties_on_sale.len() - i,
        {
            let id: KittyId = snapshot.kitties_on_sale[i];
            assert(snapshot.kitties_on_sale@.contains(id));
            if !pallet.kitties.contains(id) {
                return None;
            }
            i = i + 1;
        }
        proof {
            assert forall|id: KittyId| #[trigger] state.kitties.contains_key(id) implies id
                < state.next_kitty_id && state.kitty_owner.contains_key(id) by {
                lemma_map_of_keys(snapshot.kitties@, id);
            }
            assert forall|id: KittyId| #[trigger]
                state.kitty_owner.contains_key(id) implies state.kitties.contains_key(id) by {
                lemma_map_of_keys(snapshot.kitty_owner@, id);
            }
            assert(state.kitty_owner.dom() =~= state.kitties.dom());
            assert forall|id: KittyId| #[trigger] state.kitty_parents.contains_key(id) implies {
                &&& state.kitties.contains_key(id)
                &&& state.kitty_parents[id].0 != state.kitty_parents[id].1
                &&& state.kitties.contains_key(state.kitty_parents[id].0)
                &&& state.kitties.contains_key(state.kitty_parents[id].1)
            } by {
                lemma_map_of_keys(snapshot.kitty_parents@, id);
            }
            assert forall|id: KittyId| #[trigger]
                state.kitties_on_sale.contains(id) implies state.kitties.contains_key(id) by {
                let j = choose|j: int|
                    0 <= j < snapshot.kitties_on_sale.len() && snapshot.kitties_on_sale[j] == id;
                assert(state.kitties.contains_key(snapshot.kitties_on_sale[j]));
            }
        }
        Some(pallet)
    }

    /// Brings the stored records to the layout of this release, before any
    /// operation is served.
    pub fn on_runtime_upgrade(stored: &mut StoredKitties) -> (weight: Weight)
        ensures
            final(stored)@ == migrate_spec(old(stored)@, STORAGE_VERSION),
            weight == (Weight { ref_time: 0, proof_size: 0 }),
    {
        migrate(stored, STORAGE_VERSION);
        Weight::zero()
    }

    /// What a kitty costs.
    pub fn kitty_price(&self) -> (price: Balance)
        ensures
            price == self@.kitty_price,
    {
        self.kitty_price
    }

    /// The account that is paid for a new kitty.
    pub fn get_account_id(&self) -> (account: AccountId)
        ensures
            account == self@.account_id,
    {
        self.account_id
    }

    /// The identifier that the next kitty gets.
    pub fn next_kitty_id(&self) -> (id: KittyId)
        ensures
            id == self@.next_kitty_id,
    {
        self.next_kitty_id.next_id()
    }

    /// The kitty `id`, if there is one.
    pub fn kitties(&self, id: KittyId) -> (kitty: Option<Kitty>)
        ensures
            kitty == (if self@.kitties.contains_key(id) {
                Some(self@.kitties[id])
            } else {
                None
            }),
    {
        self.kitties.get_record(id)
    }

    /// The owner of the kitty `id`, if there is such a kitty.
    pub fn kitty_owner(&self, id: KittyId) -> (owner: Option<AccountId>)
        ensures
            owner == (if self@.kitty_owner.contains_key(id) {
                Some(self@.kitty_owner[id])
            } else {
                None
            }),
    {
        self.kitty_owner.owner_of(id)
    }

    /// The parents of the kitty `id`, if it was bred.
    pub fn kitty_parents(&self, id: KittyId) -> (parents: Option<(KittyId, KittyId)>)
        ensures
            parents == (if self@.kitty_parents.contains_key(id) {
                Some(self@.kitty_parents[id])
            } else {
                None
            }),
    {
        self.kitty_parents.parents_of(id)
    }

    /// `Some` if the kitty `id` is for sale.
    pub fn kitties_on_sale(&self, id: KittyId) -> (listing: Option<()>)
        ensures
            listing is Some <==> self@.kitties_on_sale.contains(id),
    {
        if self.kitties_on_sale.is_listed(id) {
            Some(())
        } else {
            None
        }
    }

    /// Moves the counter of identifiers forward to `next`. Moving it back
    /// would hand an identifier out twice: that is refused, with `false`.
    pub fn set_next_kitty_id(&mut self, next: KittyId) -> (moved: bool)
        requires
            old(self).wf(),
        ensures
            final(self).wf(),
            moved == (next >= old(self)@.next_kitty_id),
            moved ==> final(self)@ == (RegistryState { next_kitty_id: next, ..old(self)@ }),
            !moved ==> final(self)@ == old(self)@,
    {
        if next >= self.next_kitty_id.next_id() {
            self.next_kitty_id = IdAllocator::starting_at(next);
            assert(self@ =~= (RegistryState { next_kitty_id: next, ..old(self)@ }));
            true
        } else {
            false
        }
    }

    /// What creating a kitty costs `sender`, or why none can be created.
    pub fn create_payment(&self, sender: AccountId) -> (payment: Result<Payment, Error>)
        ensures
            payment == self@.create_payment(sender),
    {
        if self.next_kitty_id.next_id() == KittyId::MAX {
            Err(Error::IdentifierOverflow)
        } else {
            Ok(Payment { source: sender, dest: self.account_id, value: self.kitty_price })
        }
    }

    /// What breeding `id1` with `id2` costs `sender`, or why they cannot be
    /// bred.
    pub fn breed_payment(
        &self,
        sender: AccountId,
        id1: KittyId,
        id2: KittyId,
    ) -> (payment: Result<Payment, Error>)
        ensures
            payment == self@.breed_payment(sender, id1, id2),
    {
        if id1 == id2 {
            Err(Error::SameIdentifier)
        } else if !self.kitties.contains(id1) || !self.kitties.contains(id2) {
            Err(Error::UnknownIdentifier)
        } else if self.next_kitty_id.next_id() == KittyId::MAX {
            Err(Error::IdentifierOverflow)
        } else {
            Ok(Payment { source: sender, dest: self.account_id, value: self.kitty_price })
        }
    }

    /// What `sender` pays to whom for the kitty `id`, or why it cannot be
    /// bought.
    pub fn buy_payment(&self, sender: AccountId, id: KittyId) -> (payment: Result<Payment, Error>)
        ensures
            payment == self@.buy_payment(sender, id),
    {
        if !self.kitties.contains(id) {
            return Err(Error::UnknownIdentifier);
        }
        match self.kitty_owner.owner_of(id) {
            None => Err(Error::UnknownIdentifier),
            Some(owner) => {
                if owner == sender {
                    Err(Error::AlreadyOwner)
                } else if !self.kitties_on_sale.is_listed(id) {
                    Err(Error::NotListed)
                } else {
                    Ok(Payment { source: sender, dest: owner, value: self.kitty_price })
                }
            },
        }
    }

    /// Stores `record` under the next identifier and gives it to `owner`,
    /// with `parents` on record if it was bred.
    fn mint(
        &mut self,
        owner: AccountId,
        record: Kitty,
        parents: Option<(KittyId, KittyId)>,
    ) -> (minted: Result<KittyId, Error>)
        requires
            old(self).wf(),
            old(self)@.has_capacity(),
            parents matches Some(pair) ==> pair.0 != pair.1 && old(self)@.exists_kitty(pair.0)
                && old(self)@.exists_kitty(pair.1),
        ensures
            final(self).wf(),
            minted == Ok::<KittyId, Error>(old(self)@.next_kitty_id),
            final(self)@ == old(self)@.minted(owner, record, parents),
    {
        let id: KittyId = self.next_kitty_id.allocate()?;
        self.kitties.create_record(id, record.dna, record.name)?;
        self.kitty_owner.set_owner(id, owner);
        match parents {
            Some(pair) => {
                self.kitty_parents.record_lineage(id, pair.0, pair.1);
            },
            None => {},
        }
        assert(self@ =~= old(self)@.minted(owner, record, parents));
        Ok(id)
    }

    /// Finishes the creation of a kitty with the payload `dna` for `sender`,
    /// given what the funds ledger answered to the payment.
    pub fn complete_create(
        &mut self,
        sender: AccountId,
        name: [u8; 8],
        dna: [u8; 16],
        paid: Result<(), DispatchError>,
    ) -> (created: Result<Event, Error>)
        requires
            old(self).wf(),
        ensures
            final(self).wf(),
            (created, final(self)@) == old(self)@.create_outcome(sender, name, dna, paid),
    {
        match self.create_payment(sender) {
            Err(refusal) => Err(refusal),
            Ok(_) => match paid {
                Err(reason) => Err(Error::ExternalTransferFailed(reason)),
                Ok(_) => {
                    let record = Kitty { dna, name };
                    let id: KittyId = self.mint(sender, record, None)?;
                    Ok(Event::RecordCreated { owner: sender, id, record })
                },
            },
        }
    }

    /// Creates a kitty for `sender`: draws its payload from the runtime's
    /// seed, charges the price, and stores the kitty under the next
    /// identifier. Where no identifier is left the runtime is not asked for
    /// anything. Otherwise the payload is the digest of some seed with the
    /// sender, and the funds ledger decides: the kitty is stored exactly if
    /// the payment went through.
    pub fn create<T: Config>(
        &mut self,
        runtime: &mut T,
        sender: AccountId,
        name: [u8; 8],
    ) -> (created: Result<Event, Error>)
        requires
            old(self).wf(),
        ensures
            final(self).wf(),
            old(self)@.create_payment(sender) matches Err(refusal) ==> {
                &&& created == Err::<Event, Error>(refusal)
                &&& final(self)@ == old(self)@
                &&& *final(runtime) == *old(runtime)
            },
            old(self)@.create_payment(sender) is Ok ==> exists|
                dna: [u8; 16],
                paid: Result<(), DispatchError>,
            |
                {
                    &&& (created, final(self)@) == #[trigger] old(self)@.create_outcome(
                        sender,
                        name,
                        dna,
                        paid,
                    )
                    &&& exists|seed: Seq<u8>, index: Option<u32>|
                        dna@ == blake2_128_digest(#[trigger] random_payload(seed, sender, index))
                },
    {
        match self.create_payment(sender) {
            Err(refusal) => Err(refusal),
            Ok(payment) => {
                let seed: Vec<u8> = runtime.random_seed();
                let index: Option<u32> = runtime.extrinsic_index();
                let dna: [u8; 16] = random_value(sender, seed.as_slice(), index);
                let paid = runtime.transfer(payment.source, payment.dest, payment.value);
                assert(dna@ == blake2_128_digest(random_payload(seed@, sender, index)));
                self.complete_create(sender, name, dna, paid)
            },
        }
    }

    /// Finishes the breeding of `id1` with `id2` under `selector` for
    /// `sender`, given what the funds ledger answered to the payment.
    pub fn complete_breed(
        &mut self,
        sender: AccountId,
        id1: KittyId,
        id2: KittyId,
        name: [u8; 8],
        selector: [u8; 16],
        paid: Result<(), DispatchError>,
    ) -> (bred: Result<Event, Error>)
        requires
            old(self).wf(),
        ensures
            final(self).wf(),
            (bred, final(self)@) == old(self)@.breed_outcome(
                sender,
                id1,
                id2,
                name,
                selector,
                paid,
            ),
    {
        match self.breed_payment(sender, id1, id2) {
            Err(refusal) => Err(refusal),
            Ok(_) => match paid {
                Err(reason) => Err(Error::ExternalTransferFailed(reason)),
                Ok(_) => match (self.kitties.get_record(id1), self.kitties.get_record(id2)) {
                    (Some(kitty1), Some(kitty2)) => {
                        let dna: [u8; 16] = breed_dna(&kitty1.dna, &kitty2.dna, &selector);
                        let record = Kitty { dna, name };
                        let id: KittyId = self.mint(sender, record, Some((id1, id2)))?;
                        Ok(Event::RecordCreated { owner: sender, id, record })
                    },
                    _ => Err(Error::UnknownIdentifier),
                },
            },
        }
    }

    /// Breeds the kitties `id1` and `id2` for `sender`: charges the price,
    /// draws a selector from the runtime's seed, mixes the parents' payloads
    /// under it and stores the child, with its parents on record. Where the
    /// two are the same, one of them is no kitty, or no identifier is left,
    /// the runtime is not asked for anything. Otherwise the funds ledger
    /// decides: the child is stored exactly if the payment went through,
    /// and the selector is then the digest of some seed with the sender.
    pub fn breed<T: Config>(
        &mut self,
        runtime: &mut T,
        sender: AccountId,
        id1: KittyId,
        id2: KittyId,
        name: [u8; 8],
    ) -> (bred: Result<Event, Error>)
        requires
            old(self).wf(),
        ensures
            final(self).wf(),
            old(self)@.breed_payment(sender, id1, id2) matches Err(refusal) ==> {
                &&& bred == Err::<Event, Error>(refusal)
                &&& final(self)@ == old(self)@
                &&& *final(runtime) == *old(runtime)
            },
            old(self)@.breed_payment(sender, id1, id2) is Ok ==> exists|
                selector: [u8; 16],
                paid: Result<(), DispatchError>,
            |
                {
                    &&& (bred, final(self)@) == #[trigger] old(self)@.breed_outcome(
                        sender,
                        id1,
                        id2,
                        name,
                        selector,
                        paid,
                    )
                    &&& paid is Ok ==> exists|seed: Seq<u8>, index: Option<u32>|
                        selector@ == blake2_128_digest(
                            #[trigger] random_payload(seed, sender, index),
                        )
                },
    {
        match self.breed_payment(sender, id1, id2) {
            Err(refusal) => Err(refusal),
            Ok(payment) => {
                match runtime.transfer(payment.source, payment.dest, payment.value) {
                    Err(reason) => {
                        assert((Err::<Event, Error>(Error::ExternalTransferFailed(reason)), self@)
                            == old(self)@.breed_outcome(
                            sender,
                            id1,
                            id2,
                            name,
                            old(self)@.kitties[id1].dna,
                            Err::<(), DispatchError>(reason),
                        ));
                        Err(Error::ExternalTransferFailed(reason))
                    },
                    Ok(_) => {
                        let seed: Vec<u8> = runtime.random_seed();
                        let index: Option<u32> = runtime.extrinsic_index();
                        let selector: [u8; 16] = random_value(sender, seed.as_slice(), index);
                        assert(selector@ == blake2_128_digest(
                            random_payload(seed@, sender, index),
                        ));
                        self.complete_breed(sender, id1, id2, name, selector, Ok(()))
                    },
                }
            },
        }
    }

    /// Hands the kitty `id` from `sender`, who must own it, to `to`.
    pub fn transfer(
        &mut self,
        sender: AccountId,
        to: AccountId,
        id: KittyId,
    ) -> (transferred: Result<Event, Error>)
        requires
            old(self).wf(),
        ensures
            final(self).wf(),
            (transferred, final(self)@) == old(self)@.transfer_outcome(sender, to, id),
    {
        match self.kitty_owner.owner_of(id) {
            None => Err(Error::UnknownIdentifier),
            Some(owner) => {
                if sender != owner {
                    Err(Error::NotOwner)
                } else {
                    self.kitty_owner.set_owner(id, to);
                    assert(self@ =~= old(self)@.transferred(id, to));
                    assert(self@.kitty_owner.dom() =~= old(self)@.kitty_owner.dom());
                    Ok(Event::RecordTransferred { from: sender, to, id })
                }
            },
        }
    }

    /// Offers the kitty `id` for sale. Only its owner can do so, and only
    /// while it is not offered yet.
    pub fn sale(&mut self, sender: AccountId, id: KittyId) -> (offered: Result<Event, Error>)
        requires
            old(self).wf(),
        ensures
            final(self).wf(),
            (offered, final(self)@) == old(self)@.sale_outcome(sender, id),
    {
        if !self.kitties.contains(id) {
            return Err(Error::UnknownIdentifier);
        }
        match self.kitty_owner.owner_of(id) {
            None => Err(Error::UnknownIdentifier),
            Some(owner) => {
                if sender != owner {
                    Err(Error::NotOwner)
                } else {
                    match self.kitties_on_sale.list(id) {
                        Err(refusal) => Err(refusal),
                        Ok(_) => {
                            assert(self@ =~= old(self)@.listed(id));
                            Ok(Event::RecordListed { owner: sender, id })
                        },
                    }
                }
            },
        }
    }

    /// Finishes the purchase of the kitty `id` by `sender`, given what the
    /// funds ledger answered to the payment.
    pub fn complete_buy(
        &mut self,
        sender: AccountId,
        id: KittyId,
        paid: Result<(), DispatchError>,
    ) -> (bought: Result<(), Error>)
        requires
            old(self).wf(),
        ensures
            final(self).wf(),
            (bought, final(self)@) == old(self)@.buy_outcome(sender, id, paid),
    {
        match self.buy_payment(sender, id) {
            Err(refusal) => Err(refusal),
            Ok(_) => match paid {
                Err(reason) => Err(Error::ExternalTransferFailed(reason)),
                Ok(_) => {
                    self.kitty_owner.set_owner(id, sender);
                    self.kitties_on_sale.unlist(id);
                    assert(self@ =~= old(self)@.sold(id, sender));
                    assert(self@.kitty_owner.dom() =~= old(self)@.kitty_owner.dom());
                    Ok(())
                },
            },
        }
    }

    /// Buys the kitty `id` for `sender`: pays the price to its owner, makes
    /// the sender its owner and takes it off the market. Where it is no
    /// kitty, is the sender's already or is not for sale, the runtime is not
    /// asked for anything. Otherwise the funds ledger decides: the kitty
    /// changes hands exactly if the payment went through.
    pub fn buy<T: Config>(
        &mut self,
        runtime: &mut T,
        sender: AccountId,
        id: KittyId,
    ) -> (bought: Result<(), Error>)
        requires
            old(self).wf(),
        ensures
            final(self).wf(),
            old(self)@.buy_payment(sender, id) matches Err(refusal) ==> {
                &&& bought == Err::<(), Error>(refusal)
                &&& final(self)@ == old(self)@
                &&& *final(runtime) == *old(runtime)
            },
            old(self)@.buy_payment(sender, id) is Ok ==> exists|paid: Result<(), DispatchError>|
                (bought, final(self)@) == #[trigger] old(self)@.buy_outcome(sender, id, paid),
    {
        match self.buy_payment(sender, id) {
            Err(refusal) => Err(refusal),
            Ok(payment) => {
                let paid = runtime.transfer(payment.source, payment.dest, payment.value);
                self.complete_buy(sender, id, paid)
            },
        }
    }
}

} // verus!
