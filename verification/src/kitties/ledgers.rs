//! The parts of the registry, each with the mapping it owns: the allocator
//! of identifiers, the store of records, and the ledgers of lineage, of
//! ownership and of what is for sale.

use vstd::prelude::*;
use std::collections::HashMap;
use crate::kitties::snapshot::map_of;
use crate::kitties::types::AccountId;
use crate::kitties::types::Error;
use crate::kitties::types::Kitty;
use crate::kitties::types::KittyId;

verus! {

broadcast use vstd::std_specs::hash::group_hash_axioms;

/// The mapping that a list of entries stands for.
fn collect<V: Copy>(entries: &Vec<(KittyId, V)>) -> (mapping: HashMap<KittyId, V>)
    ensures
        mapping@ == map_of(entries@),
{
    let mut mapping: HashMap<KittyId, V> = HashMap::new();
    let mut i: usize = 0;
    while i < entries.len()
        invariant
            i <= entries.len(),
            mapping@ == map_of(entries@.take(i as int)),
        decreases entries.len() - i,
    {
        let (id, value) = entries[i];
        mapping.insert(id, value);
        i = i + 1;
        assert(entries@.take(i as int).drop_last() =~= entries@.take(i - 1));
    }
    assert(entries@.take(entries.len() as int) =~= entries@);
    mapping
}

/// Hands out identifiers in increasing order, each once.
#[derive(Clone, Debug, PartialEq, Eq)]
pub struct IdAllocator {
    next: KittyId,
}

impl IdAllocator {
    /// The identifier that is handed out next.
    pub closed spec fn view(&self) -> KittyId {
        self.next
    }

    /// An allocator that starts at 0.
    pub fn new() -> (allocator: IdAllocator)
        ensures
            allocator@ == 0,
    {
        IdAllocator { next: 0 }
    }

    /// An allocator that has handed out every identifier below `next`.
    pub fn starting_at(next: KittyId) -> (allocator: IdAllocator)
        ensures
            allocator@ == next,
    {
        IdAllocator { next }
    }

    /// The identifier that is handed out next.
    pub fn next_id(&self) -> (id: KittyId)
        ensures
            id == self@,
    {
        self.next
    }

    /// Hands out the current identifier and moves on to the one after it.
    /// Once the counter stands at the largest value there is no identifier
    /// after it: the call is refused and the counter stays, so every later
    /// call is refused too.
    pub fn allocate(&mut self) -> (allocated: Result<KittyId, Error>)
        ensures
            old(self)@ < KittyId::MAX ==> {
                &&& allocated == Ok::<KittyId, Error>(old(self)@)
                &&& final(self)@ == old(self)@ + 1
            },
            old(self)@ == KittyId::MAX ==> {
                &&& allocated == Err::<KittyId, Error>(Error::IdentifierOverflow)
                &&& final(self)@ == old(self)@
            },
    {
        let current_id: KittyId = self.next;
        match current_id.checked_add(1) {
            Some(following) => {
                self.next = following;
                Ok(current_id)
            },
            None => Err(Error::IdentifierOverflow),
        }
    }
}

/// Keeps the records. A record is stored once and never changed or removed.
#[derive(Clone, Debug, PartialEq, Eq)]
pub struct KittyStore {
    records: HashMap<KittyId, Kitty>,
}

impl KittyStore {
    /// The records, by identifier.
    pub closed spec fn view(&self) -> Map<KittyId, Kitty> {
        self.records@
    }

    /// A store without records.
    pub fn new() -> (store: KittyStore)
        ensures
            store@ == Map::<KittyId, Kitty>::empty(),
    {
        KittyStore { records: HashMap::new() }
    }

    /// The stored records' identifiers are finitely many.
    pub proof fn lemma_finite(&self)
        ensures
            self@.dom().finite(),
    {
    }

    /// The store that holds the listed records.
    pub fn from_entries(entries: &Vec<(KittyId, Kitty)>) -> (store: KittyStore)
        ensures
            store@ == map_of(entries@),
    {
        KittyStore { records: collect(entries) }
    }

    /// Stores a record under `id`, unless one is stored there already.
    pub fn create_record(
        &mut self,
        id: KittyId,
        dna: [u8; 16],
        name: [u8; 8],
    ) -> (created: Result<(), Error>)
        ensures
            old(self)@.contains_key(id) ==> {
                &&& created == Err::<(), Error>(Error::DuplicateIdentifier)
                &&& final(self)@ == old(self)@
            },
            !old(self)@.contains_key(id) ==> {
                &&& created == Ok::<(), Error>(())
                &&& final(self)@ == old(self)@.insert(id, (Kitty { dna, name }))
            },
    {
        if self.records.contains_key(&id) {
            Err(Error::DuplicateIdentifier)
        } else {
            self.records.insert(id, Kitty { dna, name });
            Ok(())
        }
    }

    /// The record stored under `id`, if there is one.
    pub fn get_record(&self, id: KittyId) -> (record: Option<Kitty>)
        ensures
            record == (if self@.contains_key(id) {
                Some(self@[id])
            } else {
                None
            }),
    {
        match self.records.get(&id) {
            Some(kitty) => Some(*kitty),
            None => None,
        }
    }

    /// Whether a record is stored under `id`.
    pub fn contains(&self, id: KittyId) -> (present: bool)
        ensures
            present == self@.contains_key(id),
    {
        self.records.contains_key(&id)
    }
}

/// Keeps, for each kitty that was bred, its two parents.
#[derive(Clone, Debug, PartialEq, Eq)]
pub struct LineageLedger {
    parents: HashMap<KittyId, (KittyId, KittyId)>,
}

impl LineageLedger {
    /// The parents on record, by the child's identifier.
    pub closed spec fn view(&self) -> Map<KittyId, (KittyId, KittyId)> {
        self.parents@
    }

    /// A ledger without entries.
    pub fn new() -> (ledger: LineageLedger)
        ensures
            ledger@ == Map::<KittyId, (KittyId, KittyId)>::empty(),
    {
        LineageLedger { parents: HashMap::new() }
    }

    /// The ledger that holds the listed entries.
    pub fn from_entries(entries: &Vec<(KittyId, (KittyId, KittyId))>) -> (ledger: LineageLedger)
        ensures
            ledger@ == map_of(entries@),
    {
        LineageLedger { parents: collect(entries) }
    }

    /// Puts the two parents of `id` on record.
    pub fn record_lineage(&mut self, id: KittyId, parent1: KittyId, parent2: KittyId)
        ensures
            final(self)@ == old(self)@.insert(id, (parent1, parent2)),
    {
        self.parents.insert(id, (parent1, parent2));
    }

    /// The parents of `id`, if it was bred.
    pub fn parents_of(&self, id: KittyId) -> (parents: Option<(KittyId, KittyId)>)
        ensures
            parents == (if self@.contains_key(id) {
                Some(self@[id])
            } else {
                None
            }),
    {
        match self.parents.get(&id) {
            Some(pair) => Some(*pair),
            None => None,
        }
    }
}

/// Keeps the owner of each kitty.
#[derive(Clone, Debug, PartialEq, Eq)]
pub struct OwnershipLedger {
    owners: HashMap<KittyId, AccountId>,
}

impl OwnershipLedger {
    /// The owners, by the kitty's identifier.
    pub closed spec fn view(&self) -> Map<KittyId, AccountId> {
        self.owners@
    }

    /// A ledger without entries.
    pub fn new() -> (ledger: OwnershipLedger)
        ensures
            ledger@ == Map::<KittyId, AccountId>::empty(),
    {
        OwnershipLedger { owners: HashMap::new() }
    }

    /// The ledger that holds the listed entries.
    pub fn from_entries(entries: &Vec<(KittyId, AccountId)>) -> (ledger: OwnershipLedger)
        ensures
            ledger@ == map_of(entries@),
    {
        OwnershipLedger { owners: collect(entries) }
    }

    /// The owner of `id`, if it has one.
    pub fn owner_of(&self, id: KittyId) -> (owner: Option<AccountId>)
        ensures
            owner == (if self@.contains_key(id) {
                Some(self@[id])
            } else {
                None
            }),
    {
        match self.owners.get(&id) {
            Some(owner) => Some(*owner),
            None => None,
        }
    }

    /// Makes `principal` the owner of `id`, whoever owned it before.
    pub fn set_owner(&mut self, id: KittyId, principal: AccountId)
        ensures
            final(self)@ == old(self)@.insert(id, principal),
    {
        self.owners.insert(id, principal);
    }

    /// Whether `principal` is the owner of `id`.
    pub fn is_owner(&self, id: KittyId, principal: AccountId) -> (owns: bool)
        ensures
            owns == (self@.contains_key(id) && self@[id] == principal),
    {
        match self.owners.get(&id) {
            Some(owner) => *owner == principal,
            None => false,
        }
    }
}

/// Keeps the kitties that are offered for sale.
#[derive(Clone, Debug, PartialEq, Eq)]
pub struct MarketplaceListings {
    listed: HashMap<KittyId, ()>,
}

impl MarketplaceListings {
    /// The identifiers that are for sale.
    pub closed spec fn view(&self) -> Set<KittyId> {
        self.listed@.dom()
    }

    /// A marketplace on which nothing is offered.
    pub fn new() -> (listings: MarketplaceListings)
        ensures
            listings@ == Set::<KittyId>::empty(),
    {
        MarketplaceListings { listed: HashMap::new() }
    }

    /// The marketplace on which the listed kitties are offered.
    pub fn from_entries(entries: &Vec<KittyId>) -> (listings: MarketplaceListings)
        ensures
            listings@ == entries@.to_set(),
    {
        let mut listed: HashMap<KittyId, ()> = HashMap::new();
        let mut i: usize = 0;
        while i < entries.len()
            invariant
                i <= entries.len(),
                listed@.dom() == entries@.take(i as int).to_set(),
            decreases entries.len() - i,
        {
            listed.insert(entries[i], ());
            i = i + 1;
            assert(entries@.take(i as int) =~= entries@.take(i - 1).push(entries@[i - 1]));
            assert(listed@.dom() =~= entries@.take(i as int).to_set()) by {
                assert forall|id: KittyId|
                    entries@.take(i as int).contains(id) <==> entries@.take(i - 1).contains(id)
                        || id == entries@[i - 1] by {
                    vstd::seq_lib::lemma_seq_contains_after_push(
                        entries@.take(i - 1),
                        entries@[i - 1],
                        id,
                    );
                }
            }
        }
        assert(entries@.take(entries.len() as int) =~= entries@);
        MarketplaceListings { listed }
    }

    /// Whether `id` is for sale.
    pub fn is_listed(&self, id: KittyId) -> (listed: bool)
        ensures
            listed == self@.contains(id),
    {
        self.listed.contains_key(&id)
    }

    /// Offers `id` for sale, unless it is offered already.
    pub fn list(&mut self, id: KittyId) -> (listed: Result<(), Error>)
        ensures
            old(self)@.contains(id) ==> {
                &&& listed == Err::<(), Error>(Error::AlreadyListed)
                &&& final(self)@ == old(self)@
            },
            !old(self)@.contains(id) ==> {
                &&& listed == Ok::<(), Error>(())
                &&& final(self)@ == old(self)@.insert(id)
            },
    {
        if self.listed.contains_key(&id) {
            Err(Error::AlreadyListed)
        } else {
            self.listed.insert(id, ());
            assert(self.listed@.dom() =~= old(self)@.insert(id));
            Ok(())
        }
    }

    /// Takes `id` off the market. Nothing happens if it was not offered.
    pub fn unlist(&mut self, id: KittyId)
        ensures
            final(self)@ == old(self)@.remove(id),
    {
        self.listed.remove(&id);
        assert(self.listed@.dom() =~= old(self)@.remove(id));
    }
}

} // verus!
