//! The registry as a mathematical value, and the transitions that the
//! operations make on it.

use vstd::prelude::*;
use sp_runtime::DispatchError;
use crate::kitties::genetics::mix_dna;
use crate::kitties::types::AccountId;
use crate::kitties::types::Balance;
use crate::kitties::types::Error;
use crate::kitties::types::Event;
use crate::kitties::types::Kitty;
use crate::kitties::types::KittyId;
use crate::kitties::types::Payment;

verus! {

/// Everything that the registry keeps.
#[verifier::ext_equal]
pub struct RegistryState {
    /// What a kitty costs.
    pub kitty_price: Balance,
    /// The account that is paid for a new kitty.
    pub account_id: AccountId,
    /// The identifier that the next kitty gets.
    pub next_kitty_id: KittyId,
    /// The kitties, by identifier.
    pub kitties: Map<KittyId, Kitty>,
    /// Who owns each kitty.
    pub kitty_owner: Map<KittyId, AccountId>,
    /// The two parents of each kitty that was bred.
    pub kitty_parents: Map<KittyId, (KittyId, KittyId)>,
    /// The kitties that are offered for sale.
    pub kitties_on_sale: Set<KittyId>,
}

impl RegistryState {
    /// A registry that holds nothing yet.
    pub open spec fn empty(kitty_price: Balance, account_id: AccountId) -> RegistryState {
        RegistryState {
            kitty_price,
            account_id,
            next_kitty_id: 0,
            kitties: Map::empty(),
            kitty_owner: Map::empty(),
            kitty_parents: Map::empty(),
            kitties_on_sale: Set::empty(),
        }
    }

    /// Whether a kitty is kept under `id`.
    pub open spec fn exists_kitty(self, id: KittyId) -> bool {
        self.kitties.contains_key(id)
    }

    /// Whether `who` owns the kitty `id`.
    pub open spec fn owns(self, who: AccountId, id: KittyId) -> bool {
        self.kitty_owner.contains_key(id) && self.kitty_owner[id] == who
    }

    /// Whether another identifier can be handed out.
    pub open spec fn has_capacity(self) -> bool {
        self.next_kitty_id < KittyId::MAX
    }

    /// What always holds of a registry: exactly the kitties have an owner;
    /// only kitties are for sale; only kitties have parents on record, two
    /// different ones that are kitties themselves; and every identifier in
    /// use lies below the next one to be handed out.
    pub open spec fn wf(self) -> bool {
        &&& self.kitties.dom().finite()
        &&& self.kitty_owner.dom() == self.kitties.dom()
        &&& self.kitties_on_sale.subset_of(self.kitties.dom())
        &&& self.kitty_parents.dom().subset_of(self.kitties.dom())
        &&& forall|id: KittyId| #[trigger]
            self.kitty_parents.contains_key(id) ==> {
                &&& self.kitty_parents[id].0 != self.kitty_parents[id].1
                &&& self.kitties.contains_key(self.kitty_parents[id].0)
                &&& self.kitties.contains_key(self.kitty_parents[id].1)
            }
        &&& forall|id: KittyId| #[trigger] self.kitties.contains_key(id) ==> id < self.next_kitty_id
    }

    /// The registry after `kitty` was stored under the next identifier and
    /// given to `owner`, with `parents` on record if it was bred.
    pub open spec fn minted(
        self,
        owner: AccountId,
        kitty: Kitty,
        parents: Option<(KittyId, KittyId)>,
    ) -> RegistryState {
        RegistryState {
            next_kitty_id: (self.next_kitty_id + 1) as KittyId,
            kitties: self.kitties.insert(self.next_kitty_id, kitty),
            kitty_owner: self.kitty_owner.insert(self.next_kitty_id, owner),
            kitty_parents: match parents {
                Some(pair) => self.kitty_parents.insert(self.next_kitty_id, pair),
                None => self.kitty_parents,
            },
            ..self
        }
    }

    /// The registry after the kitty `id` was handed to `to`.
    pub open spec fn transferred(self, id: KittyId, to: AccountId) -> RegistryState {
        RegistryState { kitty_owner: self.kitty_owner.insert(id, to), ..self }
    }

    /// The registry after the kitty `id` was offered for sale.
    pub open spec fn listed(self, id: KittyId) -> RegistryState {
        RegistryState { kitties_on_sale: self.kitties_on_sale.insert(id), ..self }
    }

    /// The registry after `buyer` bought the kitty `id`: the kitty is the
    /// buyer's and is no longer for sale.
    pub open spec fn sold(self, id: KittyId, buyer: AccountId) -> RegistryState {
        RegistryState {
            kitty_owner: self.kitty_owner.insert(id, buyer),
            kitties_on_sale: self.kitties_on_sale.remove(id),
            ..self
        }
    }

    /// What creating a kitty costs `sender`, or why none can be created: no
    /// identifier is left.
    pub open spec fn create_payment(self, sender: AccountId) -> Result<Payment, Error> {
        if !self.has_capacity() {
            Err(Error::IdentifierOverflow)
        } else {
            Ok(Payment { source: sender, dest: self.account_id, value: self.kitty_price })
        }
    }

    /// What breeding `id1` with `id2` costs `sender`, or why they cannot be
    /// bred: they are the same, one of them is no kitty, or no identifier is
    /// left, in this order.
    pub open spec fn breed_payment(
        self,
        sender: AccountId,
        id1: KittyId,
        id2: KittyId,
    ) -> Result<Payment, Error> {
        if id1 == id2 {
            Err(Error::SameIdentifier)
        } else if !self.exists_kitty(id1) || !self.exists_kitty(id2) {
            Err(Error::UnknownIdentifier)
        } else if !self.has_capacity() {
            Err(Error::IdentifierOverflow)
        } else {
            Ok(Payment { source: sender, dest: self.account_id, value: self.kitty_price })
        }
    }

    /// What `sender` pays to whom for the kitty `id`, or why it cannot be
    /// bought: it is no kitty, it is the sender's already, or it is not for
    /// sale, in this order.
    pub open spec fn buy_payment(self, sender: AccountId, id: KittyId) -> Result<Payment, Error> {
        if !self.exists_kitty(id) || !self.kitty_owner.contains_key(id) {
            Err(Error::UnknownIdentifier)
        } else if self.kitty_owner[id] == sender {
            Err(Error::AlreadyOwner)
        } else if !self.kitties_on_sale.contains(id) {
            Err(Error::NotListed)
        } else {
            Ok(Payment { source: sender, dest: self.kitty_owner[id], value: self.kitty_price })
        }
    }

    /// Creating a kitty with the payload `dna` for `sender`, once the funds
    /// ledger has answered `paid`: what is reported and what the registry is
    /// afterwards.
    pub open spec fn create_outcome(
        self,
        sender: AccountId,
        name: [u8; 8],
        dna: [u8; 16],
        paid: Result<(), DispatchError>,
    ) -> (Result<Event, Error>, RegistryState) {
        match (self.create_payment(sender), paid) {
            (Err(refusal), _) => (Err(refusal), self),
            (Ok(_), Err(reason)) => (Err(Error::ExternalTransferFailed(reason)), self),
            (Ok(_), Ok(_)) => {
                let record = Kitty { dna, name };
                (
                    Ok(Event::RecordCreated { owner: sender, id: self.next_kitty_id, record }),
                    self.minted(sender, record, None),
                )
            },
        }
    }

    /// Breeding `id1` with `id2` under `selector` for `sender`, once the
    /// funds ledger has answered `paid`: what is reported and what the
    /// registry is afterwards.
    pub open spec fn breed_outcome(
        self,
        sender: AccountId,
        id1: KittyId,
        id2: KittyId,
        name: [u8; 8],
        selector: [u8; 16],
        paid: Result<(), DispatchError>,
    ) -> (Result<Event, Error>, RegistryState) {
        match (self.breed_payment(sender, id1, id2), paid) {
            (Err(refusal), _) => (Err(refusal), self),
            (Ok(_), Err(reason)) => (Err(Error::ExternalTransferFailed(reason)), self),
            (Ok(_), Ok(_)) => {
                let dna = mix_dna(self.kitties[id1].dna, self.kitties[id2].dna, selector);
                let record = Kitty { dna, name };
                (
                    Ok(Event::RecordCreated { owner: sender, id: self.next_kitty_id, record }),
                    self.minted(sender, record, Some((id1, id2))),
                )
            },
        }
    }

    /// Handing the kitty `id` from `sender` to `to`: what is reported and
    /// what the registry is afterwards.
    pub open spec fn transfer_outcome(
        self,
        sender: AccountId,
        to: AccountId,
        id: KittyId,
    ) -> (Result<Event, Error>, RegistryState) {
        if !self.kitty_owner.contains_key(id) {
            (Err(Error::UnknownIdentifier), self)
        } else if self.kitty_owner[id] != sender {
            (Err(Error::NotOwner), self)
        } else {
            (Ok(Event::RecordTransferred { from: sender, to, id }), self.transferred(id, to))
        }
    }

    /// Offering the kitty `id` for sale by `sender`: what is reported and
    /// what the registry is afterwards.
    pub open spec fn sale_outcome(
        self,
        sender: AccountId,
        id: KittyId,
    ) -> (Result<Event, Error>, RegistryState) {
        if !self.exists_kitty(id) || !self.kitty_owner.contains_key(id) {
            (Err(Error::UnknownIdentifier), self)
        } else if self.kitty_owner[id] != sender {
            (Err(Error::NotOwner), self)
        } else if self.kitties_on_sale.contains(id) {
            (Err(Error::AlreadyListed), self)
        } else {
            (Ok(Event::RecordListed { owner: sender, id }), self.listed(id))
        }
    }

    /// Buying the kitty `id` for `sender`, once the funds ledger has
    /// answered `paid`: what is reported and what the registry is afterwards.
    pub open spec fn buy_outcome(
        self,
        sender: AccountId,
        id: KittyId,
        paid: Result<(), DispatchError>,
    ) -> (Result<(), Error>, RegistryState) {
        match (self.buy_payment(sender, id), paid) {
            (Err(refusal), _) => (Err(refusal), self),
            (Ok(_), Err(reason)) => (Err(Error::ExternalTransferFailed(reason)), self),
            (Ok(_), Ok(_)) => (Ok(()), self.sold(id, sender)),
        }
    }
}

} // verus!
