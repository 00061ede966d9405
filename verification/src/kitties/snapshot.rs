//! The registry as it is persisted: the counter, and each mapping as the
//! list of its entries.

use vstd::prelude::*;
use crate::kitties::state::RegistryState;
use crate::kitties::types::AccountId;
use crate::kitties::types::Balance;
use crate::kitties::types::Kitty;
use crate::kitties::types::KittyId;

verus! {

/// The mapping that a list of entries stands for. Where an identifier
/// occurs more than once, its last entry counts.
pub open spec fn map_of<V>(entries: Seq<(KittyId, V)>) -> Map<KittyId, V>
    decreases entries.len(),
{
    if entries.len() == 0 {
        Map::empty()
    } else {
        map_of(entries.drop_last()).insert(entries.last().0, entries.last().1)
    }
}

/// The identifiers of a mapping are those of its entries.
pub proof fn lemma_map_of_keys<V>(entries: Seq<(KittyId, V)>, id: KittyId)
    ensures
        map_of(entries).contains_key(id) <==> exists|i: int|
            0 <= i < entries.len() && (#[trigger] entries[i]).0 == id,
        map_of(entries).dom().finite(),
    decreases entries.len(),
{
    if entries.len() > 0 {
        let front = entries.drop_last();
        lemma_map_of_keys(front, id);
        if map_of(entries).contains_key(id) {
            if entries.last().0 == id {
                assert(entries[entries.len() - 1].0 == id);
            } else {
                let i = choose|i: int| 0 <= i < front.len() && (#[trigger] front[i]).0 == id;
                assert(entries[i].0 == id);
            }
        }
        if exists|i: int| 0 <= i < entries.len() && (#[trigger] entries[i]).0 == id {
            let i = choose|i: int| 0 <= i < entries.len() && (#[trigger] entries[i]).0 == id;
            if i < entries.len() - 1 {
                assert(front[i].0 == id);
            }
        }
    }
}

/// The parts of a registry.
#[derive(Clone, Debug, PartialEq, Eq)]
pub struct Snapshot {
    /// What a kitty costs.
    pub kitty_price: Balance,
    /// The account that is paid for a new kitty.
    pub account_id: AccountId,
    /// The identifier that the next kitty gets.
    pub next_kitty_id: KittyId,
    /// The kitties, each under its identifier.
    pub kitties: Vec<(KittyId, Kitty)>,
    /// The owner of each kitty.
    pub kitty_owner: Vec<(KittyId, AccountId)>,
    /// The parents of each kitty that was bred.
    pub kitty_parents: Vec<(KittyId, (KittyId, KittyId))>,
    /// The kitties that are offered for sale.
    pub kitties_on_sale: Vec<KittyId>,
}

impl Snapshot {
    /// The registry that the parts stand for.
    pub open spec fn state(&self) -> RegistryState {
        RegistryState {
            kitty_price: self.kitty_price,
            account_id: self.account_id,
            next_kitty_id: self.next_kitty_id,
            kitties: map_of(self.kitties@),
            kitty_owner: map_of(self.kitty_owner@),
            kitty_parents: map_of(self.kitty_parents@),
            kitties_on_sale: self.kitties_on_sale@.to_set(),
        }
    }
}

} // verus!
