//! The step from layout 0 to layout 1, in which a record is a payload with
//! a label of four bytes.

use vstd::prelude::*;
use crate::kitties::migrations::Stored;
use crate::kitties::migrations::StoredKitties;
use crate::kitties::migrations::v2::v0_Kitty;
use crate::kitties::migrations::v2::v1_Kitty;
use crate::kitties::types::KittyId;
use crate::kitties::types::Weight;

verus! {

/// A record as it was stored before records had a label: the payload alone.
#[allow(non_camel_case_types)]
#[derive(Clone, Copy, Debug, PartialEq, Eq)]
pub struct oldKitty(pub [u8; 16]);

/// The label that a record gets when it is brought to layout 1: the bytes
/// of `abcd`.
pub open spec fn default_name() -> [u8; 4] {
    [97u8, 98u8, 99u8, 100u8]
}

/// A record of layout 0 in layout 1: its payload, under the default label.
pub open spec fn v0_to_v1(record: (KittyId, v0_Kitty)) -> (KittyId, v1_Kitty) {
    (record.0, v1_Kitty { dna: record.1.0, name: default_name() })
}

/// The store after the step from layout 0 towards `current_version`: every
/// record rewritten where the store is in layout 0 and layout 1 is asked
/// for, the store as it was otherwise.
pub open spec fn migrate_spec(store: Stored, current_version: u16) -> Stored {
    match store {
        Stored::V0(records) => if current_version == 1 {
            Stored::V1(records.map_values(|r: (KittyId, v0_Kitty)| v0_to_v1(r)))
        } else {
            store
        },
        _ => store,
    }
}

/// The default label.
fn default_label() -> (name: [u8; 4])
    ensures
        name == default_name(),
{
    let name: [u8; 4] = [97u8, 98u8, 99u8, 100u8];
    assert(name =~= default_name());
    name
}

/// The records of a store in layout 0, rewritten in layout 1.
fn rewrite(records: &Vec<(KittyId, v0_Kitty)>) -> (migrated: Vec<(KittyId, v1_Kitty)>)
    ensures
        migrated@ == records@.map_values(|r: (KittyId, v0_Kitty)| v0_to_v1(r)),
{
    let mut migrated: Vec<(KittyId, v1_Kitty)> = Vec::new();
    let mut i: usize = 0;
    while i < records.len()
        invariant
            i <= records.len(),
            migrated@ == records@.take(i as int).map_values(|r: (KittyId, v0_Kitty)| v0_to_v1(r)),
        decreases records.len() - i,
    {
        let (index, stored) = records[i];
        let kitty = oldKitty(stored.0);
        migrated.push((index, v1_Kitty { dna: kitty.0, name: default_label() }));
        i = i + 1;
        assert(migrated@ =~= records@.take(i as int).map_values(
            |r: (KittyId, v0_Kitty)| v0_to_v1(r),
        ));
    }
    assert(records@.take(records.len() as int) =~= records@);
    migrated
}

/// Brings a store in layout 0 to layout 1, where `current_version` is 1:
/// every record keeps its identifier and its payload and gets the default
/// label. Any other store, and any other target, is left as it is.
pub fn migrate(store: &mut StoredKitties, current_version: u16) -> (weight: Weight)
    ensures
        final(store)@ == migrate_spec(old(store)@, current_version),
        weight == (Weight { ref_time: 0, proof_size: 0 }),
{
    let on_chain_version: u16 = store.on_chain_storage_version();
    if on_chain_version != 0 {
        return Weight::zero();
    }
    if current_version != 1 {
        return Weight::zero();
    }
    let migrated: Option<Vec<(KittyId, v1_Kitty)>> = match store {
        StoredKitties::V0(records) => Some(rewrite(records)),
        _ => None,
    };
    match migrated {
        Some(records) => {
            *store = StoredKitties::V1(records);
        },
        None => {},
    }
    Weight::zero()
}

} // verus!
