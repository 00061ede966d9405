//! The step to layout 2, in which a record is a payload with a label of
//! eight bytes. It is taken from layout 0 or from layout 1; records that
//! are in layout 2 already are left alone.

use vstd::prelude::*;
use crate::kitties::migrations::Stored;
use crate::kitties::migrations::StoredKitties;
use crate::kitties::types::Kitty;
use crate::kitties::types::KittyId;
use crate::kitties::types::Weight;

verus! {

/// A record in layout 0: the payload alone.
#[allow(non_camel_case_types)]
#[derive(Clone, Copy, Debug, PartialEq, Eq)]
pub struct v0_Kitty(pub [u8; 16]);

/// A record in layout 1: the payload and a label of four bytes.
#[allow(non_camel_case_types)]
#[derive(Clone, Copy, Debug, PartialEq, Eq)]
pub struct v1_Kitty {
    pub dna: [u8; 16],
    pub name: [u8; 4],
}

/// The label that a record gets when it is brought to layout 2: the bytes
/// of `abcdefgh`.
pub open spec fn default_name() -> [u8; 8] {
    [97u8, 98u8, 99u8, 100u8, 101u8, 102u8, 103u8, 104u8]
}

/// A record of layout 0 in layout 2: its payload, under the default label.
pub open spec fn v0_to_v2(record: (KittyId, v0_Kitty)) -> (KittyId, Kitty) {
    (record.0, Kitty { dna: record.1.0, name: default_name() })
}

/// A record of layout 1 in layout 2: its payload, under the default label.
/// The label of four bytes is not carried over.
pub open spec fn v1_to_v2(record: (KittyId, v1_Kitty)) -> (KittyId, Kitty) {
    (record.0, Kitty { dna: record.1.dna, name: default_name() })
}

/// The store after the step from layout 0 towards `current_version`: every
/// record rewritten where the store is in layout 0 and layout 2 is asked
/// for, the store as it was otherwise.
pub open spec fn v0_v2_spec(store: Stored, current_version: u16) -> Stored {
    match store {
        Stored::V0(records) => if current_version == 2 {
            Stored::V2(records.map_values(|r: (KittyId, v0_Kitty)| v0_to_v2(r)))
        } else {
            store
        },
        _ => store,
    }
}

/// The store after the step from layout 1 towards `current_version`: every
/// record rewritten where the store is in layout 1 and layout 2 is asked
/// for, the store as it was otherwise.
pub open spec fn v1_v2_spec(store: Stored, current_version: u16) -> Stored {
    match store {
        Stored::V1(records) => if current_version == 2 {
            Stored::V2(records.map_values(|r: (KittyId, v1_Kitty)| v1_to_v2(r)))
        } else {
            store
        },
        _ => store,
    }
}

/// The store after the migration towards `current_version`: the step from
/// layout 0 for a store in layout 0, the step from layout 1 for one in
/// layout 1, and nothing for any other.
pub open spec fn migrate_spec(store: Stored, current_version: u16) -> Stored {
    match store {
        Stored::V0(_) => v0_v2_spec(store, current_version),
        Stored::V1(_) => v1_v2_spec(store, current_version),
        Stored::V2(_) => store,
    }
}

/// The default label.
fn default_label() -> (name: [u8; 8])
    ensures
        name == default_name(),
{
    let name: [u8; 8] = [97u8, 98u8, 99u8, 100u8, 101u8, 102u8, 103u8, 104u8];
    assert(name =~= default_name());
    name
}

/// The records of a store in layout 0, rewritten in layout 2.
fn rewrite_v0(records: &Vec<(KittyId, v0_Kitty)>) -> (migrated: Vec<(KittyId, Kitty)>)
    ensures
        migrated@ == records@.map_values(|r: (KittyId, v0_Kitty)| v0_to_v2(r)),
{
    let mut migrated: Vec<(KittyId, Kitty)> = Vec::new();
    let mut i: usize = 0;
    while i < records.len()
        invariant
            i <= records.len(),
            migrated@ == records@.take(i as int).map_values(|r: (KittyId, v0_Kitty)| v0_to_v2(r)),
        decreases records.len() - i,
    {
        let (index, kitty) = records[i];
        migrated.push((index, Kitty { dna: kitty.0, name: default_label() }));
        i = i + 1;
        assert(migrated@ =~= records@.take(i as int).map_values(
            |r: (KittyId, v0_Kitty)| v0_to_v2(r),
        ));
    }
    assert(records@.take(records.len() as int) =~= records@);
    migrated
}

/// The records of a store in layout 1, rewritten in layout 2.
fn rewrite_v1(records: &Vec<(KittyId, v1_Kitty)>) -> (migrated: Vec<(KittyId, Kitty)>)
    ensures
        migrated@ == records@.map_values(|r: (KittyId, v1_Kitty)| v1_to_v2(r)),
{
    let mut migrated: Vec<(KittyId, Kitty)> = Vec::new();
    let mut i: usize = 0;
    while i < records.len()
        invariant
            i <= records.len(),
            migrated@ == records@.take(i as int).map_values(|r: (KittyId, v1_Kitty)| v1_to_v2(r)),
        decreases records.len() - i,
    {
        let (index, kitty) = records[i];
        migrated.push((index, Kitty { dna: kitty.dna, name: default_label() }));
        i = i + 1;
        assert(migrated@ =~= records@.take(i as int).map_values(
            |r: (KittyId, v1_Kitty)| v1_to_v2(r),
        ));
    }
    assert(records@.take(records.len() as int) =~= records@);
    migrated
}

/// Brings a store in layout 0 to layout 2, where `current_version` is 2:
/// every record keeps its identifier and its payload and gets the default
/// label. Any other store, and any other target, is left as it is.
pub fn v0_v2(store: &mut StoredKitties, current_version: u16) -> (weight: Weight)
    ensures
        final(store)@ == v0_v2_spec(old(store)@, current_version),
        weight == (Weight { ref_time: 0, proof_size: 0 }),
{
    let on_chain_version: u16 = store.on_chain_storage_version();
    if on_chain_version != 0 {
        return Weight::zero();
    }
    if current_version != 2 {
        return Weight::zero();
    }
    let migrated: Option<Vec<(KittyId, Kitty)>> = match store {
        StoredKitties::V0(records) => Some(rewrite_v0(records)),
        _ => None,
    };
    match migrated {
        Some(records) => {
            *store = StoredKitties::V2(records);
        },
        None => {},
    }
    Weight::zero()
}

/// Brings a store in layout 1 to layout 2, where `current_version` is 2:
/// every record keeps its identifier and its payload and gets the default
/// label in place of its own. Any other store, and any other target, is
/// left as it is.
pub fn v1_v2(store: &mut StoredKitties, current_version: u16) -> (weight: Weight)
    ensures
        final(store)@ == v1_v2_spec(old(store)@, current_version),
        weight == (Weight { ref_time: 0, proof_size: 0 }),
{
    let on_chain_version: u16 = store.on_chain_storage_version();
    if on_chain_version != 1 {
        return Weight::zero();
    }
    if current_version != 2 {
        return Weight::zero();
    }
    let migrated: Option<Vec<(KittyId, Kitty)>> = match store {
        StoredKitties::V1(records) => Some(rewrite_v1(records)),
        _ => None,
    };
    match migrated {
        Some(records) => {
            *store = StoredKitties::V2(records);
        },
        None => {},
    }
    Weight::zero()
}

/// Brings the store to layout 2 from whichever earlier layout it is in. A
/// store in layout 2 is left as it is.
pub fn migrate(store: &mut StoredKitties, current_version: u16) -> (weight: Weight)
    ensures
        final(store)@ == migrate_spec(old(store)@, current_version),
        weight == (Weight { ref_time: 0, proof_size: 0 }),
{
    let on_chain_version: u16 = store.on_chain_storage_version();
    if on_chain_version == 0 {
        return v0_v2(store, current_version);
    }
    if on_chain_version == 1 {
        return v1_v2(store, current_version);
    }
    Weight::zero()
}

} // verus!
