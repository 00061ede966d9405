//! Bringing stored records forward from the layout of an earlier release to
//! the current one.

use vstd::prelude::*;
use crate::kitties::types::Kitty;
use crate::kitties::types::KittyId;

pub mod v1;
pub mod v2;

verus! {

/// The layout that this release stores records in.
pub const STORAGE_VERSION: u16 = 2;

/// The stored records together with the layout they are stored in: payload
/// only, payload with a label of four bytes, or payload with a label of
/// eight bytes. The records stand in the order in which the store yields
/// them.
#[derive(Clone, Debug, PartialEq, Eq)]
pub enum StoredKitties {
    V0(Vec<(KittyId, v2::v0_Kitty)>),
    V1(Vec<(KittyId, v2::v1_Kitty)>),
    V2(Vec<(KittyId, Kitty)>),
}

/// A store of records as a mathematical value.
pub enum Stored {
    V0(Seq<(KittyId, v2::v0_Kitty)>),
    V1(Seq<(KittyId, v2::v1_Kitty)>),
    V2(Seq<(KittyId, Kitty)>),
}

impl Stored {
    /// The number of the layout that the records are stored in.
    pub open spec fn version(self) -> u16 {
        match self {
            Stored::V0(_) => 0,
            Stored::V1(_) => 1,
            Stored::V2(_) => 2,
        }
    }

    /// The identifiers of the stored records, in the store's order.
    pub open spec fn ids(self) -> Seq<KittyId> {
        match self {
            Stored::V0(records) => records.map_values(|r: (KittyId, v2::v0_Kitty)| r.0),
            Stored::V1(records) => records.map_values(|r: (KittyId, v2::v1_Kitty)| r.0),
            Stored::V2(records) => records.map_values(|r: (KittyId, Kitty)| r.0),
        }
    }

    /// The payloads of the stored records, in the store's order.
    pub open spec fn dnas(self) -> Seq<[u8; 16]> {
        match self {
            Stored::V0(records) => records.map_values(|r: (KittyId, v2::v0_Kitty)| r.1.0),
            Stored::V1(records) => records.map_values(|r: (KittyId, v2::v1_Kitty)| r.1.dna),
            Stored::V2(records) => records.map_values(|r: (KittyId, Kitty)| r.1.dna),
        }
    }
}

impl StoredKitties {
    /// The store as a mathematical value.
    pub open spec fn view(&self) -> Stored {
        match *self {
            StoredKitties::V0(records) => Stored::V0(records@),
            StoredKitties::V1(records) => Stored::V1(records@),
            StoredKitties::V2(records) => Stored::V2(records@),
        }
    }

    /// The number of the layout that the records are stored in.
    pub fn on_chain_storage_version(&self) -> (version: u16)
        ensures
            version == self@.version(),
    {
        match self {
            StoredKitties::V0(_) => 0,
            StoredKitties::V1(_) => 1,
            StoredKitties::V2(_) => 2,
        }
    }
}

} // verus!
