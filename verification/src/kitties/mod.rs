//! A registry of kitties: uniquely numbered records with a genetic payload,
//! one owner each, a marketplace on which they change hands for a fixed
//! price, and the forward migration of stored records between layouts.

pub mod genetics;
pub mod laws;
pub mod ledgers;
pub mod migrations;
pub mod pallet;
pub mod snapshot;
pub mod state;
pub mod types;
