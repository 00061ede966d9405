//! The logic of three runtime modules, each with what it guarantees: a
//! registry and marketplace of kitties, a ledger of claims on documents,
//! and the data handling of an off-chain worker.

pub mod kitties;
pub mod poe;
pub mod template;
