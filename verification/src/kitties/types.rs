//! The values that the registry stores, reports and refuses with.

use vstd::prelude::*;

verus! {

/// The number under which a kitty is kept. Numbers are handed out in
/// increasing order and never reused.
pub type KittyId = u32;

/// An already authenticated principal.
pub type AccountId = u64;

/// An amount of the fungible token in which kitties are priced.
pub type Balance = u128;

/// `sp_runtime::DispatchError`, the error of the runtime's dispatch
/// machinery. Nothing is claimed of what one holds: the registry never looks
/// inside, it only carries the funds ledger's refusal back to the caller.
#[verifier::external_type_specification]
#[verifier::external_body]
pub struct ExDispatchError(sp_runtime::DispatchError);

/// A record of the registry: a 16-byte genetic payload and an 8-byte display
/// label. A record never changes once it is stored.
#[derive(Clone, Copy, Debug, PartialEq, Eq)]
pub struct Kitty {
    pub dna: [u8; 16],
    pub name: [u8; 8],
}

/// Why an operation was refused. A refused operation changes nothing.
#[derive(Clone, Copy, Debug, PartialEq, Eq)]
pub enum Error {
    /// Every identifier has been handed out.
    IdentifierOverflow,
    /// No kitty is kept under the identifier.
    UnknownIdentifier,
    /// Both parents are the same kitty.
    SameIdentifier,
    /// A kitty is already kept under the identifier.
    DuplicateIdentifier,
    /// The caller does not own the kitty.
    NotOwner,
    /// The caller already owns the kitty.
    AlreadyOwner,
    /// The kitty is already offered for sale.
    AlreadyListed,
    /// The kitty is not offered for sale.
    NotListed,
    /// The funds ledger refused the payment, for the reason carried along.
    ExternalTransferFailed(sp_runtime::DispatchError),
}

/// What a successful operation announces.
#[derive(Clone, Copy, Debug, PartialEq, Eq)]
pub enum Event {
    /// A kitty was created or bred and given to `owner`.
    RecordCreated { owner: AccountId, id: KittyId, record: Kitty },
    /// `from` handed the kitty over to `to`.
    RecordTransferred { from: AccountId, to: AccountId, id: KittyId },
    /// `owner` offered the kitty for sale.
    RecordListed { owner: AccountId, id: KittyId },
}

/// A payment that the funds ledger is asked to make.
#[derive(Clone, Copy, Debug, PartialEq, Eq)]
pub struct Payment {
    pub source: AccountId,
    pub dest: AccountId,
    pub value: Balance,
}

/// The cost that a migration reports to the runtime.
#[derive(Clone, Copy, Debug, PartialEq, Eq)]
pub struct Weight {
    pub ref_time: u64,
    pub proof_size: u64,
}

impl Weight {
    /// The weight of work that costs nothing.
    pub fn zero() -> (weight: Weight)
        ensures
            weight == (Weight { ref_time: 0, proof_size: 0 }),
    {
        Weight { ref_time: 0, proof_size: 0 }
    }
}

} // verus!
