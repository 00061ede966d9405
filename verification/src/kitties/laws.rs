//! What holds of the registry whatever is asked of it, stated over the
//! registry as a mathematical value and proved.

use vstd::prelude::*;
use sp_runtime::DispatchError;
use crate::kitties::genetics::mix_dna;
use crate::kitties::migrations::Stored;
use crate::kitties::migrations::v1;
use crate::kitties::migrations::v2;
use crate::kitties::state::RegistryState;
use crate::kitties::types::AccountId;
use crate::kitties::types::Error;
use crate::kitties::types::Event;
use crate::kitties::types::Kitty;
use crate::kitties::types::KittyId;
use crate::kitties::types::Payment;

verus! {

/// One operation as it reaches the registry, together with what the runtime
/// contributed to it: the payload or selector that was drawn, and the funds
/// ledger's answer.
pub enum Call {
    Create { sender: AccountId, name: [u8; 8], dna: [u8; 16], paid: Result<(), DispatchError> },
    Breed {
        sender: AccountId,
        id1: KittyId,
        id2: KittyId,
        name: [u8; 8],
        selector: [u8; 16],
        paid: Result<(), DispatchError>,
    },
    Transfer { sender: AccountId, to: AccountId, id: KittyId },
    Sale { sender: AccountId, id: KittyId },
    Buy { sender: AccountId, id: KittyId, paid: Result<(), DispatchError> },
}

/// The registry after one call.
pub open spec fn after(state: RegistryState, call: Call) -> RegistryState {
    match call {
        Call::Create { sender, name, dna, paid } => state.create_outcome(sender, name, dna, paid).1,
        Call::Breed { sender, id1, id2, name, selector, paid } => state.breed_outcome(
            sender,
            id1,
            id2,
            name,
            selector,
            paid,
        ).1,
        Call::Transfer { sender, to, id } => state.transfer_outcome(sender, to, id).1,
        Call::Sale { sender, id } => state.sale_outcome(sender, id).1,
        Call::Buy { sender, id, paid } => state.buy_outcome(sender, id, paid).1,
    }
}

/// The identifier of the kitty whose creation is reported, if one is.
pub open spec fn created_id(reported: Result<Event, Error>) -> Option<KittyId> {
    match reported {
        Ok(Event::RecordCreated { id, .. }) => Some(id),
        _ => None,
    }
}

/// The identifier under which a call stored a kitty, if it stored one.
pub open spec fn minted_id(state: RegistryState, call: Call) -> Option<KittyId> {
    match call {
        Call::Create { sender, name, dna, paid } => created_id(
            state.create_outcome(sender, name, dna, paid).0,
        ),
        Call::Breed { sender, id1, id2, name, selector, paid } => created_id(
            state.breed_outcome(sender, id1, id2, name, selector, paid).0,
        ),
        _ => None,
    }
}

/// The registry after a sequence of calls, the first call first.
pub open spec fn after_all(state: RegistryState, calls: Seq<Call>) -> RegistryState
    decreases calls.len(),
{
    if calls.len() == 0 {
        state
    } else {
        after(after_all(state, calls.drop_last()), calls.last())
    }
}

/// How many of a sequence of calls stored a kitty.
pub open spec fn minted_count(state: RegistryState, calls: Seq<Call>) -> nat
    decreases calls.len(),
{
    if calls.len() == 0 {
        0
    } else {
        let before = after_all(state, calls.drop_last());
        minted_count(state, calls.drop_last()) + if minted_id(before, calls.last()) is Some {
            1nat
        } else {
            0nat
        }
    }
}

/// No call takes a registry out of the states in which its invariants hold.
pub proof fn lemma_call_keeps_invariants(state: RegistryState, call: Call)
    requires
        state.wf(),
    ensures
        after(state, call).wf(),
{
    let next = after(state, call);
    match call {
        Call::Create { sender, name, dna, paid } => {},
        Call::Breed { sender, id1, id2, name, selector, paid } => {},
        Call::Transfer { sender, to, id } => {
            if state.transfer_outcome(sender, to, id).0 is Ok {
                assert(next.kitty_owner.dom() =~= state.kitty_owner.dom());
            }
        },
        Call::Sale { sender, id } => {},
        Call::Buy { sender, id, paid } => {
            if state.buy_outcome(sender, id, paid).0 is Ok {
                assert(next.kitty_owner.dom() =~= state.kitty_owner.dom());
            }
        },
    }
}

/// No sequence of calls takes a registry out of the states in which its
/// invariants hold.
pub proof fn lemma_calls_keep_invariants(state: RegistryState, calls: Seq<Call>)
    requires
        state.wf(),
    ensures
        after_all(state, calls).wf(),
    decreases calls.len(),
{
    if calls.len() > 0 {
        lemma_calls_keep_invariants(state, calls.drop_last());
        lemma_call_keeps_invariants(after_all(state, calls.drop_last()), calls.last());
    }
}

/// A call that stores a kitty stores it under the identifier that was next,
/// and moves the next identifier up by one. A call that stores none leaves
/// the next identifier and the kitties as they were.
pub proof fn lemma_identifier_of_call(state: RegistryState, call: Call)
    ensures
        minted_id(state, call) matches Some(id) ==> id == state.next_kitty_id
            && state.next_kitty_id < KittyId::MAX && after(state, call).next_kitty_id
            == state.next_kitty_id + 1 && after(state, call).kitties.contains_key(id),
        minted_id(state, call) is None ==> after(state, call).next_kitty_id == state.next_kitty_id
            && after(state, call).kitties == state.kitties,
{
}

/// Identifiers are handed out in increasing order from the one that was
/// next: after a sequence of calls the next identifier has moved up by the
/// number of calls that stored a kitty. From an empty registry it is that
/// number.
pub proof fn lemma_identifiers_count_kitties(state: RegistryState, calls: Seq<Call>)
    ensures
        after_all(state, calls).next_kitty_id == state.next_kitty_id + minted_count(state, calls),
        state.next_kitty_id == 0 ==> after_all(state, calls).next_kitty_id == minted_count(
            state,
            calls,
        ),
    decreases calls.len(),
{
    if calls.len() > 0 {
        lemma_identifiers_count_kitties(state, calls.drop_last());
        lemma_identifier_of_call(after_all(state, calls.drop_last()), calls.last());
    }
}

/// The next identifier never falls: after all of a sequence of calls it is
/// at least what it was after the first `k` of them.
pub proof fn lemma_next_identifier_never_falls(state: RegistryState, calls: Seq<Call>, k: int)
    requires
        0 <= k <= calls.len(),
    ensures
        after_all(state, calls.take(k)).next_kitty_id <= after_all(state, calls).next_kitty_id,
    decreases calls.len() - k,
{
    if k < calls.len() {
        lemma_next_identifier_never_falls(state, calls, k + 1);
        assert(calls.take(k + 1).drop_last() =~= calls.take(k));
        lemma_identifier_of_call(after_all(state, calls.take(k)), calls[k]);
    } else {
        assert(calls.take(k) =~= calls);
    }
}

/// The identifiers handed out grow strictly: of two calls that stored a
/// kitty, the later one stored it under the greater identifier.
pub proof fn lemma_identifiers_increase(state: RegistryState, calls: Seq<Call>, i: int, j: int)
    requires
        0 <= i < j < calls.len(),
        minted_id(after_all(state, calls.take(i)), calls[i]) is Some,
        minted_id(after_all(state, calls.take(j)), calls[j]) is Some,
    ensures
        minted_id(after_all(state, calls.take(i)), calls[i])->Some_0 < minted_id(
            after_all(state, calls.take(j)),
            calls[j],
        )->Some_0,
{
    let before_i = after_all(state, calls.take(i));
    let before_j = after_all(state, calls.take(j));
    lemma_identifier_of_call(before_i, calls[i]);
    lemma_identifier_of_call(before_j, calls[j]);
    assert(calls.take(i + 1).drop_last() =~= calls.take(i));
    assert(calls.take(j).take(i + 1) =~= calls.take(i + 1));
    lemma_next_identifier_never_falls(state, calls.take(j), i + 1);
}

/// Once no identifier is left, creating is refused with
/// `IdentifierOverflow` and breeding stores nothing, and this stays so: no
/// sequence of calls moves the counter or adds a kitty.
pub proof fn lemma_exhausted_stays_exhausted(
    state: RegistryState,
    calls: Seq<Call>,
    sender: AccountId,
    name: [u8; 8],
    dna: [u8; 16],
    paid: Result<(), DispatchError>,
)
    requires
        !state.has_capacity(),
    ensures
        after_all(state, calls).next_kitty_id == state.next_kitty_id,
        after_all(state, calls).kitties == state.kitties,
        after_all(state, calls).create_outcome(sender, name, dna, paid) == (
            Err::<Event, Error>(Error::IdentifierOverflow),
            after_all(state, calls),
        ),
    decreases calls.len(),
{
    if calls.len() > 0 {
        lemma_exhausted_stays_exhausted(state, calls.drop_last(), sender, name, dna, paid);
        lemma_identifier_of_call(after_all(state, calls.drop_last()), calls.last());
    }
}

/// Breeding a kitty with itself is refused with `SameIdentifier`, whether
/// or not it is a kitty, whatever else holds; no payment is asked for.
pub proof fn lemma_breed_with_itself(
    state: RegistryState,
    sender: AccountId,
    id: KittyId,
    name: [u8; 8],
    selector: [u8; 16],
    paid: Result<(), DispatchError>,
)
    ensures
        state.breed_payment(sender, id, id) == Err::<Payment, Error>(
            Error::SameIdentifier,
        ),
        state.breed_outcome(sender, id, id, name, selector, paid) == (
            Err::<Event, Error>(Error::SameIdentifier),
            state,
        ),
{
}

/// Breeding two different identifiers of which one is no kitty is refused
/// with `UnknownIdentifier`: no payment is asked for, no identifier is
/// handed out, nothing changes.
pub proof fn lemma_breed_unknown_parent(
    state: RegistryState,
    sender: AccountId,
    id1: KittyId,
    id2: KittyId,
    name: [u8; 8],
    selector: [u8; 16],
    paid: Result<(), DispatchError>,
)
    requires
        id1 != id2,
        !state.exists_kitty(id1) || !state.exists_kitty(id2),
    ensures
        state.breed_payment(sender, id1, id2) == Err::<Payment, Error>(
            Error::UnknownIdentifier,
        ),
        state.breed_outcome(sender, id1, id2, name, selector, paid) == (
            Err::<Event, Error>(Error::UnknownIdentifier),
            state,
        ),
{
}

/// Every byte of a bred payload is the selector's byte masking the bits
/// that either parent has at that position.
pub proof fn lemma_mix_dna_bytes(parent1: [u8; 16], parent2: [u8; 16], selector: [u8; 16])
    ensures
        forall|i: int|
            0 <= i < 16 ==> #[trigger] mix_dna(parent1, parent2, selector)[i] == selector[i] & (
            parent1[i] | parent2[i]),
{
}

/// The kitty that a successful breeding stores has the payload mixed from
/// its parents' payloads under the selector, and the two parents on record.
pub proof fn lemma_bred_kitty(
    state: RegistryState,
    sender: AccountId,
    id1: KittyId,
    id2: KittyId,
    name: [u8; 8],
    selector: [u8; 16],
    paid: Result<(), DispatchError>,
)
    requires
        state.breed_outcome(sender, id1, id2, name, selector, paid).0 is Ok,
    ensures
        ({
            let (reported, next) = state.breed_outcome(sender, id1, id2, name, selector, paid);
            let child = state.next_kitty_id;
            let record = Kitty {
                dna: mix_dna(state.kitties[id1].dna, state.kitties[id2].dna, selector),
                name,
            };
            &&& reported == Ok::<Event, Error>(
                Event::RecordCreated { owner: sender, id: child, record },
            )
            &&& next.kitties[child] == record
            &&& next.kitty_owner[child] == sender
            &&& next.kitty_parents[child] == (id1, id2)
            &&& forall|i: int|
                0 <= i < 16 ==> #[trigger] record.dna[i] == selector[i] & (state.kitties[id1].dna[i]
                    | state.kitties[id2].dna[i])
        }),
{
    lemma_mix_dna_bytes(state.kitties[id1].dna, state.kitties[id2].dna, selector);
}

/// Only the owner can hand a kitty over: anyone else is refused with
/// `NotOwner`, and nothing changes.
pub proof fn lemma_transfer_by_non_owner(
    state: RegistryState,
    sender: AccountId,
    to: AccountId,
    id: KittyId,
)
    requires
        state.kitty_owner.contains_key(id),
        state.kitty_owner[id] != sender,
    ensures
        state.transfer_outcome(sender, to, id) == (Err::<Event, Error>(Error::NotOwner), state),
{
}

/// After a kitty was handed over it is the receiver's, and the one who
/// handed it over, unless that is the receiver, can hand it to nobody any
/// more.
pub proof fn lemma_transfer_moves_ownership(
    state: RegistryState,
    sender: AccountId,
    to: AccountId,
    id: KittyId,
    next_to: AccountId,
)
    requires
        state.transfer_outcome(sender, to, id).0 is Ok,
    ensures
        ({
            let (reported, next) = state.transfer_outcome(sender, to, id);
            &&& reported == Ok::<Event, Error>(Event::RecordTransferred { from: sender, to, id })
            &&& next == state.transferred(id, to)
            &&& next.kitty_owner.contains_key(id) && next.kitty_owner[id] == to
            &&& sender != to ==> next.transfer_outcome(sender, next_to, id) == (
                Err::<Event, Error>(Error::NotOwner),
                next,
            )
        }),
{
}

/// Offering for sale what is no kitty is refused with `UnknownIdentifier`,
/// and offering again what its owner has offered already is refused with
/// `AlreadyListed`; nothing changes either time.
pub proof fn lemma_sale_refusals(state: RegistryState, sender: AccountId, id: KittyId)
    requires
        state.wf(),
    ensures
        !state.exists_kitty(id) ==> state.sale_outcome(sender, id) == (
            Err::<Event, Error>(Error::UnknownIdentifier),
            state,
        ),
        state.owns(sender, id) && state.kitties_on_sale.contains(id) ==> state.sale_outcome(
            sender,
            id,
        ) == (Err::<Event, Error>(Error::AlreadyListed), state),
{
    assert(state.kitty_owner.dom().contains(id) == state.kitties.dom().contains(id));
}

/// A kitty that was offered for sale is for sale, and offering it once more
/// is refused with `AlreadyListed`.
pub proof fn lemma_sale_lists_once(state: RegistryState, sender: AccountId, id: KittyId)
    requires
        state.sale_outcome(sender, id).0 is Ok,
    ensures
        ({
            let (reported, next) = state.sale_outcome(sender, id);
            &&& reported == Ok::<Event, Error>(Event::RecordListed { owner: sender, id })
            &&& next == state.listed(id)
            &&& next.kitties_on_sale.contains(id)
            &&& next.sale_outcome(sender, id) == (Err::<Event, Error>(Error::AlreadyListed), next)
        }),
{
}

/// Buying one's own kitty is refused with `AlreadyOwner`, and buying
/// another's kitty that is not for sale with `NotListed`; no payment is
/// asked for and nothing changes either time.
pub proof fn lemma_buy_refusals(
    state: RegistryState,
    sender: AccountId,
    id: KittyId,
    paid: Result<(), DispatchError>,
)
    requires
        state.wf(),
        state.exists_kitty(id),
    ensures
        state.owns(sender, id) ==> state.buy_payment(sender, id) == Err::<
            Payment,
            Error,
        >(Error::AlreadyOwner) && state.buy_outcome(sender, id, paid) == (
            Err::<(), Error>(Error::AlreadyOwner),
            state,
        ),
        !state.owns(sender, id) && !state.kitties_on_sale.contains(id) ==> state.buy_payment(
            sender,
            id,
        ) == Err::<Payment, Error>(Error::NotListed) && state.buy_outcome(
            sender,
            id,
            paid,
        ) == (Err::<(), Error>(Error::NotListed), state),
{
    assert(state.kitty_owner.dom().contains(id) == state.kitties.dom().contains(id));
}

/// A purchase is all or nothing. Where a payment is due, the kitty changes
/// hands and leaves the market exactly if the payment went through; where
/// it did not, or none was due, the registry is as it was. The price goes
/// from the buyer to the owner.
pub proof fn lemma_buy_is_atomic(
    state: RegistryState,
    sender: AccountId,
    id: KittyId,
    paid: Result<(), DispatchError>,
)
    ensures
        ({
            let (reported, next) = state.buy_outcome(sender, id, paid);
            &&& reported is Ok <==> state.buy_payment(sender, id) is Ok && paid is Ok
            &&& reported is Ok ==> {
                &&& state.buy_payment(sender, id) == Ok::<Payment, Error>(
                    Payment {
                        source: sender,
                        dest: state.kitty_owner[id],
                        value: state.kitty_price,
                    },
                )
                &&& next == state.sold(id, sender)
                &&& next.kitty_owner[id] == sender
                &&& !next.kitties_on_sale.contains(id)
                &&& next.kitties == state.kitties
                &&& next.kitty_parents == state.kitty_parents
            }
            &&& reported is Err ==> next == state
        }),
{
}

/// The step from layout 0 and the step from layout 1 lead to the same
/// store in layout 2, for stores that hold the same identifiers with the
/// same payloads in the same order.
pub proof fn lemma_migrations_converge(from_v0: Stored, from_v1: Stored)
    requires
        from_v0 is V0,
        from_v1 is V1,
        from_v0.ids() == from_v1.ids(),
        from_v0.dnas() == from_v1.dnas(),
    ensures
        v2::migrate_spec(from_v0, 2) == v2::migrate_spec(from_v1, 2),
        v2::migrate_spec(from_v0, 2) is V2,
{
    let a = from_v0->V0_0;
    let b = from_v1->V1_0;
    let ma = a.map_values(|r: (KittyId, v2::v0_Kitty)| v2::v0_to_v2(r));
    let mb = b.map_values(|r: (KittyId, v2::v1_Kitty)| v2::v1_to_v2(r));
    assert(ma.len() == mb.len()) by {
        assert(from_v0.ids().len() == a.len());
        assert(from_v1.ids().len() == b.len());
    }
    assert forall|i: int| 0 <= i < ma.len() implies ma[i] == mb[i] by {
        assert(from_v0.ids()[i] == a[i].0);
        assert(from_v1.ids()[i] == b[i].0);
        assert(from_v0.dnas()[i] == a[i].1.0);
        assert(from_v1.dnas()[i] == b[i].1.dna);
    }
    assert(ma =~= mb);
}

/// The migration to layout 2 leaves a store in layout 2, with the
/// identifiers and payloads it had, in their order; and a second run
/// changes nothing.
pub proof fn lemma_migration_is_idempotent(store: Stored)
    ensures
        v2::migrate_spec(store, 2) is V2,
        v2::migrate_spec(store, 2).ids() == store.ids(),
        v2::migrate_spec(store, 2).dnas() == store.dnas(),
        v2::migrate_spec(v2::migrate_spec(store, 2), 2) == v2::migrate_spec(store, 2),
        store is V2 ==> v2::migrate_spec(store, 2) == store,
{
    assert(v2::migrate_spec(store, 2).ids() =~= store.ids());
    assert(v2::migrate_spec(store, 2).dnas() =~= store.dnas());
}

/// The number of the layout never falls: after either migration, towards
/// whatever target, the store is in the layout it was in or in a later one,
/// and in none later than the target.
pub proof fn lemma_version_never_falls(store: Stored, current_version: u16)
    ensures
        store.version() <= v1::migrate_spec(store, current_version).version(),
        store.version() <= v2::migrate_spec(store, current_version).version(),
        v1::migrate_spec(store, current_version) != store ==> v1::migrate_spec(
            store,
            current_version,
        ).version() == current_version,
        v2::migrate_spec(store, current_version) != store ==> v2::migrate_spec(
            store,
            current_version,
        ).version() == current_version,
{
}

/// A record that the migration rewrote has the default label, whichever
/// layout it came from.
pub proof fn lemma_migrated_labels(store: Stored, i: int)
    requires
        store is V0 || store is V1,
        0 <= i < store.ids().len(),
    ensures
        v2::migrate_spec(store, 2) matches Stored::V2(records) && records.len()
            == store.ids().len() && records[i].1.name == v2::default_name(),
{
}

/// Going to layout 2 by way of layout 1 gives the same store as going
/// there at once.
pub proof fn lemma_migration_by_steps(store: Stored)
    requires
        store is V0,
    ensures
        v2::migrate_spec(v1::migrate_spec(store, 1), 2) == v2::migrate_spec(store, 2),
{
    let a = store->V0_0;
    let direct = a.map_values(|r: (KittyId, v2::v0_Kitty)| v2::v0_to_v2(r));
    let stepped = a.map_values(|r: (KittyId, v2::v0_Kitty)| v1::v0_to_v1(r)).map_values(
        |r: (KittyId, v2::v1_Kitty)| v2::v1_to_v2(r),
    );
    assert(direct =~= stepped);
}

} // verus!
