//! Proof of existence: a ledger of claims on documents. A claim is a short
//! byte string, most often a document's digest; whoever records it first
//! owns it, and only its owner can revoke it or hand it on.

use vstd::prelude::*;

verus! {

/// An already authenticated principal.
pub type AccountId = u64;

/// The number of a block.
pub type BlockNumber = u32;

/// Why an operation was refused. A refused operation changes nothing.
#[derive(Clone, Copy, Debug, PartialEq, Eq)]
pub enum Error {
    /// The claim is recorded already.
    ProofAlreadyExist,
    /// The claim is longer than the ledger admits.
    ClaimTooLong,
    /// The claim is not recorded.
    ClaimNotExist,
    /// The caller does not own the claim.
    NotClaimOwner,
}

/// What a successful operation announces.
#[derive(Clone, Debug, PartialEq, Eq)]
pub enum Event {
    /// The account recorded the claim.
    ClaimCreated(AccountId, Vec<u8>),
    /// The account revoked the claim.
    ClaimRevoked(AccountId, Vec<u8>),
}

/// A recorded claim: who owns it, and in which block it was recorded or
/// last handed on.
#[derive(Clone, Debug, PartialEq, Eq)]
struct Proof {
    claim: Vec<u8>,
    owner: AccountId,
    block_number: BlockNumber,
}

/// The ledger of claims.
#[derive(Clone, Debug, PartialEq, Eq)]
pub struct Pallet {
    max_claim_length: u32,
    proofs: Vec<Proof>,
}

/// Whether `claim` is among `proofs`.
spec fn recorded(proofs: Seq<Proof>, claim: Seq<u8>) -> bool {
    exists|i: int| 0 <= i < proofs.len() && (#[trigger] proofs[i]).claim@ == claim
}

/// The place of `claim` among `proofs`, if it is among them.
spec fn place_of(proofs: Seq<Proof>, claim: Seq<u8>) -> int {
    choose|i: int| 0 <= i < proofs.len() && (#[trigger] proofs[i]).claim@ == claim
}

/// Whether two byte strings are the same.
fn same_bytes(left: &Vec<u8>, right: &Vec<u8>) -> (same: bool)
    ensures
        same == (left@ == right@),
{
    if left.len() != right.len() {
        return false;
    }
    let mut i: usize = 0;
    while i < left.len()
        invariant
            i <= left.len(),
            left.len() == right.len(),
            forall|j: int| 0 <= j < i ==> left[j] == right[j],
        decreases left.len() - i,
    {
        if left[i] != right[i] {
            return false;
        }
        i = i + 1;
    }
    assert(left@ =~= right@);
    true
}

/// A copy of a byte string.
fn copy_bytes(bytes: &Vec<u8>) -> (copy: Vec<u8>)
    ensures
        copy@ == bytes@,
{
    let mut copy: Vec<u8> = Vec::new();
    let mut i: usize = 0;
    while i < bytes.len()
        invariant
            i <= bytes.len(),
            copy@ == bytes@.take(i as int),
        decreases bytes.len() - i,
    {
        copy.push(bytes[i]);
        i = i + 1;
        assert(bytes@.take(i as int) =~= bytes@.take(i - 1).push(bytes@[i - 1]));
    }
    assert(bytes@.take(bytes.len() as int) =~= bytes@);
    copy
}

impl Pallet {
    /// The recorded claims, each with its owner and block.
    pub closed spec fn view(&self) -> Map<Seq<u8>, (AccountId, BlockNumber)> {
        Map::new(
            |claim: Seq<u8>| recorded(self.proofs@, claim),
            |claim: Seq<u8>|
                (
                    self.proofs@[place_of(self.proofs@, claim)].owner,
                    self.proofs@[place_of(self.proofs@, claim)].block_number,
                ),
        )
    }

    /// The greatest length of a claim that the ledger admits.
    pub closed spec fn max_length(&self) -> u32 {
        self.max_claim_length
    }

    /// Why `claim` cannot be recorded, if it cannot: it is too long, or it
    /// is recorded already.
    pub open spec fn create_refusal(&self, claim: Seq<u8>) -> Option<Error> {
        if claim.len() > self.max_length() {
            Some(Error::ClaimTooLong)
        } else if self@.contains_key(claim) {
            Some(Error::ProofAlreadyExist)
        } else {
            None
        }
    }

    /// Why `sender` cannot revoke `claim` or hand it on, if they cannot: it
    /// is too long, it is not recorded, or it is another's.
    pub open spec fn owner_refusal(&self, sender: AccountId, claim: Seq<u8>) -> Option<Error> {
        if claim.len() > self.max_length() {
            Some(Error::ClaimTooLong)
        } else if !self@.contains_key(claim) {
            Some(Error::ClaimNotExist)
        } else if self@[claim].0 != sender {
            Some(Error::NotClaimOwner)
        } else {
            None
        }
    }

    /// What every operation relies on and keeps: no claim is recorded
    /// twice, and none is longer than the ledger admits.
    pub closed spec fn wf(&self) -> bool {
        &&& forall|i: int, j: int|
            0 <= i < j < self.proofs@.len() ==> (#[trigger] self.proofs@[i]).claim@
                != (#[trigger] self.proofs@[j]).claim@
        &&& forall|i: int|
            0 <= i < self.proofs@.len() ==> (#[trigger] self.proofs@[i]).claim@.len()
                <= self.max_claim_length
    }

    /// No recorded claim is longer than the ledger admits.
    pub proof fn lemma_claims_are_bounded(&self, claim: Seq<u8>)
        requires
            self.wf(),
            self@.contains_key(claim),
        ensures
            claim.len() <= self.max_length(),
    {
        let i = place_of(self.proofs@, claim);
        assert(self.proofs@[i].claim@ == claim);
    }

    /// A ledger without claims that admits claims of up to
    /// `max_claim_length` bytes.
    pub fn new(max_claim_length: u32) -> (pallet: Pallet)
        ensures
            pallet.wf(),
            pallet.max_length() == max_claim_length,
            pallet@ == Map::<Seq<u8>, (AccountId, BlockNumber)>::empty(),
    {
        let pallet = Pallet { max_claim_length, proofs: Vec::new() };
        assert(pallet@ =~= Map::<Seq<u8>, (AccountId, BlockNumber)>::empty());
        pallet
    }

    /// The greatest length of a claim that the ledger admits.
    pub fn max_claim_length(&self) -> (length: u32)
        ensures
            length == self.max_length(),
    {
        self.max_claim_length
    }

    /// Where `claim` stands among the recorded claims, if it is recorded.
    fn find(&self, claim: &Vec<u8>) -> (place: Option<usize>)
        requires
            self.wf(),
        ensures
            place is None ==> !recorded(self.proofs@, claim@),
            place matches Some(i) ==> i < self.proofs@.len() && self.proofs@[i as int].claim@
                == claim@ && recorded(self.proofs@, claim@) && place_of(self.proofs@, claim@) == i,
    {
        let mut i: usize = 0;
        while i < self.proofs.len()
            invariant
                self.wf(),
                i <= self.proofs.len(),
                forall|j: int| 0 <= j < i ==> (#[trigger] self.proofs@[j]).claim@ != claim@,
            decreases self.proofs.len() - i,
        {
            if same_bytes(&self.proofs[i].claim, claim) {
                proof {
                    assert(self.proofs@[i as int].claim@ == claim@);
                    let j = place_of(self.proofs@, claim@);
                    assert(self.proofs@[j].claim@ == claim@);
                }
                return Some(i);
            }
            i = i + 1;
        }
        None
    }

    /// The owner of `claim` and the block in which it was recorded or last
    /// handed on, if it is recorded.
    pub fn proofs(&self, claim: &Vec<u8>) -> (proof: Option<(AccountId, BlockNumber)>)
        requires
            self.wf(),
        ensures
            proof == (if self@.contains_key(claim@) {
                Some(self@[claim@])
            } else {
                None
            }),
    {
        match self.find(claim) {
            Some(i) => Some((self.proofs[i].owner, self.proofs[i].block_number)),
            None => None,
        }
    }

    /// Records `claim` for `sender` in the block `block_number`, unless it
    /// is too long or recorded already.
    pub fn create_claim(
        &mut self,
        sender: AccountId,
        claim: Vec<u8>,
        block_number: BlockNumber,
    ) -> (created: Result<Event, Error>)
        requires
            old(self).wf(),
        ensures
            final(self).wf(),
            final(self).max_length() == old(self).max_length(),
            old(self).create_refusal(claim@) matches Some(refusal) ==> {
                &&& created == Err::<Event, Error>(refusal)
                &&& final(self)@ == old(self)@
            },
            old(self).create_refusal(claim@) is None ==> {
                &&& created matches Ok(Event::ClaimCreated(who, announced))
                &&& who == sender
                &&& announced@ == claim@
                &&& final(self)@ == old(self)@.insert(claim@, (sender, block_number))
            },
    {
        if claim.len() > self.max_claim_length as usize {
            return Err(Error::ClaimTooLong);
        }
        if self.find(&claim).is_some() {
            return Err(Error::ProofAlreadyExist);
        }
        let announced: Vec<u8> = copy_bytes(&claim);
        self.proofs.push(Proof { claim, owner: sender, block_number });
        proof {
            let before = old(self).proofs@;
            let after = self.proofs@;
            assert forall|c: Seq<u8>| recorded(after, c) <==> recorded(before, c) || c
                == claim@ by {
                if recorded(before, c) {
                    let i = place_of(before, c);
                    assert(after[i].claim@ == c);
                }
                if c == claim@ {
                    assert(after[before.len() as int].claim@ == c);
                }
                if recorded(after, c) && c != claim@ {
                    let i = place_of(after, c);
                    assert(before[i].claim@ == c);
                }
            }
            assert forall|c: Seq<u8>| recorded(before, c) implies after[place_of(after, c)]
                == before[place_of(before, c)] by {
                let i = place_of(before, c);
                assert(after[i].claim@ == c);
                let j = place_of(after, c);
                assert(after[j].claim@ == c);
                assert(i == j);
            }
            assert(recorded(after, claim@));
            assert(place_of(after, claim@) == before.len()) by {
                let j = place_of(after, claim@);
                if j < before.len() {
                    assert(before[j].claim@ == claim@);
                }
            }
            assert(self@ =~= old(self)@.insert(claim@, (sender, block_number)));
        }
        Ok(Event::ClaimCreated(sender, announced))
    }
    /// Takes `claim` off the ledger. Only its owner can do so.
    pub fn revoke_claim(
        &mut self,
        sender: AccountId,
        claim: Vec<u8>,
    ) -> (revoked: Result<Event, Error>)
        requires
            old(self).wf(),
        ensures
            final(self).wf(),
            final(self).max_length() == old(self).max_length(),
            old(self).owner_refusal(sender, claim@) matches Some(refusal) ==> {
                &&& revoked == Err::<Event, Error>(refusal)
                &&& final(self)@ == old(self)@
            },
            old(self).owner_refusal(sender, claim@) is None ==> {
                &&& revoked matches Ok(Event::ClaimRevoked(who, announced))
                &&& who == sender
                &&& announced@ == claim@
                &&& final(self)@ == old(self)@.remove(claim@)
            },
    {
        if claim.len() > self.max_claim_length as usize {
            return Err(Error::ClaimTooLong);
        }
        match self.find(&claim) {
            None => Err(Error::ClaimNotExist),
            Some(place) => {
                if self.proofs[place].owner != sender {
                    return Err(Error::NotClaimOwner);
                }
                self.proofs.remove(place);
                proof {
                    let before = old(self).proofs@;
                    let after = self.proofs@;
                    let at = place as int;
                    assert forall|i: int| 0 <= i < after.len() implies #[trigger] after[i]
                        == before[if i < at { i } else { i + 1 }] by {}
                    assert forall|c: Seq<u8>| recorded(after, c) <==> recorded(before, c) && c
                        != claim@ by {
                        if recorded(before, c) && c != claim@ {
                            let i = place_of(before, c);
                            if i < at {
                                assert(after[i].claim@ == c);
                            } else {
                                assert(after[i - 1].claim@ == c);
                            }
                        }
                        if recorded(after, c) {
                            let i = place_of(after, c);
                            let k = if i < at {
                                i
                            } else {
                                i + 1
                            };
                            assert(before[k].claim@ == c);
                        }
                    }
                    assert forall|c: Seq<u8>| recorded(after, c) implies after[place_of(after, c)]
                        == before[place_of(before, c)] by {
                        let i = place_of(after, c);
                        let k = if i < at {
                            i
                        } else {
                            i + 1
                        };
                        assert(before[k].claim@ == c);
                        let j = place_of(before, c);
                        assert(before[j].claim@ == c);
                        assert(j == k);
                    }
                    assert(self@ =~= old(self)@.remove(claim@));
                }
                Ok(Event::ClaimRevoked(sender, claim))
            },
        }
    }

    /// Hands `claim` from `sender`, who must own it, to `dest`, in the
    /// block `block_number`.
    pub fn transfer_claim(
        &mut self,
        sender: AccountId,
        claim: Vec<u8>,
        dest: AccountId,
        block_number: BlockNumber,
    ) -> (transferred: Result<(), Error>)
        requires
            old(self).wf(),
        ensures
            final(self).wf(),
            final(self).max_length() == old(self).max_length(),
            old(self).owner_refusal(sender, claim@) matches Some(refusal) ==> {
                &&& transferred == Err::<(), Error>(refusal)
                &&& final(self)@ == old(self)@
            },
            old(self).owner_refusal(sender, claim@) is None ==> {
                &&& transferred == Ok::<(), Error>(())
                &&& final(self)@ == old(self)@.insert(claim@, (dest, block_number))
            },
    {
        if claim.len() > self.max_claim_length as usize {
            return Err(Error::ClaimTooLong);
        }
        match self.find(&claim) {
            None => Err(Error::ClaimNotExist),
            Some(place) => {
                if self.proofs[place].owner != sender {
                    return Err(Error::NotClaimOwner);
                }
                let ghost bytes = claim@;
                self.proofs.set(place, Proof { claim, owner: dest, block_number });
                proof {
                    let before = old(self).proofs@;
                    let after = self.proofs@;
                    assert forall|i: int| 0 <= i < after.len() implies (#[trigger] after[i]).claim@
                        == before[i].claim@ by {}
                    assert forall|c: Seq<u8>| recorded(after, c) <==> recorded(before, c) by {
                        if recorded(before, c) {
                            let i = place_of(before, c);
                            assert(after[i].claim@ == c);
                        }
                        if recorded(after, c) {
                            let i = place_of(after, c);
                            assert(before[i].claim@ == c);
                        }
                    }
                    assert forall|c: Seq<u8>| recorded(after, c) implies place_of(after, c)
                        == place_of(before, c) by {
                        let i = place_of(after, c);
                        assert(before[i].claim@ == c);
                        let j = place_of(before, c);
                        assert(before[j].claim@ == c);
                    }
                    assert(self@ =~= old(self)@.insert(bytes, (dest, block_number)));
                }
                Ok(())
            },
        }
    }
}

} // verus!
