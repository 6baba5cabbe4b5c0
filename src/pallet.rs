use vstd::prelude::*;

use crate::types::{same_bytes, AccountId, BlockNumber, Error, Event};

verus! {

/// The registry's table: each claimed proof mapped to its owner and the height of its creation.
pub type Claims = Map<Seq<u8>, (AccountId, BlockNumber)>;

/// What `create_claim` returns when `proof_bytes` is looked up in `claims`.
pub open spec fn create_outcome(claims: Claims, proof_bytes: Seq<u8>) -> Result<(), Error> {
    if claims.contains_key(proof_bytes) {
        Err(Error::ProofAlreadyClaimed)
    } else {
        Ok(())
    }
}

/// The table after `who` asks at height `now` to claim `proof_bytes`.
pub open spec fn claims_after_create(
    claims: Claims,
    who: AccountId,
    proof_bytes: Seq<u8>,
    now: BlockNumber,
) -> Claims {
    if claims.contains_key(proof_bytes) {
        claims
    } else {
        claims.insert(proof_bytes, (who, now))
    }
}

/// What `revoke_claim` returns when `who` asks to revoke `proof_bytes`.
pub open spec fn revoke_outcome(claims: Claims, who: AccountId, proof_bytes: Seq<u8>) -> Result<
    (),
    Error,
> {
    if !claims.contains_key(proof_bytes) {
        Err(Error::NoSuchProof)
    } else if claims[proof_bytes].0 != who {
        Err(Error::NotProofOwner)
    } else {
        Ok(())
    }
}

/// The table after `who` asks to revoke `proof_bytes`.
pub open spec fn claims_after_revoke(claims: Claims, who: AccountId, proof_bytes: Seq<u8>) -> Claims {
    if revoke_outcome(claims, who, proof_bytes) is Ok {
        claims.remove(proof_bytes)
    } else {
        claims
    }
}

/// One stored claim.
struct Claim {
    proof_bytes: Vec<u8>,
    owner: AccountId,
    created_at: BlockNumber,
}

/// The claim registry: the table of active claims and the events deposited so far.
pub struct Pallet {
    entries: Vec<Claim>,
    events: Vec<Event>,
    table: Ghost<Claims>,
}

impl View for Pallet {
    type V = Claims;

    closed spec fn view(&self) -> Claims {
        self.table@
    }
}

impl Pallet {
    /// The stored entries hold exactly the table, one entry per claimed proof.
    pub closed spec fn wf(&self) -> bool {
        &&& forall|i: int|
            0 <= i < self.entries@.len() ==> {
                &&& self.table@.contains_key(#[trigger] self.entries@[i].proof_bytes@)
                &&& self.table@[self.entries@[i].proof_bytes@] == (
                    self.entries@[i].owner,
                    self.entries@[i].created_at,
                )
            }
        &&& forall|i: int, j: int|
            0 <= i < self.entries@.len() && 0 <= j < self.entries@.len() && i != j
                ==> #[trigger] self.entries@[i].proof_bytes@ != #[trigger] self.entries@[j].proof_bytes@
        &&& forall|p: Seq<u8>|
            #[trigger] self.table@.contains_key(p) ==> exists|i: int|
                0 <= i < self.entries@.len() && #[trigger] self.entries@[i].proof_bytes@ == p
    }

    /// The events deposited so far, oldest first.
    pub closed spec fn deposited(&self) -> Seq<Event> {
        self.events@
    }

    /// An empty registry with no events.
    pub fn new() -> (r: Pallet)
        ensures
            r.wf(),
            r@ == Claims::empty(),
            r.deposited() == Seq::<Event>::empty(),
    {
        Pallet { entries: Vec::new(), events: Vec::new(), table: Ghost(Map::empty()) }
    }

    /// The index of the entry that holds `proof_bytes`, if any.
    fn find(&self, proof_bytes: &Vec<u8>) -> (r: Option<usize>)
        requires
            self.wf(),
        ensures
            match r {
                Some(i) => i < self.entries@.len() && self.entries@[i as int].proof_bytes@
                    == proof_bytes@,
                None => !self@.contains_key(proof_bytes@),
            },
    {
        let mut i: usize = 0;
        while i < self.entries.len()
            invariant
                0 <= i <= self.entries@.len(),
                forall|j: int| 0 <= j < i ==> self.entries@[j].proof_bytes@ != proof_bytes@,
            decreases self.entries@.len() - i,
        {
            if same_bytes(&self.entries[i].proof_bytes, proof_bytes) {
                return Some(i);
            }
            i += 1;
        }
        None
    }

    /// Claims `proof_bytes` for `sender` at height `now`, unless it is claimed already.
    pub fn create_claim(&mut self, sender: AccountId, proof_bytes: Vec<u8>, now: BlockNumber) -> (r:
        Result<(), Error>)
        requires
            old(self).wf(),
        ensures
            final(self).wf(),
            r == create_outcome(old(self)@, proof_bytes@),
            final(self)@ == claims_after_create(old(self)@, sender, proof_bytes@, now),
            r is Ok ==> final(self).deposited() == old(self).deposited().push(
                Event::ClaimCreated(sender, proof_bytes),
            ),
            r is Err ==> final(self).deposited() == old(self).deposited(),
    {
        match self.find(&proof_bytes) {
            Some(_) => Err(Error::ProofAlreadyClaimed),
            None => {
                let stored = proof_bytes.clone();
                assert(stored@ =~= proof_bytes@);
                let ghost before = self.entries@;
                self.table = Ghost(self.table@.insert(proof_bytes@, (sender, now)));
                self.entries.push(Claim { proof_bytes: stored, owner: sender, created_at: now });
                assert forall|i: int| 0 <= i < before.len() implies #[trigger] self.entries@[i]
                    == before[i] && before[i].proof_bytes@ != proof_bytes@ by {
                    assert(old(self).table@.contains_key(before[i].proof_bytes@));
                }
                assert forall|p: Seq<u8>| #[trigger] self.table@.contains_key(p) implies exists|
                    i: int,
                | 0 <= i < self.entries@.len() && #[trigger] self.entries@[i].proof_bytes@ == p by {
                    if p == proof_bytes@ {
                        assert(self.entries@[before.len() as int].proof_bytes@ == p);
                    } else {
                        let i = choose|i: int|
                            0 <= i < before.len() && #[trigger] before[i].proof_bytes@ == p;
                        assert(self.entries@[i].proof_bytes@ == p);
                    }
                }
                self.events.push(Event::ClaimCreated(sender, proof_bytes));
                assert(self.wf());
                Ok(())
            },
        }
    }

    /// Revokes the claim on `proof_bytes`, provided that `sender` holds it.
    pub fn revoke_claim(&mut self, sender: AccountId, proof_bytes: Vec<u8>) -> (r: Result<(), Error>)
        requires
            old(self).wf(),
        ensures
            final(self).wf(),
            r == revoke_outcome(old(self)@, sender, proof_bytes@),
            final(self)@ == claims_after_revoke(old(self)@, sender, proof_bytes@),
            r is Ok ==> final(self).deposited() == old(self).deposited().push(
                Event::ClaimRevoked(sender, proof_bytes),
            ),
            r is Err ==> final(self).deposited() == old(self).deposited(),
    {
        match self.find(&proof_bytes) {
            None => Err(Error::NoSuchProof),
            Some(i) => {
                if self.entries[i].owner != sender {
                    return Err(Error::NotProofOwner);
                }
                let ghost before = self.entries@;
                self.table = Ghost(self.table@.remove(proof_bytes@));
                self.entries.remove(i);
                assert forall|j: int| 0 <= j < self.entries@.len() implies #[trigger] self.entries@[j]
                    == before[if j < i { j } else { j + 1 }] by {}
                assert forall|p: Seq<u8>| #[trigger] self.table@.contains_key(p) implies exists|
                    j: int,
                | 0 <= j < self.entries@.len() && #[trigger] self.entries@[j].proof_bytes@ == p by {
                    let k = choose|k: int|
                        0 <= k < before.len() && #[trigger] before[k].proof_bytes@ == p;
                    assert(k != i);
                    let j = if k < i { k } else { k - 1 };
                    assert(self.entries@[j].proof_bytes@ == p);
                }
                assert forall|j: int| 0 <= j < self.entries@.len() implies
                    #[trigger] self.entries@[j].proof_bytes@ != proof_bytes@ by {
                    let k = if j < i { j } else { j + 1 };
                    assert(before[k] == self.entries@[j]);
                    assert(k != i);
                }
                self.events.push(Event::ClaimRevoked(sender, proof_bytes));
                assert(self.wf());
                Ok(())
            },
        }
    }

    /// The owner and creation height of the active claim on `proof_bytes`, if there is one.
    pub fn proofs(&self, proof_bytes: &Vec<u8>) -> (r: Option<(AccountId, BlockNumber)>)
        requires
            self.wf(),
        ensures
            r == (if self@.contains_key(proof_bytes@) {
                Some(self@[proof_bytes@])
            } else {
                None
            }),
    {
        match self.find(proof_bytes) {
            Some(i) => Some((self.entries[i].owner, self.entries[i].created_at)),
            None => None,
        }
    }

    /// The events deposited so far, oldest first.
    pub fn events(&self) -> (r: &Vec<Event>)
        ensures
            r@ == self.deposited(),
    {
        &self.events
    }
}

} // verus!
