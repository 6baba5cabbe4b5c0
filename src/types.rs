use vstd::prelude::*;

verus! {

/// An authenticated account, as handed over by the host that dispatches calls.
pub type AccountId = u64;

/// A ledger height, as supplied by the host at the time of a call.
pub type BlockNumber = u64;

/// Why an operation on the registry was rejected.
#[derive(Debug, Clone, Copy, PartialEq, Eq, Structural)]
pub enum Error {
    /// The proof has already been claimed.
    ProofAlreadyClaimed,
    /// The proof does not exist, so it cannot be revoked.
    NoSuchProof,
    /// The proof is claimed by another account, so the caller cannot revoke it.
    NotProofOwner,
}

/// What the registry reports to outside observers after a successful operation.
#[derive(Debug, PartialEq, Eq)]
pub enum Event {
    /// A proof has been claimed: the claimant and the proof.
    ClaimCreated(AccountId, Vec<u8>),
    /// A claim has been revoked by its owner: the owner and the proof.
    ClaimRevoked(AccountId, Vec<u8>),
}

impl Event {
    /// The event announces that `who` claimed `proof_bytes`.
    pub open spec fn is_created(self, who: AccountId, proof_bytes: Seq<u8>) -> bool {
        self matches Event::ClaimCreated(w, p) && w == who && p@ == proof_bytes
    }

    /// The event announces that `who` revoked the claim on `proof_bytes`.
    pub open spec fn is_revoked(self, who: AccountId, proof_bytes: Seq<u8>) -> bool {
        self matches Event::ClaimRevoked(w, p) && w == who && p@ == proof_bytes
    }
}

/// Whether two proofs are the same byte string.
pub fn same_bytes(a: &Vec<u8>, b: &Vec<u8>) -> (r: bool)
    ensures
        r == (a@ == b@),
{
    if a.len() != b.len() {
        return false;
    }
    let mut i: usize = 0;
    while i < a.len()
        invariant
            a@.len() == b@.len(),
            0 <= i <= a@.len(),
            forall|j: int| 0 <= j < i ==> a@[j] == b@[j],
        decreases a@.len() - i,
    {
        if a[i] != b[i] {
            return false;
        }
        i += 1;
    }
    assert(a@ =~= b@);
    true
}

} // verus!
