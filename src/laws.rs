//! Properties of the registry that relate several operations, stated over the table that the
//! operations' contracts speak of.
use vstd::prelude::*;

use crate::pallet::{claims_after_create, claims_after_revoke, create_outcome, revoke_outcome, Claims};
use crate::types::{AccountId, BlockNumber, Error};

verus! {

/// Claiming a proof that nobody holds succeeds, and a lookup afterwards finds the claimant and
/// the height of the call.
pub proof fn lemma_fresh_claim_recorded(
    claims: Claims,
    who: AccountId,
    proof_bytes: Seq<u8>,
    now: BlockNumber,
)
    requires
        !claims.contains_key(proof_bytes),
    ensures
        create_outcome(claims, proof_bytes) == Ok::<(), Error>(()),
        claims_after_create(claims, who, proof_bytes, now).contains_key(proof_bytes),
        claims_after_create(claims, who, proof_bytes, now)[proof_bytes] == (who, now),
{
}

/// Claiming a proof that is held already fails with `ProofAlreadyClaimed`, whoever asks, and
/// leaves the table as it was.
pub proof fn lemma_claimed_proof_rejected(
    claims: Claims,
    who: AccountId,
    proof_bytes: Seq<u8>,
    now: BlockNumber,
)
    requires
        claims.contains_key(proof_bytes),
    ensures
        create_outcome(claims, proof_bytes) == Err::<(), Error>(Error::ProofAlreadyClaimed),
        claims_after_create(claims, who, proof_bytes, now) == claims,
{
}

/// Revoking a proof that nobody holds fails with `NoSuchProof`, whoever asks, and leaves the
/// table as it was.
pub proof fn lemma_revoke_unclaimed(claims: Claims, who: AccountId, proof_bytes: Seq<u8>)
    requires
        !claims.contains_key(proof_bytes),
    ensures
        revoke_outcome(claims, who, proof_bytes) == Err::<(), Error>(Error::NoSuchProof),
        claims_after_revoke(claims, who, proof_bytes) == claims,
{
}

/// Only the owner of a claim can revoke it: anyone else gets `NotProofOwner` and the record
/// stays; the owner succeeds and the proof is no longer claimed.
pub proof fn lemma_only_owner_revokes(
    claims: Claims,
    owner: AccountId,
    other: AccountId,
    proof_bytes: Seq<u8>,
)
    requires
        claims.contains_key(proof_bytes),
        claims[proof_bytes].0 == owner,
        other != owner,
    ensures
        revoke_outcome(claims, other, proof_bytes) == Err::<(), Error>(Error::NotProofOwner),
        claims_after_revoke(claims, other, proof_bytes) == claims,
        revoke_outcome(claims, owner, proof_bytes) == Ok::<(), Error>(()),
        !claims_after_revoke(claims, owner, proof_bytes).contains_key(proof_bytes),
{
}

/// A proof can be claimed again once it has been revoked: after `a` claims it and then revokes
/// it, `b` claims it with success and becomes its owner. This holds where the proof is free at
/// first or held by `a` already.
pub proof fn lemma_proof_reusable(
    claims: Claims,
    a: AccountId,
    b: AccountId,
    proof_bytes: Seq<u8>,
    first: BlockNumber,
    second: BlockNumber,
)
    requires
        claims.contains_key(proof_bytes) ==> claims[proof_bytes].0 == a,
    ensures
        ({
            let created = claims_after_create(claims, a, proof_bytes, first);
            let revoked = claims_after_revoke(created, a, proof_bytes);
            &&& revoke_outcome(created, a, proof_bytes) == Ok::<(), Error>(())
            &&& create_outcome(revoked, proof_bytes) == Ok::<(), Error>(())
            &&& claims_after_create(revoked, b, proof_bytes, second) == claims.remove(
                proof_bytes,
            ).insert(proof_bytes, (b, second))
        }),
{
    let created = claims_after_create(claims, a, proof_bytes, first);
    let revoked = claims_after_revoke(created, a, proof_bytes);
    assert(revoked =~= claims.remove(proof_bytes));
}

} // verus!
