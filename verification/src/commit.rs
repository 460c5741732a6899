//! Sealed-bid price commitments.
//!
//! A bid hides its price during the bidding window behind a hash commitment
//! of `secret || price_le8`; the reveal phase later discloses the price and
//! proves it matches the earlier commitment. The secret is chosen per bid by
//! the bidder, so two bids in different auctions are unlinkable by hash
//! alone. Note the documented linkability risk: the commitment does not bind
//! the bidder's address, so a bidder who reuses one secret across several
//! bids makes those sealed prices comparable once any one of them is
//! revealed.

use vstd::bytes::spec_u64_to_le_bytes;
use vstd::bytes::u64_to_le_bytes;
use vstd::prelude::*;
use vstd::slice::slice_to_vec;

verus! {

/// What `solana_sdk::hash::hashv` returns for an ordered list of byte
/// strings: the SHA-256 digest of their concatenation, a function of the
/// bytes alone.
pub uninterp spec fn sha256_of(chunks: Seq<Seq<u8>>) -> Seq<u8>;

/// Relies on `solana_sdk::hash::hashv`: the 32-byte SHA-256 digest of the
/// concatenation of the chunks, a function of the chunk bytes alone.
#[verifier::external_body]
fn hash_chunks(chunks: &Vec<Vec<u8>>) -> (r: [u8; 32])
    ensures
        r@ == sha256_of(chunks.deep_view()),
{
    let slices: Vec<&[u8]> = chunks.iter().map(|c| c.as_slice()).collect();
    solana_sdk::hash::hashv(&slices).to_bytes()
}

/// The commitment that seals `price` under `secret`: the digest of the
/// secret followed by the 8-byte little-endian price.
pub open spec fn spec_commit(secret: Seq<u8>, price: u64) -> Seq<u8> {
    sha256_of(seq![secret, spec_u64_to_le_bytes(price)])
}

/// Builds the commitment hash that seals `price` under the bidder-chosen
/// `secret`.
pub fn commit(secret: &[u8; 32], price: u64) -> (r: [u8; 32])
    ensures
        r@ == spec_commit(secret@, price),
{
    let mut chunks: Vec<Vec<u8>> = Vec::new();
    chunks.push(slice_to_vec(secret.as_slice()));
    chunks.push(u64_to_le_bytes(price));
    proof {
        assert(chunks.deep_view() =~~= seq![secret@, spec_u64_to_le_bytes(price)]);
    }
    hash_chunks(&chunks)
}

/// Checks a reveal: recomputes the commitment for `secret` and `price` and
/// compares it with the sealed commitment, true exactly when they agree.
pub fn verify_reveal(secret: &[u8; 32], price: u64, commitment: &[u8; 32]) -> (r: bool)
    ensures
        r == (spec_commit(secret@, price) == commitment@),
{
    let fresh = commit(secret, price);
    let mut i: usize = 0;
    while i < 32
        invariant
            i <= 32,
            fresh@ == spec_commit(secret@, price),
            forall|j: int| 0 <= j < i ==> fresh@[j] == commitment@[j],
        decreases 32 - i,
    {
        if fresh[i] != commitment[i] {
            assert(fresh@ != commitment@);
            return false;
        }
        i += 1;
    }
    proof {
        assert(fresh@ =~= commitment@);
    }
    true
}

/// Commit-reveal round trip: a reveal that carries the same secret and
/// price the commitment was built from always verifies. `c` is the
/// commitment [`commit`] built and `ok` the answer [`verify_reveal`] gives
/// it; the answer is always yes.
pub proof fn lemma_commit_reveal_round_trip(secret: Seq<u8>, price: u64, c: Seq<u8>, ok: bool)
    requires
        c == spec_commit(secret, price),
        ok == (spec_commit(secret, price) == c),
    ensures
        ok,
{
}

} // verus!
