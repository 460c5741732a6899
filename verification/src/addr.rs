//! Deterministic address derivation.
//!
//! An [`Address`] is an opaque 32-byte identifier. Protocol-owned records are
//! addressed by deriving an address from an ordered list of byte-string seeds
//! and the service id; the derivation searches for a disambiguation value
//! (the "bump") and is a pure function of its inputs, so the external engine
//! recomputes the very same address from the same seeds.

use vstd::prelude::*;

verus! {

/// The byte length of an [`Address`], and the cap on a single seed.
pub const SEED_CAP: usize = 32;

/// An opaque 32-byte identifier, compared by equality only.
#[derive(Clone, Copy, Debug, PartialEq, Eq)]
pub struct Address {
    pub bytes: [u8; 32],
}

impl View for Address {
    type V = Seq<u8>;

    open spec fn view(&self) -> Seq<u8> {
        self.bytes@
    }
}

impl DeepView for Address {
    type V = Seq<u8>;

    open spec fn deep_view(&self) -> Seq<u8> {
        self.bytes@
    }
}

/// The all-zero sentinel address, which the external engine reads as
/// "this optional account slot is unused".
pub open spec fn sentinel_spec() -> Seq<u8> {
    Seq::new(32, |i: int| 0u8)
}

/// Returns the all-zero sentinel address.
pub fn sentinel() -> (r: Address)
    ensures
        r@ == sentinel_spec(),
{
    let bytes = vstd::array::array_fill_for_copy_types::<u8, 32>(0u8);
    Address { bytes }
}

/// What `Pubkey::try_find_program_address` returns for a seed list and a
/// service id: `None` in the statistically improbable event that no bump
/// value yields a valid derived address, or when the seed list itself is
/// unusable (a seed over 32 bytes, or 16 or more seeds).
pub uninterp spec fn pda_of(seeds: Seq<Seq<u8>>, service: Seq<u8>) -> Option<(Seq<u8>, u8)>;

/// The view of a derivation result as the mathematical objects
/// [`pda_of`] speaks of.
pub open spec fn derived_view(r: Option<(Address, u8)>) -> Option<(Seq<u8>, u8)> {
    match r {
        Some(p) => Some((p.0@, p.1)),
        None => None,
    }
}

/// Relies on `solana_sdk::pubkey::Pubkey::try_find_program_address`: starting
/// from bump 255 and counting down, it returns the first derived address that
/// is not a valid curve point, together with that bump, and `None` if no bump
/// succeeds or the seed list is unusable. The result is a function of the
/// seeds and the program id alone.
#[verifier::external_body]
fn find_pda(seeds: &Vec<Vec<u8>>, service: &Address) -> (r: Option<(Address, u8)>)
    ensures
        derived_view(r) == pda_of(seeds.deep_view(), service@),
{
    let slices: Vec<&[u8]> = seeds.iter().map(|s| s.as_slice()).collect();
    let pid = solana_sdk::pubkey::Pubkey::new_from_array(service.bytes);
    solana_sdk::pubkey::Pubkey::try_find_program_address(&slices, &pid)
        .map(|(key, bump)| (Address { bytes: key.to_bytes() }, bump))
}

/// A seed capped at 32 bytes: longer seeds keep only their first 32 bytes.
pub open spec fn truncate_seed(s: Seq<u8>) -> Seq<u8> {
    if s.len() <= 32 {
        s
    } else {
        s.subrange(0, 32)
    }
}

/// Every seed of the list, capped at 32 bytes.
pub open spec fn truncate_seeds(ss: Seq<Seq<u8>>) -> Seq<Seq<u8>> {
    ss.map_values(|s: Seq<u8>| truncate_seed(s))
}

/// What [`derive`] returns: the derivation result for the seed list with
/// every seed capped at 32 bytes.
pub open spec fn spec_derive(ss: Seq<Seq<u8>>, service: Seq<u8>) -> Option<(Seq<u8>, u8)> {
    pda_of(truncate_seeds(ss), service)
}

/// Caps one seed at 32 bytes, keeping the first 32 when it is longer.
pub fn truncated(s: &Vec<u8>) -> (r: Vec<u8>)
    ensures
        r@ == truncate_seed(s@),
{
    let mut out: Vec<u8> = Vec::new();
    let n: usize = if s.len() <= SEED_CAP {
        s.len()
    } else {
        SEED_CAP
    };
    let mut i: usize = 0;
    while i < n
        invariant
            i <= n,
            n <= s.len(),
            out@ == s@.subrange(0, i as int),
        decreases n - i,
    {
        out.push(s[i]);
        assert(out@ == s@.subrange(0, i + 1 as int));
        i += 1;
    }
    proof {
        if s@.len() <= 32 {
            assert(s@.subrange(0, s@.len() as int) == s@);
        }
    }
    out
}

/// Derives the stable address and disambiguation value ("bump") for an
/// ordered seed list and a service id. Each seed is first capped at 32
/// bytes. Derivation is a pure function: two calls with identical seeds and
/// service id return identical results. It fails only when no disambiguation
/// value in the allowed range succeeds (near-impossible, but representable)
/// or when the capped seed list itself is unusable.
pub fn derive(seeds: &Vec<Vec<u8>>, service: &Address) -> (r: Option<(Address, u8)>)
    ensures
        derived_view(r) == spec_derive(seeds.deep_view(), service@),
{
    let mut capped: Vec<Vec<u8>> = Vec::new();
    let mut i: usize = 0;
    while i < seeds.len()
        invariant
            i <= seeds.len(),
            capped.deep_view() == truncate_seeds(seeds.deep_view().subrange(0, i as int)),
        decreases seeds.len() - i,
    {
        let ghost pre_capped = capped.deep_view();
        let t = truncated(&seeds[i]);
        let ghost tv = t@;
        capped.push(t);
        proof {
            let sdv = seeds.deep_view();
            assert(capped.deep_view() =~~= pre_capped.push(tv));
            assert(sdv[i as int] =~= seeds@[i as int]@);
            assert(sdv.subrange(0, i + 1 as int) =~= sdv.subrange(0, i as int).push(
                sdv[i as int],
            ));
            assert(truncate_seeds(sdv.subrange(0, i + 1 as int)) =~= truncate_seeds(
                sdv.subrange(0, i as int),
            ).push(truncate_seed(sdv[i as int])));
        }
        i += 1;
    }
    proof {
        assert(seeds.deep_view().subrange(0, seeds.deep_view().len() as int) =~= seeds.deep_view());
    }
    find_pda(&capped, service)
}

/// Derivation is deterministic: any two results obtained for the same seed
/// list and the same service id are identical, address and bump both.
pub proof fn lemma_derive_deterministic(
    ss: Seq<Seq<u8>>,
    service: Seq<u8>,
    r1: Option<(Seq<u8>, u8)>,
    r2: Option<(Seq<u8>, u8)>,
)
    requires
        r1 == spec_derive(ss, service),
        r2 == spec_derive(ss, service),
    ensures
        r1 == r2,
{
}

/// A seed longer than 32 bytes enters derivation as exactly its first 32
/// bytes; a seed of 32 bytes or fewer enters unchanged.
pub proof fn lemma_truncation(s: Seq<u8>)
    ensures
        s.len() > 32 ==> truncate_seed(s) == s.subrange(0, 32),
        s.len() > 32 ==> truncate_seed(s).len() == 32,
        s.len() <= 32 ==> truncate_seed(s) == s,
{
}

} // verus!
