//! Tier encoding.
//!
//! A [`RequestTier`] is an ordinal enumeration over discrete buckets (a
//! context-length size class, an expiry duration class). Its canonical wire
//! form is the 8-byte little-endian encoding of the ordinal, used both as a
//! derivation seed component and as the partition key of the bundle
//! registry. The ordinal-to-variant table below is the single source of
//! truth for every component that touches tiers.

use vstd::bytes::lemma_auto_spec_u64_to_from_le_bytes;
use vstd::bytes::spec_u64_from_le_bytes;
use vstd::bytes::spec_u64_to_le_bytes;
use vstd::bytes::u64_from_le_bytes;
use vstd::bytes::u64_to_le_bytes;
use vstd::prelude::*;

verus! {

/// A discrete request bucket, ordered from smallest to largest.
#[derive(Clone, Copy, Debug, PartialEq, Eq, Structural)]
pub enum RequestTier {
    Tier0,
    Tier1,
    Tier2,
    Tier3,
    Tier4,
    Tier5,
    Tier6,
    Tier7,
}

/// The stable ordinal of a tier.
pub open spec fn spec_ordinal(t: RequestTier) -> u64 {
    match t {
        RequestTier::Tier0 => 0,
        RequestTier::Tier1 => 1,
        RequestTier::Tier2 => 2,
        RequestTier::Tier3 => 3,
        RequestTier::Tier4 => 4,
        RequestTier::Tier5 => 5,
        RequestTier::Tier6 => 6,
        RequestTier::Tier7 => 7,
    }
}

/// The tier of an ordinal, `None` for an ordinal no tier carries.
pub open spec fn spec_tier_of(n: u64) -> Option<RequestTier> {
    if n == 0 {
        Some(RequestTier::Tier0)
    } else if n == 1 {
        Some(RequestTier::Tier1)
    } else if n == 2 {
        Some(RequestTier::Tier2)
    } else if n == 3 {
        Some(RequestTier::Tier3)
    } else if n == 4 {
        Some(RequestTier::Tier4)
    } else if n == 5 {
        Some(RequestTier::Tier5)
    } else if n == 6 {
        Some(RequestTier::Tier6)
    } else if n == 7 {
        Some(RequestTier::Tier7)
    } else {
        None
    }
}

/// The canonical encoding of a tier: 8 bytes, little endian, of its ordinal.
pub open spec fn spec_encode(t: RequestTier) -> Seq<u8> {
    spec_u64_to_le_bytes(spec_ordinal(t))
}

/// What [`decode`] returns: the tier whose encoding the bytes are, `None`
/// for anything that is not the canonical 8-byte encoding of a defined tier.
pub open spec fn spec_decode(b: Seq<u8>) -> Option<RequestTier> {
    if b.len() == 8 {
        spec_tier_of(spec_u64_from_le_bytes(b))
    } else {
        None
    }
}

/// Returns the stable ordinal of a tier.
pub fn ordinal(t: RequestTier) -> (r: u64)
    ensures
        r == spec_ordinal(t),
{
    match t {
        RequestTier::Tier0 => 0,
        RequestTier::Tier1 => 1,
        RequestTier::Tier2 => 2,
        RequestTier::Tier3 => 3,
        RequestTier::Tier4 => 4,
        RequestTier::Tier5 => 5,
        RequestTier::Tier6 => 6,
        RequestTier::Tier7 => 7,
    }
}

/// Encodes a tier as the 8-byte little-endian form of its ordinal.
pub fn encode(t: RequestTier) -> (r: Vec<u8>)
    ensures
        r@ == spec_encode(t),
        r@.len() == 8,
{
    proof {
        lemma_auto_spec_u64_to_from_le_bytes();
    }
    u64_to_le_bytes(ordinal(t))
}

/// Decodes the canonical 8-byte encoding back to its tier: `None` when the
/// input is not 8 bytes long or its value is no defined ordinal.
pub fn decode(b: &Vec<u8>) -> (r: Option<RequestTier>)
    ensures
        r == spec_decode(b@),
{
    if b.len() != 8 {
        return None;
    }
    let n = u64_from_le_bytes(b.as_slice());
    if n == 0 {
        Some(RequestTier::Tier0)
    } else if n == 1 {
        Some(RequestTier::Tier1)
    } else if n == 2 {
        Some(RequestTier::Tier2)
    } else if n == 3 {
        Some(RequestTier::Tier3)
    } else if n == 4 {
        Some(RequestTier::Tier4)
    } else if n == 5 {
        Some(RequestTier::Tier5)
    } else if n == 6 {
        Some(RequestTier::Tier6)
    } else if n == 7 {
        Some(RequestTier::Tier7)
    } else {
        None
    }
}

/// Decoding inverts encoding: every defined tier comes back from its own
/// canonical bytes.
pub proof fn lemma_tier_round_trip(t: RequestTier)
    ensures
        spec_decode(spec_encode(t)) == Some(t),
{
    lemma_auto_spec_u64_to_from_le_bytes();
}

/// Tier encoding is injective and fixed-width: two distinct tiers never
/// share an encoding, and every encoding is exactly 8 bytes.
pub proof fn lemma_tier_encoding_injective(t1: RequestTier, t2: RequestTier)
    ensures
        spec_encode(t1).len() == 8,
        t1 != t2 ==> spec_encode(t1) != spec_encode(t2),
{
    lemma_auto_spec_u64_to_from_le_bytes();
    lemma_tier_round_trip(t1);
    lemma_tier_round_trip(t2);
}

} // verus!
