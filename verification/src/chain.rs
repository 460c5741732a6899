//! Bundle chain planning.
//!
//! A request bundle is one pre-provisioned (auction, price-escrow) slot.
//! Bundles form a hash chain, not a stored list: each bundle's address is
//! derived purely from its predecessor's address, so the whole chain is a
//! recurrence recomputed on demand. Planning a chain of depth `n` yields the
//! `n + 1` (bundle, auction) address pairs that one request-submission
//! instruction pre-registers, in chain order.

use crate::addr::Address;
use crate::addr::spec_derive;
use crate::ids::auction_seed;
use crate::ids::auction_seed_spec;
use crate::ids::request_bundle_seed;
use crate::ids::request_bundle_seed_spec;
use vstd::prelude::*;

verus! {

/// One pre-provisioned slot of a chain: a bundle address and the auction
/// address derived from it.
#[derive(Clone, Copy, Debug, PartialEq, Eq)]
pub struct BundlePair {
    pub bundle: Address,
    pub auction: Address,
}

/// The view of an optional address as the object the spec functions speak of.
pub open spec fn opt_addr_view(r: Option<Address>) -> Option<Seq<u8>> {
    match r {
        Some(a) => Some(a@),
        None => None,
    }
}

/// The successor of a bundle address: the address derived from the
/// request-bundle seed prefix and the predecessor's bytes.
pub open spec fn spec_next_bundle(prev: Seq<u8>, service: Seq<u8>) -> Option<Seq<u8>> {
    match spec_derive(seq![request_bundle_seed_spec(), prev], service) {
        Some(p) => Some(p.0),
        None => None,
    }
}

/// The auction address of a bundle: derived 1:1 from the bundle's bytes
/// under the auction seed prefix.
pub open spec fn spec_auction_of(bundle: Seq<u8>, service: Seq<u8>) -> Option<Seq<u8>> {
    match spec_derive(seq![auction_seed_spec(), bundle], service) {
        Some(p) => Some(p.0),
        None => None,
    }
}

/// Builds the two-seed list of a prefix and an address's bytes.
fn seed_pair(prefix: Vec<u8>, key: &Address) -> (r: Vec<Vec<u8>>)
    ensures
        r.deep_view() == seq![prefix@, key@],
{
    let mut seeds: Vec<Vec<u8>> = Vec::new();
    seeds.push(prefix);
    seeds.push(vstd::slice::slice_to_vec(key.bytes.as_slice()));
    proof {
        assert(seeds.deep_view() =~~= seq![prefix@, key@]);
    }
    seeds
}

/// Derives the successor bundle address of `prev`, `None` on derivation
/// failure.
pub fn next_bundle(prev: &Address, service: &Address) -> (r: Option<Address>)
    ensures
        opt_addr_view(r) == spec_next_bundle(prev@, service@),
{
    let seeds = seed_pair(request_bundle_seed(), prev);
    match crate::addr::derive(&seeds, service) {
        Some(p) => Some(p.0),
        None => None,
    }
}

/// Derives the auction address of a bundle, `None` on derivation failure.
pub fn auction_of(bundle: &Address, service: &Address) -> (r: Option<Address>)
    ensures
        opt_addr_view(r) == spec_auction_of(bundle@, service@),
{
    let seeds = seed_pair(auction_seed(), bundle);
    match crate::addr::derive(&seeds, service) {
        Some(p) => Some(p.0),
        None => None,
    }
}

/// The planned chain of depth `n` from `root`: `n + 1` (bundle, auction)
/// address pairs, the root's pair first, each later bundle the successor of
/// the one before it; `None` as soon as any derivation fails.
pub open spec fn spec_plan(root: Seq<u8>, n: nat, service: Seq<u8>) -> Option<
    Seq<(Seq<u8>, Seq<u8>)>,
>
    decreases n,
{
    if n == 0 {
        match spec_auction_of(root, service) {
            Some(a) => Some(seq![(root, a)]),
            None => None,
        }
    } else {
        match spec_plan(root, (n - 1) as nat, service) {
            Some(s) => match spec_next_bundle(s.last().0, service) {
                Some(b) => match spec_auction_of(b, service) {
                    Some(a) => Some(s.push((b, a))),
                    None => None,
                },
                None => None,
            },
            None => None,
        }
    }
}

/// The view of a planned chain as the pair sequence [`spec_plan`] speaks of.
pub open spec fn pairs_view(v: Seq<BundlePair>) -> Seq<(Seq<u8>, Seq<u8>)> {
    v.map_values(|p: BundlePair| (p.bundle@, p.auction@))
}

/// The view of an optional planned chain.
pub open spec fn plan_view(r: Option<Vec<BundlePair>>) -> Option<Seq<(Seq<u8>, Seq<u8>)>> {
    match r {
        Some(v) => Some(pairs_view(v@)),
        None => None,
    }
}

/// A failed plan stays failed at every greater depth: the chain is a prefix
/// recurrence, so a derivation failure at one link fails every longer plan.
proof fn lemma_plan_fails_onward(root: Seq<u8>, service: Seq<u8>, i: nat, m: nat)
    requires
        i <= m,
        spec_plan(root, i, service) is None,
    ensures
        spec_plan(root, m, service) is None,
    decreases m,
{
    if m > i {
        lemma_plan_fails_onward(root, service, i, (m - 1) as nat);
    }
}

/// Plans the bundle chain of depth `depth` from `root`: the root's
/// (bundle, auction) pair followed by `depth` successor pairs, in chain
/// order. Returns `None` exactly when some derivation along the chain
/// fails.
pub fn plan_chain(root: &Address, depth: usize, service: &Address) -> (r: Option<Vec<BundlePair>>)
    ensures
        plan_view(r) == spec_plan(root@, depth as nat, service@),
{
    let root_auction = match auction_of(root, service) {
        Some(a) => a,
        None => {
            proof {
                lemma_plan_fails_onward(root@, service@, 0, depth as nat);
            }
            return None;
        },
    };
    let mut out: Vec<BundlePair> = Vec::new();
    out.push(BundlePair { bundle: *root, auction: root_auction });
    proof {
        assert(pairs_view(out@) =~= seq![(root@, root_auction@)]);
    }
    let mut last: Address = *root;
    let mut i: usize = 0;
    while i < depth
        invariant
            i <= depth,
            out@.len() == i + 1,
            Some(pairs_view(out@)) == spec_plan(root@, i as nat, service@),
            last == out@.last().bundle,
        decreases depth - i,
    {
        let b = match next_bundle(&last, service) {
            Some(b) => b,
            None => {
                proof {
                    assert(pairs_view(out@).last().0 == last@);
                    lemma_plan_fails_onward(root@, service@, (i + 1) as nat, depth as nat);
                }
                return None;
            },
        };
        let a = match auction_of(&b, service) {
            Some(a) => a,
            None => {
                proof {
                    assert(pairs_view(out@).last().0 == last@);
                    lemma_plan_fails_onward(root@, service@, (i + 1) as nat, depth as nat);
                }
                return None;
            },
        };
        let ghost pre = pairs_view(out@);
        out.push(BundlePair { bundle: b, auction: a });
        proof {
            assert(pairs_view(out@) =~= pre.push((b@, a@)));
            assert(pre.last().0 == last@);
        }
        last = b;
        i += 1;
    }
    Some(out)
}

/// Chain composition: in a successfully planned chain of depth `n` the pair
/// list has exactly `n + 1` entries, starts at the root, every later bundle
/// is derived from its predecessor by the successor step, and every pair
/// carries the auction derived from its own bundle.
pub proof fn lemma_chain_composition(
    root: Seq<u8>,
    service: Seq<u8>,
    n: nat,
    plan: Seq<(Seq<u8>, Seq<u8>)>,
)
    requires
        spec_plan(root, n, service) == Some(plan),
    ensures
        plan.len() == n + 1,
        plan[0].0 == root,
        forall|i: int| 0 <= i < n ==> Some(#[trigger] plan[i + 1].0) == spec_next_bundle(
            plan[i].0,
            service,
        ),
        forall|i: int| 0 <= i <= n ==> Some(#[trigger] plan[i].1) == spec_auction_of(
            plan[i].0,
            service,
        ),
    decreases n,
{
    if n == 0 {
    } else {
        let prev = spec_plan(root, (n - 1) as nat, service)->Some_0;
        lemma_chain_composition(root, service, (n - 1) as nat, prev);
        assert(plan =~= prev.push((plan.last().0, plan.last().1)));
        assert(forall|i: int| 0 <= i < n ==> plan[i] == prev[i]);
    }
}

} // verus!
