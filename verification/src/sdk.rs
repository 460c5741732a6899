//! Instruction builders, one per opcode.
//!
//! Each builder computes every address its opcode needs, encodes the typed
//! arguments, and assembles the target service id, the ordered account
//! reference list and the payload into one [`Instruction`]. The account
//! order within an instruction is part of the opcode's schema: the engine
//! indexes accounts positionally, so no slot is ever reordered or omitted —
//! an absent optional account is filled with the all-zero sentinel address.
//! A builder whose opcode needs derived addresses returns `None` exactly
//! when one of those derivations fails.

use crate::addr::Address;
use crate::addr::derived_view;
use crate::addr::sentinel;
use crate::addr::sentinel_spec;
use crate::addr::spec_derive;
use crate::addr::truncate_seed;
use crate::chain::pairs_view;
use crate::chain::spec_auction_of;
use crate::chain::spec_next_bundle;
use crate::chain::spec_plan;
use crate::commit::spec_commit;
use crate::ids::bid_seed;
use crate::ids::bid_seed_spec;
use crate::ids::bundle_registry_seed;
use crate::ids::bundle_registry_seed_spec;
use crate::ids::config_seed;
use crate::ids::config_seed_spec;
use crate::ids::request_bundle_seed;
use crate::ids::request_bundle_seed_spec;
use crate::ids::service_id;
use crate::ids::service_id_spec;
use crate::ids::system_program_id;
use crate::ids::vote_program_id;
use crate::ids::vote_program_id_spec;
use crate::payload::AppendDataArgs;
use crate::payload::CancelBundleArgs;
use crate::payload::CloseRequestArgs;
use crate::payload::InitBundleArgs;
use crate::payload::InitConfigArgs;
use crate::payload::IpAddress;
use crate::payload::PlaceBidArgs;
use crate::payload::RequestJobArgs;
use crate::payload::RevealBidArgs;
use crate::payload::SubmitJobOutputArgs;
use crate::payload::SubmitValidationArgs;
use crate::payload::spec_append_data_bytes;
use crate::payload::spec_opt_u64_value;
use crate::payload::spec_place_bid_bytes;
use crate::payload::spec_request_job_bytes;
use crate::tier::RequestTier;
use crate::tier::spec_encode;
use vstd::prelude::*;
use vstd::slice::slice_to_vec;

verus! {

/// One entry of an instruction's ordered account list.
#[derive(Clone, Copy, Debug, PartialEq, Eq)]
pub struct AccountRef {
    pub address: Address,
    pub is_mutable: bool,
    pub is_signer: bool,
}

/// The wire artifact: a target service id, an ordered account reference
/// list, and the encoded payload bytes.
#[derive(Debug)]
pub struct Instruction {
    pub service_id: Address,
    pub accounts: Vec<AccountRef>,
    pub payload: Vec<u8>,
}

/// The view of one account reference: address bytes, mutability, signer.
pub open spec fn account_view(a: AccountRef) -> (Seq<u8>, bool, bool) {
    (a.address@, a.is_mutable, a.is_signer)
}

/// The view of an ordered account list.
pub open spec fn accounts_view(s: Seq<AccountRef>) -> Seq<(Seq<u8>, bool, bool)> {
    s.map_values(|a: AccountRef| account_view(a))
}

/// Composes a target service id, an ordered account reference list and an
/// encoded payload into one instruction. The assembler validates nothing:
/// order and cardinality are each opcode-specific builder's responsibility.
pub fn assemble(service_id: Address, accounts: Vec<AccountRef>, payload: Vec<u8>) -> (r:
    Instruction)
    ensures
        r.service_id == service_id,
        r.accounts == accounts,
        r.payload == payload,
{
    Instruction { service_id, accounts, payload }
}

/// The bytes of an address as a seed.
fn addr_vec(a: &Address) -> (r: Vec<u8>)
    ensures
        r@ == a@,
{
    slice_to_vec(a.bytes.as_slice())
}

/// The bid record's derivation: from the bid seed prefix, the auction
/// address, and the bidder's address, under the service id.
pub open spec fn spec_bid_key(auction: Seq<u8>, authority: Seq<u8>) -> Option<(Seq<u8>, u8)> {
    spec_derive(seq![bid_seed_spec(), auction, authority], service_id_spec())
}

/// Derives the bid record address for an auction and a bidder.
fn derive_bid_key(auction: &Address, authority: &Address) -> (r: Option<(Address, u8)>)
    ensures
        derived_view(r) == spec_bid_key(auction@, authority@),
{
    let mut seeds: Vec<Vec<u8>> = Vec::new();
    seeds.push(bid_seed());
    seeds.push(addr_vec(auction));
    seeds.push(addr_vec(authority));
    proof {
        assert(seeds.deep_view() =~~= seq![bid_seed_spec(), auction@, authority@]);
    }
    crate::addr::derive(&seeds, &service_id())
}

/// The bundle registry's derivation: one record per (context tier, expiry
/// tier) pair, keyed by the canonical tier encodings.
pub open spec fn spec_registry_key(
    context_length_tier: RequestTier,
    expiry_duration_tier: RequestTier,
) -> Option<(Seq<u8>, u8)> {
    spec_derive(
        seq![
            bundle_registry_seed_spec(),
            spec_encode(context_length_tier),
            spec_encode(expiry_duration_tier),
        ],
        service_id_spec(),
    )
}

/// Derives the bundle registry address for a tier pair.
fn derive_registry_key(
    context_length_tier: RequestTier,
    expiry_duration_tier: RequestTier,
) -> (r: Option<(Address, u8)>)
    ensures
        derived_view(r) == spec_registry_key(context_length_tier, expiry_duration_tier),
{
    let mut seeds: Vec<Vec<u8>> = Vec::new();
    seeds.push(bundle_registry_seed());
    seeds.push(crate::tier::encode(context_length_tier));
    seeds.push(crate::tier::encode(expiry_duration_tier));
    proof {
        assert(seeds.deep_view() =~~= seq![
            bundle_registry_seed_spec(),
            spec_encode(context_length_tier),
            spec_encode(expiry_duration_tier),
        ]);
    }
    crate::addr::derive(&seeds, &service_id())
}

/// A bundle's child derivation: the successor bundle together with its
/// bump, from the request-bundle seed prefix and the parent's bytes.
pub open spec fn spec_child_bundle_key(bundle: Seq<u8>) -> Option<(Seq<u8>, u8)> {
    spec_derive(seq![request_bundle_seed_spec(), bundle], service_id_spec())
}

/// Derives a bundle's child bundle address and bump.
fn derive_child_bundle_key(bundle: &Address) -> (r: Option<(Address, u8)>)
    ensures
        derived_view(r) == spec_child_bundle_key(bundle@),
{
    let mut seeds: Vec<Vec<u8>> = Vec::new();
    seeds.push(request_bundle_seed());
    seeds.push(addr_vec(bundle));
    proof {
        assert(seeds.deep_view() =~~= seq![request_bundle_seed_spec(), bundle@]);
    }
    crate::addr::derive(&seeds, &service_id())
}

/// The first bundle of a tier pair: derived from the request-bundle seed
/// prefix and the canonical tier encodings.
pub open spec fn spec_tier_bundle_key(
    context_length_tier: RequestTier,
    expiry_duration_tier: RequestTier,
) -> Option<(Seq<u8>, u8)> {
    spec_derive(
        seq![
            request_bundle_seed_spec(),
            spec_encode(context_length_tier),
            spec_encode(expiry_duration_tier),
        ],
        service_id_spec(),
    )
}

/// Derives the first bundle address of a tier pair.
fn derive_tier_bundle_key(
    context_length_tier: RequestTier,
    expiry_duration_tier: RequestTier,
) -> (r: Option<(Address, u8)>)
    ensures
        derived_view(r) == spec_tier_bundle_key(context_length_tier, expiry_duration_tier),
{
    let mut seeds: Vec<Vec<u8>> = Vec::new();
    seeds.push(request_bundle_seed());
    seeds.push(crate::tier::encode(context_length_tier));
    seeds.push(crate::tier::encode(expiry_duration_tier));
    proof {
        assert(seeds.deep_view() =~~= seq![
            request_bundle_seed_spec(),
            spec_encode(context_length_tier),
            spec_encode(expiry_duration_tier),
        ]);
    }
    crate::addr::derive(&seeds, &service_id())
}

/// The singleton global config record's derivation.
pub open spec fn spec_config_key() -> Option<(Seq<u8>, u8)> {
    spec_derive(seq![config_seed_spec()], service_id_spec())
}

/// Derives the singleton global config address.
fn derive_config_key() -> (r: Option<(Address, u8)>)
    ensures
        derived_view(r) == spec_config_key(),
{
    let mut seeds: Vec<Vec<u8>> = Vec::new();
    seeds.push(config_seed());
    proof {
        assert(seeds.deep_view() =~~= seq![config_seed_spec()]);
    }
    crate::addr::derive(&seeds, &service_id())
}

/// How many of a seed's bytes survive the 32-byte cap.
pub open spec fn spec_seed_used_len(s: Seq<u8>) -> nat {
    if s.len() <= 32 {
        s.len()
    } else {
        32
    }
}

/// A seed padded with zeros to exactly 32 bytes, after the 32-byte cap.
pub open spec fn spec_padded_seed(s: Seq<u8>) -> Seq<u8> {
    truncate_seed(s) + Seq::new((32 - spec_seed_used_len(s)) as nat, |i: int| 0u8)
}

/// Caps a seed at 32 bytes and pads it with zeros to exactly 32.
fn padded_seed(s: &Vec<u8>) -> (r: Vec<u8>)
    ensures
        r@ == spec_padded_seed(s@),
        r@.len() == 32,
{
    let mut out = crate::addr::truncated(s);
    let n = out.len();
    let mut i: usize = n;
    while i < 32
        invariant
            n <= i <= 32,
            out@ == truncate_seed(s@) + Seq::new((i - n) as nat, |j: int| 0u8),
            n == spec_seed_used_len(s@),
        decreases 32 - i,
    {
        out.push(0u8);
        proof {
            assert(out@ =~= truncate_seed(s@) + Seq::new((i + 1 - n) as nat, |j: int| 0u8));
        }
        i += 1;
    }
    out
}

/// Builds the append-data instruction: attach a chunk of large off-band
/// data at an offset. The seed is capped at 32 bytes (a longer one keeps
/// its first 32) and zero-padded to exactly 32 on the wire; the payload
/// carries the argument layout followed by the chunk itself.
pub fn append_data(
    payer: Address,
    account_data: &Vec<u8>,
    seed: &Vec<u8>,
    offset: u64,
    data_account_key: Address,
    decompressed_data_length: Option<u64>,
) -> (r: Instruction)
    requires
        decompressed_data_length matches Some(v) ==> v != 0,
    ensures
        r.service_id@ == service_id_spec(),
        accounts_view(r.accounts@) == seq![
            (payer@, true, true),
            (data_account_key@, true, false),
            (sentinel_spec(), false, false),
        ],
        r.payload@ == spec_append_data_bytes(
            offset,
            spec_padded_seed(seed@),
            spec_seed_used_len(seed@) as u64,
            spec_opt_u64_value(decompressed_data_length),
        ) + account_data@,
{
    let seed_len: usize = if seed.len() <= 32 {
        seed.len()
    } else {
        32
    };
    let padded = padded_seed(seed);
    let args = AppendDataArgs {
        offset,
        seed: padded,
        seed_len: seed_len as u64,
        decompressed_data_length,
    };
    let mut payload = args.to_bytes();
    let mut data = slice_to_vec(account_data.as_slice());
    payload.append(&mut data);

    let mut accounts: Vec<AccountRef> = Vec::new();
    accounts.push(AccountRef { address: payer, is_mutable: true, is_signer: true });
    accounts.push(AccountRef { address: data_account_key, is_mutable: true, is_signer: false });
    accounts.push(AccountRef { address: system_program_id(), is_mutable: false, is_signer: false });
    proof {
        assert(accounts_view(accounts@) =~~= seq![
            (payer@, true, true),
            (data_account_key@, true, false),
            (sentinel_spec(), false, false),
        ]);
    }
    assemble(service_id(), accounts, payload)
}

/// Builds the place-bid instruction: submit a sealed bid. The price is
/// sealed under the bidder-chosen hash seed before anything else, so the
/// payload carries only the commitment, never the price. Returns `None`
/// exactly when the bid record's derivation fails.
pub fn place_bid(
    authority: Address,
    auction: Address,
    price_per_output_token: u64,
    price_hash_seed: [u8; 32],
    endpoint: (IpAddress, u16),
    node_encryption_publickey: Option<[u8; 32]>,
) -> (r: Option<Instruction>)
    ensures
        r is Some <==> spec_bid_key(auction@, authority@) is Some,
        r matches Some(ins) ==> {
            &&& ins.service_id@ == service_id_spec()
            &&& accounts_view(ins.accounts@) == seq![
                (authority@, true, true),
                (spec_bid_key(auction@, authority@)->Some_0.0, true, false),
                (auction@, true, false),
                (sentinel_spec(), false, false),
            ]
            &&& ins.payload@ == spec_place_bid_bytes(
                spec_commit(price_hash_seed@, price_per_output_token),
                authority@,
                endpoint.0,
                endpoint.1,
                node_encryption_publickey,
            )
        },
{
    let price_commitment = crate::commit::commit(&price_hash_seed, price_per_output_token);
    let bid = match derive_bid_key(&auction, &authority) {
        Some(p) => p.0,
        None => {
            return None;
        },
    };
    let args = PlaceBidArgs {
        price_commitment,
        authority: authority.bytes,
        ip: endpoint.0,
        port: endpoint.1,
        node_encryption_publickey,
    };
    let mut accounts: Vec<AccountRef> = Vec::new();
    accounts.push(AccountRef { address: authority, is_mutable: true, is_signer: true });
    accounts.push(AccountRef { address: bid, is_mutable: true, is_signer: false });
    accounts.push(AccountRef { address: auction, is_mutable: true, is_signer: false });
    accounts.push(AccountRef { address: system_program_id(), is_mutable: false, is_signer: false });
    proof {
        assert(accounts_view(accounts@) =~~= seq![
            (authority@, true, true),
            (spec_bid_key(auction@, authority@)->Some_0.0, true, false),
            (auction@, true, false),
            (sentinel_spec(), false, false),
        ]);
    }
    Some(assemble(service_id(), accounts, args.to_bytes()))
}

/// Builds the reveal-bid instruction: disclose the committed price.
/// Returns `None` exactly when the bid record's derivation fails.
pub fn reveal_bid(
    bidder_key: Address,
    auction_key: Address,
    bundle_key: Address,
    vote_account: Address,
    vote_authority: Address,
    args: RevealBidArgs,
) -> (r: Option<Instruction>)
    ensures
        r is Some <==> spec_bid_key(auction_key@, bidder_key@) is Some,
        r matches Some(ins) ==> {
            &&& ins.service_id@ == service_id_spec()
            &&& accounts_view(ins.accounts@) == seq![
                (bidder_key@, true, true),
                (spec_bid_key(auction_key@, bidder_key@)->Some_0.0, true, false),
                (auction_key@, true, false),
                (bundle_key@, true, false),
                (vote_account@, true, false),
                (vote_authority@, true, true),
            ]
            &&& ins.payload@ == args.spec_bytes()
        },
{
    let bid = match derive_bid_key(&auction_key, &bidder_key) {
        Some(p) => p.0,
        None => {
            return None;
        },
    };
    let mut accounts: Vec<AccountRef> = Vec::new();
    accounts.push(AccountRef { address: bidder_key, is_mutable: true, is_signer: true });
    accounts.push(AccountRef { address: bid, is_mutable: true, is_signer: false });
    accounts.push(AccountRef { address: auction_key, is_mutable: true, is_signer: false });
    accounts.push(AccountRef { address: bundle_key, is_mutable: true, is_signer: false });
    accounts.push(AccountRef { address: vote_account, is_mutable: true, is_signer: false });
    accounts.push(AccountRef { address: vote_authority, is_mutable: true, is_signer: true });
    proof {
        assert(accounts_view(accounts@) =~~= seq![
            (bidder_key@, true, true),
            (spec_bid_key(auction_key@, bidder_key@)->Some_0.0, true, false),
            (auction_key@, true, false),
            (bundle_key@, true, false),
            (vote_account@, true, false),
            (vote_authority@, true, true),
        ]);
    }
    Some(assemble(service_id(), accounts, args.to_bytes()))
}

/// The pair of derived keys the submit-job-output instruction needs: the
/// bundle's auction, then the caller's bid under that auction.
pub open spec fn spec_submit_job_keys(bundle: Seq<u8>, authority: Seq<u8>) -> Option<
    (Seq<u8>, Seq<u8>),
> {
    match spec_auction_of(bundle, service_id_spec()) {
        Some(a) => match spec_bid_key(a, authority) {
            Some(b) => Some((a, b.0)),
            None => None,
        },
        None => None,
    }
}

/// Builds the submit-job-output instruction: the winning provider submits
/// results. The output-data account is required when the request used an
/// input-data account; an absent one is filled with the all-zero sentinel.
/// Returns `None` exactly when the auction or bid derivation fails.
pub fn submit_job(
    authority: Address,
    bundle_key: Address,
    job_request_key: Address,
    data: SubmitJobOutputArgs,
    output_data_account: Option<Address>,
) -> (r: Option<Instruction>)
    ensures
        r is Some <==> spec_submit_job_keys(bundle_key@, authority@) is Some,
        r matches Some(ins) ==> {
            &&& ins.service_id@ == service_id_spec()
            &&& accounts_view(ins.accounts@) == seq![
                (authority@, true, true),
                (bundle_key@, true, false),
                (job_request_key@, true, false),
                (spec_submit_job_keys(bundle_key@, authority@)->Some_0.1, false, false),
                (spec_submit_job_keys(bundle_key@, authority@)->Some_0.0, false, false),
                (
                    match output_data_account {
                        Some(a) => a@,
                        None => sentinel_spec(),
                    },
                    true,
                    false,
                ),
            ]
            &&& ins.payload@ == data.spec_bytes()
        },
{
    let sid = service_id();
    let auction_key = match crate::chain::auction_of(&bundle_key, &sid) {
        Some(a) => a,
        None => {
            return None;
        },
    };
    let bid_key = match derive_bid_key(&auction_key, &authority) {
        Some(p) => p.0,
        None => {
            return None;
        },
    };
    let output_key = match output_data_account {
        Some(a) => a,
        None => sentinel(),
    };
    let mut accounts: Vec<AccountRef> = Vec::new();
    accounts.push(AccountRef { address: authority, is_mutable: true, is_signer: true });
    accounts.push(AccountRef { address: bundle_key, is_mutable: true, is_signer: false });
    accounts.push(AccountRef { address: job_request_key, is_mutable: true, is_signer: false });
    accounts.push(AccountRef { address: bid_key, is_mutable: false, is_signer: false });
    accounts.push(AccountRef { address: auction_key, is_mutable: false, is_signer: false });
    accounts.push(AccountRef { address: output_key, is_mutable: true, is_signer: false });
    proof {
        assert(accounts_view(accounts@) =~~= seq![
            (authority@, true, true),
            (bundle_key@, true, false),
            (job_request_key@, true, false),
            (spec_submit_job_keys(bundle_key@, authority@)->Some_0.1, false, false),
            (spec_submit_job_keys(bundle_key@, authority@)->Some_0.0, false, false),
            (
                match output_data_account {
                    Some(a) => a@,
                    None => sentinel_spec(),
                },
                true,
                false,
            ),
        ]);
    }
    Some(assemble(sid, accounts, data.to_bytes()))
}

/// Builds the end-auction instruction: finalize an auction. Returns `None`
/// exactly when the auction derivation fails.
pub fn end_auction(signer: Address, bundle_key: Address, vote_account: Address) -> (r: Option<
    Instruction,
>)
    ensures
        r is Some <==> spec_auction_of(bundle_key@, service_id_spec()) is Some,
        r matches Some(ins) ==> {
            &&& ins.service_id@ == service_id_spec()
            &&& accounts_view(ins.accounts@) == seq![
                (spec_auction_of(bundle_key@, service_id_spec())->Some_0, true, false),
                (bundle_key@, true, false),
                (vote_account@, true, false),
                (signer@, true, true),
            ]
            &&& ins.payload@ == (crate::payload::EndAuctionArgs {  }).spec_bytes()
        },
{
    let sid = service_id();
    let auction_key = match crate::chain::auction_of(&bundle_key, &sid) {
        Some(a) => a,
        None => {
            return None;
        },
    };
    let mut accounts: Vec<AccountRef> = Vec::new();
    accounts.push(AccountRef { address: auction_key, is_mutable: true, is_signer: false });
    accounts.push(AccountRef { address: bundle_key, is_mutable: true, is_signer: false });
    accounts.push(AccountRef { address: vote_account, is_mutable: true, is_signer: false });
    accounts.push(AccountRef { address: signer, is_mutable: true, is_signer: true });
    proof {
        assert(accounts_view(accounts@) =~~= seq![
            (spec_auction_of(bundle_key@, service_id_spec())->Some_0, true, false),
            (bundle_key@, true, false),
            (vote_account@, true, false),
            (signer@, true, true),
        ]);
    }
    let args = crate::payload::EndAuctionArgs {  };
    Some(assemble(sid, accounts, args.to_bytes()))
}

/// Builds the close-bid instruction: close a settled bid. Every account is
/// supplied by the caller, so this builder always succeeds.
pub fn close_bid(
    bid_authority: Address,
    auction_payer: Address,
    bid_key: Address,
    auction_key: Address,
    bundle_key: Address,
    vote_account: Address,
    vote_authority: Address,
) -> (r: Instruction)
    ensures
        r.service_id@ == service_id_spec(),
        accounts_view(r.accounts@) == seq![
            (bid_authority@, true, true),
            (bid_key@, false, false),
            (auction_payer@, true, true),
            (auction_key@, true, false),
            (bundle_key@, false, false),
            (vote_account@, true, false),
            (vote_authority@, true, true),
            (vote_program_id_spec(), false, false),
        ],
        r.payload@ == (crate::payload::CloseBidArgs {  }).spec_bytes(),
{
    let mut accounts: Vec<AccountRef> = Vec::new();
    accounts.push(AccountRef { address: bid_authority, is_mutable: true, is_signer: true });
    accounts.push(AccountRef { address: bid_key, is_mutable: false, is_signer: false });
    accounts.push(AccountRef { address: auction_payer, is_mutable: true, is_signer: true });
    accounts.push(AccountRef { address: auction_key, is_mutable: true, is_signer: false });
    accounts.push(AccountRef { address: bundle_key, is_mutable: false, is_signer: false });
    accounts.push(AccountRef { address: vote_account, is_mutable: true, is_signer: false });
    accounts.push(AccountRef { address: vote_authority, is_mutable: true, is_signer: true });
    accounts.push(AccountRef { address: vote_program_id(), is_mutable: false, is_signer: false });
    proof {
        assert(accounts_view(accounts@) =~~= seq![
            (bid_authority@, true, true),
            (bid_key@, false, false),
            (auction_payer@, true, true),
            (auction_key@, true, false),
            (bundle_key@, false, false),
            (vote_account@, true, false),
            (vote_authority@, true, true),
            (vote_program_id_spec(), false, false),
        ]);
    }
    let args = crate::payload::CloseBidArgs {  };
    assemble(service_id(), accounts, args.to_bytes())
}

/// Builds the submit-validation instruction: a correctness attestation.
/// Every account is supplied by the caller, so this builder always
/// succeeds.
pub fn submit_validation(
    bundle_key: Address,
    vote_account: Address,
    vote_authority: Address,
    job_request_key: Address,
    data: SubmitValidationArgs,
) -> (r: Instruction)
    ensures
        r.service_id@ == service_id_spec(),
        accounts_view(r.accounts@) == seq![
            (bundle_key@, true, false),
            (vote_account@, true, false),
            (vote_program_id_spec(), false, false),
            (vote_authority@, true, true),
            (job_request_key@, true, false),
        ],
        r.payload@ == data.spec_bytes(),
{
    let mut accounts: Vec<AccountRef> = Vec::new();
    accounts.push(AccountRef { address: bundle_key, is_mutable: true, is_signer: false });
    accounts.push(AccountRef { address: vote_account, is_mutable: true, is_signer: false });
    accounts.push(AccountRef { address: vote_program_id(), is_mutable: false, is_signer: false });
    accounts.push(AccountRef { address: vote_authority, is_mutable: true, is_signer: true });
    accounts.push(AccountRef { address: job_request_key, is_mutable: true, is_signer: false });
    proof {
        assert(accounts_view(accounts@) =~~= seq![
            (bundle_key@, true, false),
            (vote_account@, true, false),
            (vote_program_id_spec(), false, false),
            (vote_authority@, true, true),
            (job_request_key@, true, false),
        ]);
    }
    assemble(service_id(), accounts, data.to_bytes())
}

/// Builds the cancel-bundle instruction: cancel a bundle and its
/// pre-provisioned child. Returns `None` exactly when the registry or
/// child-bundle derivation fails.
pub fn cancel_bundle(
    signer: Address,
    parent_bundle_key: Address,
    bundle_key: Address,
    bundle_bump: u8,
    context_length_tier: RequestTier,
    expiry_duration_tier: RequestTier,
    bundle_lamports: u64,
) -> (r: Option<Instruction>)
    ensures
        r is Some <==> (spec_registry_key(context_length_tier, expiry_duration_tier) is Some
            && spec_child_bundle_key(bundle_key@) is Some),
        r matches Some(ins) ==> {
            &&& ins.service_id@ == service_id_spec()
            &&& accounts_view(ins.accounts@) == seq![
                (signer@, true, true),
                (bundle_key@, true, false),
                (spec_child_bundle_key(bundle_key@)->Some_0.0, true, false),
                (
                    spec_registry_key(context_length_tier, expiry_duration_tier)->Some_0.0,
                    true,
                    false,
                ),
                (sentinel_spec(), false, false),
            ]
            &&& ins.payload@ == (CancelBundleArgs {
                parent_bundle_key: parent_bundle_key.bytes,
                bundle_bump: bundle_bump as u64,
                context_length_tier,
                expiry_duration_tier,
                child_bundle_bump: spec_child_bundle_key(bundle_key@)->Some_0.1 as u64,
                bundle_lamports,
            }).spec_bytes()
        },
{
    let registry = match derive_registry_key(context_length_tier, expiry_duration_tier) {
        Some(p) => p.0,
        None => {
            return None;
        },
    };
    let (child_bundle, child_bundle_bump) = match derive_child_bundle_key(&bundle_key) {
        Some(p) => p,
        None => {
            return None;
        },
    };
    let mut accounts: Vec<AccountRef> = Vec::new();
    accounts.push(AccountRef { address: signer, is_mutable: true, is_signer: true });
    accounts.push(AccountRef { address: bundle_key, is_mutable: true, is_signer: false });
    accounts.push(AccountRef { address: child_bundle, is_mutable: true, is_signer: false });
    accounts.push(AccountRef { address: registry, is_mutable: true, is_signer: false });
    accounts.push(AccountRef { address: system_program_id(), is_mutable: false, is_signer: false });
    proof {
        assert(accounts_view(accounts@) =~~= seq![
            (signer@, true, true),
            (bundle_key@, true, false),
            (spec_child_bundle_key(bundle_key@)->Some_0.0, true, false),
            (spec_registry_key(context_length_tier, expiry_duration_tier)->Some_0.0, true, false),
            (sentinel_spec(), false, false),
        ]);
    }
    let args = CancelBundleArgs {
        parent_bundle_key: parent_bundle_key.bytes,
        bundle_bump: bundle_bump as u64,
        context_length_tier,
        expiry_duration_tier,
        child_bundle_bump: child_bundle_bump as u64,
        bundle_lamports,
    };
    Some(assemble(service_id(), accounts, args.to_bytes()))
}

/// The caller-supplied pieces of a close-request instruction.
pub struct CloseRequest {
    pub request_authority: Address,
    pub job_request_key: Address,
    pub bundle_payer: Address,
    pub bundle_key: Address,
    pub auction_key: Address,
    pub auction_payer: Address,
    pub context_length_tier: RequestTier,
    pub expiry_duration_tier: RequestTier,
    pub new_bundle_lamports: u64,
    pub new_auction_lamports: u64,
}

/// Builds the close-request instruction: close a fulfilled job request and
/// provision its replacement bundle/auction pair. The request authority
/// pays for the replacement. Returns `None` exactly when the registry,
/// child-bundle or child-auction derivation fails.
pub fn close_request(args: CloseRequest) -> (r: Option<Instruction>)
    ensures
        r is Some <==> (spec_registry_key(args.context_length_tier, args.expiry_duration_tier)
            is Some && spec_child_bundle_key(args.bundle_key@) is Some && spec_auction_of(
            spec_child_bundle_key(args.bundle_key@)->Some_0.0,
            service_id_spec(),
        ) is Some),
        r matches Some(ins) ==> {
            &&& ins.service_id@ == service_id_spec()
            &&& accounts_view(ins.accounts@) == seq![
                (args.request_authority@, true, true),
                (args.job_request_key@, true, false),
                (args.bundle_payer@, true, false),
                (args.bundle_key@, true, false),
                (
                    spec_registry_key(
                        args.context_length_tier,
                        args.expiry_duration_tier,
                    )->Some_0.0,
                    true,
                    false,
                ),
                (args.auction_key@, true, false),
                (args.auction_payer@, true, false),
                (spec_child_bundle_key(args.bundle_key@)->Some_0.0, true, false),
                (
                    spec_auction_of(
                        spec_child_bundle_key(args.bundle_key@)->Some_0.0,
                        service_id_spec(),
                    )->Some_0,
                    true,
                    false,
                ),
                (args.request_authority@, true, true),
            ]
            &&& ins.payload@ == (CloseRequestArgs {
                new_bundle_lamports: args.new_bundle_lamports,
                new_auction_lamports: args.new_auction_lamports,
                new_bundle_bump: spec_child_bundle_key(args.bundle_key@)->Some_0.1 as u64,
            }).spec_bytes()
        },
{
    let sid = service_id();
    let registry = match derive_registry_key(args.context_length_tier, args.expiry_duration_tier) {
        Some(p) => p.0,
        None => {
            return None;
        },
    };
    let (child_bundle_key, new_bundle_bump) = match derive_child_bundle_key(&args.bundle_key) {
        Some(p) => p,
        None => {
            return None;
        },
    };
    let child_auction_key = match crate::chain::auction_of(&child_bundle_key, &sid) {
        Some(a) => a,
        None => {
            return None;
        },
    };
    let mut accounts: Vec<AccountRef> = Vec::new();
    accounts.push(
        AccountRef { address: args.request_authority, is_mutable: true, is_signer: true },
    );
    accounts.push(AccountRef { address: args.job_request_key, is_mutable: true, is_signer: false });
    accounts.push(AccountRef { address: args.bundle_payer, is_mutable: true, is_signer: false });
    accounts.push(AccountRef { address: args.bundle_key, is_mutable: true, is_signer: false });
    accounts.push(AccountRef { address: registry, is_mutable: true, is_signer: false });
    accounts.push(AccountRef { address: args.auction_key, is_mutable: true, is_signer: false });
    accounts.push(AccountRef { address: args.auction_payer, is_mutable: true, is_signer: false });
    accounts.push(AccountRef { address: child_bundle_key, is_mutable: true, is_signer: false });
    accounts.push(AccountRef { address: child_auction_key, is_mutable: true, is_signer: false });
    accounts.push(
        AccountRef { address: args.request_authority, is_mutable: true, is_signer: true },
    );
    proof {
        assert(accounts_view(accounts@) =~~= seq![
            (args.request_authority@, true, true),
            (args.job_request_key@, true, false),
            (args.bundle_payer@, true, false),
            (args.bundle_key@, true, false),
            (spec_registry_key(args.context_length_tier, args.expiry_duration_tier)->Some_0.0,
            true, false),
            (args.auction_key@, true, false),
            (args.auction_payer@, true, false),
            (spec_child_bundle_key(args.bundle_key@)->Some_0.0, true, false),
            (
                spec_auction_of(
                    spec_child_bundle_key(args.bundle_key@)->Some_0.0,
                    service_id_spec(),
                )->Some_0,
                true,
                false,
            ),
            (args.request_authority@, true, true),
        ]);
    }
    let payload_args = CloseRequestArgs {
        new_bundle_lamports: args.new_bundle_lamports,
        new_auction_lamports: args.new_auction_lamports,
        new_bundle_bump: new_bundle_bump as u64,
    };
    Some(assemble(sid, accounts, payload_args.to_bytes()))
}

/// Builds the init-bundle instruction: create the first bundle/registry
/// pair of a tier pair. Returns `None` exactly when the bundle or registry
/// derivation fails.
pub fn init_bundle(
    payer: Address,
    context_length_tier: RequestTier,
    expiry_duration_tier: RequestTier,
    bundle_lamports: u64,
    registry_lamports: u64,
) -> (r: Option<Instruction>)
    ensures
        r is Some <==> (spec_tier_bundle_key(context_length_tier, expiry_duration_tier) is Some
            && spec_registry_key(context_length_tier, expiry_duration_tier) is Some),
        r matches Some(ins) ==> {
            &&& ins.service_id@ == service_id_spec()
            &&& accounts_view(ins.accounts@) == seq![
                (payer@, true, true),
                (
                    spec_tier_bundle_key(context_length_tier, expiry_duration_tier)->Some_0.0,
                    true,
                    false,
                ),
                (
                    spec_registry_key(context_length_tier, expiry_duration_tier)->Some_0.0,
                    true,
                    false,
                ),
                (sentinel_spec(), false, false),
            ]
            &&& ins.payload@ == (InitBundleArgs {
                context_length_tier,
                expiry_duration_tier,
                bundle_lamports,
                bundle_bump: spec_tier_bundle_key(
                    context_length_tier,
                    expiry_duration_tier,
                )->Some_0.1 as u64,
                registry_bump: spec_registry_key(
                    context_length_tier,
                    expiry_duration_tier,
                )->Some_0.1 as u64,
                registry_lamports,
            }).spec_bytes()
        },
{
    let (bundle, bundle_bump) = match derive_tier_bundle_key(
        context_length_tier,
        expiry_duration_tier,
    ) {
        Some(p) => p,
        None => {
            return None;
        },
    };
    let (registry, registry_bump) = match derive_registry_key(
        context_length_tier,
        expiry_duration_tier,
    ) {
        Some(p) => p,
        None => {
            return None;
        },
    };
    let mut accounts: Vec<AccountRef> = Vec::new();
    accounts.push(AccountRef { address: payer, is_mutable: true, is_signer: true });
    accounts.push(AccountRef { address: bundle, is_mutable: true, is_signer: false });
    accounts.push(AccountRef { address: registry, is_mutable: true, is_signer: false });
    accounts.push(AccountRef { address: system_program_id(), is_mutable: false, is_signer: false });
    proof {
        assert(accounts_view(accounts@) =~~= seq![
            (payer@, true, true),
            (spec_tier_bundle_key(context_length_tier, expiry_duration_tier)->Some_0.0, true,
            false),
            (spec_registry_key(context_length_tier, expiry_duration_tier)->Some_0.0, true, false),
            (sentinel_spec(), false, false),
        ]);
    }
    let args = InitBundleArgs {
        context_length_tier,
        expiry_duration_tier,
        bundle_lamports,
        bundle_bump: bundle_bump as u64,
        registry_bump: registry_bump as u64,
        registry_lamports,
    };
    Some(assemble(service_id(), accounts, args.to_bytes()))
}

/// Builds the init-config instruction: create the global config record.
/// Returns `None` exactly when the config derivation fails.
pub fn init_config(payer: Address, args: InitConfigArgs) -> (r: Option<Instruction>)
    ensures
        r is Some <==> spec_config_key() is Some,
        r matches Some(ins) ==> {
            &&& ins.service_id@ == service_id_spec()
            &&& accounts_view(ins.accounts@) == seq![
                (payer@, true, true),
                (spec_config_key()->Some_0.0, true, false),
                (sentinel_spec(), false, false),
            ]
            &&& ins.payload@ == args.spec_bytes()
        },
{
    let config_key = match derive_config_key() {
        Some(p) => p.0,
        None => {
            return None;
        },
    };
    let mut accounts: Vec<AccountRef> = Vec::new();
    accounts.push(AccountRef { address: payer, is_mutable: true, is_signer: true });
    accounts.push(AccountRef { address: config_key, is_mutable: true, is_signer: false });
    accounts.push(AccountRef { address: system_program_id(), is_mutable: false, is_signer: false });
    proof {
        assert(accounts_view(accounts@) =~~= seq![
            (payer@, true, true),
            (spec_config_key()->Some_0.0, true, false),
            (sentinel_spec(), false, false),
        ]);
    }
    Some(assemble(service_id(), accounts, args.to_bytes()))
}

/// The job request record's derivation: from the job-request seed prefix,
/// the canonical tier pair encodings, the requester, and the
/// request-specific seed.
pub open spec fn spec_job_request_key(
    context_length_tier: RequestTier,
    expiry_duration_tier: RequestTier,
    authority: Seq<u8>,
    job_request_seed: Seq<u8>,
) -> Option<(Seq<u8>, u8)> {
    spec_derive(
        seq![
            crate::ids::job_request_seed_spec(),
            spec_encode(context_length_tier),
            spec_encode(expiry_duration_tier),
            authority,
            job_request_seed,
        ],
        service_id_spec(),
    )
}

/// Derives the job request address and bump for a tier pair, a requester
/// and a request-specific seed.
fn derive_job_request_key(
    context_length_tier: RequestTier,
    expiry_duration_tier: RequestTier,
    authority: &Address,
    job_request_seed: &[u8; 32],
) -> (r: Option<(Address, u8)>)
    ensures
        derived_view(r) == spec_job_request_key(
            context_length_tier,
            expiry_duration_tier,
            authority@,
            job_request_seed@,
        ),
{
    let mut seeds: Vec<Vec<u8>> = Vec::new();
    seeds.push(crate::ids::job_request_seed());
    seeds.push(crate::tier::encode(context_length_tier));
    seeds.push(crate::tier::encode(expiry_duration_tier));
    seeds.push(addr_vec(authority));
    seeds.push(slice_to_vec(job_request_seed.as_slice()));
    proof {
        assert(seeds.deep_view() =~~= seq![
            crate::ids::job_request_seed_spec(),
            spec_encode(context_length_tier),
            spec_encode(expiry_duration_tier),
            authority@,
            job_request_seed@,
        ]);
    }
    crate::addr::derive(&seeds, &service_id())
}

/// The chain depth a request uses: the caller's choice, or 8 additional
/// links when the caller leaves it open.
pub open spec fn spec_depth(additional_bundles: Option<usize>) -> nat {
    match additional_bundles {
        Some(n) => n as nat,
        None => 8,
    }
}

/// The account entries of a planned chain, pair by pair in chain order:
/// each pair contributes its bundle, then its auction, all mutable.
pub open spec fn spec_pair_accounts(plan: Seq<(Seq<u8>, Seq<u8>)>) -> Seq<(Seq<u8>, bool, bool)>
    decreases plan.len(),
{
    if plan.len() == 0 {
        Seq::empty()
    } else {
        spec_pair_accounts(plan.drop_last()) + seq![
            (plan.last().0, true, false),
            (plan.last().1, true, false),
        ]
    }
}

/// Whether every derivation a request-job instruction needs succeeds: the
/// job request key, the whole bundle chain plan, the successor of the
/// chain's last bundle, the registry, and — when asked for — the config.
pub open spec fn spec_request_job_ok(
    context_length_tier: RequestTier,
    expiry_duration_tier: RequestTier,
    authority: Seq<u8>,
    job_request_seed: Seq<u8>,
    root: Seq<u8>,
    depth: nat,
    with_config: bool,
) -> bool {
    &&& spec_job_request_key(
        context_length_tier,
        expiry_duration_tier,
        authority,
        job_request_seed,
    ) is Some
    &&& spec_plan(root, depth, service_id_spec()) is Some
    &&& (spec_plan(root, depth, service_id_spec()) matches Some(p) ==> spec_next_bundle(
        p.last().0,
        service_id_spec(),
    ) is Some)
    &&& spec_registry_key(context_length_tier, expiry_duration_tier) is Some
    &&& (with_config ==> spec_config_key() is Some)
}

/// The full ordered account list of a request-job instruction: payer, job
/// request, registry, input data (or the sentinel), the system service,
/// the config when asked for, every planned (bundle, auction) pair in
/// chain order, and the successor of the chain's last bundle.
pub open spec fn spec_request_job_accounts(
    authority: Seq<u8>,
    job_request: Seq<u8>,
    registry: Seq<u8>,
    input_data: Seq<u8>,
    config: Option<Seq<u8>>,
    plan: Seq<(Seq<u8>, Seq<u8>)>,
    last_bundle: Seq<u8>,
) -> Seq<(Seq<u8>, bool, bool)> {
    seq![
        (authority, true, true),
        (job_request, true, false),
        (registry, true, false),
        (input_data, true, false),
        (sentinel_spec(), false, false),
    ] + (match config {
        Some(c) => seq![(c, true, false)],
        None => Seq::<(Seq<u8>, bool, bool)>::empty(),
    }) + spec_pair_accounts(plan) + seq![(last_bundle, true, false)]
}

/// A planned chain contributes exactly two account entries per pair.
pub proof fn lemma_pair_accounts_len(plan: Seq<(Seq<u8>, Seq<u8>)>)
    ensures
        spec_pair_accounts(plan).len() == 2 * plan.len(),
    decreases plan.len(),
{
    if plan.len() > 0 {
        lemma_pair_accounts_len(plan.drop_last());
    }
}

/// Schema ordering: the request-job account list has a fixed shape — five
/// head entries, an optional config entry, two entries per planned pair,
/// and the final successor bundle — so its total length is determined by
/// the chain length and the config flag alone, never by the input values.
pub proof fn lemma_request_job_account_count(
    authority: Seq<u8>,
    job_request: Seq<u8>,
    registry: Seq<u8>,
    input_data: Seq<u8>,
    config: Option<Seq<u8>>,
    plan: Seq<(Seq<u8>, Seq<u8>)>,
    last_bundle: Seq<u8>,
)
    ensures
        spec_request_job_accounts(
            authority,
            job_request,
            registry,
            input_data,
            config,
            plan,
            last_bundle,
        ).len() == 6 + (if config is Some {
            1int
        } else {
            0int
        }) + 2 * plan.len(),
{
    lemma_pair_accounts_len(plan);
}

/// Builds the request-job instruction: open a job request and
/// pre-provision its bundle chain. The chain depth is the caller's choice,
/// 8 additional links when left open; the instruction carries the
/// (depth + 1) planned (bundle, auction) pairs in chain order, then the
/// successor of the chain's last bundle, so the engine can index them
/// positionally. An absent input-data account is filled with the all-zero
/// sentinel, never omitted. Returns `None` exactly when one of the needed
/// derivations fails.
#[verifier::rlimit(30)]
pub fn request_job(
    authority: Address,
    input_hash: [u8; 32],
    input_hash_iv: Option<[u8; 16]>,
    job_request_seed: [u8; 32],
    input_tokens: u64,
    max_output_tokens: u64,
    new_bundle_lamports: u64,
    new_auction_lamports: u64,
    bundle_key: Address,
    max_price_per_output_token: u64,
    context_length_tier: RequestTier,
    expiry_duration_tier: RequestTier,
    input_data_account: Option<Address>,
    additional_bundles: Option<usize>,
    with_config: bool,
) -> (r: Option<Instruction>)
    ensures
        r is Some <==> spec_request_job_ok(
            context_length_tier,
            expiry_duration_tier,
            authority@,
            job_request_seed@,
            bundle_key@,
            spec_depth(additional_bundles),
            with_config,
        ),
        r matches Some(ins) ==> {
            &&& ins.service_id@ == service_id_spec()
            &&& accounts_view(ins.accounts@) == spec_request_job_accounts(
                authority@,
                spec_job_request_key(
                    context_length_tier,
                    expiry_duration_tier,
                    authority@,
                    job_request_seed@,
                )->Some_0.0,
                spec_registry_key(context_length_tier, expiry_duration_tier)->Some_0.0,
                (match input_data_account {
                    Some(a) => a@,
                    None => sentinel_spec(),
                }),
                if with_config {
                    Some(spec_config_key()->Some_0.0)
                } else {
                    None
                },
                spec_plan(bundle_key@, spec_depth(additional_bundles), service_id_spec())->Some_0,
                spec_next_bundle(
                    spec_plan(
                        bundle_key@,
                        spec_depth(additional_bundles),
                        service_id_spec(),
                    )->Some_0.last().0,
                    service_id_spec(),
                )->Some_0,
            )
            &&& ins.payload@ == spec_request_job_bytes(
                max_price_per_output_token,
                authority@,
                input_hash@,
                job_request_seed@,
                new_bundle_lamports,
                input_tokens,
                spec_job_request_key(
                    context_length_tier,
                    expiry_duration_tier,
                    authority@,
                    job_request_seed@,
                )->Some_0.1 as u64,
                max_output_tokens,
                new_auction_lamports,
                (match input_hash_iv {
                    Some(v) => v@,
                    None => Seq::new(16, |i: int| 0u8),
                }),
                (match input_data_account {
                    Some(a) => a@,
                    None => sentinel_spec(),
                }),
            )
        },
{
    let depth: usize = match additional_bundles {
        Some(n) => n,
        None => 8,
    };
    let sid = service_id();
    let (job_request_key, bump) = match derive_job_request_key(
        context_length_tier,
        expiry_duration_tier,
        &authority,
        &job_request_seed,
    ) {
        Some(p) => p,
        None => {
            return None;
        },
    };
    let plan = match crate::chain::plan_chain(&bundle_key, depth, &sid) {
        Some(v) => v,
        None => {
            return None;
        },
    };
    proof {
        crate::chain::lemma_chain_composition(
            bundle_key@,
            service_id_spec(),
            depth as nat,
            pairs_view(plan@),
        );
    }
    let last_pair_bundle = plan[plan.len() - 1].bundle;
    let last_bundle = match crate::chain::next_bundle(&last_pair_bundle, &sid) {
        Some(b) => b,
        None => {
            proof {
                assert(pairs_view(plan@).last().0 == last_pair_bundle@);
            }
            return None;
        },
    };
    let registry = match derive_registry_key(context_length_tier, expiry_duration_tier) {
        Some(p) => p.0,
        None => {
            return None;
        },
    };
    let config_key: Option<Address> = if with_config {
        match derive_config_key() {
            Some(p) => Some(p.0),
            None => {
                return None;
            },
        }
    } else {
        None
    };
    let input_data_key = match input_data_account {
        Some(a) => a,
        None => sentinel(),
    };

    let mut accounts: Vec<AccountRef> = Vec::new();
    accounts.push(AccountRef { address: authority, is_mutable: true, is_signer: true });
    accounts.push(AccountRef { address: job_request_key, is_mutable: true, is_signer: false });
    accounts.push(AccountRef { address: registry, is_mutable: true, is_signer: false });
    accounts.push(AccountRef { address: input_data_key, is_mutable: true, is_signer: false });
    accounts.push(AccountRef { address: system_program_id(), is_mutable: false, is_signer: false });
    match &config_key {
        Some(c) => accounts.push(AccountRef { address: *c, is_mutable: true, is_signer: false }),
        None => (),
    }
    let ghost head = seq![
        (authority@, true, true),
        (job_request_key@, true, false),
        (registry@, true, false),
        (input_data_key@, true, false),
        (sentinel_spec(), false, false),
    ] + (match config_key {
        Some(c) => seq![(c@, true, false)],
        None => Seq::<(Seq<u8>, bool, bool)>::empty(),
    });
    proof {
        assert(accounts_view(accounts@) =~~= head + spec_pair_accounts(
            pairs_view(plan@).subrange(0, 0),
        ));
    }
    let mut k: usize = 0;
    while k < plan.len()
        invariant
            k <= plan.len(),
            accounts_view(accounts@) == head + spec_pair_accounts(
                pairs_view(plan@).subrange(0, k as int),
            ),
        decreases plan.len() - k,
    {
        let ghost pre_acc = accounts_view(accounts@);
        let pair = plan[k];
        accounts.push(AccountRef { address: pair.bundle, is_mutable: true, is_signer: false });
        accounts.push(AccountRef { address: pair.auction, is_mutable: true, is_signer: false });
        proof {
            let pv = pairs_view(plan@);
            let pre = pv.subrange(0, k as int);
            let cur = pv.subrange(0, k + 1 as int);
            let step = seq![(pv[k as int].0, true, false), (pv[k as int].1, true, false)];
            assert(cur.drop_last() =~= pre);
            assert(cur.last() == pv[k as int]);
            assert(pv[k as int].0 == plan@[k as int].bundle@);
            assert(pv[k as int].1 == plan@[k as int].auction@);
            assert(spec_pair_accounts(cur) == spec_pair_accounts(pre) + step);
            assert(accounts_view(accounts@) =~~= pre_acc + step);
            assert((head + spec_pair_accounts(pre)) + step =~~= head + (spec_pair_accounts(pre)
                + step));
            assert(accounts_view(accounts@) == head + spec_pair_accounts(cur));
        }
        k += 1;
    }
    accounts.push(AccountRef { address: last_bundle, is_mutable: true, is_signer: false });
    proof {
        assert(pairs_view(plan@).subrange(0, plan@.len() as int) =~= pairs_view(plan@));
        assert(pairs_view(plan@).last().0 == last_pair_bundle@);
        assert(accounts_view(accounts@) =~~= spec_request_job_accounts(
            authority@,
            job_request_key@,
            registry@,
            (match input_data_account {
                Some(a) => a@,
                None => sentinel_spec(),
            }),
            if with_config {
                Some(spec_config_key()->Some_0.0)
            } else {
                None
            },
            pairs_view(plan@),
            last_bundle@,
        ));
    }

    let iv: [u8; 16] = match input_hash_iv {
        Some(v) => v,
        None => vstd::array::array_fill_for_copy_types::<u8, 16>(0u8),
    };
    proof {
        assert(iv@ =~= (match input_hash_iv {
            Some(v) => v@,
            None => Seq::new(16, |i: int| 0u8),
        }));
    }
    let args = RequestJobArgs {
        max_price_per_output_token,
        authority: authority.bytes,
        input_hash,
        job_request_seed,
        new_bundle_lamports,
        input_tokens,
        bump: bump as u64,
        max_output_tokens,
        new_auction_lamports,
        input_hash_iv: iv,
        input_data_account: match input_data_account {
            Some(a) => Some(a.bytes),
            None => None,
        },
    };
    Some(assemble(sid, accounts, args.to_bytes()))
}

} // verus!
