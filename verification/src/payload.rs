//! Binary encoding of instruction arguments.
//!
//! Each opcode owns a fixed binary layout over little-endian fixed-width
//! integers, fixed-size byte arrays and optional fields with a documented
//! presence convention. The encoded bytes must match the external engine's
//! decoder bit for bit; there is no compatibility negotiation, so the layout
//! stated by each `spec_bytes` function below is the whole wire contract.
//! Every payload opens with the one-byte tag of its opcode.

use crate::tier::RequestTier;
use crate::tier::spec_encode;
use vstd::bytes::spec_u16_to_le_bytes;
use vstd::bytes::spec_u64_to_le_bytes;
use vstd::bytes::u16_to_le_bytes;
use vstd::bytes::u64_to_le_bytes;
use vstd::prelude::*;
use vstd::slice::slice_to_vec;

verus! {

/// The request kinds the external engine understands.
#[derive(Clone, Copy, Debug, PartialEq, Eq, Structural)]
pub enum Opcode {
    AppendData,
    RequestJob,
    PlaceBid,
    RevealBid,
    SubmitJobOutput,
    EndAuction,
    CancelBundle,
    CloseBid,
    CloseRequest,
    SubmitValidation,
    InitBundle,
    InitConfig,
}

/// The stable one-byte tag of an opcode.
pub open spec fn spec_opcode_tag(op: Opcode) -> u8 {
    match op {
        Opcode::AppendData => 0,
        Opcode::RequestJob => 1,
        Opcode::PlaceBid => 2,
        Opcode::RevealBid => 3,
        Opcode::SubmitJobOutput => 4,
        Opcode::EndAuction => 5,
        Opcode::CancelBundle => 6,
        Opcode::CloseBid => 7,
        Opcode::CloseRequest => 8,
        Opcode::SubmitValidation => 9,
        Opcode::InitBundle => 10,
        Opcode::InitConfig => 11,
    }
}

/// Returns the stable one-byte tag of an opcode.
pub fn opcode_tag(op: Opcode) -> (r: u8)
    ensures
        r == spec_opcode_tag(op),
{
    match op {
        Opcode::AppendData => 0,
        Opcode::RequestJob => 1,
        Opcode::PlaceBid => 2,
        Opcode::RevealBid => 3,
        Opcode::SubmitJobOutput => 4,
        Opcode::EndAuction => 5,
        Opcode::CancelBundle => 6,
        Opcode::CloseBid => 7,
        Opcode::CloseRequest => 8,
        Opcode::SubmitValidation => 9,
        Opcode::InitBundle => 10,
        Opcode::InitConfig => 11,
    }
}

/// Starts a payload with the tag byte of its opcode.
fn tag_payload(op: Opcode) -> (r: Vec<u8>)
    ensures
        r@ == seq![spec_opcode_tag(op)],
{
    let mut out: Vec<u8> = Vec::new();
    out.push(opcode_tag(op));
    proof {
        assert(out@ =~= seq![spec_opcode_tag(op)]);
    }
    out
}

/// Appends one byte.
fn push_byte(out: &mut Vec<u8>, x: u8)
    ensures
        final(out)@ == old(out)@ + seq![x],
{
    out.push(x);
    proof {
        assert(out@ =~= old(out)@ + seq![x]);
    }
}

/// Appends a `u64` as 8 little-endian bytes.
fn push_u64(out: &mut Vec<u8>, x: u64)
    ensures
        final(out)@ == old(out)@ + spec_u64_to_le_bytes(x),
{
    let mut b = u64_to_le_bytes(x);
    out.append(&mut b);
}

/// Appends a `u16` as 2 little-endian bytes.
fn push_u16(out: &mut Vec<u8>, x: u16)
    ensures
        final(out)@ == old(out)@ + spec_u16_to_le_bytes(x),
{
    let mut b = u16_to_le_bytes(x);
    out.append(&mut b);
}

/// Appends a fixed 32-byte array.
fn push_bytes32(out: &mut Vec<u8>, b: &[u8; 32])
    ensures
        final(out)@ == old(out)@ + b@,
{
    let mut v = slice_to_vec(b.as_slice());
    out.append(&mut v);
}

/// Appends a fixed 16-byte array.
fn push_bytes16(out: &mut Vec<u8>, b: &[u8; 16])
    ensures
        final(out)@ == old(out)@ + b@,
{
    let mut v = slice_to_vec(b.as_slice());
    out.append(&mut v);
}

/// Appends a fixed 4-byte array.
fn push_bytes4(out: &mut Vec<u8>, b: &[u8; 4])
    ensures
        final(out)@ == old(out)@ + b@,
{
    let mut v = slice_to_vec(b.as_slice());
    out.append(&mut v);
}

/// Appends `n` zero bytes.
fn push_zeros(out: &mut Vec<u8>, n: usize)
    ensures
        final(out)@ == old(out)@ + Seq::new(n as nat, |i: int| 0u8),
{
    let mut i: usize = 0;
    while i < n
        invariant
            i <= n,
            out@ == old(out)@ + Seq::new(i as nat, |j: int| 0u8),
        decreases n - i,
    {
        out.push(0u8);
        proof {
            assert(out@ =~= old(out)@ + Seq::new((i + 1) as nat, |j: int| 0u8));
        }
        i += 1;
    }
}

/// Appends the canonical 8-byte encoding of a tier.
fn push_tier(out: &mut Vec<u8>, t: RequestTier)
    ensures
        final(out)@ == old(out)@ + spec_encode(t),
{
    let mut b = crate::tier::encode(t);
    out.append(&mut b);
}

/// The wire form of an optional account key: the key itself, or the
/// all-zero sentinel for an absent one.
pub open spec fn spec_maybe_key(k: Option<[u8; 32]>) -> Seq<u8> {
    match k {
        Some(b) => b@,
        None => crate::addr::sentinel_spec(),
    }
}

/// Appends an optional account key, the all-zero sentinel when absent.
fn push_maybe_key(out: &mut Vec<u8>, k: &Option<[u8; 32]>)
    ensures
        final(out)@ == old(out)@ + spec_maybe_key(*k),
{
    match k {
        Some(b) => push_bytes32(out, b),
        None => {
            let s = crate::addr::sentinel();
            push_bytes32(out, &s.bytes);
        },
    }
}

/// The wire form of an optional 32-byte value: a presence byte, then the
/// value or an all-zero placeholder. Always 33 bytes.
pub open spec fn spec_opt_bytes32(k: Option<[u8; 32]>) -> Seq<u8> {
    match k {
        Some(b) => seq![1u8] + b@,
        None => seq![0u8] + crate::addr::sentinel_spec(),
    }
}

/// Appends an optional 32-byte value in presence-byte form.
fn push_opt_bytes32(out: &mut Vec<u8>, k: &Option<[u8; 32]>)
    ensures
        final(out)@ == old(out)@ + spec_opt_bytes32(*k),
{
    match k {
        Some(b) => {
            push_byte(out, 1);
            push_bytes32(out, b);
            proof {
                assert(out@ =~= old(out)@ + (seq![1u8] + b@));
            }
        },
        None => {
            push_byte(out, 0);
            let s = crate::addr::sentinel();
            push_bytes32(out, &s.bytes);
            proof {
                assert(out@ =~= old(out)@ + (seq![0u8] + crate::addr::sentinel_spec()));
            }
        },
    }
}

/// The value of an optional `u64` under the zero-placeholder convention:
/// zero stands for "absent".
pub open spec fn spec_opt_u64_value(v: Option<u64>) -> u64 {
    match v {
        Some(x) => x,
        None => 0,
    }
}

/// A provider endpoint address, IPv4 or IPv6.
#[derive(Clone, Copy, Debug, PartialEq, Eq)]
pub enum IpAddress {
    V4([u8; 4]),
    V6([u8; 16]),
}

/// The fixed 17-byte wire form of an endpoint address: a kind byte (4 or 6)
/// and 16 bytes, an IPv4 address in the first 4 with a zero tail.
pub open spec fn spec_ip_bytes(ip: IpAddress) -> Seq<u8> {
    match ip {
        IpAddress::V4(b) => seq![4u8] + b@ + Seq::new(12, |i: int| 0u8),
        IpAddress::V6(b) => seq![6u8] + b@,
    }
}

/// Appends the fixed 17-byte form of an endpoint address.
fn push_ip(out: &mut Vec<u8>, ip: &IpAddress)
    ensures
        final(out)@ == old(out)@ + spec_ip_bytes(*ip),
{
    match ip {
        IpAddress::V4(b) => {
            push_byte(out, 4);
            push_bytes4(out, b);
            push_zeros(out, 12);
            proof {
                assert(out@ =~= old(out)@ + spec_ip_bytes(IpAddress::V4(*b)));
            }
        },
        IpAddress::V6(b) => {
            push_byte(out, 6);
            push_bytes16(out, b);
            proof {
                assert(out@ =~= old(out)@ + spec_ip_bytes(IpAddress::V6(*b)));
            }
        },
    }
}

/// The fixed layout of append-data arguments over their mathematical
/// values: tag, offset, padded 32-byte seed, seed length, decompressed
/// length (zero when absent).
pub open spec fn spec_append_data_bytes(
    offset: u64,
    seed: Seq<u8>,
    seed_len: u64,
    decompressed_len: u64,
) -> Seq<u8> {
    seq![spec_opcode_tag(Opcode::AppendData)] + spec_u64_to_le_bytes(offset) + seed
        + spec_u64_to_le_bytes(seed_len) + spec_u64_to_le_bytes(decompressed_len)
}

/// Arguments of the append-data request: attach a chunk of large off-band
/// data at an offset.
pub struct AppendDataArgs {
    pub offset: u64,
    /// The account seed, padded with zeros to exactly 32 bytes.
    pub seed: Vec<u8>,
    /// How many of the padded seed's bytes are meaningful.
    pub seed_len: u64,
    /// Decompressed length of the chunk's data, `None` when compression is
    /// not used; on the wire, zero stands for "absent".
    pub decompressed_data_length: Option<u64>,
}

impl AppendDataArgs {
    /// The padded seed is exactly 32 bytes, its declared length fits in it,
    /// and a stated decompressed length is never the zero placeholder.
    pub open spec fn wf(self) -> bool {
        &&& self.seed@.len() == 32
        &&& self.seed_len <= 32
        &&& (self.decompressed_data_length matches Some(v) ==> v != 0)
    }

    /// The fixed layout: tag, offset, padded seed, seed length,
    /// decompressed length (zero when absent).
    pub open spec fn spec_bytes(self) -> Seq<u8> {
        spec_append_data_bytes(
            self.offset,
            self.seed@,
            self.seed_len,
            spec_opt_u64_value(self.decompressed_data_length),
        )
    }

    /// Encodes the arguments into their fixed layout.
    pub fn to_bytes(&self) -> (r: Vec<u8>)
        requires
            self.wf(),
        ensures
            r@ == self.spec_bytes(),
    {
        let mut out = tag_payload(Opcode::AppendData);
        push_u64(&mut out, self.offset);
        let mut seed = self.seed.clone();
        proof {
            assert(seed@ =~= self.seed@);
        }
        out.append(&mut seed);
        push_u64(&mut out, self.seed_len);
        let dl: u64 = match self.decompressed_data_length {
            Some(v) => v,
            None => 0,
        };
        push_u64(&mut out, dl);
        out
    }
}

/// The fixed layout of request-job arguments over their mathematical
/// values, field by field in the order [`RequestJobArgs`] declares them.
pub open spec fn spec_request_job_bytes(
    max_price_per_output_token: u64,
    authority: Seq<u8>,
    input_hash: Seq<u8>,
    job_request_seed: Seq<u8>,
    new_bundle_lamports: u64,
    input_tokens: u64,
    bump: u64,
    max_output_tokens: u64,
    new_auction_lamports: u64,
    input_hash_iv: Seq<u8>,
    input_data_account: Seq<u8>,
) -> Seq<u8> {
    seq![spec_opcode_tag(Opcode::RequestJob)] + spec_u64_to_le_bytes(max_price_per_output_token)
        + authority + input_hash + job_request_seed + spec_u64_to_le_bytes(new_bundle_lamports)
        + spec_u64_to_le_bytes(input_tokens) + spec_u64_to_le_bytes(bump) + spec_u64_to_le_bytes(
        max_output_tokens,
    ) + spec_u64_to_le_bytes(new_auction_lamports) + input_hash_iv + input_data_account
}

/// Arguments of the request-job request: open a job request and
/// pre-provision its bundle chain.
pub struct RequestJobArgs {
    pub max_price_per_output_token: u64,
    pub authority: [u8; 32],
    pub input_hash: [u8; 32],
    pub job_request_seed: [u8; 32],
    pub new_bundle_lamports: u64,
    pub input_tokens: u64,
    pub bump: u64,
    pub max_output_tokens: u64,
    pub new_auction_lamports: u64,
    /// Initialization vector of the input hash, all zeros when unused.
    pub input_hash_iv: [u8; 16],
    /// The optional input-data account key; the all-zero sentinel stands in
    /// for an absent one on the wire.
    pub input_data_account: Option<[u8; 32]>,
}

impl RequestJobArgs {
    /// The fixed layout, field by field in declaration order.
    pub open spec fn spec_bytes(self) -> Seq<u8> {
        spec_request_job_bytes(
            self.max_price_per_output_token,
            self.authority@,
            self.input_hash@,
            self.job_request_seed@,
            self.new_bundle_lamports,
            self.input_tokens,
            self.bump,
            self.max_output_tokens,
            self.new_auction_lamports,
            self.input_hash_iv@,
            spec_maybe_key(self.input_data_account),
        )
    }

    /// Encodes the arguments into their fixed layout.
    pub fn to_bytes(&self) -> (r: Vec<u8>)
        ensures
            r@ == self.spec_bytes(),
    {
        let mut out = tag_payload(Opcode::RequestJob);
        push_u64(&mut out, self.max_price_per_output_token);
        push_bytes32(&mut out, &self.authority);
        push_bytes32(&mut out, &self.input_hash);
        push_bytes32(&mut out, &self.job_request_seed);
        push_u64(&mut out, self.new_bundle_lamports);
        push_u64(&mut out, self.input_tokens);
        push_u64(&mut out, self.bump);
        push_u64(&mut out, self.max_output_tokens);
        push_u64(&mut out, self.new_auction_lamports);
        push_bytes16(&mut out, &self.input_hash_iv);
        push_maybe_key(&mut out, &self.input_data_account);
        out
    }
}

/// The fixed layout of place-bid arguments over their mathematical values:
/// tag, commitment, authority, endpoint, optional encryption key.
pub open spec fn spec_place_bid_bytes(
    commitment: Seq<u8>,
    authority: Seq<u8>,
    ip: IpAddress,
    port: u16,
    encryption_key: Option<[u8; 32]>,
) -> Seq<u8> {
    seq![spec_opcode_tag(Opcode::PlaceBid)] + commitment + authority + spec_ip_bytes(ip)
        + spec_u16_to_le_bytes(port) + spec_opt_bytes32(encryption_key)
}

/// Arguments of the place-bid request: submit a sealed bid.
pub struct PlaceBidArgs {
    /// The commitment hash sealing the bid price.
    pub price_commitment: [u8; 32],
    pub authority: [u8; 32],
    pub ip: IpAddress,
    pub port: u16,
    /// The provider's optional encryption key, in presence-byte form.
    pub node_encryption_publickey: Option<[u8; 32]>,
}

impl PlaceBidArgs {
    /// The fixed layout: tag, commitment, authority, endpoint, optional key.
    pub open spec fn spec_bytes(self) -> Seq<u8> {
        spec_place_bid_bytes(
            self.price_commitment@,
            self.authority@,
            self.ip,
            self.port,
            self.node_encryption_publickey,
        )
    }

    /// Encodes the arguments into their fixed layout.
    pub fn to_bytes(&self) -> (r: Vec<u8>)
        ensures
            r@ == self.spec_bytes(),
    {
        let mut out = tag_payload(Opcode::PlaceBid);
        push_bytes32(&mut out, &self.price_commitment);
        push_bytes32(&mut out, &self.authority);
        push_ip(&mut out, &self.ip);
        push_u16(&mut out, self.port);
        push_opt_bytes32(&mut out, &self.node_encryption_publickey);
        out
    }
}

/// Arguments of the reveal-bid request: disclose the committed price.
pub struct RevealBidArgs {
    /// The bidder-chosen secret the commitment was built from.
    pub secret: [u8; 32],
    pub price_per_output_token: u64,
}

impl RevealBidArgs {
    /// The fixed layout: tag, secret, price.
    pub open spec fn spec_bytes(self) -> Seq<u8> {
        seq![spec_opcode_tag(Opcode::RevealBid)] + self.secret@ + spec_u64_to_le_bytes(
            self.price_per_output_token,
        )
    }

    /// Encodes the arguments into their fixed layout.
    pub fn to_bytes(&self) -> (r: Vec<u8>)
        ensures
            r@ == self.spec_bytes(),
    {
        let mut out = tag_payload(Opcode::RevealBid);
        push_bytes32(&mut out, &self.secret);
        push_u64(&mut out, self.price_per_output_token);
        out
    }
}

/// Arguments of the submit-job-output request: the winning provider's
/// result summary.
pub struct SubmitJobOutputArgs {
    pub output_hash: [u8; 32],
    pub output_tokens: u64,
}

impl SubmitJobOutputArgs {
    /// The fixed layout: tag, output hash, output token count.
    pub open spec fn spec_bytes(self) -> Seq<u8> {
        seq![spec_opcode_tag(Opcode::SubmitJobOutput)] + self.output_hash@ + spec_u64_to_le_bytes(
            self.output_tokens,
        )
    }

    /// Encodes the arguments into their fixed layout.
    pub fn to_bytes(&self) -> (r: Vec<u8>)
        ensures
            r@ == self.spec_bytes(),
    {
        let mut out = tag_payload(Opcode::SubmitJobOutput);
        push_bytes32(&mut out, &self.output_hash);
        push_u64(&mut out, self.output_tokens);
        out
    }
}

/// Arguments of the end-auction request: none beyond the opcode itself.
pub struct EndAuctionArgs {}

impl EndAuctionArgs {
    /// The fixed layout: the tag alone.
    pub open spec fn spec_bytes(self) -> Seq<u8> {
        seq![spec_opcode_tag(Opcode::EndAuction)]
    }

    /// Encodes the arguments into their fixed layout.
    pub fn to_bytes(&self) -> (r: Vec<u8>)
        ensures
            r@ == self.spec_bytes(),
    {
        tag_payload(Opcode::EndAuction)
    }
}

/// Arguments of the cancel-bundle request: cancel a bundle and its
/// pre-provisioned child.
pub struct CancelBundleArgs {
    pub parent_bundle_key: [u8; 32],
    pub bundle_bump: u64,
    pub context_length_tier: RequestTier,
    pub expiry_duration_tier: RequestTier,
    pub child_bundle_bump: u64,
    pub bundle_lamports: u64,
}

impl CancelBundleArgs {
    /// The fixed layout, field by field in declaration order, tiers in
    /// their canonical 8-byte encoding.
    pub open spec fn spec_bytes(self) -> Seq<u8> {
        seq![spec_opcode_tag(Opcode::CancelBundle)] + self.parent_bundle_key@
            + spec_u64_to_le_bytes(self.bundle_bump) + spec_encode(self.context_length_tier)
            + spec_encode(self.expiry_duration_tier) + spec_u64_to_le_bytes(self.child_bundle_bump)
            + spec_u64_to_le_bytes(self.bundle_lamports)
    }

    /// Encodes the arguments into their fixed layout.
    pub fn to_bytes(&self) -> (r: Vec<u8>)
        ensures
            r@ == self.spec_bytes(),
    {
        let mut out = tag_payload(Opcode::CancelBundle);
        push_bytes32(&mut out, &self.parent_bundle_key);
        push_u64(&mut out, self.bundle_bump);
        push_tier(&mut out, self.context_length_tier);
        push_tier(&mut out, self.expiry_duration_tier);
        push_u64(&mut out, self.child_bundle_bump);
        push_u64(&mut out, self.bundle_lamports);
        out
    }
}

/// Arguments of the close-bid request: none beyond the opcode itself.
pub struct CloseBidArgs {}

impl CloseBidArgs {
    /// The fixed layout: the tag alone.
    pub open spec fn spec_bytes(self) -> Seq<u8> {
        seq![spec_opcode_tag(Opcode::CloseBid)]
    }

    /// Encodes the arguments into their fixed layout.
    pub fn to_bytes(&self) -> (r: Vec<u8>)
        ensures
            r@ == self.spec_bytes(),
    {
        tag_payload(Opcode::CloseBid)
    }
}

/// Arguments of the close-request request: lamport allocations for the
/// replacement bundle and auction, and the replacement bundle's bump.
pub struct CloseRequestArgs {
    pub new_bundle_lamports: u64,
    pub new_auction_lamports: u64,
    pub new_bundle_bump: u64,
}

impl CloseRequestArgs {
    /// The fixed layout, field by field in declaration order.
    pub open spec fn spec_bytes(self) -> Seq<u8> {
        seq![spec_opcode_tag(Opcode::CloseRequest)] + spec_u64_to_le_bytes(
            self.new_bundle_lamports,
        ) + spec_u64_to_le_bytes(self.new_auction_lamports) + spec_u64_to_le_bytes(
            self.new_bundle_bump,
        )
    }

    /// Encodes the arguments into their fixed layout.
    pub fn to_bytes(&self) -> (r: Vec<u8>)
        ensures
            r@ == self.spec_bytes(),
    {
        let mut out = tag_payload(Opcode::CloseRequest);
        push_u64(&mut out, self.new_bundle_lamports);
        push_u64(&mut out, self.new_auction_lamports);
        push_u64(&mut out, self.new_bundle_bump);
        out
    }
}

/// Arguments of the submit-validation request: a correctness attestation
/// over a job's output.
pub struct SubmitValidationArgs {
    pub output_hash: [u8; 32],
    pub valid: bool,
}

impl SubmitValidationArgs {
    /// The fixed layout: tag, attested output hash, verdict byte (1 or 0).
    pub open spec fn spec_bytes(self) -> Seq<u8> {
        seq![spec_opcode_tag(Opcode::SubmitValidation)] + self.output_hash@ + seq![
            if self.valid {
                1u8
            } else {
                0u8
            },
        ]
    }

    /// Encodes the arguments into their fixed layout.
    pub fn to_bytes(&self) -> (r: Vec<u8>)
        ensures
            r@ == self.spec_bytes(),
    {
        let mut out = tag_payload(Opcode::SubmitValidation);
        push_bytes32(&mut out, &self.output_hash);
        push_byte(
            &mut out,
            if self.valid {
                1
            } else {
                0
            },
        );
        out
    }
}

/// Arguments of the init-bundle request: create the first bundle/registry
/// pair of a tier pair.
pub struct InitBundleArgs {
    pub context_length_tier: RequestTier,
    pub expiry_duration_tier: RequestTier,
    pub bundle_lamports: u64,
    pub bundle_bump: u64,
    pub registry_bump: u64,
    pub registry_lamports: u64,
}

impl InitBundleArgs {
    /// The fixed layout, field by field in declaration order, tiers in
    /// their canonical 8-byte encoding.
    pub open spec fn spec_bytes(self) -> Seq<u8> {
        seq![spec_opcode_tag(Opcode::InitBundle)] + spec_encode(self.context_length_tier)
            + spec_encode(self.expiry_duration_tier) + spec_u64_to_le_bytes(self.bundle_lamports)
            + spec_u64_to_le_bytes(self.bundle_bump) + spec_u64_to_le_bytes(self.registry_bump)
            + spec_u64_to_le_bytes(self.registry_lamports)
    }

    /// Encodes the arguments into their fixed layout.
    pub fn to_bytes(&self) -> (r: Vec<u8>)
        ensures
            r@ == self.spec_bytes(),
    {
        let mut out = tag_payload(Opcode::InitBundle);
        push_tier(&mut out, self.context_length_tier);
        push_tier(&mut out, self.expiry_duration_tier);
        push_u64(&mut out, self.bundle_lamports);
        push_u64(&mut out, self.bundle_bump);
        push_u64(&mut out, self.registry_bump);
        push_u64(&mut out, self.registry_lamports);
        out
    }
}

/// Arguments of the init-config request: the global parameter record.
pub struct InitConfigArgs {
    pub min_bundle_lamports: u64,
    pub min_auction_lamports: u64,
}

impl InitConfigArgs {
    /// The fixed layout, field by field in declaration order.
    pub open spec fn spec_bytes(self) -> Seq<u8> {
        seq![spec_opcode_tag(Opcode::InitConfig)] + spec_u64_to_le_bytes(self.min_bundle_lamports)
            + spec_u64_to_le_bytes(self.min_auction_lamports)
    }

    /// Encodes the arguments into their fixed layout.
    pub fn to_bytes(&self) -> (r: Vec<u8>)
        ensures
            r@ == self.spec_bytes(),
    {
        let mut out = tag_payload(Opcode::InitConfig);
        push_u64(&mut out, self.min_bundle_lamports);
        push_u64(&mut out, self.min_auction_lamports);
        out
    }
}

} // verus!
