//! Protocol constants: the service id, the documented seed prefixes, and the
//! ids of the two external native services that instructions reference.

use crate::addr::Address;
use vstd::prelude::*;

verus! {

/// The service id of the execution engine that consumes the instructions
/// this crate builds.
pub open spec fn service_id_spec() -> Seq<u8> {
    seq![
        1u8, 2, 3, 4, 5, 6, 7, 8, 9, 10, 11, 12, 13, 14, 15, 16, 17, 18, 19, 20, 21, 22, 23, 24,
        25, 26, 27, 28, 29, 30, 31, 32,
    ]
}

/// Returns the service id of the execution engine.
pub fn service_id() -> (r: Address)
    ensures
        r@ == service_id_spec(),
{
    let bytes: [u8; 32] = [
        1u8, 2, 3, 4, 5, 6, 7, 8, 9, 10, 11, 12, 13, 14, 15, 16, 17, 18, 19, 20, 21, 22, 23, 24,
        25, 26, 27, 28, 29, 30, 31, 32,
    ];
    proof {
        assert(bytes@ =~= service_id_spec());
    }
    Address { bytes }
}

/// The seed prefix for auction records.
pub open spec fn auction_seed_spec() -> Seq<u8> {
    seq![97u8, 117, 99, 116, 105, 111, 110]
}

/// Returns the seed prefix for auction records.
pub fn auction_seed() -> (r: Vec<u8>)
    ensures
        r@ == auction_seed_spec(),
{
    let r: Vec<u8> = vec![97u8, 117, 99, 116, 105, 111, 110];
    proof {
        assert(r@ =~= auction_seed_spec());
    }
    r
}

/// The seed prefix for sealed-bid records.
pub open spec fn bid_seed_spec() -> Seq<u8> {
    seq![98u8, 105, 100]
}

/// Returns the seed prefix for sealed-bid records.
pub fn bid_seed() -> (r: Vec<u8>)
    ensures
        r@ == bid_seed_spec(),
{
    let r: Vec<u8> = vec![98u8, 105, 100];
    proof {
        assert(r@ =~= bid_seed_spec());
    }
    r
}

/// The seed prefix for request-bundle records.
pub open spec fn request_bundle_seed_spec() -> Seq<u8> {
    seq![114u8, 101, 113, 117, 101, 115, 116, 95, 98, 117, 110, 100, 108, 101]
}

/// Returns the seed prefix for request-bundle records.
pub fn request_bundle_seed() -> (r: Vec<u8>)
    ensures
        r@ == request_bundle_seed_spec(),
{
    let r: Vec<u8> = vec![114u8, 101, 113, 117, 101, 115, 116, 95, 98, 117, 110, 100, 108, 101];
    proof {
        assert(r@ =~= request_bundle_seed_spec());
    }
    r
}

/// The seed prefix for bundle-registry records.
pub open spec fn bundle_registry_seed_spec() -> Seq<u8> {
    seq![98u8, 117, 110, 100, 108, 101, 95, 114, 101, 103, 105, 115, 116, 114, 121]
}

/// Returns the seed prefix for bundle-registry records.
pub fn bundle_registry_seed() -> (r: Vec<u8>)
    ensures
        r@ == bundle_registry_seed_spec(),
{
    let r: Vec<u8> = vec![
        98u8, 117, 110, 100, 108, 101, 95, 114, 101, 103, 105, 115, 116, 114, 121,
    ];
    proof {
        assert(r@ =~= bundle_registry_seed_spec());
    }
    r
}

/// The seed prefix for job-request records.
pub open spec fn job_request_seed_spec() -> Seq<u8> {
    seq![106u8, 111, 98, 95, 114, 101, 113, 117, 101, 115, 116]
}

/// Returns the seed prefix for job-request records.
pub fn job_request_seed() -> (r: Vec<u8>)
    ensures
        r@ == job_request_seed_spec(),
{
    let r: Vec<u8> = vec![106u8, 111, 98, 95, 114, 101, 113, 117, 101, 115, 116];
    proof {
        assert(r@ =~= job_request_seed_spec());
    }
    r
}

/// The seed prefix for the singleton global config record.
pub open spec fn config_seed_spec() -> Seq<u8> {
    seq![99u8, 111, 110, 102, 105, 103]
}

/// Returns the seed prefix for the singleton global config record.
pub fn config_seed() -> (r: Vec<u8>)
    ensures
        r@ == config_seed_spec(),
{
    let r: Vec<u8> = vec![99u8, 111, 110, 102, 105, 103];
    proof {
        assert(r@ =~= config_seed_spec());
    }
    r
}

/// Relies on `solana_system_interface::program::ID`: the system service id
/// is the all-zero 32-byte address.
#[verifier::external_body]
pub fn system_program_id() -> (r: Address)
    ensures
        r@ == crate::addr::sentinel_spec(),
{
    Address { bytes: solana_system_interface::program::ID.to_bytes() }
}

/// The 32 bytes of the vote service id.
pub open spec fn vote_program_id_spec() -> Seq<u8> {
    seq![
        7u8, 97, 72, 29, 53, 116, 116, 187, 124, 77, 118, 36, 235, 211, 189, 179, 216, 53, 94,
        115, 209, 16, 67, 252, 13, 163, 83, 128, 0, 0, 0, 0,
    ]
}

/// Relies on `solana_vote_interface::program::ID`: the vote service id is
/// the fixed, documented 32-byte address stated by [`vote_program_id_spec`].
#[verifier::external_body]
pub fn vote_program_id() -> (r: Address)
    ensures
        r@ == vote_program_id_spec(),
{
    Address { bytes: solana_vote_interface::program::ID.to_bytes() }
}

} // verus!
