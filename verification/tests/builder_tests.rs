use auction_sdk::addr::Address;
use auction_sdk::chain::auction_of;
use auction_sdk::chain::next_bundle;
use auction_sdk::chain::plan_chain;
use auction_sdk::commit::commit;
use auction_sdk::ids::service_id;
use auction_sdk::payload::CloseRequestArgs;
use auction_sdk::payload::InitConfigArgs;
use auction_sdk::payload::IpAddress;
use auction_sdk::payload::RevealBidArgs;
use auction_sdk::payload::SubmitJobOutputArgs;
use auction_sdk::payload::SubmitValidationArgs;
use auction_sdk::sdk::CloseRequest;
use auction_sdk::sdk::append_data;
use auction_sdk::sdk::cancel_bundle;
use auction_sdk::sdk::close_bid;
use auction_sdk::sdk::close_request;
use auction_sdk::sdk::end_auction;
use auction_sdk::sdk::init_bundle;
use auction_sdk::sdk::init_config;
use auction_sdk::sdk::place_bid;
use auction_sdk::sdk::request_job;
use auction_sdk::sdk::reveal_bid;
use auction_sdk::sdk::submit_job;
use auction_sdk::sdk::submit_validation;
use auction_sdk::tier::RequestTier;
use auction_sdk::tier::encode;

fn addr(b: u8) -> Address {
    Address { bytes: [b; 32] }
}

fn derive_one(seeds: Vec<Vec<u8>>) -> (Address, u8) {
    auction_sdk::addr::derive(&seeds, &service_id()).expect("derivation should succeed")
}

#[test]
fn append_data_layout() {
    let ins = append_data(addr(1), &vec![0xAA, 0xBB], &b"abc".to_vec(), 5, addr(2), None);
    assert_eq!(ins.service_id, service_id());
    assert_eq!(ins.accounts.len(), 3);
    assert_eq!(ins.accounts[0].address, addr(1));
    assert!(ins.accounts[0].is_signer && ins.accounts[0].is_mutable);
    assert_eq!(ins.accounts[1].address, addr(2));
    assert!(!ins.accounts[1].is_signer && ins.accounts[1].is_mutable);
    assert_eq!(ins.accounts[2].address.bytes, [0u8; 32]);
    assert!(!ins.accounts[2].is_signer && !ins.accounts[2].is_mutable);

    assert_eq!(ins.payload.len(), 59);
    assert_eq!(ins.payload[0], 0);
    assert_eq!(&ins.payload[1..9], &5u64.to_le_bytes());
    let mut padded = [0u8; 32];
    padded[..3].copy_from_slice(b"abc");
    assert_eq!(&ins.payload[9..41], &padded);
    assert_eq!(&ins.payload[41..49], &3u64.to_le_bytes());
    assert_eq!(&ins.payload[49..57], &0u64.to_le_bytes());
    assert_eq!(&ins.payload[57..59], &[0xAA, 0xBB]);
}

#[test]
fn append_data_truncates_long_seed() {
    let long: Vec<u8> = (0u8..40).collect();
    let ins = append_data(addr(1), &Vec::new(), &long, 0, addr(2), Some(100));
    assert_eq!(&ins.payload[9..41], &long[..32]);
    assert_eq!(&ins.payload[41..49], &32u64.to_le_bytes());
    assert_eq!(&ins.payload[49..57], &100u64.to_le_bytes());
}

#[test]
fn request_job_accounts_follow_chain_order() {
    let authority = addr(1);
    let root = addr(2);
    let ins = request_job(
        authority,
        [3u8; 32],
        None,
        [4u8; 32],
        10,
        20,
        30,
        40,
        root,
        50,
        RequestTier::Tier1,
        RequestTier::Tier2,
        None,
        None,
        false,
    )
    .expect("derivations should succeed");

    assert_eq!(ins.accounts.len(), 24);
    let sid = service_id();
    assert_eq!(ins.accounts[0].address, authority);
    assert!(ins.accounts[0].is_signer && ins.accounts[0].is_mutable);

    let job_request = derive_one(vec![
        b"job_request".to_vec(),
        encode(RequestTier::Tier1),
        encode(RequestTier::Tier2),
        authority.bytes.to_vec(),
        vec![4u8; 32],
    ]);
    assert_eq!(ins.accounts[1].address, job_request.0);

    let registry = derive_one(vec![
        b"bundle_registry".to_vec(),
        encode(RequestTier::Tier1),
        encode(RequestTier::Tier2),
    ]);
    assert_eq!(ins.accounts[2].address, registry.0);

    assert_eq!(ins.accounts[4].address.bytes, [0u8; 32]);
    assert!(!ins.accounts[4].is_mutable);

    let plan = plan_chain(&root, 8, &sid).expect("planning should succeed");
    for i in 0..9 {
        assert_eq!(ins.accounts[5 + 2 * i].address, plan[i].bundle);
        assert_eq!(ins.accounts[6 + 2 * i].address, plan[i].auction);
        assert!(ins.accounts[5 + 2 * i].is_mutable && !ins.accounts[5 + 2 * i].is_signer);
    }
    let last = next_bundle(&plan[8].bundle, &sid).expect("derivation should succeed");
    assert_eq!(ins.accounts[23].address, last);

    assert_eq!(ins.payload.len(), 193);
    assert_eq!(ins.payload[0], 1);
    assert_eq!(&ins.payload[1..9], &50u64.to_le_bytes());
    assert_eq!(&ins.payload[9..41], &[1u8; 32]);
    assert_eq!(&ins.payload[41..73], &[3u8; 32]);
    assert_eq!(&ins.payload[73..105], &[4u8; 32]);
    assert_eq!(&ins.payload[121..129], &(job_request.1 as u64).to_le_bytes());
    assert_eq!(&ins.payload[145..161], &[0u8; 16]);
    assert_eq!(&ins.payload[161..193], &[0u8; 32]);
}

#[test]
fn request_job_substitutes_sentinel_for_missing_input_data() {
    let ins = request_job(
        addr(1),
        [3u8; 32],
        None,
        [4u8; 32],
        10,
        20,
        30,
        40,
        addr(2),
        50,
        RequestTier::Tier0,
        RequestTier::Tier0,
        None,
        None,
        false,
    )
    .expect("derivations should succeed");
    assert_eq!(ins.accounts[3].address.bytes, [0u8; 32]);
    assert!(ins.accounts[3].is_mutable && !ins.accounts[3].is_signer);

    let with_input = request_job(
        addr(1),
        [3u8; 32],
        None,
        [4u8; 32],
        10,
        20,
        30,
        40,
        addr(2),
        50,
        RequestTier::Tier0,
        RequestTier::Tier0,
        Some(addr(9)),
        None,
        false,
    )
    .expect("derivations should succeed");
    assert_eq!(with_input.accounts[3].address, addr(9));
    assert_eq!(with_input.accounts.len(), 24);
    assert_eq!(&with_input.payload[161..193], &[9u8; 32]);
}

#[test]
fn request_job_with_config_inserts_config_account() {
    let ins = request_job(
        addr(1),
        [3u8; 32],
        Some([8u8; 16]),
        [4u8; 32],
        10,
        20,
        30,
        40,
        addr(2),
        50,
        RequestTier::Tier0,
        RequestTier::Tier0,
        None,
        Some(2),
        true,
    )
    .expect("derivations should succeed");
    // 5 fixed entries, the config, 3 pairs for depth 2, and the last bundle.
    assert_eq!(ins.accounts.len(), 13);
    let config = derive_one(vec![b"config".to_vec()]);
    assert_eq!(ins.accounts[5].address, config.0);
    let plan = plan_chain(&addr(2), 2, &service_id()).unwrap();
    assert_eq!(ins.accounts[6].address, plan[0].bundle);
    assert_eq!(&ins.payload[145..161], &[8u8; 16]);
}

#[test]
fn place_bid_seals_the_price() {
    let authority = addr(1);
    let auction = addr(2);
    let seed = [7u8; 32];
    let ins = place_bid(
        authority,
        auction,
        99,
        seed,
        (IpAddress::V4([127, 0, 0, 1]), 8080),
        None,
    )
    .expect("derivation should succeed");

    assert_eq!(ins.accounts.len(), 4);
    let bid = derive_one(vec![
        b"bid".to_vec(),
        auction.bytes.to_vec(),
        authority.bytes.to_vec(),
    ]);
    assert_eq!(ins.accounts[1].address, bid.0);
    assert_eq!(ins.accounts[2].address, auction);
    assert_eq!(ins.accounts[3].address.bytes, [0u8; 32]);

    assert_eq!(ins.payload.len(), 117);
    assert_eq!(ins.payload[0], 2);
    assert_eq!(&ins.payload[1..33], &commit(&seed, 99));
    assert_eq!(&ins.payload[33..65], &[1u8; 32]);
    assert_eq!(ins.payload[65], 4);
    assert_eq!(&ins.payload[66..70], &[127, 0, 0, 1]);
    assert_eq!(&ins.payload[70..82], &[0u8; 12]);
    assert_eq!(&ins.payload[82..84], &8080u16.to_le_bytes());
    assert_eq!(ins.payload[84], 0);
    assert_eq!(&ins.payload[85..117], &[0u8; 32]);
}

#[test]
fn place_bid_encodes_ipv6_and_encryption_key() {
    let ins = place_bid(
        addr(1),
        addr(2),
        1,
        [0u8; 32],
        (IpAddress::V6([9u8; 16]), 443),
        Some([5u8; 32]),
    )
    .expect("derivation should succeed");
    assert_eq!(ins.payload[65], 6);
    assert_eq!(&ins.payload[66..82], &[9u8; 16]);
    assert_eq!(&ins.payload[82..84], &443u16.to_le_bytes());
    assert_eq!(ins.payload[84], 1);
    assert_eq!(&ins.payload[85..117], &[5u8; 32]);
}

#[test]
fn reveal_bid_references_the_derived_bid() {
    let bidder = addr(1);
    let auction = addr(2);
    let args = RevealBidArgs { secret: [7u8; 32], price_per_output_token: 99 };
    let ins = reveal_bid(bidder, auction, addr(3), addr(4), addr(5), args)
        .expect("derivation should succeed");
    assert_eq!(ins.accounts.len(), 6);
    let bid = derive_one(vec![
        b"bid".to_vec(),
        auction.bytes.to_vec(),
        bidder.bytes.to_vec(),
    ]);
    assert_eq!(ins.accounts[0].address, bidder);
    assert_eq!(ins.accounts[1].address, bid.0);
    assert!(ins.accounts[5].is_signer);
    assert_eq!(ins.payload[0], 3);
    assert_eq!(&ins.payload[1..33], &[7u8; 32]);
    assert_eq!(&ins.payload[33..41], &99u64.to_le_bytes());
}

#[test]
fn submit_job_derives_auction_and_bid() {
    let authority = addr(1);
    let bundle = addr(2);
    let data = SubmitJobOutputArgs { output_hash: [6u8; 32], output_tokens: 7 };
    let ins = submit_job(authority, bundle, addr(3), data, None)
        .expect("derivations should succeed");
    assert_eq!(ins.accounts.len(), 6);
    let sid = service_id();
    let auction = auction_of(&bundle, &sid).unwrap();
    let bid = derive_one(vec![
        b"bid".to_vec(),
        auction.bytes.to_vec(),
        authority.bytes.to_vec(),
    ]);
    assert_eq!(ins.accounts[3].address, bid.0);
    assert!(!ins.accounts[3].is_mutable);
    assert_eq!(ins.accounts[4].address, auction);
    assert_eq!(ins.accounts[5].address.bytes, [0u8; 32]);
    assert_eq!(ins.payload[0], 4);
    assert_eq!(&ins.payload[1..33], &[6u8; 32]);
    assert_eq!(&ins.payload[33..41], &7u64.to_le_bytes());
}

#[test]
fn end_auction_targets_the_bundles_auction() {
    let bundle = addr(2);
    let ins = end_auction(addr(1), bundle, addr(3)).expect("derivation should succeed");
    assert_eq!(ins.accounts.len(), 4);
    assert_eq!(ins.accounts[0].address, auction_of(&bundle, &service_id()).unwrap());
    assert_eq!(ins.accounts[1].address, bundle);
    assert!(ins.accounts[3].is_signer);
    assert_eq!(ins.payload, vec![5]);
}

#[test]
fn cancel_bundle_layout() {
    let bundle = addr(2);
    let ins = cancel_bundle(
        addr(1),
        addr(9),
        bundle,
        200,
        RequestTier::Tier1,
        RequestTier::Tier2,
        55,
    )
    .expect("derivations should succeed");
    assert_eq!(ins.accounts.len(), 5);
    let child = derive_one(vec![b"request_bundle".to_vec(), bundle.bytes.to_vec()]);
    assert_eq!(ins.accounts[2].address, child.0);
    let registry = derive_one(vec![
        b"bundle_registry".to_vec(),
        encode(RequestTier::Tier1),
        encode(RequestTier::Tier2),
    ]);
    assert_eq!(ins.accounts[3].address, registry.0);
    assert_eq!(ins.accounts[4].address.bytes, [0u8; 32]);

    assert_eq!(ins.payload.len(), 73);
    assert_eq!(ins.payload[0], 6);
    assert_eq!(&ins.payload[1..33], &[9u8; 32]);
    assert_eq!(&ins.payload[33..41], &200u64.to_le_bytes());
    assert_eq!(&ins.payload[41..49], &1u64.to_le_bytes());
    assert_eq!(&ins.payload[49..57], &2u64.to_le_bytes());
    assert_eq!(&ins.payload[57..65], &(child.1 as u64).to_le_bytes());
    assert_eq!(&ins.payload[65..73], &55u64.to_le_bytes());
}

#[test]
fn close_bid_layout() {
    let ins = close_bid(addr(1), addr(2), addr(3), addr(4), addr(5), addr(6), addr(7));
    assert_eq!(ins.accounts.len(), 8);
    assert!(ins.accounts[0].is_signer);
    assert!(!ins.accounts[1].is_mutable);
    assert!(ins.accounts[2].is_signer);
    assert!(ins.accounts[6].is_signer);
    assert_eq!(
        ins.accounts[7].address.bytes,
        solana_vote_interface::program::ID.to_bytes()
    );
    assert_eq!(ins.payload, vec![7]);
}

#[test]
fn close_request_layout() {
    let bundle = addr(4);
    let args = CloseRequest {
        request_authority: addr(1),
        job_request_key: addr(2),
        bundle_payer: addr(3),
        bundle_key: bundle,
        auction_key: addr(5),
        auction_payer: addr(6),
        context_length_tier: RequestTier::Tier2,
        expiry_duration_tier: RequestTier::Tier3,
        new_bundle_lamports: 77,
        new_auction_lamports: 88,
    };
    let ins = close_request(args).expect("derivations should succeed");
    assert_eq!(ins.accounts.len(), 10);
    let sid = service_id();
    let child = derive_one(vec![b"request_bundle".to_vec(), bundle.bytes.to_vec()]);
    assert_eq!(ins.accounts[7].address, child.0);
    assert_eq!(ins.accounts[8].address, auction_of(&child.0, &sid).unwrap());
    assert_eq!(ins.accounts[9].address, addr(1));
    assert!(ins.accounts[9].is_signer);

    let expected = CloseRequestArgs {
        new_bundle_lamports: 77,
        new_auction_lamports: 88,
        new_bundle_bump: child.1 as u64,
    }
    .to_bytes();
    assert_eq!(ins.payload, expected);
    assert_eq!(ins.payload.len(), 25);
    assert_eq!(ins.payload[0], 8);
}

#[test]
fn submit_validation_layout() {
    let data = SubmitValidationArgs { output_hash: [3u8; 32], valid: true };
    let ins = submit_validation(addr(1), addr(2), addr(3), addr(4), data);
    assert_eq!(ins.accounts.len(), 5);
    assert_eq!(
        ins.accounts[2].address.bytes,
        solana_vote_interface::program::ID.to_bytes()
    );
    assert!(ins.accounts[3].is_signer);
    assert_eq!(ins.payload[0], 9);
    assert_eq!(&ins.payload[1..33], &[3u8; 32]);
    assert_eq!(ins.payload[33], 1);

    let rejected = SubmitValidationArgs { output_hash: [3u8; 32], valid: false };
    let ins2 = submit_validation(addr(1), addr(2), addr(3), addr(4), rejected);
    assert_eq!(ins2.payload[33], 0);
}

#[test]
fn init_bundle_layout() {
    let ins = init_bundle(addr(1), RequestTier::Tier1, RequestTier::Tier2, 11, 22)
        .expect("derivations should succeed");
    assert_eq!(ins.accounts.len(), 4);
    let bundle = derive_one(vec![
        b"request_bundle".to_vec(),
        encode(RequestTier::Tier1),
        encode(RequestTier::Tier2),
    ]);
    let registry = derive_one(vec![
        b"bundle_registry".to_vec(),
        encode(RequestTier::Tier1),
        encode(RequestTier::Tier2),
    ]);
    assert_eq!(ins.accounts[1].address, bundle.0);
    assert_eq!(ins.accounts[2].address, registry.0);
    assert_eq!(ins.accounts[3].address.bytes, [0u8; 32]);

    assert_eq!(ins.payload.len(), 49);
    assert_eq!(ins.payload[0], 10);
    assert_eq!(&ins.payload[1..9], &1u64.to_le_bytes());
    assert_eq!(&ins.payload[9..17], &2u64.to_le_bytes());
    assert_eq!(&ins.payload[17..25], &11u64.to_le_bytes());
    assert_eq!(&ins.payload[25..33], &(bundle.1 as u64).to_le_bytes());
    assert_eq!(&ins.payload[33..41], &(registry.1 as u64).to_le_bytes());
    assert_eq!(&ins.payload[41..49], &22u64.to_le_bytes());
}

#[test]
fn registry_address_is_shared_across_builders() {
    let init = init_bundle(addr(1), RequestTier::Tier1, RequestTier::Tier2, 1, 2)
        .expect("derivations should succeed");
    let cancel = cancel_bundle(
        addr(1),
        addr(9),
        addr(2),
        0,
        RequestTier::Tier1,
        RequestTier::Tier2,
        0,
    )
    .expect("derivations should succeed");
    assert_eq!(init.accounts[2].address, cancel.accounts[3].address);
}

#[test]
fn init_config_layout() {
    let args = InitConfigArgs { min_bundle_lamports: 3, min_auction_lamports: 4 };
    let ins = init_config(addr(1), args).expect("derivation should succeed");
    assert_eq!(ins.accounts.len(), 3);
    let config = derive_one(vec![b"config".to_vec()]);
    assert_eq!(ins.accounts[1].address, config.0);
    assert_eq!(ins.accounts[2].address.bytes, [0u8; 32]);
    assert_eq!(ins.payload.len(), 17);
    assert_eq!(ins.payload[0], 11);
    assert_eq!(&ins.payload[1..9], &3u64.to_le_bytes());
    assert_eq!(&ins.payload[9..17], &4u64.to_le_bytes());
}
