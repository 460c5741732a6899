use auction_sdk::addr::Address;
use auction_sdk::addr::sentinel;
use auction_sdk::addr::truncated;
use auction_sdk::chain::auction_of;
use auction_sdk::chain::next_bundle;
use auction_sdk::chain::plan_chain;
use auction_sdk::commit::commit;
use auction_sdk::commit::verify_reveal;
use auction_sdk::ids::service_id;
use auction_sdk::ids::system_program_id;
use auction_sdk::ids::vote_program_id;
use auction_sdk::tier::RequestTier;
use auction_sdk::tier::decode;
use auction_sdk::tier::encode;
use auction_sdk::tier::ordinal;

fn addr(b: u8) -> Address {
    Address { bytes: [b; 32] }
}

#[test]
fn tier_ordinals_are_stable() {
    let tiers = [
        RequestTier::Tier0,
        RequestTier::Tier1,
        RequestTier::Tier2,
        RequestTier::Tier3,
        RequestTier::Tier4,
        RequestTier::Tier5,
        RequestTier::Tier6,
        RequestTier::Tier7,
    ];
    for (i, t) in tiers.iter().enumerate() {
        assert_eq!(ordinal(*t), i as u64);
    }
}

#[test]
fn tier_three_encodes_little_endian() {
    assert_eq!(encode(RequestTier::Tier3), vec![3, 0, 0, 0, 0, 0, 0, 0]);
}

#[test]
fn tier_round_trip_all_variants() {
    let tiers = [
        RequestTier::Tier0,
        RequestTier::Tier1,
        RequestTier::Tier2,
        RequestTier::Tier3,
        RequestTier::Tier4,
        RequestTier::Tier5,
        RequestTier::Tier6,
        RequestTier::Tier7,
    ];
    for t in tiers {
        assert_eq!(decode(&encode(t)), Some(t));
    }
}

#[test]
fn tier_decode_rejects_unknown_ordinal() {
    assert_eq!(decode(&vec![8, 0, 0, 0, 0, 0, 0, 0]), None);
    assert_eq!(decode(&vec![255, 255, 255, 255, 255, 255, 255, 255]), None);
}

#[test]
fn tier_decode_rejects_wrong_length() {
    assert_eq!(decode(&vec![3, 0, 0, 0]), None);
    assert_eq!(decode(&vec![3, 0, 0, 0, 0, 0, 0, 0, 0]), None);
    assert_eq!(decode(&Vec::new()), None);
}

#[test]
fn commit_reveal_round_trip() {
    let secret = [42u8; 32];
    let c = commit(&secret, 1234);
    assert!(verify_reveal(&secret, 1234, &c));
}

#[test]
fn reveal_with_wrong_price_fails() {
    let secret = [42u8; 32];
    let c = commit(&secret, 1234);
    assert!(!verify_reveal(&secret, 1235, &c));
    assert!(!verify_reveal(&secret, 0, &c));
}

#[test]
fn reveal_with_wrong_secret_fails() {
    let c = commit(&[42u8; 32], 1234);
    assert!(!verify_reveal(&[43u8; 32], 1234, &c));
}

#[test]
fn commit_matches_external_hasher() {
    let secret = [9u8; 32];
    let price: u64 = 777;
    let expected =
        solana_sdk::hash::hashv(&[&secret, &price.to_le_bytes()]).to_bytes();
    assert_eq!(commit(&secret, price), expected);
}

#[test]
fn derive_is_deterministic() {
    let sid = service_id();
    let seeds: Vec<Vec<u8>> = vec![b"auction".to_vec(), vec![7u8; 32]];
    let first = auction_sdk::addr::derive(&seeds, &sid).expect("derivation should succeed");
    let second = auction_sdk::addr::derive(&seeds, &sid).expect("derivation should succeed");
    assert_eq!(first.0, second.0);
    assert_eq!(first.1, second.1);
}

#[test]
fn derive_matches_external_derivation() {
    let sid = service_id();
    let pid = solana_sdk::pubkey::Pubkey::new_from_array(sid.bytes);
    let seeds: Vec<Vec<u8>> = vec![b"auction".to_vec(), vec![7u8; 32]];
    let mine = auction_sdk::addr::derive(&seeds, &sid).expect("derivation should succeed");
    let theirs = solana_sdk::pubkey::Pubkey::find_program_address(
        &[b"auction", &[7u8; 32]],
        &pid,
    );
    assert_eq!(mine.0.bytes, theirs.0.to_bytes());
    assert_eq!(mine.1, theirs.1);
}

#[test]
fn derive_depends_on_seed_order() {
    let sid = service_id();
    let forward: Vec<Vec<u8>> = vec![vec![1, 2, 3], vec![4, 5, 6]];
    let backward: Vec<Vec<u8>> = vec![vec![4, 5, 6], vec![1, 2, 3]];
    let a = auction_sdk::addr::derive(&forward, &sid).expect("derivation should succeed");
    let b = auction_sdk::addr::derive(&backward, &sid).expect("derivation should succeed");
    assert_ne!(a.0, b.0);
}

#[test]
fn long_seed_is_truncated_to_first_32_bytes() {
    let long: Vec<u8> = (0u8..40).collect();
    let head: Vec<u8> = (0u8..32).collect();
    assert_eq!(truncated(&long), head);

    let sid = service_id();
    let with_long = auction_sdk::addr::derive(&vec![long], &sid).expect("derivation should succeed");
    let with_head = auction_sdk::addr::derive(&vec![(0u8..32).collect()], &sid)
        .expect("derivation should succeed");
    assert_eq!(with_long.0, with_head.0);
    assert_eq!(with_long.1, with_head.1);
}

#[test]
fn short_seed_is_kept_whole() {
    let short: Vec<u8> = vec![1, 2, 3];
    assert_eq!(truncated(&short), short);
}

#[test]
fn chain_links_compose() {
    let sid = service_id();
    let root = addr(11);
    let plan = plan_chain(&root, 8, &sid).expect("planning should succeed");
    assert_eq!(plan.len(), 9);
    assert_eq!(plan[0].bundle, root);
    for i in 0..8 {
        let successor = next_bundle(&plan[i].bundle, &sid).expect("derivation should succeed");
        assert_eq!(plan[i + 1].bundle, successor);
    }
    for pair in &plan {
        let auction = auction_of(&pair.bundle, &sid).expect("derivation should succeed");
        assert_eq!(pair.auction, auction);
    }
}

#[test]
fn chain_addresses_are_pairwise_distinct() {
    let sid = service_id();
    let plan = plan_chain(&addr(11), 8, &sid).expect("planning should succeed");
    for i in 0..plan.len() {
        for j in 0..plan.len() {
            if i != j {
                assert_ne!(plan[i].bundle, plan[j].bundle);
                assert_ne!(plan[i].auction, plan[j].auction);
            }
            assert_ne!(plan[i].bundle, plan[j].auction);
        }
    }
}

#[test]
fn chain_of_depth_zero_is_the_root_pair() {
    let sid = service_id();
    let root = addr(5);
    let plan = plan_chain(&root, 0, &sid).expect("planning should succeed");
    assert_eq!(plan.len(), 1);
    assert_eq!(plan[0].bundle, root);
    assert_eq!(plan[0].auction, auction_of(&root, &sid).unwrap());
}

#[test]
fn sentinel_is_all_zero() {
    assert_eq!(sentinel().bytes, [0u8; 32]);
}

#[test]
fn system_service_id_is_the_sentinel() {
    assert_eq!(system_program_id().bytes, [0u8; 32]);
    assert_eq!(
        system_program_id().bytes,
        solana_system_interface::program::ID.to_bytes()
    );
}

#[test]
fn vote_service_id_matches_external_constant() {
    assert_eq!(
        vote_program_id().bytes,
        solana_vote_interface::program::ID.to_bytes()
    );
}

#[test]
fn vote_service_id_bytes_are_as_documented() {
    assert_eq!(
        vote_program_id().bytes,
        [
            7, 97, 72, 29, 53, 116, 116, 187, 124, 77, 118, 36, 235, 211, 189, 179, 216, 53, 94,
            115, 209, 16, 67, 252, 13, 163, 83, 128, 0, 0, 0, 0
        ]
    );
}
