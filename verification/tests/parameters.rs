//! Tests for network predicates and per-network consensus constants.

use chain_fixtures::parameters::{genesis_hash, first_halving_height};
use chain_fixtures::Network;

#[test]
fn network_predicates_are_exclusive() {
    let mainnet = Network::Mainnet;
    assert!(mainnet.is_mainnet());
    assert!(!mainnet.is_default_testnet());

    let testnet = Network::Testnet;
    assert!(!testnet.is_mainnet());
    assert!(testnet.is_default_testnet());
}

#[test]
fn genesis_parent_hash_is_zero_on_every_network() {
    let main_hash = genesis_hash(Network::Mainnet);
    let test_hash = genesis_hash(Network::Testnet);
    assert_eq!(main_hash, chain_fixtures::block::Hash([0u8; 32]));
    assert_eq!(test_hash, chain_fixtures::block::Hash([0u8; 32]));
    assert_eq!(main_hash, test_hash);
    assert_eq!(main_hash.0.len(), 32);
}

#[test]
fn first_halving_heights() {
    assert_eq!(first_halving_height(Network::Testnet).0, 1_116_000);
    assert_eq!(first_halving_height(Network::Mainnet).0, 1_046_400);
}
