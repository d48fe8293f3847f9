//! Tests for the fixture registry: lookups, errors, and table listings.

use chain_fixtures::Network;
use chain_fixtures::SerializationError;

use zebra_test::vectors::{
    BLOCK_MAINNET_1046400_BYTES, BLOCK_MAINNET_653599_BYTES, BLOCK_TESTNET_1116000_BYTES,
    BLOCK_TESTNET_583999_BYTES, CONTINUOUS_MAINNET_BLOCKS, CONTINUOUS_TESTNET_BLOCKS,
    MAINNET_BLOCKS, MAINNET_FINAL_SAPLING_ROOTS, MAINNET_FINAL_SPROUT_ROOTS,
    SAPLING_FINAL_ROOT_MAINNET_1046400_BYTES, SAPLING_FINAL_ROOT_TESTNET_1116000_BYTES,
    TESTNET_BLOCKS, TESTNET_FINAL_SAPLING_ROOTS, TESTNET_FINAL_SPROUT_ROOTS,
};

#[test]
fn get_block_tests() {
    let _mainnet = Network::Mainnet;
}

#[test]
fn get_block_bytes() {
    let mainnet = Network::Mainnet;
    let testnet = Network::Testnet;

    let result = mainnet.get_block_bytes(0, 583999);
    assert!(matches!(
        result,
        Err(SerializationError::NotACachedMainNetBlock(0))
    ));
    let result = mainnet.get_block_bytes(653599, 0).unwrap();
    let correct_main_bytes =
        chain_fixtures::Block::zcash_deserialize(&BLOCK_MAINNET_653599_BYTES).unwrap();
    assert_eq!(result.header.version, correct_main_bytes.header.version);
    assert_eq!(
        result.header.previous_block_hash,
        correct_main_bytes.header.previous_block_hash
    );
    assert_eq!(result.header.solution, correct_main_bytes.header.solution);
    assert_eq!(
        result.transaction_bytes,
        correct_main_bytes.transaction_bytes
    );

    let result = testnet.get_block_bytes(653599, 0);
    assert!(matches!(
        result,
        Err(SerializationError::NotACachedTestNetBlock(0))
    ));
    let result = testnet.get_block_bytes(0, 583999).unwrap();
    let correct_test_bytes =
        chain_fixtures::Block::zcash_deserialize(&BLOCK_TESTNET_583999_BYTES).unwrap();
    assert_eq!(result.header.version, correct_test_bytes.header.version);
    assert_eq!(
        result.header.previous_block_hash,
        correct_test_bytes.header.previous_block_hash
    );
    assert_eq!(result.header.solution, correct_test_bytes.header.solution);
    assert_eq!(
        result.transaction_bytes,
        correct_test_bytes.transaction_bytes
    );
}

#[test]
fn get_block_sapling_roots_bytes() {
    let mainnet = Network::Mainnet;
    let testnet = Network::Testnet;

    let result = mainnet.get_block_sapling_roots_bytes(0, 1116000);
    assert!(matches!(
        result,
        Err(SerializationError::NotACachedMainNetSaplingRootBytes(0))
    ));
    let result = mainnet.get_block_sapling_roots_bytes(1046400, 0).unwrap();
    let correct_main_result: (&[u8], [u8; 32]) = (
        &BLOCK_MAINNET_1046400_BYTES[..],
        *SAPLING_FINAL_ROOT_MAINNET_1046400_BYTES,
    );
    assert_eq!(result, correct_main_result);

    let result = testnet.get_block_sapling_roots_bytes(1046400, 0);
    assert!(matches!(
        result,
        Err(SerializationError::NotACachedTestNetSaplingRootBytes(0))
    ));
    let result = testnet.get_block_sapling_roots_bytes(0, 1116000).unwrap();
    let correct_test_result: (&[u8], [u8; 32]) = (
        &BLOCK_TESTNET_1116000_BYTES[..],
        *SAPLING_FINAL_ROOT_TESTNET_1116000_BYTES,
    );
    assert_eq!(result, correct_test_result);
}

#[test]
fn block_at_production_known_height() {
    let mainnet = Network::Mainnet;
    let block = mainnet.get_block_bytes(653599, 0).unwrap();
    let fixture = &BLOCK_MAINNET_653599_BYTES;
    assert_eq!(block.header.version as usize, 4);
    assert_eq!(&block.header.previous_block_hash.0[..], &fixture[4..36]);
    assert_eq!(&block.header.merkle_root[..], &fixture[36..68]);
    assert_eq!(block.header.solution.len(), 1344);
    assert_eq!(block.coinbase_height(), Some(chain_fixtures::Height(653599)));
}

#[test]
fn block_at_test_known_height() {
    let testnet = Network::Testnet;
    let block = testnet.get_block_bytes(0, 583999).unwrap();
    assert_eq!(block.coinbase_height(), Some(chain_fixtures::Height(583999)));
    let result = testnet.get_block_bytes(653599, 653599);
    assert!(matches!(
        result,
        Err(SerializationError::NotACachedTestNetBlock(653599))
    ));
}

#[test]
fn sapling_root_is_32_bytes() {
    let mainnet = Network::Mainnet;
    let (_block, root) = mainnet.get_block_sapling_roots_bytes(1046400, 0).unwrap();
    assert_eq!(root.len(), 32);
    let result = mainnet.get_block_sapling_roots_bytes(1116000, 0);
    assert!(matches!(
        result,
        Err(SerializationError::NotACachedMainNetSaplingRootBytes(
            1116000
        ))
    ));
}

#[test]
fn sprout_roots_first_joinsplit_heights() {
    let (main_blocks, main_sprout_roots, main_height) =
        Network::Mainnet.get_block_sprout_roots_height();
    assert_eq!(main_height, 396);
    assert!(!main_blocks.is_empty());
    assert!(!main_sprout_roots.is_empty());
    assert!(main_sprout_roots.iter().all(|(_h, root)| root.len() == 32));

    let (_test_blocks, _test_sprout_roots, test_height) =
        Network::Testnet.get_block_sprout_roots_height();
    assert_eq!(test_height, 2259);
}

#[test]
fn gen_block_is_table_genesis_entry() {
    let genesis = Network::Mainnet.get_gen_block().unwrap();
    assert_eq!(genesis, *MAINNET_BLOCKS.get(&0).unwrap());
    assert!(Network::Testnet.get_gen_block().is_some());
}

#[test]
fn block_map_lists_whole_table() {
    let entries = Network::Mainnet.get_block_map();
    assert_eq!(entries.len(), MAINNET_BLOCKS.len());
    for (height, block) in &entries {
        assert_eq!(MAINNET_BLOCKS.get(height).unwrap(), block);
    }
    let mut expected_heights: Vec<u32> = MAINNET_BLOCKS.keys().copied().collect();
    expected_heights.sort_unstable();
    let listed_heights: Vec<u32> = entries.iter().map(|(h, _)| *h).collect();
    assert_eq!(listed_heights, expected_heights);
}

#[test]
fn blockchain_map_is_continuous_prefix() {
    let entries = Network::Mainnet.get_blockchain_map();
    assert_eq!(entries.len(), CONTINUOUS_MAINNET_BLOCKS.len());
    for (i, (height, block)) in entries.iter().enumerate() {
        assert_eq!(*height as usize, i);
        assert_eq!(CONTINUOUS_MAINNET_BLOCKS.get(height).unwrap(), block);
    }
}

#[test]
fn sapling_roots_iter_matches_map() {
    let (blocks_a, roots_a) = Network::Testnet.get_block_sapling_roots_iter();
    let (blocks_b, roots_b) = Network::Testnet.get_block_sapling_roots_map();
    assert_eq!(blocks_a, blocks_b);
    assert_eq!(roots_a, roots_b);
    assert!(roots_a.iter().any(|(h, _)| *h == 1116000));
}

#[test]
fn listings_match_fixture_tables() {
    let main_blocks = Network::Mainnet.get_block_iter();
    assert_eq!(main_blocks.len(), MAINNET_BLOCKS.len());
    for (height, block) in &main_blocks {
        assert_eq!(MAINNET_BLOCKS.get(height).unwrap(), block);
    }

    let test_blocks = Network::Testnet.get_block_iter();
    assert_eq!(test_blocks.len(), TESTNET_BLOCKS.len());
    for (height, block) in &test_blocks {
        assert_eq!(TESTNET_BLOCKS.get(height).unwrap(), block);
    }

    let test_chain = Network::Testnet.get_blockchain_iter();
    assert_eq!(test_chain.len(), CONTINUOUS_TESTNET_BLOCKS.len());
    for (height, block) in &test_chain {
        assert_eq!(CONTINUOUS_TESTNET_BLOCKS.get(height).unwrap(), block);
    }

    let (_, main_sapling_roots) = Network::Mainnet.get_block_sapling_roots_iter();
    assert_eq!(main_sapling_roots.len(), MAINNET_FINAL_SAPLING_ROOTS.len());
    for (height, root) in &main_sapling_roots {
        assert_eq!(*MAINNET_FINAL_SAPLING_ROOTS.get(height).unwrap(), root);
    }

    let (_, test_sapling_roots) = Network::Testnet.get_block_sapling_roots_iter();
    assert_eq!(test_sapling_roots.len(), TESTNET_FINAL_SAPLING_ROOTS.len());
    for (height, root) in &test_sapling_roots {
        assert_eq!(*TESTNET_FINAL_SAPLING_ROOTS.get(height).unwrap(), root);
    }

    let (_, main_sprout_roots, _) = Network::Mainnet.get_block_sprout_roots_height();
    assert_eq!(main_sprout_roots.len(), MAINNET_FINAL_SPROUT_ROOTS.len());
    for (height, root) in &main_sprout_roots {
        assert_eq!(*MAINNET_FINAL_SPROUT_ROOTS.get(height).unwrap(), root);
    }

    let (_, test_sprout_roots, _) = Network::Testnet.get_block_sprout_roots_height();
    assert_eq!(test_sprout_roots.len(), TESTNET_FINAL_SPROUT_ROOTS.len());
    for (height, root) in &test_sprout_roots {
        assert_eq!(*TESTNET_FINAL_SPROUT_ROOTS.get(height).unwrap(), root);
    }
}

#[test]
fn repeated_calls_are_bit_identical() {
    let mainnet = Network::Mainnet;
    let first = mainnet.get_block_bytes(982681, 0).unwrap();
    let second = mainnet.get_block_bytes(982681, 0).unwrap();
    assert_eq!(first.header.version, second.header.version);
    assert_eq!(
        first.header.previous_block_hash,
        second.header.previous_block_hash
    );
    assert_eq!(first.header.merkle_root, second.header.merkle_root);
    assert_eq!(first.header.commitment_bytes, second.header.commitment_bytes);
    assert_eq!(first.header.time, second.header.time);
    assert_eq!(first.header.difficulty_bits, second.header.difficulty_bits);
    assert_eq!(first.header.nonce, second.header.nonce);
    assert_eq!(first.header.solution, second.header.solution);
    assert_eq!(first.transaction_bytes, second.transaction_bytes);

    assert_eq!(mainnet.get_block_map(), mainnet.get_block_map());
    assert_eq!(
        mainnet.get_block_sapling_roots_bytes(1046400, 0).unwrap(),
        mainnet.get_block_sapling_roots_bytes(1046400, 0).unwrap()
    );
    assert_eq!(
        mainnet.get_gen_block().unwrap(),
        mainnet.get_gen_block().unwrap()
    );
}
