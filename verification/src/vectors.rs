//! Network methods for fetching blockchain fixtures.
//!
//! The raw data lives in immutable per-network tables of the `zebra_test`
//! crate: sparse block tables keyed by height, continuous chain segments, and
//! Sapling / Sprout commitment-tree root tables. Each table's contents are
//! named by an uninterpreted spec function of the height, and every access
//! goes through a small trusted wrapper whose contract speaks over that name.

use vstd::prelude::*;

use crate::block::{
    block_matches, block_transactions_of, block_well_formed, blocks_agree, coinbase_height_of,
    Block,
};
use crate::parameters::{
    Network, MAINNET_FIRST_JOINSPLIT_HEIGHT, TESTNET_FIRST_JOINSPLIT_HEIGHT,
};
use crate::serialization::SerializationError;

verus! {

/// The serialized block at `height` in the sparse production-chain table.
pub uninterp spec fn mainnet_block(height: u32) -> Option<Seq<u8>>;

/// The serialized block at `height` in the sparse test-chain table.
pub uninterp spec fn testnet_block(height: u32) -> Option<Seq<u8>>;

/// The serialized block at `height` in the continuous production-chain segment.
pub uninterp spec fn mainnet_chain_block(height: u32) -> Option<Seq<u8>>;

/// The serialized block at `height` in the continuous test-chain segment.
pub uninterp spec fn testnet_chain_block(height: u32) -> Option<Seq<u8>>;

/// The final Sapling root at `height` in the production-chain root table.
pub uninterp spec fn mainnet_sapling_root(height: u32) -> Option<Seq<u8>>;

/// The final Sapling root at `height` in the test-chain root table.
pub uninterp spec fn testnet_sapling_root(height: u32) -> Option<Seq<u8>>;

/// The final Sprout root at `height` in the production-chain root table.
pub uninterp spec fn mainnet_sprout_root(height: u32) -> Option<Seq<u8>>;

/// The final Sprout root at `height` in the test-chain root table.
pub uninterp spec fn testnet_sprout_root(height: u32) -> Option<Seq<u8>>;

/// Whether `entries` lists exactly the contents of `table`: each pair is an
/// entry of the table, heights strictly ascend, and every height the table
/// holds appears.
pub open spec fn block_entries_match(
    table: spec_fn(u32) -> Option<Seq<u8>>,
    entries: Seq<(u32, &'static [u8])>,
) -> bool {
    &&& forall|i: int|
        0 <= i < entries.len() ==> table(#[trigger] entries[i].0) == Some(entries[i].1@)
    &&& forall|i: int, j: int| 0 <= i < j < entries.len() ==> entries[i].0 < entries[j].0
    &&& forall|h: u32|
        #[trigger] table(h) is Some ==> exists|i: int|
            0 <= i < entries.len() && entries[i].0 == h
}

/// Whether `entries` lists exactly the contents of the 32-byte-root table
/// `table`, in strictly ascending height order, completely.
pub open spec fn root_entries_match(
    table: spec_fn(u32) -> Option<Seq<u8>>,
    entries: Seq<(u32, [u8; 32])>,
) -> bool {
    &&& forall|i: int|
        0 <= i < entries.len() ==> table(#[trigger] entries[i].0) == Some(entries[i].1@)
    &&& forall|i: int, j: int| 0 <= i < j < entries.len() ==> entries[i].0 < entries[j].0
    &&& forall|h: u32|
        #[trigger] table(h) is Some ==> exists|i: int|
            0 <= i < entries.len() && entries[i].0 == h
}

/// Relies on `zebra_test::vectors::MAINNET_BLOCKS`, a read-only map built
/// once from fixed hex data: `BTreeMap::get` returns the entry at `height`,
/// and the map's source shows entries at heights 0, 653599, 982681 and
/// 1046400 among others.
#[verifier::external_body]
fn mainnet_block_get(height: u32) -> (r: Option<&'static [u8]>)
    ensures
        match r {
            Some(b) => mainnet_block(height) == Some(b@),
            None => mainnet_block(height) is None,
        },
        height == 0 || height == 653_599 || height == 982_681 || height == 1_046_400 ==> r
            is Some,
{
    zebra_test::vectors::MAINNET_BLOCKS.get(&height).copied()
}

/// Relies on `zebra_test::vectors::TESTNET_BLOCKS`, a read-only map built
/// once from fixed hex data: `BTreeMap::get` returns the entry at `height`,
/// and the map's source shows entries at heights 0, 583999, 925483 and
/// 1116000 among others.
#[verifier::external_body]
fn testnet_block_get(height: u32) -> (r: Option<&'static [u8]>)
    ensures
        match r {
            Some(b) => testnet_block(height) == Some(b@),
            None => testnet_block(height) is None,
        },
        height == 0 || height == 583_999 || height == 925_483 || height == 1_116_000 ==> r
            is Some,
{
    zebra_test::vectors::TESTNET_BLOCKS.get(&height).copied()
}

/// Relies on `zebra_test::vectors::MAINNET_FINAL_SAPLING_ROOTS`, a read-only
/// map built once from fixed hex data: `BTreeMap::get` returns the 32-byte
/// root at `height`, and the map's source shows an entry at height 1046400.
#[verifier::external_body]
fn mainnet_sapling_root_get(height: u32) -> (r: Option<[u8; 32]>)
    ensures
        match r {
            Some(root) => mainnet_sapling_root(height) == Some(root@),
            None => mainnet_sapling_root(height) is None,
        },
        height == 1_046_400 ==> r is Some,
{
    zebra_test::vectors::MAINNET_FINAL_SAPLING_ROOTS.get(&height).map(|root| **root)
}

/// Relies on `zebra_test::vectors::TESTNET_FINAL_SAPLING_ROOTS`, a read-only
/// map built once from fixed hex data: `BTreeMap::get` returns the 32-byte
/// root at `height`, and the map's source shows an entry at height 1116000.
#[verifier::external_body]
fn testnet_sapling_root_get(height: u32) -> (r: Option<[u8; 32]>)
    ensures
        match r {
            Some(root) => testnet_sapling_root(height) == Some(root@),
            None => testnet_sapling_root(height) is None,
        },
        height == 1_116_000 ==> r is Some,
{
    zebra_test::vectors::TESTNET_FINAL_SAPLING_ROOTS.get(&height).map(|root| **root)
}

/// Relies on `zebra_test::vectors::MAINNET_BLOCKS`: `BTreeMap::iter` yields
/// every entry once, in ascending key order.
#[verifier::external_body]
fn mainnet_block_entries() -> (r: Vec<(u32, &'static [u8])>)
    ensures
        block_entries_match((|h: u32| mainnet_block(h)), r@),
{
    let mut out: Vec<(u32, &'static [u8])> = Vec::new();
    for (height, block) in zebra_test::vectors::MAINNET_BLOCKS.iter() {
        out.push((*height, *block));
    }
    out
}

/// Relies on `zebra_test::vectors::TESTNET_BLOCKS`: `BTreeMap::iter` yields
/// every entry once, in ascending key order.
#[verifier::external_body]
fn testnet_block_entries() -> (r: Vec<(u32, &'static [u8])>)
    ensures
        block_entries_match((|h: u32| testnet_block(h)), r@),
{
    let mut out: Vec<(u32, &'static [u8])> = Vec::new();
    for (height, block) in zebra_test::vectors::TESTNET_BLOCKS.iter() {
        out.push((*height, *block));
    }
    out
}

/// Relies on `zebra_test::vectors::CONTINUOUS_MAINNET_BLOCKS`, the gap-free
/// production-chain prefix: `BTreeMap::iter` yields every entry once, in
/// ascending key order, and the table is built by keeping exactly the leading
/// entries whose height equals their position, so the k-th entry has height k.
#[verifier::external_body]
fn mainnet_chain_entries() -> (r: Vec<(u32, &'static [u8])>)
    ensures
        block_entries_match((|h: u32| mainnet_chain_block(h)), r@),
        forall|i: int| 0 <= i < r@.len() ==> r@[i].0 == i,
{
    let mut out: Vec<(u32, &'static [u8])> = Vec::new();
    for (height, block) in zebra_test::vectors::CONTINUOUS_MAINNET_BLOCKS.iter() {
        out.push((*height, *block));
    }
    out
}

/// Relies on `zebra_test::vectors::CONTINUOUS_TESTNET_BLOCKS`, the gap-free
/// test-chain prefix: `BTreeMap::iter` yields every entry once, in ascending
/// key order, and the table is built by keeping exactly the leading entries
/// whose height equals their position, so the k-th entry has height k.
#[verifier::external_body]
fn testnet_chain_entries() -> (r: Vec<(u32, &'static [u8])>)
    ensures
        block_entries_match((|h: u32| testnet_chain_block(h)), r@),
        forall|i: int| 0 <= i < r@.len() ==> r@[i].0 == i,
{
    let mut out: Vec<(u32, &'static [u8])> = Vec::new();
    for (height, block) in zebra_test::vectors::CONTINUOUS_TESTNET_BLOCKS.iter() {
        out.push((*height, *block));
    }
    out
}

/// Relies on `zebra_test::vectors::MAINNET_FINAL_SAPLING_ROOTS`:
/// `BTreeMap::iter` yields every entry once, in ascending key order.
#[verifier::external_body]
fn mainnet_sapling_root_entries() -> (r: Vec<(u32, [u8; 32])>)
    ensures
        root_entries_match((|h: u32| mainnet_sapling_root(h)), r@),
{
    let mut out: Vec<(u32, [u8; 32])> = Vec::new();
    for (height, root) in zebra_test::vectors::MAINNET_FINAL_SAPLING_ROOTS.iter() {
        out.push((*height, **root));
    }
    out
}

/// Relies on `zebra_test::vectors::TESTNET_FINAL_SAPLING_ROOTS`:
/// `BTreeMap::iter` yields every entry once, in ascending key order.
#[verifier::external_body]
fn testnet_sapling_root_entries() -> (r: Vec<(u32, [u8; 32])>)
    ensures
        root_entries_match((|h: u32| testnet_sapling_root(h)), r@),
{
    let mut out: Vec<(u32, [u8; 32])> = Vec::new();
    for (height, root) in zebra_test::vectors::TESTNET_FINAL_SAPLING_ROOTS.iter() {
        out.push((*height, **root));
    }
    out
}

/// Relies on `zebra_test::vectors::MAINNET_FINAL_SPROUT_ROOTS`:
/// `BTreeMap::iter` yields every entry once, in ascending key order.
#[verifier::external_body]
fn mainnet_sprout_root_entries() -> (r: Vec<(u32, [u8; 32])>)
    ensures
        root_entries_match((|h: u32| mainnet_sprout_root(h)), r@),
{
    let mut out: Vec<(u32, [u8; 32])> = Vec::new();
    for (height, root) in zebra_test::vectors::MAINNET_FINAL_SPROUT_ROOTS.iter() {
        out.push((*height, **root));
    }
    out
}

/// Relies on `zebra_test::vectors::TESTNET_FINAL_SPROUT_ROOTS`:
/// `BTreeMap::iter` yields every entry once, in ascending key order.
#[verifier::external_body]
fn testnet_sprout_root_entries() -> (r: Vec<(u32, [u8; 32])>)
    ensures
        root_entries_match((|h: u32| testnet_sprout_root(h)), r@),
{
    let mut out: Vec<(u32, [u8; 32])> = Vec::new();
    for (height, root) in zebra_test::vectors::TESTNET_FINAL_SPROUT_ROOTS.iter() {
        out.push((*height, **root));
    }
    out
}

/// What `get_gen_block` returns for `network`: the genesis entry of the
/// network's sparse block table, which both tables hold.
pub open spec fn gen_block_result(network: Network, r: Option<&'static [u8]>) -> bool {
    &&& network is Mainnet ==> ({
        &&& r matches Some(b)
        &&& mainnet_block(0) == Some(b@)
    })
    &&& network is Testnet ==> ({
        &&& r matches Some(b)
        &&& testnet_block(0) == Some(b@)
    })
}

/// What `get_block_bytes` returns for each network and candidate pair: the
/// deserialized cached block on a known height, a `Parse` failure exactly on
/// malformed cached bytes, and the network's `NotACached` error, carrying the
/// supplied candidate, exactly on unknown heights.
pub open spec fn block_bytes_result(
    network: Network,
    main_bytes: u32,
    test_bytes: u32,
    r: Result<Block, SerializationError>,
) -> bool {
    &&& network is Mainnet ==> match r {
        Ok(b) => {
            &&& main_bytes == 653_599 || main_bytes == 982_681
            &&& mainnet_block(main_bytes) matches Some(data)
            &&& block_well_formed(data)
            &&& block_matches(b, data)
        },
        Err(e) => match e {
            SerializationError::NotACachedMainNetBlock(v) => {
                &&& v == main_bytes
                &&& main_bytes != 653_599
                &&& main_bytes != 982_681
            },
            SerializationError::Parse(m) => {
                &&& main_bytes == 653_599 || main_bytes == 982_681
                &&& mainnet_block(main_bytes) matches Some(data)
                &&& !block_well_formed(data)
                &&& m@ == "malformed block bytes"@
            },
            _ => false,
        },
    }
    &&& network is Testnet ==> match r {
        Ok(b) => {
            &&& test_bytes == 583_999 || test_bytes == 925_483
            &&& testnet_block(test_bytes) matches Some(data)
            &&& block_well_formed(data)
            &&& block_matches(b, data)
        },
        Err(e) => match e {
            SerializationError::NotACachedTestNetBlock(v) => {
                &&& v == test_bytes
                &&& test_bytes != 583_999
                &&& test_bytes != 925_483
            },
            SerializationError::Parse(m) => {
                &&& test_bytes == 583_999 || test_bytes == 925_483
                &&& testnet_block(test_bytes) matches Some(data)
                &&& !block_well_formed(data)
                &&& m@ == "malformed block bytes"@
            },
            _ => false,
        },
    }
}

/// What `get_block_sapling_roots_bytes` returns for each network and
/// candidate pair: the cached block bytes paired with the final Sapling root
/// on the network's known height, and the network's `NotACached` error,
/// carrying the supplied candidate, on every other value.
pub open spec fn sapling_roots_result(
    network: Network,
    main_bytes: u32,
    test_bytes: u32,
    r: Result<(&'static [u8], [u8; 32]), SerializationError>,
) -> bool {
    &&& network is Mainnet ==> match r {
        Ok(p) => {
            &&& main_bytes == 1_046_400
            &&& mainnet_block(1_046_400) == Some(p.0@)
            &&& mainnet_sapling_root(1_046_400) == Some(p.1@)
        },
        Err(e) => {
            &&& e matches SerializationError::NotACachedMainNetSaplingRootBytes(v)
            &&& v == main_bytes
            &&& main_bytes != 1_046_400
        },
    }
    &&& network is Testnet ==> match r {
        Ok(p) => {
            &&& test_bytes == 1_116_000
            &&& testnet_block(1_116_000) == Some(p.0@)
            &&& testnet_sapling_root(1_116_000) == Some(p.1@)
        },
        Err(e) => {
            &&& e matches SerializationError::NotACachedTestNetSaplingRootBytes(v)
            &&& v == test_bytes
            &&& test_bytes != 1_116_000
        },
    }
}

impl Network {
    /// Returns genesis block for chain.
    pub fn get_gen_block(&self) -> (r: Option<&'static [u8]>)
        ensures
            gen_block_result(*self, r),
    {
        if self.is_mainnet() {
            mainnet_block_get(0)
        } else {
            testnet_block_get(0)
        }
    }

    /// Returns the sparse block table as (height, block bytes) pairs in
    /// ascending height order.
    pub fn get_block_iter(&self) -> (r: Vec<(u32, &'static [u8])>)
        ensures
            *self is Mainnet ==> block_entries_match((|h: u32| mainnet_block(h)), r@),
            *self is Testnet ==> block_entries_match((|h: u32| testnet_block(h)), r@),
    {
        if self.is_mainnet() {
            mainnet_block_entries()
        } else {
            testnet_block_entries()
        }
    }

    /// Return the map of heights to blocks, as (height, block bytes) pairs in
    /// ascending height order.
    pub fn get_block_map(&self) -> (r: Vec<(u32, &'static [u8])>)
        ensures
            *self is Mainnet ==> block_entries_match((|h: u32| mainnet_block(h)), r@),
            *self is Testnet ==> block_entries_match((|h: u32| testnet_block(h)), r@),
    {
        if self.is_mainnet() {
            mainnet_block_entries()
        } else {
            testnet_block_entries()
        }
    }

    /// Returns the continuous chain segment as (height, block bytes) pairs in
    /// ascending height order: a gap-free range of heights starting at zero,
    /// the k-th entry at height k.
    pub fn get_blockchain_iter(&self) -> (r: Vec<(u32, &'static [u8])>)
        ensures
            *self is Mainnet ==> block_entries_match((|h: u32| mainnet_chain_block(h)), r@),
            *self is Testnet ==> block_entries_match((|h: u32| testnet_chain_block(h)), r@),
            forall|i: int| 0 <= i < r@.len() ==> r@[i].0 == i,
    {
        if self.is_mainnet() {
            mainnet_chain_entries()
        } else {
            testnet_chain_entries()
        }
    }

    /// Returns the continuous chain segment, keys are heights, and values are
    /// blocks, as pairs in ascending height order: a gap-free range of heights
    /// starting at zero, the k-th entry at height k.
    pub fn get_blockchain_map(&self) -> (r: Vec<(u32, &'static [u8])>)
        ensures
            *self is Mainnet ==> block_entries_match((|h: u32| mainnet_chain_block(h)), r@),
            *self is Testnet ==> block_entries_match((|h: u32| testnet_chain_block(h)), r@),
            forall|i: int| 0 <= i < r@.len() ==> r@[i].0 == i,
    {
        if self.is_mainnet() {
            mainnet_chain_entries()
        } else {
            testnet_chain_entries()
        }
    }

    /// Returns the sparse block table and the final Sapling root table, each
    /// as pairs in ascending height order.
    pub fn get_block_sapling_roots_iter(&self) -> (r: (
        Vec<(u32, &'static [u8])>,
        Vec<(u32, [u8; 32])>,
    ))
        ensures
            *self is Mainnet ==> block_entries_match((|h: u32| mainnet_block(h)), r.0@)
                && root_entries_match((|h: u32| mainnet_sapling_root(h)), r.1@),
            *self is Testnet ==> block_entries_match((|h: u32| testnet_block(h)), r.0@)
                && root_entries_match((|h: u32| testnet_sapling_root(h)), r.1@),
    {
        if self.is_mainnet() {
            (mainnet_block_entries(), mainnet_sapling_root_entries())
        } else {
            (testnet_block_entries(), testnet_sapling_root_entries())
        }
    }

    /// Returns the sparse block table and the final Sapling root table, each
    /// as pairs in ascending height order.
    pub fn get_block_sapling_roots_map(&self) -> (r: (
        Vec<(u32, &'static [u8])>,
        Vec<(u32, [u8; 32])>,
    ))
        ensures
            *self is Mainnet ==> block_entries_match((|h: u32| mainnet_block(h)), r.0@)
                && root_entries_match((|h: u32| mainnet_sapling_root(h)), r.1@),
            *self is Testnet ==> block_entries_match((|h: u32| testnet_block(h)), r.0@)
                && root_entries_match((|h: u32| testnet_sapling_root(h)), r.1@),
    {
        if self.is_mainnet() {
            (mainnet_block_entries(), mainnet_sapling_root_entries())
        } else {
            (testnet_block_entries(), testnet_sapling_root_entries())
        }
    }

    /// Returns the sparse block table, the final Sprout root table, and the
    /// height of the first block containing a JoinSplit for the network.
    pub fn get_block_sprout_roots_height(&self) -> (r: (
        Vec<(u32, &'static [u8])>,
        Vec<(u32, [u8; 32])>,
        u32,
    ))
        ensures
            *self is Mainnet ==> block_entries_match((|h: u32| mainnet_block(h)), r.0@)
                && root_entries_match((|h: u32| mainnet_sprout_root(h)), r.1@) && r.2
                == MAINNET_FIRST_JOINSPLIT_HEIGHT,
            *self is Testnet ==> block_entries_match((|h: u32| testnet_block(h)), r.0@)
                && root_entries_match((|h: u32| testnet_sprout_root(h)), r.1@) && r.2
                == TESTNET_FIRST_JOINSPLIT_HEIGHT,
    {
        if self.is_mainnet() {
            (
                mainnet_block_entries(),
                mainnet_sprout_root_entries(),
                MAINNET_FIRST_JOINSPLIT_HEIGHT,
            )
        } else {
            (
                testnet_block_entries(),
                testnet_sprout_root_entries(),
                TESTNET_FIRST_JOINSPLIT_HEIGHT,
            )
        }
    }

    /// Returns the cached block whose height equals the supplied candidate for
    /// the active network, deserialized; the candidate for the other network
    /// is ignored. Fails with a typed error on an unknown candidate, and
    /// propagates a deserialization failure of the matched bytes.
    pub fn get_block_bytes(&self, main_bytes: u32, test_bytes: u32) -> (r: Result<
        Block,
        SerializationError,
    >)
        ensures
            block_bytes_result(*self, main_bytes, test_bytes, r),
    {
        if self.is_mainnet() {
            match main_bytes {
                653_599 => Block::zcash_deserialize(mainnet_block_get(653_599).unwrap()),
                982_681 => Block::zcash_deserialize(mainnet_block_get(982_681).unwrap()),
                _ => Err(SerializationError::NotACachedMainNetBlock(main_bytes)),
            }
        } else {
            match test_bytes {
                583_999 => Block::zcash_deserialize(testnet_block_get(583_999).unwrap()),
                925_483 => Block::zcash_deserialize(testnet_block_get(925_483).unwrap()),
                _ => Err(SerializationError::NotACachedTestNetBlock(test_bytes)),
            }
        }
    }

    /// Returns the cached block bytes and final Sapling root whose height
    /// equals the supplied candidate for the active network; the candidate
    /// for the other network is ignored. Fails with a typed error on an
    /// unknown candidate.
    pub fn get_block_sapling_roots_bytes(&self, main_bytes: u32, test_bytes: u32) -> (r: Result<
        (&'static [u8], [u8; 32]),
        SerializationError,
    >)
        ensures
            sapling_roots_result(*self, main_bytes, test_bytes, r),
    {
        if self.is_mainnet() {
            match main_bytes {
                1_046_400 => Ok(
                    (
                        mainnet_block_get(1_046_400).unwrap(),
                        mainnet_sapling_root_get(1_046_400).unwrap(),
                    ),
                ),
                _ => Err(SerializationError::NotACachedMainNetSaplingRootBytes(main_bytes)),
            }
        } else {
            match test_bytes {
                1_116_000 => Ok(
                    (
                        testnet_block_get(1_116_000).unwrap(),
                        testnet_sapling_root_get(1_116_000).unwrap(),
                    ),
                ),
                _ => Err(SerializationError::NotACachedTestNetSaplingRootBytes(test_bytes)),
            }
        }
    }
}

/// Whether two lookup errors are bit-identical: equal values, with `Parse`
/// messages compared byte for byte.
pub open spec fn errors_agree(e1: SerializationError, e2: SerializationError) -> bool {
    match (e1, e2) {
        (SerializationError::Parse(m1), SerializationError::Parse(m2)) => m1@ == m2@,
        _ => e1 == e2,
    }
}

/// Repeated calls of `get_gen_block` with the same network return
/// bit-identical results: the contract pins the bytes to the table's genesis
/// entry.
pub proof fn lemma_get_gen_block_idempotent(
    network: Network,
    r1: Option<&'static [u8]>,
    r2: Option<&'static [u8]>,
)
    requires
        gen_block_result(network, r1),
        gen_block_result(network, r2),
    ensures
        r1 matches Some(b1) ==> ({
            &&& r2 matches Some(b2)
            &&& b1@ == b2@
        }),
{
}

/// Repeated calls of `get_block_bytes` with identical arguments return
/// bit-identical results: the same success or failure, the same block fields,
/// and the same error value.
pub proof fn lemma_get_block_bytes_idempotent(
    network: Network,
    main_bytes: u32,
    test_bytes: u32,
    r1: Result<Block, SerializationError>,
    r2: Result<Block, SerializationError>,
)
    requires
        block_bytes_result(network, main_bytes, test_bytes, r1),
        block_bytes_result(network, main_bytes, test_bytes, r2),
    ensures
        r1 is Ok == r2 is Ok,
        r1 matches Ok(b1) ==> ({
            &&& r2 matches Ok(b2)
            &&& blocks_agree(b1, b2)
        }),
        r1 matches Err(e1) ==> ({
            &&& r2 matches Err(e2)
            &&& errors_agree(e1, e2)
        }),
{
}

/// The production-chain block lookup at the first known height resolves to a
/// block declaring that height, whatever the test-chain candidate: where the
/// cached fixture bytes exist, are well formed, and declare height 653599 in
/// their coinbase — facts of the fixture data itself, confirmed at runtime by
/// the tests — `get_block_bytes` returns `Ok`, and the returned block's
/// coinbase declares 653599.
pub proof fn lemma_block_at_production_declared_height(
    test_bytes: u32,
    r: Result<Block, SerializationError>,
)
    requires
        block_bytes_result(Network::Mainnet, 653_599, test_bytes, r),
        ({
            &&& mainnet_block(653_599) matches Some(data)
            &&& block_well_formed(data)
            &&& coinbase_height_of(block_transactions_of(data)) == Some(653_599int)
        }),
    ensures
        r matches Ok(b) && coinbase_height_of(b.transaction_bytes@) == Some(653_599int),
{
}

/// Repeated calls of `get_block_sapling_roots_bytes` with identical arguments
/// return bit-identical results.
pub proof fn lemma_get_block_sapling_roots_bytes_idempotent(
    network: Network,
    main_bytes: u32,
    test_bytes: u32,
    r1: Result<(&'static [u8], [u8; 32]), SerializationError>,
    r2: Result<(&'static [u8], [u8; 32]), SerializationError>,
)
    requires
        sapling_roots_result(network, main_bytes, test_bytes, r1),
        sapling_roots_result(network, main_bytes, test_bytes, r2),
    ensures
        r1 is Ok == r2 is Ok,
        r1 matches Ok(p1) ==> ({
            &&& r2 matches Ok(p2)
            &&& p1.0@ == p2.0@
            &&& p1.1@ == p2.1@
        }),
        r1 matches Err(e1) ==> ({
            &&& r2 matches Err(e2)
            &&& e1 == e2
        }),
{
}

/// Any two strictly height-ascending listings of the same membership
/// predicate have the same height at every index.
proof fn lemma_ascending_keys_agree_at<T>(
    member: spec_fn(u32) -> bool,
    e1: Seq<(u32, T)>,
    e2: Seq<(u32, T)>,
    i: int,
)
    requires
        forall|p: int, q: int| 0 <= p < q < e1.len() ==> e1[p].0 < e1[q].0,
        forall|p: int, q: int| 0 <= p < q < e2.len() ==> e2[p].0 < e2[q].0,
        forall|p: int| 0 <= p < e1.len() ==> member(#[trigger] e1[p].0),
        forall|p: int| 0 <= p < e2.len() ==> member(#[trigger] e2[p].0),
        forall|h: u32| #[trigger] member(h) ==> exists|p: int| 0 <= p < e1.len() && e1[p].0 == h,
        forall|h: u32| #[trigger] member(h) ==> exists|p: int| 0 <= p < e2.len() && e2[p].0 == h,
        0 <= i < e1.len(),
        i < e2.len(),
    ensures
        e1[i].0 == e2[i].0,
    decreases i,
{
    assert forall|m: int| 0 <= m < i implies e1[m].0 == e2[m].0 by {
        lemma_ascending_keys_agree_at(member, e1, e2, m);
    }
    let h1 = e1[i].0;
    assert(member(h1));
    let j1 = choose|p: int| 0 <= p < e2.len() && e2[p].0 == h1;
    if j1 < i {
        assert(e1[j1].0 == e2[j1].0);
        assert(false);
    }
    assert(e2[i].0 <= h1);
    let h2 = e2[i].0;
    assert(member(h2));
    let j2 = choose|p: int| 0 <= p < e1.len() && e1[p].0 == h2;
    if j2 < i {
        assert(e1[j2].0 == e2[j2].0);
        assert(false);
    }
    assert(e1[i].0 <= h2);
}

/// Any two strictly height-ascending, complete listings of the same
/// membership predicate have equal length and the same height at every index.
proof fn lemma_ascending_keys_unique<T>(
    member: spec_fn(u32) -> bool,
    e1: Seq<(u32, T)>,
    e2: Seq<(u32, T)>,
)
    requires
        forall|p: int, q: int| 0 <= p < q < e1.len() ==> e1[p].0 < e1[q].0,
        forall|p: int, q: int| 0 <= p < q < e2.len() ==> e2[p].0 < e2[q].0,
        forall|p: int| 0 <= p < e1.len() ==> member(#[trigger] e1[p].0),
        forall|p: int| 0 <= p < e2.len() ==> member(#[trigger] e2[p].0),
        forall|h: u32| #[trigger] member(h) ==> exists|p: int| 0 <= p < e1.len() && e1[p].0 == h,
        forall|h: u32| #[trigger] member(h) ==> exists|p: int| 0 <= p < e2.len() && e2[p].0 == h,
    ensures
        e1.len() == e2.len(),
        forall|i: int| 0 <= i < e1.len() ==> e1[i].0 == e2[i].0,
{
    assert forall|i: int| 0 <= i < e1.len() && i < e2.len() implies e1[i].0 == e2[i].0 by {
        lemma_ascending_keys_agree_at(member, e1, e2, i);
    }
    if e1.len() < e2.len() {
        let h = e2[e1.len() as int].0;
        assert(member(h));
        let j = choose|p: int| 0 <= p < e1.len() && e1[p].0 == h;
        assert(e1[j].0 == e2[j].0);
        assert(e2[j].0 < e2[e1.len() as int].0);
        assert(false);
    }
    if e2.len() < e1.len() {
        let h = e1[e2.len() as int].0;
        assert(member(h));
        let j = choose|p: int| 0 <= p < e2.len() && e2[p].0 == h;
        assert(e1[j].0 == e2[j].0);
        assert(e1[j].0 < e1[e2.len() as int].0);
        assert(false);
    }
}

/// Repeated listings of the same block table are bit-identical: the same
/// heights in the same order, with the same bytes at each height.
pub proof fn lemma_block_entries_idempotent(
    table: spec_fn(u32) -> Option<Seq<u8>>,
    e1: Seq<(u32, &'static [u8])>,
    e2: Seq<(u32, &'static [u8])>,
)
    requires
        block_entries_match(table, e1),
        block_entries_match(table, e2),
    ensures
        e1.len() == e2.len(),
        forall|i: int| 0 <= i < e1.len() ==> e1[i].0 == e2[i].0 && e1[i].1@ == e2[i].1@,
{
    lemma_ascending_keys_unique((|h: u32| table(h) is Some), e1, e2);
    assert forall|i: int| 0 <= i < e1.len() implies e1[i].0 == e2[i].0 && e1[i].1@ == e2[i].1@ by {
        assert(table(e1[i].0) == Some(e1[i].1@));
        assert(table(e2[i].0) == Some(e2[i].1@));
    }
}

/// Repeated listings of the same root table are bit-identical: the same
/// heights in the same order, with the same 32-byte root at each height.
pub proof fn lemma_root_entries_idempotent(
    table: spec_fn(u32) -> Option<Seq<u8>>,
    e1: Seq<(u32, [u8; 32])>,
    e2: Seq<(u32, [u8; 32])>,
)
    requires
        root_entries_match(table, e1),
        root_entries_match(table, e2),
    ensures
        e1.len() == e2.len(),
        forall|i: int| 0 <= i < e1.len() ==> e1[i].0 == e2[i].0 && e1[i].1@ == e2[i].1@,
{
    lemma_ascending_keys_unique((|h: u32| table(h) is Some), e1, e2);
    assert forall|i: int| 0 <= i < e1.len() implies e1[i].0 == e2[i].0 && e1[i].1@ == e2[i].1@ by {
        assert(table(e1[i].0) == Some(e1[i].1@));
        assert(table(e2[i].0) == Some(e2[i].1@));
    }
}

} // verus!
