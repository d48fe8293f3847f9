//! Network identity and per-network consensus constants.

use vstd::prelude::*;

use crate::block::Height;

verus! {

/// The first halving height on the production chain.
pub const FIRST_HALVING_MAINNET: u32 = 1_046_400;

/// The first halving height on the default test chain, as specified in the
/// protocol specification, section 7.10.1.
pub const FIRST_HALVING_TESTNET: u32 = 1_116_000;

/// The production chain height of the first block containing a JoinSplit.
pub const MAINNET_FIRST_JOINSPLIT_HEIGHT: u32 = 396;

/// The test chain height of the first block containing a JoinSplit.
pub const TESTNET_FIRST_JOINSPLIT_HEIGHT: u32 = 2_259;

/// Which chain variant parameters and fixtures apply to.
#[derive(Clone, Copy, Debug, PartialEq, Eq, Structural)]
pub enum Network {
    /// The production chain.
    Mainnet,
    /// The default test chain.
    Testnet,
}

impl Network {
    /// Returns true if network is of type Mainnet.
    pub fn is_mainnet(&self) -> (r: bool)
        ensures
            r == (*self is Mainnet),
    {
        match self {
            Network::Mainnet => true,
            Network::Testnet => false,
        }
    }

    /// Returns true if network is type default Testnet.
    pub fn is_default_testnet(&self) -> (r: bool)
        ensures
            r == (*self is Testnet),
    {
        match self {
            Network::Mainnet => false,
            Network::Testnet => true,
        }
    }
}

/// The declared parent hash of the first block: the all-zero value, on every
/// network.
pub open spec fn spec_genesis_hash(network: Network) -> Seq<u8> {
    Seq::new(32, |i: int| 0u8)
}

/// Returns the declared parent hash for the genesis block in `network`.
///
/// All known networks use the same `null` value for the parent of the genesis
/// block: 32 zero bytes.
pub fn genesis_hash(network: Network) -> (h: crate::block::Hash)
    ensures
        h@ == spec_genesis_hash(network),
{
    let h = crate::block::Hash([0u8; 32]);
    proof {
        assert(h@ =~= spec_genesis_hash(network));
    }
    h
}

/// Returns the first halving height for `network`. Every network variant has
/// a defined value; there is no error path.
pub fn first_halving_height(network: Network) -> (h: Height)
    ensures
        network is Mainnet ==> h.0 == FIRST_HALVING_MAINNET,
        network is Testnet ==> h.0 == FIRST_HALVING_TESTNET,
{
    match network {
        Network::Mainnet => Height(FIRST_HALVING_MAINNET),
        Network::Testnet => Height(FIRST_HALVING_TESTNET),
    }
}

/// Exactly one of the two predicates holds of every network: the production
/// chain and the default test chain are mutually exclusive and exhaustive.
pub proof fn lemma_mainnet_testnet_exclusive(network: Network)
    ensures
        (network is Mainnet) != (network is Testnet),
{
}

/// The genesis parent hash is the same value on every pair of networks, and
/// that value is 32 zero bytes.
pub proof fn lemma_genesis_hash_uniform(a: Network, b: Network)
    ensures
        spec_genesis_hash(a) == spec_genesis_hash(b),
        spec_genesis_hash(a).len() == 32,
        forall|i: int| 0 <= i < 32 ==> spec_genesis_hash(a)[i] == 0u8,
{
}

} // verus!
