//! Network-parameterized chain fixture registry.
//!
//! Resolves consensus constants (genesis parent hash, first halving height,
//! first JoinSplit height) and canonical historical chain data — serialized
//! blocks and commitment-tree roots — keyed by network and block height.

pub mod block;
pub mod parameters;
pub mod serialization;
pub mod vectors;

pub use block::{Block, Header, Height};
pub use parameters::Network;
pub use serialization::SerializationError;
