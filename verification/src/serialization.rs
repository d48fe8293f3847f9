//! Typed errors for fixture lookups and block deserialization.

use vstd::prelude::*;

verus! {

/// Error returned by the fixture registry.
///
/// Every lookup failure is returned as a typed value to the immediate caller;
/// nothing is logged or retried. Each variant carries the caller's input for
/// diagnostics.
#[derive(Clone, Copy, Debug)]
pub enum SerializationError {
    /// The matched raw bytes did not parse as a valid block.
    Parse(&'static str),
    /// The supplied height has no matching block fixture on the production chain.
    NotACachedMainNetBlock(u32),
    /// The supplied height has no matching block fixture on the test chain.
    NotACachedTestNetBlock(u32),
    /// The supplied height has no matching block-and-sapling-root fixture on
    /// the production chain.
    NotACachedMainNetSaplingRootBytes(u32),
    /// The supplied height has no matching block-and-sapling-root fixture on
    /// the test chain.
    NotACachedTestNetSaplingRootBytes(u32),
}

} // verus!
