//! Handles to the node's stores and to its metrics sink.
//!
//! The control plane never looks inside a store: it only holds cloneable,
//! non-owning references and hands copies of them to a background snapshot
//! job. A handle is therefore modelled as a plain token naming the
//! underlying resource; copying a handle copies the token, never the data.

use vstd::prelude::*;

verus! {

/// A shared reference to one shard's store.
#[derive(Clone, Copy, Debug, PartialEq, Eq, Structural)]
pub struct ShardStoreHandle {
    /// Token naming the underlying store instance.
    pub store_id: u64,
}

/// A shared reference to the cross-shard block store.
#[derive(Clone, Copy, Debug, PartialEq, Eq, Structural)]
pub struct BlockStoreHandle {
    /// Token naming the underlying store instance.
    pub store_id: u64,
}

/// A shared reference to the metrics client.
#[derive(Clone, Copy, Debug, PartialEq, Eq, Structural)]
pub struct StatsdClientWrapper {
    /// Token naming the underlying client.
    pub client_id: u64,
}

/// Which protocol network the node serves.
#[derive(Clone, Copy, Debug, PartialEq, Eq, Structural)]
pub enum FarcasterNetwork {
    Mainnet,
    Testnet,
    Devnet,
}

/// Copies the shard registry: the same shard identifiers bound to the same
/// store handles, in the same order.
pub fn copy_registry(stores: &Vec<(u32, ShardStoreHandle)>) -> (r: Vec<(u32, ShardStoreHandle)>)
    ensures
        r@ == stores@,
{
    let mut r: Vec<(u32, ShardStoreHandle)> = Vec::new();
    let mut i: usize = 0;
    while i < stores.len()
        invariant
            i <= stores.len(),
            r@ == stores@.take(i as int),
        decreases stores.len() - i,
    {
        r.push(stores[i]);
        proof {
            assert(stores@.take(i + 1) =~= stores@.take(i as int).push(stores@[i as int]));
        }
        i += 1;
    }
    proof {
        assert(stores@.take(stores.len() as int) =~= stores@);
    }
    r
}

} // verus!
