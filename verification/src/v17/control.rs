//! The JSON-RPC API for Bitcoin Core `v0.17` - control.
//!
//! Types for methods found under the `== Control ==` section of the API docs.
use vstd::prelude::*;

use std::collections::BTreeMap;

verus! {

/// Result of JSON-RPC method `getmemoryinfo`.
///
/// Only the default "stats" mode is supported.
///
/// > getmemoryinfo ("mode")
/// >
/// > Returns an object containing information about memory usage.
#[derive(Clone, Debug, PartialEq)]
pub struct GetMemoryInfoStats(pub BTreeMap<String, Locked>);

/// Information about locked memory manager.
#[derive(Clone, Debug, PartialEq)]
pub struct Locked {
    /// Number of bytes used.
    pub used: u64,
    /// Number of bytes available in current arenas.
    pub free: u64,
    /// Total number of bytes managed.
    pub total: u64,
    /// Amount of bytes that succeeded locking.
    ///
    /// If this number is smaller than total, locking pages failed at some point and key data could
    /// be swapped to disk.
    pub locked: u64,
    /// Number allocated chunks.
    pub chunks_used: u64,
    /// Number unused chunks.
    pub chunks_free: u64,
}

/// Result of JSON-RPC method `logging`.
///
/// > logging ( `<include>` `<exclude>` )
/// >
/// > Gets and sets the logging configuration.
#[derive(Clone, Debug, PartialEq)]
pub struct Logging {
    pub addrman: bool,
    pub bench: bool,
    /// v23 and later only.
    pub blockstorage: Option<bool>,
    pub cmpctblock: bool,
    pub coindb: bool,
    /// v22 and before only.
    pub db: Option<bool>,
    pub estimatefee: bool,
    pub http: bool,
    /// v23 and later only.
    pub i2p: Option<bool>,
    /// v23 and later only.
    pub ipc: Option<bool>,
    pub leveldb: bool,
    pub libevent: bool,
    pub mempool: bool,
    pub mempoolrej: bool,
    pub net: bool,
    pub prune: bool,
    pub proxy: bool,
    pub qt: bool,
    pub rand: bool,
    pub reindex: bool,
    pub rpc: bool,
    /// v25 and later only.
    pub scan: Option<bool>,
    pub selectcoins: bool,
    pub tor: bool,
    /// v26 and later only.
    pub txpackages: Option<bool>,
    /// v25 and later only.
    pub txreconciliation: Option<bool>,
    /// v23 and later only.
    pub util: Option<bool>,
    /// v23 and later only.
    pub validation: Option<bool>,
    /// v23 and later only.
    pub walletdb: Option<bool>,
    pub zmq: bool,
}

} // verus!
