//! JSON-RPC types for Bitcoin Core `v23`.
mod blockchain;

pub use self::blockchain::SaveMempool;
