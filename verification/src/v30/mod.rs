//! JSON-RPC types for Bitcoin Core `v30`.
mod hidden;

pub use self::hidden::{GetOrphanTxsVerboseOneEntryError, GetOrphanTxsVerboseTwoEntryError};
