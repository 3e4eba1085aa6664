//! JSON-RPC types for Bitcoin Core `v0.18`.
mod blockchain;

pub use self::blockchain::{
    GetMempoolEntry, MempoolEntry, ScanTxOutSet, ScanTxOutSetStart, ScanTxOutSetStatus,
    ScanTxOutSetUnspent,
};
pub use crate::v19::MempoolEntryFees;
