//! JSON-RPC types for Bitcoin Core `v19`.
mod blockchain;
mod mempool;
mod scan;
mod raw_transactions;

pub use self::blockchain::{
    Bip9SoftforkInfo, Bip9SoftforkStatistics, Bip9SoftforkStatus, GetBlockFilter,
    GetBlockFilterError, GetBlockchainInfo, GetBlockchainInfoError, GetChainTxStats,
    GetChainTxStatsError, GetMempoolAncestors, GetMempoolDescendants, Softfork, SoftforkType,
};
pub use self::raw_transactions::{DecodeScript, DecodeScriptSegwit};
pub use self::mempool::{
    mempool_entries_into_model, map_entry_failure, GetMempoolAncestorsVerbose, GetMempoolDescendantsVerbose, GetMempoolEntry,
    GetMempoolInfo, GetMempoolInfoError, MapMempoolEntryError, MapMempoolEntryErrorView, MempoolEntry, MempoolEntryError,
    MempoolEntryErrorView, MempoolEntryFees, MempoolEntryFeesError, MempoolEntryFeesErrorView,
};
pub use self::scan::{
    ScanTxOutSet, ScanTxOutSetError, ScanTxOutSetErrorView, ScanTxOutSetStart, ScanTxOutSetStatus,
    ScanTxOutSetUnspent,
};
