//! JSON-RPC types for Bitcoin Core `v25`.
mod blockchain;

pub use self::blockchain::GetBlockStats;
pub use crate::v19::{
    Bip9SoftforkInfo, Bip9SoftforkStatistics, Bip9SoftforkStatus, GetBlockFilter,
    GetBlockFilterError, GetBlockchainInfo, GetBlockchainInfoError, GetChainTxStats,
    GetChainTxStatsError, GetMempoolAncestors, GetMempoolAncestorsVerbose, GetMempoolDescendants,
    GetMempoolDescendantsVerbose, GetMempoolEntry, GetMempoolInfo, MempoolEntry, MempoolEntryFees,
    ScanTxOutSetError, ScanTxOutSetStart, ScanTxOutSetUnspent, Softfork, SoftforkType,
};
