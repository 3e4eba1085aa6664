//! JSON-RPC types for Bitcoin Core `v28`.
mod blockchain;
mod scan;
mod wallet;

pub use self::blockchain::GetBlockchainInfo;
pub use self::scan::{ScanTxOutSet, ScanTxOutSetStart, ScanTxOutSetUnspent};
pub use self::wallet::{
    Bip125Replaceable, ListTransactions, ListTransactionsItem, ListUnspent, ListUnspentItem,
    TransactionCategory,
};
pub use crate::v19::{
    GetBlockchainInfoError, ScanTxOutSetError, ScanTxOutSetErrorView, ScanTxOutSetStatus, Softfork,
};
