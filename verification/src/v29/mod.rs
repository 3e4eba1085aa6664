//! JSON-RPC types for Bitcoin Core `v29`.
mod blockchain;
mod descriptor_activity;
mod mining;
mod raw_transactions;
mod wallet;

pub use self::blockchain::{
    bip9_status_model, Bip9Softfork, Bip9SoftforkStatus, GetBlockHeader, GetBlockHeaderError,
    GetBlockHeaderVerbose, GetBlockHeaderVerboseError, GetBlockHeaderVerboseErrorView,
    GetBlockVerboseOne, GetBlockVerboseOneError, GetBlockVerboseOneErrorView, GetBlockVerboseZero,
    GetBlockchainInfo, Softfork, SoftforkReject,
};
pub use self::descriptor_activity::{
    descriptor_activity_error_view, entry_converted, entry_failure, receive_failure,
    script_pubkey_converted, script_pubkey_failure, spend_failure, ActivityEntry,
    GetDescriptorActivity, GetDescriptorActivityError, GetDescriptorActivityErrorView,
    ReceiveActivity, ScriptPubkey, SpendActivity,
};
pub use self::mining::{BlockTemplateTransaction, GetBlockTemplate, GetMiningInfo, NextBlockInfo};
pub use self::raw_transactions::{
    CreateRawTransactionArguments, CreateRawTransactionInput, CreateRawTransactionOutput,
    MempoolAcceptance, MempoolAcceptanceFees, TestMempoolAccept,
};
pub use self::wallet::{
    CreateWalletArguments, ImportDescriptorInput, ListUnspentQueryOptions,
    PreviousTransactionOutput, PsbtBumpFeeOptions, WalletCreateFundedPsbtOptions,
};
pub use crate::v19::GetBlockchainInfoError;
