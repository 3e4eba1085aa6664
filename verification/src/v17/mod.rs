//! JSON-RPC types for Bitcoin Core `v0.17`.
//!
//! These structs are shaped for the JSON data returned by the JSON-RPC API. Where necessary they
//! implement an `into_model` function to convert the type to a [`crate::model`] type of the same
//! name.
mod control;
mod raw_transactions;
mod util;
mod wallet;

pub use self::control::{GetMemoryInfoStats, Locked, Logging};
pub use self::raw_transactions::{
    DecodePsbtError, DecodeScriptError, FinalizePsbtError, FundRawTransactionError,
    GetRawTransactionVerboseError, PsbtInputError, PsbtOutputError, SignFailError,
    SignRawTransactionError,
};
pub use self::util::{
    CreateMultisig, CreateMultisigError, EstimateSmartFee, SignMessageWithPrivKey, ValidateAddress,
    ValidateAddressError, VerifyMessage,
};
pub use self::wallet::{
    AbortRescan, AddMultisigAddress, AddressInformation, AddressPurpose, Bip125Replaceable,
    BumpFee, CreateWallet, DumpPrivKey, DumpWallet, EncryptWallet, GetAddressInfo,
    GetAddressInfoEmbedded, GetAddressInfoLabel, GetAddressesByLabel, GetBalance, GetNewAddress,
    GetRawChangeAddress, GetReceivedByAddress, GetTransaction, GetTransactionDetail,
    GetUnconfirmedBalance, GetWalletInfo, LastProcessedBlock, ListAddressGroupings,
    ListAddressGroupingsItem, ListLabels, ListLockUnspent, ListLockUnspentItem,
    ListReceivedByAddress, ListReceivedByAddressItem, ListSinceBlock, ListSinceBlockTransaction,
    ListTransactions, ListTransactionsItem, ListUnspent, ListUnspentItem, ListWallets, LoadWallet,
    RescanBlockchain, ScriptType, SendMany, SendToAddress, SignMessage, TransactionCategory,
    WalletCreateFundedPsbt, WalletProcessPsbt,
};
pub use crate::numeric::NumericError;
pub use crate::script::{ScriptPubkey, ScriptSig};
