//! The JSON-RPC API for Bitcoin Core `v30` - hidden: the errors of converting the entries of
//! `getorphantxs` into the model types.
use vstd::prelude::*;

verus! {

/// Error when converting a `GetOrphanTxsVerboseOneEntry` type into the model type.
#[derive(Debug)]
pub enum GetOrphanTxsVerboseOneEntryError {
    /// Conversion of the transaction `txid` field failed.
    Txid(bitcoin::hex::HexToArrayError),
    /// Conversion of the transaction `wtxid` field failed.
    Wtxid(bitcoin::hex::HexToArrayError),
}

impl GetOrphanTxsVerboseOneEntryError {
    /// The human readable description of the error, as its `Display` renders it.
    pub fn message(&self) -> (r: &'static str)
        ensures
            r@ == match self {
                GetOrphanTxsVerboseOneEntryError::Txid(_) => "conversion of the `txid` field failed"@,
                GetOrphanTxsVerboseOneEntryError::Wtxid(_) => "conversion of the `wtxid` field failed"@,
            },
    {
        match self {
            GetOrphanTxsVerboseOneEntryError::Txid(_) => "conversion of the `txid` field failed",
            GetOrphanTxsVerboseOneEntryError::Wtxid(_) => "conversion of the `wtxid` field failed",
        }
    }
}

/// Error when converting a `GetOrphanTxsVerboseTwoEntry` type into the model type.
#[derive(Debug)]
pub enum GetOrphanTxsVerboseTwoEntryError {
    /// Conversion of the transaction `txid` field failed.
    Txid(bitcoin::hex::HexToArrayError),
    /// Conversion of the transaction `wtxid` field failed.
    Wtxid(bitcoin::hex::HexToArrayError),
    /// Conversion of hex data to bytes failed.
    Hex(bitcoin::hex::HexToBytesError),
    /// Consensus decoding of `hex` to transaction failed.
    Consensus(bitcoin::consensus::encode::Error),
}

impl GetOrphanTxsVerboseTwoEntryError {
    /// The human readable description of the error, as its `Display` renders it.
    pub fn message(&self) -> (r: &'static str)
        ensures
            r@ == match self {
                GetOrphanTxsVerboseTwoEntryError::Txid(_) => "conversion of the `txid` field failed"@,
                GetOrphanTxsVerboseTwoEntryError::Wtxid(_) => "conversion of the `wtxid` field failed"@,
                GetOrphanTxsVerboseTwoEntryError::Hex(_) => "conversion of hex data to bytes failed"@,
                GetOrphanTxsVerboseTwoEntryError::Consensus(_) => {
                    "consensus decoding of `hex` to transaction failed"@
                },
            },
    {
        match self {
            GetOrphanTxsVerboseTwoEntryError::Txid(_) => "conversion of the `txid` field failed",
            GetOrphanTxsVerboseTwoEntryError::Wtxid(_) => "conversion of the `wtxid` field failed",
            GetOrphanTxsVerboseTwoEntryError::Hex(_) => "conversion of hex data to bytes failed",
            GetOrphanTxsVerboseTwoEntryError::Consensus(_) => {
                "consensus decoding of `hex` to transaction failed"
            },
        }
    }
}

} // verus!
