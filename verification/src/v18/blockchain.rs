//! The JSON-RPC API for Bitcoin Core `v0.18` - blockchain.
//!
//! Types for methods found under the `== Blockchain ==` section of the API docs.
use vstd::prelude::*;

use crate::v19::MempoolEntryFees;

verus! {

/// Result of JSON-RPC method `getmempoolentry`.
///
/// > getmempoolentry txid
/// >
/// > Returns mempool data for given transaction
/// >
/// > Arguments:
/// > 1. "txid"                 (string, required) The transaction id (must be in mempool)
///
/// `F` is the type of the fields that Core writes as JSON floating point numbers.
#[derive(Clone, Debug, PartialEq)]
pub struct GetMempoolEntry<F>(pub MempoolEntry<F>);

/// A relative (ancestor or descendant) transaction of a transaction in the mempool.
///
/// `F` is the type of the fields that Core writes as JSON floating point numbers.
#[derive(Clone, Debug, PartialEq)]
pub struct MempoolEntry<F> {
    /// Virtual transaction size as defined in BIP 141.
    ///
    /// This is different from actual serialized size for witness transactions as witness data is discounted.
    pub size: i64,
    /// DEPRECATED: Transaction fee in BTC.
    pub fee: F,
    /// DEPRECATED: Transaction fee with fee deltas used for mining priority.
    pub modified_fee: F,
    /// Local time transaction entered pool in seconds since 1 Jan 1970 GMT.
    pub time: i64,
    /// Block height when transaction entered pool.
    pub height: i64,
    /// Number of in-mempool descendant transactions (including this one).
    pub descendant_count: i64,
    /// Virtual transaction size of in-mempool descendants (including this one).
    pub descendant_size: i64,
    /// DEPRECATED: Modified fees (see above) of in-mempool descendants (including this one).
    pub descendant_fees: F,
    /// Number of in-mempool ancestor transactions (including this one).
    pub ancestor_count: i64,
    /// Virtual transaction size of in-mempool ancestors (including this one).
    pub ancestor_size: i64,
    /// DEPRECATED: Modified fees (see above) of in-mempool ancestors (including this one).
    pub ancestor_fees: F,
    /// Hash of serialized transaction, including witness data.
    pub wtxid: String,
    /// (No docs in Core v0.17.)
    pub fees: MempoolEntryFees<F>,
    /// Unconfirmed transactions used as inputs for this transaction (parent transaction id).
    pub depends: Vec<String>,
    /// Unconfirmed transactions spending outputs from this transaction (child transaction id).
    pub spent_by: Vec<String>,
    /// Whether this transaction could be replaced due to BIP125 (replace-by-fee)
    pub bip125_replaceable: bool,
}

/// Result of JSON-RPC method `scantxoutset`.
///
/// > scantxoutset "action" ( [scanobjects,...] )
/// >
/// > Arguments:
/// > 1. "action"                       (string, required) The action to execute
/// > 2. "scanobjects"                  (array, required) Array of scan objects
///
/// `F` is the type of the fields that Core writes as JSON floating point numbers.
#[derive(Clone, Debug, PartialEq)]
pub struct ScanTxOutSetStart<F> {
    /// The unspents
    pub unspents: Vec<ScanTxOutSetUnspent<F>>,
    /// The total amount of all found unspent outputs in BTC
    pub total_amount: F,
}

/// `F` is the type of the fields that Core writes as JSON floating point numbers.
#[derive(Clone, Debug, PartialEq)]
pub struct ScanTxOutSetUnspent<F> {
    /// The transaction id
    pub txid: String,
    /// The vout value
    pub vout: u32,
    /// The script key
    pub script_pubkey: String,
    /// A specialized descriptor for the matched scriptPubKey
    pub descriptor: String,
    /// The total amount in BTC of unspent output
    pub amount: F,
    /// Height of the unspent transaction output
    pub height: u64,
}

/// Result of JSON-RPC method `scantxoutset`.
///
/// > scantxoutset "action" ( [scanobjects,...] )
/// >
/// > Arguments:
/// > 1. action                        (string, required) The action to execute
/// 2. scanobjects                   (json array, required) Array of scan objects
///
/// `F` is the type of the fields that Core writes as JSON floating point numbers.
#[derive(Debug, Clone, PartialEq)]
pub enum ScanTxOutSet<F> {
    /// Returns after scan completes
    Start(ScanTxOutSetStart<F>),
    /// True (scan will be aborted), False (no scan to abort)
    Abort(bool),
    /// Scan in progress or Completed
    Status(Option<ScanTxOutSetStatus<F>>),
}

/// `F` is the type of the fields that Core writes as JSON floating point numbers.
#[derive(Debug, Clone, PartialEq)]
pub struct ScanTxOutSetStatus<F> {
    /// Approximate percent complete
    pub progress: F,
}

} // verus!
