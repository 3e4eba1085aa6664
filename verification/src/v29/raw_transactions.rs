//! The JSON-RPC API for Bitcoin Core `v29` - raw transactions.
//!
//! Types for methods found under the `== Rawtransactions ==` section of the API docs.
use vstd::prelude::*;

verus! {

/// Arguments of JSON-RPC method `createrawtransaction`.
///
/// # Note
///
/// Assumes that the transaction is always "replaceable" by default and has a locktime of 0.
///
/// `F` is the type of the fields that Core writes as JSON floating point numbers.
#[derive(Clone, Debug, PartialEq)]
pub struct CreateRawTransactionArguments<F> {
    pub inputs: Vec<CreateRawTransactionInput>,
    pub outputs: Vec<CreateRawTransactionOutput<F>>,
}

/// Inputs of JSON-RPC method `createrawtransaction`.
#[derive(Clone, Debug, PartialEq, Eq)]
pub struct CreateRawTransactionInput {
    pub txid: String,
    pub vout: u32,
}

/// Transaction outputs for Bitcoin RPC methods.
///
/// Used by various RPC methods such as `createrawtransaction`, `psbtbumpfee`,
/// and `walletcreatefundedpsbt`.
///
/// `F` is the type of the fields that Core writes as JSON floating point numbers.
#[derive(Clone, Debug, PartialEq)]
pub enum CreateRawTransactionOutput<F> {
    /// A pair of an address and an amount in BTC float.
    AddressAmount {
        /// Address to sent to.
        address: String,
        /// Amount to send in BTC float
        amount: F,
    },
    /// A payload such as in `OP_RETURN` transactions.
    Data {
        /// The payload.
        data: String,
    },
}

/// Result of JSON-RPC method `testmempoolaccept`.
///
/// > testmempoolaccept ["rawtxs"] ( allowhighfees )
/// >
/// > Returns if raw transaction (serialized, hex-encoded) would be accepted by mempool.
/// >
/// > This checks if the transaction violates the consensus or policy rules.
/// >
/// > See sendrawtransaction call.
/// >
/// > Arguments:
/// > 1. ["rawtxs"]       (array, required) An array of hex strings of raw transactions.
/// >                                         Length must be one for now.
/// > 2. allowhighfees    (boolean, optional, default=false) Allow high fees
///
/// `F` is the type of the fields that Core writes as JSON floating point numbers.
#[derive(Clone, Debug, PartialEq)]
pub struct TestMempoolAccept<F>(pub Vec<MempoolAcceptance<F>>);

/// A single mempool acceptance test result. Part of `testmempoolaccept`.
///
/// `F` is the type of the fields that Core writes as JSON floating point numbers.
#[derive(Clone, Debug, PartialEq)]
pub struct MempoolAcceptance<F> {
    /// The transaction hash in hex.
    pub txid: String,
    /// The transaction witness hash in hex.
    pub wtxid: String,
    /// If the mempool allows this tx to be inserted.
    pub allowed: bool,
    /// Virtual transaction size as defined in BIP 141. This is different from actual serialized size for witness transactions as witness data is discounted (only present when 'allowed' is true).
    pub vsize: Option<i64>,
    /// Transaction fees (only present if 'allowed' is true).
    pub fees: Option<MempoolAcceptanceFees<F>>,
    /// Rejection string (only present when 'allowed' is false).
    pub reject_reason: Option<String>,
    /// Rejection details (only present when 'allowed' is false and rejection details exist)
    pub reject_details: Option<String>,
}

/// Wrapper for the fees field. Part of `testmempoolaccept`.
///
/// `F` is the type of the fields that Core writes as JSON floating point numbers.
#[derive(Clone, Debug, PartialEq)]
pub struct MempoolAcceptanceFees<F> {
    /// Transaction fee in BTC.
    pub base: F,
    /// The effective feerate in BTC per KvB. May differ from the base feerate if, for example, there
    /// are modified fees from `prioritisetransaction` or a package feerate was used.
    pub effective_feerate: Option<F>,
    /// Transactions whose fees and vsizes are included in `effective_feerate`.
    pub effective_includes: Vec<String>,
}

} // verus!
