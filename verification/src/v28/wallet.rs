//! The JSON-RPC API for Bitcoin Core `v28` - wallet.
//!
//! Types for methods found under the `== Wallet ==` section of the API docs.
use vstd::prelude::*;

verus! {

/// The category of a transaction.
#[derive(Clone, Debug, PartialEq, Eq)]
pub enum TransactionCategory {
    /// Transactions sent.
    Send,
    /// Non-coinbase transactions received.
    Receive,
    /// Coinbase transactions received with more than 100 confirmations.
    Generate,
    /// Coinbase transactions received with 100 or fewer confirmations.
    Immature,
    /// Orphaned coinbase transactions received.
    Orphan,
    /// Moves of funds between accounts.
    Move,
}

/// Whether this transaction can be RBF'ed.
#[derive(Clone, Debug, PartialEq, Eq)]
pub enum Bip125Replaceable {
    /// Yes, can be replaced due to BIP-125 (RBF).
    Yes,
    /// No, cannot be replaced due to BIP-125 (RBF).
    No,
    /// RBF unknown.
    Unknown,
}

/// Result of the JSON-RPC method `listunspent`.
///
/// > listunspent ( minconf maxconf  ["addresses",...] `[include_unsafe]` `[query_options]`)
/// >
/// > Returns array of unspent transaction outputs
/// > with between minconf and maxconf (inclusive) confirmations.
/// > Optionally filter to only include txouts paid to specified addresses.
#[derive(Debug, PartialEq, Eq)]
pub struct ListUnspent(pub Vec<ListUnspentItem>);

/// Unspent transaction output, returned as part of `listunspent`.
#[derive(Debug, PartialEq, Eq)]
pub struct ListUnspentItem {
    /// The transaction id (its bytes in internal order).
    pub txid: [u8; 32],
    /// The vout value.
    pub vout: u32,
    /// The bitcoin address of the transaction (optional for non-standard scripts).
    pub address: Option<crate::address::Address>,
    /// The associated label, present only if the address is in the address book.
    pub label: Option<String>,
    /// Optional account field.
    pub account: Option<String>,
    /// The script key.
    pub script_pubkey: bitcoin::ScriptBuf,
    /// The transaction amount.
    pub amount: bitcoin::Amount,
    /// The number of confirmations.
    pub confirmations: u32,
    /// The redeemScript if scriptPubKey is P2SH.
    pub redeem_script: Option<bitcoin::ScriptBuf>,
    /// The witnessScript if the scriptPubKey is P2WSH or P2SH-P2WSH.
    pub witness_script: Option<bitcoin::ScriptBuf>,
    /// Whether we have the private keys to spend this output.
    pub spendable: bool,
    /// Whether we know how to spend this output, ignoring the lack of keys.
    pub solvable: bool,
    /// Whether this output is considered safe to spend.
    pub safe: bool,
    /// Output descriptor if available.
    pub desc: Option<String>,
    /// Whether this is a coinbase output (added in v25+).
    pub coinbase: Option<bool>,
}

/// Transaction item returned as part of `listtransactions`.
///
/// `F` is the type of the fields that Core writes as JSON floating point numbers.
#[derive(Debug, PartialEq)]
pub struct ListTransactionsItem<F> {
    /// The bitcoin address of the transaction (optional).
    pub address: Option<crate::address::Address>,
    /// The transaction category.
    pub category: TransactionCategory,
    /// The amount.
    pub amount: bitcoin::SignedAmount,
    /// A comment for the address/transaction, if any.
    pub label: Option<String>,
    /// The vout value.
    pub vout: u32,
    /// The amount of the fee in BTC. (Made optional)
    pub fee: Option<F>,
    /// The number of confirmations for the transaction.
    pub confirmations: i64,
    /// Whether we consider the outputs of this unconfirmed transaction safe to spend.
    pub trusted: Option<bool>,
    /// The block hash containing the transaction (its bytes in internal order).
    pub block_hash: Option<[u8; 32]>,
    /// The index of the transaction in the block that includes it.
    pub block_index: Option<u32>,
    /// The block time in seconds since epoch (1 Jan 1970 GMT).
    pub block_time: Option<u32>,
    /// The transaction id (its bytes in internal order).
    pub txid: [u8; 32],
    /// The transaction time in seconds since epoch (Jan 1 1970 GMT).
    pub time: u32,
    /// The time received in seconds since epoch (Jan 1 1970 GMT).
    pub time_received: u32,
    /// If a comment is associated with the transaction.
    pub comment: Option<String>,
    /// Whether this transaction could be replaced due to BIP125 (replace-by-fee);
    pub bip125_replaceable: Bip125Replaceable,
    /// If the transaction has been abandoned (inputs are respendable).
    pub abandoned: Option<bool>,
}

/// `F` is the type of the fields that Core writes as JSON floating point numbers.
#[derive(Debug, PartialEq)]
pub struct ListTransactions<F>(pub Vec<ListTransactionsItem<F>>);

} // verus!
