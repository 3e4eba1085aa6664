//! The JSON-RPC API for Bitcoin Core `v25` - blockchain.
//!
//! Types for methods found under the `== Blockchain ==` section of the API docs.
use vstd::prelude::*;

verus! {

/// Result of JSON-RPC method `getblockstats`.
///
/// > getblockstats hash_or_height ( stats )
/// >
/// > Compute per block statistics for a given window. All amounts are in satoshis.
/// > It won't work for some heights with pruning.
/// > It won't work without -txindex for utxo_size_inc, *fee or *feerate stats.
#[derive(Clone, Debug, PartialEq)]
pub struct GetBlockStats {
    /// Average fee in the block.
    pub average_fee: u64,
    /// Average feerate (in satoshis per virtual byte).
    pub average_fee_rate: u64,
    /// Average transaction size.
    pub average_tx_size: i64,
    /// The block hash (to check for potential reorgs).
    pub block_hash: String,
    /// Feerates at the 10th, 25th, 50th, 75th, and 90th percentile weight unit (in satoshis per
    /// virtual byte).
    pub fee_rate_percentiles: [u64; 5],
    /// The height of the block.
    pub height: i64,
    /// The number of inputs (excluding coinbase).
    pub inputs: i64,
    /// Maximum fee in the block.
    pub max_fee: u64,
    /// Maximum feerate (in satoshis per virtual byte).
    pub max_fee_rate: u64,
    /// Maximum transaction size.
    pub max_tx_size: i64,
    /// Truncated median fee in the block.
    pub median_fee: u64,
    /// The block median time past.
    pub median_time: i64,
    /// Truncated median transaction size
    pub median_tx_size: i64,
    /// Minimum fee in the block.
    pub minimum_fee: u64,
    /// Minimum feerate (in satoshis per virtual byte).
    pub minimum_fee_rate: u64,
    /// Minimum transaction size.
    pub minimum_tx_size: i64,
    /// The number of outputs.
    pub outputs: i64,
    /// The block subsidy.
    pub subsidy: u64,
    /// Total size of all segwit transactions.
    pub segwit_total_size: i64,
    /// Total weight of all segwit transactions divided by segwit scale factor (4).
    pub segwit_total_weight: u64,
    /// The number of segwit transactions.
    pub segwit_txs: i64,
    /// The block time.
    pub time: i64,
    /// Total amount in all outputs (excluding coinbase and thus reward [ie subsidy + totalfee]).
    pub total_out: u64,
    /// Total size of all non-coinbase transactions.
    pub total_size: i64,
    /// Total weight of all non-coinbase transactions divided by segwit scale factor (4).
    pub total_weight: u64,
    /// The fee total.
    pub total_fee: u64,
    /// The number of transactions (excluding coinbase).
    pub txs: i64,
    /// The increase/decrease in the number of unspent outputs.
    pub utxo_increase: i32,
    /// The increase/decrease in size for the utxo index (not discounting op_return and similar).
    pub utxo_size_increase: i32,
    /// The increase/decrease in the number of unspent outputs, not counting unspendables.
    /// v25 and later only.
    pub utxo_increase_actual: Option<i32>,
    /// The increase/decrease in size for the utxo index, not counting unspendables.
    /// v25 and later only.
    pub utxo_size_increase_actual: Option<i32>,
}

} // verus!
