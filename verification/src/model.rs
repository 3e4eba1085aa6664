//! Version nonspecific types, more strongly typed than the JSON shaped ones.
//!
//! The `into_model` methods of the version specific types produce these. Hashes are held as
//! their 32 bytes (in the internal byte order, the reverse of the display order), scripts and
//! filters as their bytes, and integers that must fit a `u32` as `u32`.
use vstd::prelude::*;

use std::collections::BTreeMap;

pub use crate::chain::Network;

verus! {

/// A block header, its fields as the consensus encoding holds them.
#[derive(Debug, Clone, PartialEq, Eq)]
pub struct BlockHeader {
    /// The block version, in its consensus encoding.
    pub version: i32,
    /// The hash of the previous block.
    pub prev_blockhash: [u8; 32],
    /// The root of the merkle tree of the block's transactions.
    pub merkle_root: [u8; 32],
    /// The block time, seconds since the epoch.
    pub time: u32,
    /// The target, in its compact encoding.
    pub bits: u32,
    /// The nonce.
    pub nonce: u32,
}

} // verus!

verus! {

/// Models the result of JSON-RPC method `createwallet`.
#[derive(Clone, Debug, PartialEq, Eq)]
pub struct CreateWallet {
    /// The wallet name if created successfully.
    pub name: String,
    /// Warning messages, if any, related to creating and loading the wallet.
    pub warnings: Vec<String>,
}

/// Models the result of JSON-RPC method `loadwallet`.
#[derive(Clone, Debug, PartialEq, Eq)]
pub struct LoadWallet {
    /// The wallet name if loaded successfully.
    pub name: String,
    /// Warning messages, if any, related to loading the wallet.
    pub warnings: Vec<String>,
}

/// Models the result of JSON-RPC method `dumpprivkey`.
#[derive(Debug, PartialEq, Eq)]
pub struct DumpPrivKey(pub bitcoin::PrivateKey);

/// Models the result of JSON-RPC method `sendtoaddress`.
#[derive(Clone, Debug, PartialEq, Eq)]
pub struct SendToAddress {
    /// The transaction id (its bytes in internal order).
    pub txid: [u8; 32],
}

} // verus!

verus! {

/// Models the result of JSON-RPC method `createmultisig`.
#[derive(Debug, PartialEq, Eq)]
pub struct CreateMultisig {
    /// The value of the new multisig address.
    pub address: crate::address::Address,
    /// The bytes of the redemption script.
    pub redeem_script: Vec<u8>,
    /// The descriptor for this multisig. v20 and later only.
    pub descriptor: Option<String>,
    /// Any warnings resulting from the creation of this multisig. v23 and later only.
    pub warnings: Option<Vec<String>>,
}

/// Models the result of JSON-RPC method `signmessagewithprivkey`.
#[derive(Debug, PartialEq, Eq)]
pub struct SignMessageWithPrivKey(pub bitcoin::sign_message::MessageSignature);

/// Models the result of JSON-RPC method `validateaddress`.
#[derive(Debug, PartialEq, Eq)]
pub struct ValidateAddress {
    /// If the address is valid or not.
    pub is_valid: bool,
    /// The bitcoin address validated.
    pub address: crate::address::Address,
    /// The bytes of the script pubkey generated by the address.
    pub script_pubkey: Vec<u8>,
    /// If the key is a script.
    pub is_script: bool,
    /// If the address is a witness address.
    pub is_witness: bool,
    /// The version number of the witness program.
    pub witness_version: Option<bitcoin::WitnessVersion>,
    /// The witness program.
    pub witness_program: Option<bitcoin::WitnessProgram>,
}

} // verus!

verus! {

/// Models the result of JSON-RPC method `getblockchaininfo`.
///
/// `F` is the type of the two estimates Core reports as JSON floating point numbers
/// (`difficulty` and `verification_progress`); the conversion carries them unchanged.
#[derive(Clone, Debug, PartialEq)]
pub struct GetBlockchainInfo<F> {
    /// Current network name as defined in BIP70 (main, test, signet, regtest).
    pub chain: Network,
    /// The current number of blocks processed in the server.
    pub blocks: u32,
    /// The current number of headers we have validated.
    pub headers: u32,
    /// The hash of the currently best block.
    pub best_block_hash: [u8; 32],
    /// The compact target of the best block (not reported by every version).
    pub bits: Option<u32>,
    /// The difficulty target of the best block, big endian (not reported by every version).
    pub target: Option<[u8; 32]>,
    /// The current difficulty.
    pub difficulty: F,
    /// The block time of the best block (not reported by every version).
    pub time: Option<u32>,
    /// Median time for the current best block.
    pub median_time: u32,
    /// Estimate of verification progress (between 0 and 1).
    pub verification_progress: F,
    /// Estimate of whether this node is in Initial Block Download (IBD) mode.
    pub initial_block_download: bool,
    /// Total amount of work in active chain, big endian.
    pub chain_work: [u8; 32],
    /// The estimated size of the block and undo files on disk.
    pub size_on_disk: u64,
    /// If the blocks are subject to pruning.
    pub pruned: bool,
    /// Lowest-height complete block stored (only present if pruning is enabled).
    pub prune_height: Option<u32>,
    /// Whether automatic pruning is enabled (only present if pruning is enabled).
    pub automatic_pruning: Option<bool>,
    /// The target size used by pruning (only present if automatic pruning is enabled).
    pub prune_target_size: Option<u32>,
    /// Status of softforks in progress, by name.
    pub softforks: BTreeMap<String, Softfork>,
    /// The block challenge (aka. block script) of a signet.
    pub signet_challenge: Option<bitcoin::ScriptBuf>,
    /// Any network and blockchain warnings.
    pub warnings: Vec<String>,
}

/// Models the status of a softfork.
#[derive(Clone, Debug, PartialEq, Eq)]
pub struct Softfork {
    /// The softfork type: one of "buried", "bip9".
    pub type_: SoftforkType,
    /// The status of bip9 softforks (only for "bip9" type).
    pub bip9: Option<Bip9SoftforkInfo>,
    /// Height of the first block which the rules are or will be enforced (only for "buried"
    /// type, or "bip9" type with "active" status).
    pub height: Option<u32>,
    /// `true` if the rules are enforced for the mempool and the next block.
    pub active: bool,
}

/// Models the softfork type: one of "buried", "bip9".
#[derive(Copy, Clone, PartialEq, Eq, Debug)]
pub enum SoftforkType {
    /// Softfork is "buried" (as defined in BIP-90).
    Buried,
    /// Softfork is "bip9" (see BIP-9).
    Bip9,
}

/// Models the status of a BIP-9 softfork.
#[derive(Clone, PartialEq, Eq, Debug)]
pub struct Bip9SoftforkInfo {
    /// One of "defined", "started", "locked_in", "active", "failed".
    pub status: Bip9SoftforkStatus,
    /// The bit (0-28) in the block version field used to signal this softfork (only for
    /// "started" status).
    pub bit: Option<u8>,
    /// The minimum median time past of a block at which the bit gains its meaning.
    pub start_time: i64,
    /// The median time past of a block at which the deployment is considered failed if not yet
    /// locked in.
    pub timeout: i64,
    /// Height of the first block to which the status applies.
    pub since: u32,
    /// Numeric statistics about BIP-9 signalling for a softfork (only for "started" status).
    pub statistics: Option<Bip9SoftforkStatistics>,
}

/// Models the statistics of a BIP-9 softfork.
#[derive(Clone, PartialEq, Eq, Debug)]
pub struct Bip9SoftforkStatistics {
    /// The length in blocks of the BIP9 signalling period.
    pub period: u32,
    /// The number of blocks with the version bit set required to activate the feature.
    pub threshold: Option<u32>,
    /// The number of blocks elapsed since the beginning of the current period.
    pub elapsed: u32,
    /// The number of blocks with the version bit set in the current period.
    pub count: u32,
    /// `false` if there are not enough blocks left in this period to pass activation threshold.
    pub possible: Option<bool>,
}

/// Models the result of JSON-RPC method `getblockfilter`.
#[derive(Clone, Debug, PartialEq, Eq)]
pub struct GetBlockFilter {
    /// The filter data.
    pub filter: Vec<u8>,
    /// The filter header.
    pub header: [u8; 32],
}

/// Models the result of JSON-RPC method `getchaintxstats`.
#[derive(Clone, Debug, PartialEq, Eq)]
pub struct GetChainTxStats {
    /// The timestamp for the final block in the window in UNIX format.
    pub time: u32,
    /// The total number of transactions in the chain up to that point.
    pub tx_count: u32,
    /// The hash of the final block in the window.
    pub window_final_block_hash: [u8; 32],
    /// The height of the final block in the window.
    pub window_final_block_height: Option<u32>,
    /// Size of the window in number of blocks.
    pub window_block_count: u32,
    /// The number of transactions in the window. Only returned if "window_block_count" is > 0.
    pub window_tx_count: Option<u32>,
    /// The elapsed time in the window in seconds. Only returned if "window_block_count" is > 0.
    pub window_interval: Option<u32>,
    /// The average rate of transactions per second in the window.
    pub tx_rate: Option<u32>,
}

/// Models the result of JSON-RPC method `getmempoolancestors` with verbose set to false.
#[derive(Clone, Debug, PartialEq, Eq)]
pub struct GetMempoolAncestors(pub Vec<[u8; 32]>);

/// Models the result of JSON-RPC method `getmempooldescendants` with verbose set to false.
#[derive(Clone, Debug, PartialEq, Eq)]
pub struct GetMempoolDescendants(pub Vec<[u8; 32]>);

/// Models the result of JSON-RPC method `getmempoolancestors` with verbose set to true: the
/// entries by txid (the txid's bytes in internal order).
#[derive(Clone, Debug, PartialEq, Eq)]
pub struct GetMempoolAncestorsVerbose(pub BTreeMap<[u8; 32], MempoolEntry>);

/// Models the result of JSON-RPC method `getmempooldescendants` with verbose set to true: the
/// entries by txid (the txid's bytes in internal order).
#[derive(Clone, Debug, PartialEq, Eq)]
pub struct GetMempoolDescendantsVerbose(pub BTreeMap<[u8; 32], MempoolEntry>);

} // verus!

verus! {

/// Models the result of JSON-RPC method `addconnection`.
#[derive(Clone, Debug, PartialEq, Eq)]
pub struct AddConnection {
    /// Address of newly added connection.
    pub address: String,
    /// Type of connection opened.
    pub connection_type: String,
}

/// Models the result of JSON-RPC method `decodescript`.
#[derive(Debug, PartialEq, Eq)]
pub struct DecodeScript {
    /// The script pubkey.
    pub script_pubkey: Option<Vec<u8>>,
    /// The output type.
    pub type_: String,
    /// Inferred descriptor for the script. v23 and later only.
    pub descriptor: Option<String>,
    /// Bitcoin address (only if a well-defined address exists). v22 and later only.
    pub address: Option<crate::address::Address>,
    /// The required signatures.
    pub required_signatures: Option<u64>,
    /// List of bitcoin addresses.
    pub addresses: Vec<crate::address::Address>,
    /// Address of P2SH script wrapping this redeem script (not returned if the script is already a P2SH).
    pub p2sh: Option<crate::address::Address>,
    /// Address of the P2SH script wrapping this witness redeem script.
    pub p2sh_segwit: Option<String>,
    /// Result of a witness output script wrapping this redeem script.
    pub segwit: Option<DecodeScriptSegwit>,
}

/// Models the `segwit` item of the result of JSON-RPC method `decodescript`.
#[derive(Debug, PartialEq, Eq)]
pub struct DecodeScriptSegwit {
    /// Disassembly of the script.
    pub assembly: String,
    /// The raw output script.
    pub hex: bitcoin::ScriptBuf,
    /// The output type.
    pub type_: String,
    /// Bitcoin address (only if a well-defined address exists).
    pub address: Option<String>,
    /// The required signatures.
    pub required_signatures: Option<u64>,
    /// List of bitcoin addresses.
    pub addresses: Option<Vec<String>>,
    /// Address of the P2SH script wrapping this witness redeem script.
    pub p2sh_segwit: Option<crate::address::Address>,
}

} // verus!

verus! {

/// Models the result of JSON-RPC method `getblock` with verbosity set to 0.
#[derive(Debug, PartialEq)]
pub struct GetBlockVerboseZero(pub bitcoin::Block);

/// Models the result of JSON-RPC method `getblock` with verbosity set to 1.
///
/// `F` is the type of the difficulty, which Core writes as a JSON floating point number; the
/// conversion carries it unchanged.
#[derive(Clone, Debug, PartialEq)]
pub struct GetBlockVerboseOne<F> {
    /// The block hash (same as provided) in RPC call.
    pub hash: [u8; 32],
    /// The number of confirmations, or -1 if the block is not on the main chain.
    pub confirmations: i64,
    /// The block size.
    pub size: u32,
    /// The block size excluding witness data.
    pub stripped_size: Option<u32>,
    /// The block weight as defined in BIP-141, in weight units.
    pub weight: u64,
    /// The block height or index.
    pub height: u32,
    /// The block version, in its consensus encoding.
    pub version: i32,
    /// The merkle root.
    pub merkle_root: String,
    /// The transaction ids.
    pub tx: Vec<[u8; 32]>,
    /// The block time expressed in UNIX epoch time.
    pub time: u32,
    /// The median block time expressed in UNIX epoch time.
    pub median_time: Option<u32>,
    /// The nonce.
    pub nonce: u32,
    /// The target, in its compact encoding.
    pub bits: u32,
    /// The difficulty.
    pub difficulty: F,
    /// Expected number of hashes required to produce the chain up to this block, big endian.
    pub chain_work: [u8; 32],
    /// The number of transactions in the block.
    pub n_tx: u32,
    /// The hash of the previous block (if available).
    pub previous_block_hash: Option<[u8; 32]>,
    /// The hash of the next block (if available).
    pub next_block_hash: Option<[u8; 32]>,
}

/// Models BIP-9 softfork status: one of "defined", "started", "locked_in", "active", "failed".
#[derive(Copy, Clone, PartialEq, Eq, Debug, Structural)]
pub enum Bip9SoftforkStatus {
    /// BIP-9 softfork status "defined".
    Defined,
    /// BIP-9 softfork status "started".
    Started,
    /// BIP-9 softfork status "locked_in".
    LockedIn,
    /// BIP-9 softfork status "active".
    Active,
    /// BIP-9 softfork status "failed".
    Failed,
}

/// Models the result of JSON-RPC method `getblockheader` with verbose set to false.
#[derive(Clone, Debug, PartialEq, Eq)]
pub struct GetBlockHeader(pub BlockHeader);

/// Models the result of JSON-RPC method `getblockheader` with verbose set to true.
///
/// `F` is the type of the difficulty, which Core writes as a JSON floating point number; the
/// conversion carries it unchanged.
#[derive(Clone, Debug, PartialEq)]
pub struct GetBlockHeaderVerbose<F> {
    /// The block hash.
    pub hash: [u8; 32],
    /// The number of confirmations, or -1 if the block is not on the main chain.
    pub confirmations: i64,
    /// The block height or index.
    pub height: u32,
    /// The block version, in its consensus encoding.
    pub version: i32,
    /// The merkle root.
    pub merkle_root: [u8; 32],
    /// The block time in seconds since epoch (Jan 1 1970 GMT).
    pub time: u32,
    /// The median block time in seconds since epoch (Jan 1 1970 GMT).
    pub median_time: u32,
    /// The nonce.
    pub nonce: u32,
    /// The target, in its compact encoding.
    pub bits: u32,
    /// The target, big endian.
    pub target: Option<[u8; 32]>,
    /// The difficulty.
    pub difficulty: F,
    /// Expected number of hashes required to produce the current chain, big endian.
    pub chain_work: [u8; 32],
    /// The number of transactions in the block.
    pub n_tx: u32,
    /// The hash of the previous block (if available).
    pub previous_block_hash: Option<[u8; 32]>,
    /// The hash of the next block (if available).
    pub next_block_hash: Option<[u8; 32]>,
}

/// Models a script pubkey as Core reports it in descriptor activity.
#[derive(Debug, PartialEq, Eq)]
pub struct ScriptPubkey {
    /// Script assembly.
    pub assembly: String,
    /// The bytes of the script.
    pub hex: Vec<u8>,
    /// The type, eg pubkeyhash.
    pub type_: String,
    /// Bitcoin address (only if a well-defined address exists).
    pub address: Option<crate::address::Address>,
}

/// Models the result of JSON-RPC method `getdescriptoractivity`.
#[derive(Debug, PartialEq, Eq)]
pub struct GetDescriptorActivity {
    /// The activity entries, in the order Core listed them.
    pub activity: Vec<ActivityEntry>,
}

/// Models an activity entry: a spend or a receive.
#[derive(Debug, PartialEq, Eq)]
pub enum ActivityEntry {
    /// The spend activity.
    Spend(SpendActivity),
    /// The receive activity.
    Receive(ReceiveActivity),
}

/// Models a 'spend' activity event.
#[derive(Debug, PartialEq, Eq)]
pub struct SpendActivity {
    /// The total amount of the spent output.
    pub amount: bitcoin::Amount,
    /// The block hash.
    pub block_hash: Option<[u8; 32]>,
    /// Height of the spend.
    pub height: Option<u32>,
    /// The txid of the spending transaction.
    pub spend_txid: [u8; 32],
    /// The vout of the spend.
    pub spend_vout: u32,
    /// The txid of the prevout.
    pub prevout_txid: [u8; 32],
    /// The vout of the prevout.
    pub prevout_vout: u32,
    /// The prev scriptPubKey.
    pub prevout_spk: ScriptPubkey,
}

/// Models a 'receive' activity event.
#[derive(Debug, PartialEq, Eq)]
pub struct ReceiveActivity {
    /// The total amount of the new output.
    pub amount: bitcoin::Amount,
    /// The block that this receive is in.
    pub block_hash: Option<[u8; 32]>,
    /// The height of the receive.
    pub height: Option<u32>,
    /// The txid of the receiving transaction.
    pub txid: [u8; 32],
    /// The vout of the receiving output.
    pub vout: u32,
    /// The ScriptPubKey.
    pub output_spk: ScriptPubkey,
}

/// Models the result of JSON-RPC method `estimatesmartfee`.
#[derive(Clone, Debug, PartialEq, Eq)]
pub struct EstimateSmartFee {
    /// Estimate fee rate (`Some(None)` where Core's rate does not fit a fee rate).
    pub fee_rate: Option<Option<bitcoin::FeeRate>>,
    /// Errors encountered during processing.
    pub errors: Option<Vec<String>>,
    /// Block number where estimate was found.
    pub blocks: u32,
}

/// Models the result of JSON-RPC method `getmempoolentry`.
#[derive(Clone, Debug, PartialEq, Eq)]
pub struct GetMempoolEntry(pub MempoolEntry);

/// Models a mempool entry.
#[derive(Clone, Debug, PartialEq, Eq)]
pub struct MempoolEntry {
    /// Virtual transaction size as defined in BIP 141. v19 and later only.
    pub vsize: Option<u32>,
    /// Transaction size. v17 and v18 only.
    pub size: Option<u32>,
    /// Transaction weight as defined in BIP 141. v19 and later only.
    pub weight: Option<u32>,
    /// Local time transaction entered pool in seconds since 1 Jan 1970 GMT.
    pub time: u32,
    /// Block height when transaction entered pool.
    pub height: u32,
    /// Number of in-mempool descendant transactions (including this one).
    pub descendant_count: u32,
    /// Virtual transaction size of in-mempool descendants (including this one).
    pub descendant_size: u32,
    /// Number of in-mempool ancestor transactions (including this one).
    pub ancestor_count: u32,
    /// Virtual transaction size of in-mempool ancestors (including this one).
    pub ancestor_size: u32,
    /// Hash of serialized transaction, including witness data.
    pub wtxid: [u8; 32],
    /// Fee information.
    pub fees: MempoolEntryFees,
    /// Unconfirmed transactions used as inputs for this transaction (parent transaction id).
    pub depends: Vec<[u8; 32]>,
    /// Unconfirmed transactions spending outputs from this transaction (child transaction id).
    pub spent_by: Vec<[u8; 32]>,
    /// Whether this transaction is BIP-125 replaceable.
    pub bip125_replaceable: Option<bool>,
    /// Whether this transaction is currently unbroadcast. v21 and later only.
    pub unbroadcast: Option<bool>,
}

/// Models the fee field of a mempool entry.
#[derive(Clone, Debug, PartialEq, Eq)]
pub struct MempoolEntryFees {
    /// Transaction fee.
    pub base: bitcoin::Amount,
    /// Transaction fee with fee deltas used for mining priority.
    pub modified: bitcoin::Amount,
    /// Modified fees (see above) of in-mempool ancestors (including this one).
    pub ancestor: bitcoin::Amount,
    /// Modified fees (see above) of in-mempool descendants (including this one).
    pub descendant: bitcoin::Amount,
}

/// Models the result of JSON-RPC method `getmempoolinfo`.
#[derive(Clone, Debug, PartialEq, Eq)]
pub struct GetMempoolInfo {
    /// True if the mempool is fully loaded. v0.19 and later only.
    pub loaded: Option<bool>,
    /// Current transaction count.
    pub size: u32,
    /// Sum of all virtual transaction sizes as defined in BIP 141.
    pub bytes: u32,
    /// Total memory usage for the mempool.
    pub usage: u32,
    /// Total fees for the mempool, ignoring modified fees. v23 and later only.
    pub total_fee: Option<bitcoin::Amount>,
    /// Maximum memory usage for the mempool.
    pub max_mempool: u32,
    /// Minimum fee rate for a transaction to be accepted.
    pub mempool_min_fee: Option<bitcoin::FeeRate>,
    /// Current minimum relay fee for transactions.
    pub min_relay_tx_fee: Option<bitcoin::FeeRate>,
    /// Minimum fee rate increment for mempool limiting or replacement. v24 and later only.
    pub incremental_relay_fee: Option<bitcoin::FeeRate>,
    /// Current number of transactions that haven't passed initial broadcast yet. v21 and later
    /// only.
    pub unbroadcast_count: Option<u32>,
    /// True if the mempool accepts RBF without replaceability signaling inspection. v24 and
    /// later only.
    pub full_rbf: Option<bool>,
}

/// Models the result of JSON-RPC method `scantxoutset` with action "start".
#[derive(Clone, Debug, PartialEq, Eq)]
pub struct ScanTxOutSetStart {
    /// Whether the scan is completed. v25 and later only.
    pub success: Option<bool>,
    /// The number of unspent transaction outputs scanned. v25 and later only.
    pub txouts: Option<u64>,
    /// The current block height (index). v25 and later only.
    pub height: Option<u64>,
    /// The hash of the block at the tip of the chain. v25 and later only.
    pub bestblock: Option<[u8; 32]>,
    /// The unspents.
    pub unspents: Vec<ScanTxOutSetUnspent>,
    /// The total amount of all found unspent outputs.
    pub total_amount: bitcoin::Amount,
}

/// Models an unspent output found by `scantxoutset`.
#[derive(Clone, Debug, PartialEq, Eq)]
pub struct ScanTxOutSetUnspent {
    /// The transaction id.
    pub txid: [u8; 32],
    /// The vout value.
    pub vout: u32,
    /// The bytes of the script key.
    pub script_pubkey: Vec<u8>,
    /// An output descriptor. v18 and later only.
    pub desc: Option<String>,
    /// The total amount of unspent output.
    pub amount: bitcoin::Amount,
    /// Whether this is a coinbase output. v25 and later only.
    pub coinbase: Option<bool>,
    /// Height of the unspent transaction output.
    pub height: u64,
    /// Blockhash of the unspent transaction output. v28 and later only.
    pub blockhash: Option<[u8; 32]>,
    /// Number of confirmations of the unspent transaction output when the scan was done. v28 and
    /// later only.
    pub confirmations: Option<u64>,
}

} // verus!
