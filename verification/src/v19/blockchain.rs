//! The JSON-RPC API for Bitcoin Core `v19` - blockchain.
//!
//! Types for methods found under the `== Blockchain ==` section of the API docs.
use vstd::prelude::*;

use std::collections::BTreeMap;

use crate::chain::{
    is_u256_hex_splittable, network_error, network_from_core_arg, parse_network, parse_work,
    u256_hex_error, u256_hex_splittable, work_from_unprefixed_hex,
};
use crate::hex::{
    all_hash_hex, array_hex_error, block_hash_from_str, bytes_from_hex, bytes_hex_error,
    filter_hash_from_str, first_hash_error, hash_from_hex, hashes_from_hex, hex_decode, is_hash_hex,
    is_hex, txids_from_strs,
};
use crate::model;
use crate::numeric::{
    fits_u32, opt_as_u32, opt_fits_u32, to_u32, to_u32_opt, u32_error, NumericError,
    NumericErrorView,
};

verus! {

/// Result of JSON-RPC method `getblockchaininfo`.
///
/// > getblockchaininfo
/// >
/// > Returns an object containing various state info regarding blockchain processing.
///
/// `F` is the type of the fields that Core writes as JSON floating point numbers.
#[derive(Clone, Debug, PartialEq)]
pub struct GetBlockchainInfo<F> {
    /// Current network name as defined in BIP70 (main, test, signet, regtest).
    pub chain: String,
    /// The current number of blocks processed in the server.
    pub blocks: i64,
    /// The current number of headers we have validated.
    pub headers: i64,
    /// The hash of the currently best block.
    pub best_block_hash: String,
    /// The current difficulty.
    pub difficulty: F,
    /// Median time for the current best block.
    pub median_time: i64,
    /// Estimate of verification progress (between 0 and 1).
    pub verification_progress: F,
    /// Estimate of whether this node is in Initial Block Download (IBD) mode.
    pub initial_block_download: bool,
    /// Total amount of work in active chain, in hexadecimal.
    pub chain_work: String,
    /// The estimated size of the block and undo files on disk.
    pub size_on_disk: u64,
    /// If the blocks are subject to pruning.
    pub pruned: bool,
    /// Lowest-height complete block stored (only present if pruning is enabled).
    pub prune_height: Option<i64>,
    /// Whether automatic pruning is enabled (only present if pruning is enabled).
    pub automatic_pruning: Option<bool>,
    /// The target size used by pruning (only present if automatic pruning is enabled).
    pub prune_target_size: Option<i64>,
    /// Status of softforks in progress, maps softfork name -> [`Softfork`].
    pub softforks: BTreeMap<String, Softfork>,
    /// Any network and blockchain warnings.
    pub warnings: String,
}

/// Status of softfork.
#[derive(Clone, Debug, PartialEq, Eq)]
pub struct Softfork {
    /// The [`SoftforkType`]: one of "buried", "bip9".
    pub type_: SoftforkType,
    /// The status of bip9 softforks (only for "bip9" type).
    pub bip9: Option<Bip9SoftforkInfo>,
    /// Height of the first block which the rules are or will be enforced (only for "buried"
    /// type, or "bip9" type with "active" status).
    pub height: Option<i64>,
    /// `true` if the rules are enforced for the mempool and the next block.
    pub active: bool,
}

/// The softfork type: one of "buried", "bip9".
#[derive(Copy, Clone, PartialEq, Eq, Debug)]
pub enum SoftforkType {
    /// Softfork is "buried" (as defined in BIP-90).
    Buried,
    /// Softfork is "bip9" (see BIP-9).
    Bip9,
}

/// Status of BIP-9 softforks.
#[derive(Clone, PartialEq, Eq, Debug)]
pub struct Bip9SoftforkInfo {
    /// One of "defined", "started", "locked_in", "active", "failed".
    pub status: Bip9SoftforkStatus,
    /// The bit (0-28) in the block version field used to signal this softfork (only for
    /// "started" status).
    pub bit: Option<u8>,
    /// The minimum median time past of a block at which the bit gains its meaning.
    pub start_time: i64,
    /// The median time past of a block at which the deployment is considered failed if not yet
    /// locked in.
    pub timeout: i64,
    /// Height of the first block to which the status applies.
    pub since: i64,
    /// Numeric statistics about BIP-9 signalling for a softfork (only for "started" status).
    pub statistics: Option<Bip9SoftforkStatistics>,
}

/// BIP-9 softfork status: one of "defined", "started", "locked_in", "active", "failed".
#[derive(Copy, Clone, PartialEq, Eq, Debug)]
pub enum Bip9SoftforkStatus {
    /// BIP-9 softfork status "defined".
    Defined,
    /// BIP-9 softfork status "started".
    Started,
    /// BIP-9 softfork status "locked_in".
    LockedIn,
    /// BIP-9 softfork status "active".
    Active,
    /// BIP-9 softfork status "failed".
    Failed,
}

/// Statistics for a BIP-9 softfork.
#[derive(Clone, PartialEq, Eq, Debug)]
pub struct Bip9SoftforkStatistics {
    /// The length in blocks of the BIP9 signalling period.
    pub period: i64,
    /// The number of blocks with the version bit set required to activate the feature.
    pub threshold: Option<i64>,
    /// The number of blocks elapsed since the beginning of the current period.
    pub elapsed: i64,
    /// The number of blocks with the version bit set in the current period.
    pub count: i64,
    /// `false` if there are not enough blocks left in this period to pass activation threshold.
    pub possible: Option<bool>,
}

/// Error when converting a `GetBlockchainInfo` type into the model type.
#[derive(Debug)]
pub enum GetBlockchainInfoError {
    /// Conversion of numeric type to expected type failed.
    Numeric(NumericError),
    /// Conversion of the `chain` field failed.
    Chain(bitcoin::network::ParseNetworkError),
    /// Conversion of the `best_block_hash` field failed.
    BestBlockHash(bitcoin::hex::HexToArrayError),
    /// Conversion of the `chain_work` field failed.
    ChainWork(bitcoin::error::UnprefixedHexError),
}

impl<F> GetBlockchainInfo<F> {
    /// The first numeric field that does not fit a `u32`, in the order of conversion, and its
    /// error.
    pub open spec fn numeric_failure(&self) -> Option<NumericErrorView> {
        if !opt_fits_u32(self.prune_height) {
            Some(u32_error(self.prune_height->0, "prune_height"@))
        } else if !opt_fits_u32(self.prune_target_size) {
            Some(u32_error(self.prune_target_size->0, "prune_target_size"@))
        } else if !fits_u32(self.blocks) {
            Some(u32_error(self.blocks, "blocks"@))
        } else if !fits_u32(self.headers) {
            Some(u32_error(self.headers, "headers"@))
        } else if !fits_u32(self.median_time) {
            Some(u32_error(self.median_time, "median_time"@))
        } else {
            None
        }
    }

    /// The chain and the best block hash convert, so that `into_model` goes on to read the chain
    /// work.
    pub open spec fn reaches_chain_work(&self) -> bool {
        network_from_core_arg(self.chain@) is Some && is_hash_hex(self.best_block_hash@)
    }

    /// `r` is what converting `self` gives: the model with each field converted, or the error of
    /// the first conversion that fails. The softforks come out empty, and the bits, target, time
    /// and signet challenge are not reported.
    pub open spec fn conversion(&self, r: Result<model::GetBlockchainInfo<F>, GetBlockchainInfoError>) -> bool {
        match r {
            Ok(m) => {
                &&& network_from_core_arg(self.chain@) == Some(m.chain)
                &&& is_hash_hex(self.best_block_hash@)
                &&& m.best_block_hash@ == hash_from_hex(self.best_block_hash@)
                &&& work_from_unprefixed_hex(self.chain_work@) == Some(m.chain_work@)
                &&& self.numeric_failure() is None
                &&& m.blocks == self.blocks
                &&& m.headers == self.headers
                &&& m.difficulty == self.difficulty
                &&& m.median_time == self.median_time
                &&& m.verification_progress == self.verification_progress
                &&& m.initial_block_download == self.initial_block_download
                &&& m.size_on_disk == self.size_on_disk
                &&& m.pruned == self.pruned
                &&& m.prune_height == opt_as_u32(self.prune_height)
                &&& m.automatic_pruning == self.automatic_pruning
                &&& m.prune_target_size == opt_as_u32(self.prune_target_size)
                &&& m.warnings@.len() == 1
                &&& m.warnings@[0]@ == self.warnings@
                &&& m.bits is None
                &&& m.target is None
                &&& m.time is None
                &&& m.softforks@ == Map::<String, model::Softfork>::empty()
                &&& m.signet_challenge is None
            },
            Err(GetBlockchainInfoError::Chain(e)) => {
                network_from_core_arg(self.chain@) is None && e == network_error(self.chain@)
            },
            Err(GetBlockchainInfoError::BestBlockHash(e)) => {
                &&& network_from_core_arg(self.chain@) is Some
                &&& !is_hash_hex(self.best_block_hash@)
                &&& e == array_hex_error(self.best_block_hash@)
            },
            Err(GetBlockchainInfoError::ChainWork(e)) => {
                &&& network_from_core_arg(self.chain@) is Some
                &&& is_hash_hex(self.best_block_hash@)
                &&& work_from_unprefixed_hex(self.chain_work@) is None
                &&& e == u256_hex_error(self.chain_work@)
            },
            Err(GetBlockchainInfoError::Numeric(e)) => {
                &&& network_from_core_arg(self.chain@) is Some
                &&& is_hash_hex(self.best_block_hash@)
                &&& work_from_unprefixed_hex(self.chain_work@) is Some
                &&& self.numeric_failure() == Some(e@)
            },
        }
    }

    /// Law: a successful conversion reports the node's state as the input gives it. The chain is
    /// the network Core names, the best block hash and the chain work are the values written in
    /// hex, each number and flag is the same value as in the input, and none of the other fields
    /// is made up.
    pub proof fn lemma_conversion_carries_fields(&self, m: model::GetBlockchainInfo<F>)
        requires
            self.conversion(Ok(m)),
        ensures
            network_from_core_arg(self.chain@) == Some(m.chain),
            m.best_block_hash@ == hash_from_hex(self.best_block_hash@),
            work_from_unprefixed_hex(self.chain_work@) == Some(m.chain_work@),
            m.blocks == self.blocks,
            m.headers == self.headers,
            m.median_time == self.median_time,
            m.difficulty == self.difficulty,
            m.verification_progress == self.verification_progress,
            m.initial_block_download == self.initial_block_download,
            m.size_on_disk == self.size_on_disk,
            m.pruned == self.pruned,
            m.automatic_pruning == self.automatic_pruning,
            m.prune_height is Some <==> self.prune_height is Some,
            self.prune_height matches Some(h) ==> m.prune_height->0 == h,
            m.prune_target_size is Some <==> self.prune_target_size is Some,
            self.prune_target_size matches Some(s) ==> m.prune_target_size->0 == s,
            m.warnings@.len() == 1,
            m.warnings@[0]@ == self.warnings@,
            m.bits is None,
            m.target is None,
            m.time is None,
            m.softforks@.len() == 0,
            m.signet_challenge is None,
    {
    }

    /// Law: the conversion succeeds exactly when every field converts: the chain is a name Core
    /// uses, the best block hash is 64 hex digits, the chain work reads, and each number fits a
    /// `u32`; and a failure names a field that does not convert, the earliest of the chain, the
    /// best block hash and the chain work.
    pub proof fn lemma_conversion_fails_on_bad_field(
        &self,
        r: Result<model::GetBlockchainInfo<F>, GetBlockchainInfoError>,
    )
        requires
            self.conversion(r),
        ensures
            r is Ok <==> {
                &&& network_from_core_arg(self.chain@) is Some
                &&& is_hash_hex(self.best_block_hash@)
                &&& work_from_unprefixed_hex(self.chain_work@) is Some
                &&& opt_fits_u32(self.prune_height)
                &&& opt_fits_u32(self.prune_target_size)
                &&& fits_u32(self.blocks)
                &&& fits_u32(self.headers)
                &&& fits_u32(self.median_time)
            },
            r matches Err(GetBlockchainInfoError::Chain(_)) <==> network_from_core_arg(self.chain@) is None,
            r matches Err(GetBlockchainInfoError::BestBlockHash(_)) <==> (network_from_core_arg(
                self.chain@,
            ) is Some && !is_hash_hex(self.best_block_hash@)),
            r matches Err(GetBlockchainInfoError::ChainWork(_)) <==> (network_from_core_arg(
                self.chain@,
            ) is Some && is_hash_hex(self.best_block_hash@) && work_from_unprefixed_hex(
                self.chain_work@,
            ) is None),
    {
        if r is Ok {
            assert(self.numeric_failure() is None);
        }
        if r matches Err(GetBlockchainInfoError::Numeric(_)) {
            assert(self.numeric_failure() is Some);
        }
    }

    /// Law: the numeric error reported is that of the first number, in the order of conversion,
    /// that does not fit a `u32`; where every number fits there is none.
    pub proof fn lemma_numeric_failure_is_first_bad_field(&self)
        ensures
            !(opt_fits_u32(self.prune_height)) ==> self.numeric_failure() == Some(u32_error(self.prune_height->0, "prune_height"@)),
            opt_fits_u32(self.prune_height) && !(opt_fits_u32(self.prune_target_size)) ==> self.numeric_failure() == Some(u32_error(self.prune_target_size->0, "prune_target_size"@)),
            opt_fits_u32(self.prune_height) && opt_fits_u32(self.prune_target_size) && !(fits_u32(self.blocks)) ==> self.numeric_failure() == Some(u32_error(self.blocks, "blocks"@)),
            opt_fits_u32(self.prune_height) && opt_fits_u32(self.prune_target_size) && fits_u32(self.blocks) && !(fits_u32(self.headers)) ==> self.numeric_failure() == Some(u32_error(self.headers, "headers"@)),
            opt_fits_u32(self.prune_height) && opt_fits_u32(self.prune_target_size) && fits_u32(self.blocks) && fits_u32(self.headers) && !(fits_u32(self.median_time)) ==> self.numeric_failure() == Some(u32_error(self.median_time, "median_time"@)),
            opt_fits_u32(self.prune_height) && opt_fits_u32(self.prune_target_size) && fits_u32(self.blocks) && fits_u32(self.headers) && fits_u32(self.median_time) ==> self.numeric_failure() is None,
    {
    }

    /// Converts as [`Self::into_model`] does, or returns `None` on the inputs that `into_model`
    /// leaves out: where the chain and the best block hash convert and reading the chain work
    /// would split a character (`bitcoin::Work::from_unprefixed_hex` panics there).
    pub fn into_model_checked(self) -> (r: Option<Result<model::GetBlockchainInfo<F>, GetBlockchainInfoError>>)
        ensures
            r is None <==> self.reaches_chain_work() && !u256_hex_splittable(self.chain_work@),
            r matches Some(res) ==> self.conversion(res),
    {
        let chain = match parse_network(self.chain.as_str()) {
            Ok(c) => c,
            Err(e) => return Some(Err(GetBlockchainInfoError::Chain(e))),
        };
        let best_block_hash = match block_hash_from_str(self.best_block_hash.as_str()) {
            Ok(h) => h,
            Err(e) => return Some(Err(GetBlockchainInfoError::BestBlockHash(e))),
        };
        if !is_u256_hex_splittable(self.chain_work.as_str()) {
            return None;
        }
        let chain_work = match parse_work(self.chain_work.as_str()) {
            Ok(w) => w,
            Err(e) => return Some(Err(GetBlockchainInfoError::ChainWork(e))),
        };
        let prune_height = match to_u32_opt(self.prune_height, "prune_height") {
            Ok(v) => v,
            Err(e) => return Some(Err(GetBlockchainInfoError::Numeric(e))),
        };
        let prune_target_size = match to_u32_opt(self.prune_target_size, "prune_target_size") {
            Ok(v) => v,
            Err(e) => return Some(Err(GetBlockchainInfoError::Numeric(e))),
        };
        let blocks = match to_u32(self.blocks, "blocks") {
            Ok(v) => v,
            Err(e) => return Some(Err(GetBlockchainInfoError::Numeric(e))),
        };
        let headers = match to_u32(self.headers, "headers") {
            Ok(v) => v,
            Err(e) => return Some(Err(GetBlockchainInfoError::Numeric(e))),
        };
        let median_time = match to_u32(self.median_time, "median_time") {
            Ok(v) => v,
            Err(e) => return Some(Err(GetBlockchainInfoError::Numeric(e))),
        };
        Some(Ok(model::GetBlockchainInfo {
            chain,
            blocks,
            headers,
            best_block_hash,
            bits: None,
            target: None,
            difficulty: self.difficulty,
            time: None,
            median_time,
            verification_progress: self.verification_progress,
            initial_block_download: self.initial_block_download,
            chain_work,
            size_on_disk: self.size_on_disk,
            pruned: self.pruned,
            prune_height,
            automatic_pruning: self.automatic_pruning,
            prune_target_size,
            softforks: BTreeMap::new(),
            signet_challenge: None,
            warnings: vec![self.warnings],
        }))
    }

    /// Converts version specific type to a version nonspecific, more strongly typed type.
    ///
    /// The fields are converted in order: chain, best block hash, chain work, then the numeric
    /// fields; the first that fails gives the error. The softforks are not converted.
    pub fn into_model(self) -> (r: Result<model::GetBlockchainInfo<F>, GetBlockchainInfoError>)
        requires
            self.reaches_chain_work() ==> u256_hex_splittable(self.chain_work@),
        ensures
            self.conversion(r),
    {
        self.into_model_checked().unwrap()
    }
}

/// Result of JSON-RPC method `getblockfilter`.
///
/// > getblockfilter "blockhash" ( "filtertype" )
/// >
/// > Retrieve a BIP 157 content filter for a particular block.
#[derive(Clone, Debug, PartialEq, Eq)]
pub struct GetBlockFilter {
    /// The hex-encoded filter data.
    pub filter: String,
    /// The hex-encoded filter header.
    pub header: String,
}

/// Error when converting a `GetBlockFilter` type into the model type.
#[derive(Debug)]
pub enum GetBlockFilterError {
    /// Conversion of the `filter` field failed.
    Filter(bitcoin::hex::HexToBytesError),
    /// Conversion of the `header` field failed.
    Header(bitcoin::hex::HexToArrayError),
}

impl GetBlockFilter {
    /// Converts version specific type to a version nonspecific, more strongly typed type.
    pub fn into_model(self) -> (r: Result<model::GetBlockFilter, GetBlockFilterError>)
        ensures
            match r {
                Ok(m) => {
                    &&& is_hex(self.filter@)
                    &&& is_hash_hex(self.header@)
                    &&& m.filter@ == hex_decode(self.filter@)
                    &&& m.header@ == hash_from_hex(self.header@)
                },
                Err(GetBlockFilterError::Filter(e)) => !is_hex(self.filter@) && e == bytes_hex_error(self.filter@),
                Err(GetBlockFilterError::Header(e)) => {
                    &&& is_hex(self.filter@)
                    &&& !is_hash_hex(self.header@)
                    &&& e == array_hex_error(self.header@)
                },
            },
    {
        let filter = match bytes_from_hex(self.filter.as_str()) {
            Ok(f) => f,
            Err(e) => return Err(GetBlockFilterError::Filter(e)),
        };
        let header = match filter_hash_from_str(self.header.as_str()) {
            Ok(h) => h,
            Err(e) => return Err(GetBlockFilterError::Header(e)),
        };
        Ok(model::GetBlockFilter { filter, header })
    }
}

/// Result of JSON-RPC method `getchaintxstats`.
///
/// > getchaintxstats ( nblocks blockhash )
/// >
/// > Compute statistics about the total number and rate of transactions in the chain.
#[derive(Clone, Debug, PartialEq)]
pub struct GetChainTxStats {
    /// The timestamp for the final block in the window in UNIX format.
    pub time: i64,
    /// The total number of transactions in the chain up to that point.
    pub tx_count: i64,
    /// The hash of the final block in the window.
    pub window_final_block_hash: String,
    /// The height of the final block in the window.
    pub window_final_block_height: i64,
    /// Size of the window in number of blocks.
    pub window_block_count: i64,
    /// The number of transactions in the window. Only returned if "window_block_count" is > 0.
    pub window_tx_count: Option<i64>,
    /// The elapsed time in the window in seconds. Only returned if "window_block_count" is > 0.
    pub window_interval: Option<i64>,
    /// The average rate of transactions per second in the window. Only returned if
    /// "window_interval" is > 0.
    pub tx_rate: Option<i64>,
}

/// Error when converting a `GetChainTxStats` type into the model type.
#[derive(Debug)]
pub enum GetChainTxStatsError {
    /// Conversion of numeric type to expected type failed.
    Numeric(NumericError),
    /// Conversion of the `window_final_block_hash` field failed.
    WindowFinalBlockHash(bitcoin::hex::HexToArrayError),
}

impl GetChainTxStats {
    /// The first numeric field that does not fit a `u32`, in the order of conversion, and its
    /// error.
    pub open spec fn numeric_failure(&self) -> Option<NumericErrorView> {
        if !fits_u32(self.window_final_block_height) {
            Some(u32_error(self.window_final_block_height, "window_final_block_height"@))
        } else if !opt_fits_u32(self.window_tx_count) {
            Some(u32_error(self.window_tx_count->0, "window_tx_count"@))
        } else if !opt_fits_u32(self.window_interval) {
            Some(u32_error(self.window_interval->0, "window_interval"@))
        } else if !opt_fits_u32(self.tx_rate) {
            Some(u32_error(self.tx_rate->0, "tx_rate"@))
        } else if !fits_u32(self.time) {
            Some(u32_error(self.time, "time"@))
        } else if !fits_u32(self.tx_count) {
            Some(u32_error(self.tx_count, "tx_count"@))
        } else if !fits_u32(self.window_block_count) {
            Some(u32_error(self.window_block_count, "window_block_count"@))
        } else {
            None
        }
    }

    /// Law: the numeric error reported is that of the first number, in the order of conversion,
    /// that does not fit a `u32`; where every number fits there is none.
    pub proof fn lemma_numeric_failure_is_first_bad_field(&self)
        ensures
            !(fits_u32(self.window_final_block_height)) ==> self.numeric_failure() == Some(u32_error(self.window_final_block_height, "window_final_block_height"@)),
            fits_u32(self.window_final_block_height) && !(opt_fits_u32(self.window_tx_count)) ==> self.numeric_failure() == Some(u32_error(self.window_tx_count->0, "window_tx_count"@)),
            fits_u32(self.window_final_block_height) && opt_fits_u32(self.window_tx_count) && !(opt_fits_u32(self.window_interval)) ==> self.numeric_failure() == Some(u32_error(self.window_interval->0, "window_interval"@)),
            fits_u32(self.window_final_block_height) && opt_fits_u32(self.window_tx_count) && opt_fits_u32(self.window_interval) && !(opt_fits_u32(self.tx_rate)) ==> self.numeric_failure() == Some(u32_error(self.tx_rate->0, "tx_rate"@)),
            fits_u32(self.window_final_block_height) && opt_fits_u32(self.window_tx_count) && opt_fits_u32(self.window_interval) && opt_fits_u32(self.tx_rate) && !(fits_u32(self.time)) ==> self.numeric_failure() == Some(u32_error(self.time, "time"@)),
            fits_u32(self.window_final_block_height) && opt_fits_u32(self.window_tx_count) && opt_fits_u32(self.window_interval) && opt_fits_u32(self.tx_rate) && fits_u32(self.time) && !(fits_u32(self.tx_count)) ==> self.numeric_failure() == Some(u32_error(self.tx_count, "tx_count"@)),
            fits_u32(self.window_final_block_height) && opt_fits_u32(self.window_tx_count) && opt_fits_u32(self.window_interval) && opt_fits_u32(self.tx_rate) && fits_u32(self.time) && fits_u32(self.tx_count) && !(fits_u32(self.window_block_count)) ==> self.numeric_failure() == Some(u32_error(self.window_block_count, "window_block_count"@)),
            fits_u32(self.window_final_block_height) && opt_fits_u32(self.window_tx_count) && opt_fits_u32(self.window_interval) && opt_fits_u32(self.tx_rate) && fits_u32(self.time) && fits_u32(self.tx_count) && fits_u32(self.window_block_count) ==> self.numeric_failure() is None,
    {
    }

    /// Converts version specific type to a version nonspecific, more strongly typed type.
    ///
    /// The hash is converted first, then the numeric fields in order; the first that fails
    /// gives the error.
    pub fn into_model(self) -> (r: Result<model::GetChainTxStats, GetChainTxStatsError>)
        ensures
            match r {
                Ok(m) => {
                    &&& is_hash_hex(self.window_final_block_hash@)
                    &&& self.numeric_failure() is None
                    &&& m.window_final_block_hash@ == hash_from_hex(self.window_final_block_hash@)
                    &&& m.time == self.time
                    &&& m.tx_count == self.tx_count
                    &&& m.window_final_block_height == Some(self.window_final_block_height as u32)
                    &&& m.window_block_count == self.window_block_count
                    &&& m.window_tx_count == opt_as_u32(self.window_tx_count)
                    &&& m.window_interval == opt_as_u32(self.window_interval)
                    &&& m.tx_rate == opt_as_u32(self.tx_rate)
                },
                Err(GetChainTxStatsError::WindowFinalBlockHash(e)) => {
                    !is_hash_hex(self.window_final_block_hash@) && e == array_hex_error(self.window_final_block_hash@)
                },
                Err(GetChainTxStatsError::Numeric(e)) => {
                    is_hash_hex(self.window_final_block_hash@) && self.numeric_failure() == Some(e@)
                },
            },
    {
        let window_final_block_hash = match block_hash_from_str(
            self.window_final_block_hash.as_str(),
        ) {
            Ok(h) => h,
            Err(e) => return Err(GetChainTxStatsError::WindowFinalBlockHash(e)),
        };
        let window_final_block_height = match to_u32(
            self.window_final_block_height,
            "window_final_block_height",
        ) {
            Ok(v) => v,
            Err(e) => return Err(GetChainTxStatsError::Numeric(e)),
        };
        let window_tx_count = match to_u32_opt(self.window_tx_count, "window_tx_count") {
            Ok(v) => v,
            Err(e) => return Err(GetChainTxStatsError::Numeric(e)),
        };
        let window_interval = match to_u32_opt(self.window_interval, "window_interval") {
            Ok(v) => v,
            Err(e) => return Err(GetChainTxStatsError::Numeric(e)),
        };
        let tx_rate = match to_u32_opt(self.tx_rate, "tx_rate") {
            Ok(v) => v,
            Err(e) => return Err(GetChainTxStatsError::Numeric(e)),
        };
        let time = match to_u32(self.time, "time") {
            Ok(v) => v,
            Err(e) => return Err(GetChainTxStatsError::Numeric(e)),
        };
        let tx_count = match to_u32(self.tx_count, "tx_count") {
            Ok(v) => v,
            Err(e) => return Err(GetChainTxStatsError::Numeric(e)),
        };
        let window_block_count = match to_u32(self.window_block_count, "window_block_count") {
            Ok(v) => v,
            Err(e) => return Err(GetChainTxStatsError::Numeric(e)),
        };
        Ok(model::GetChainTxStats {
            time,
            tx_count,
            window_final_block_hash,
            window_final_block_height: Some(window_final_block_height),
            window_block_count,
            window_tx_count,
            window_interval,
            tx_rate,
        })
    }
}

/// Result of JSON-RPC method `getmempoolancestors` with verbose set to `false`.
///
/// > getmempoolancestors txid (verbose)
/// >
/// > If txid is in the mempool, returns all in-mempool ancestors.
#[derive(Clone, Debug, PartialEq)]
pub struct GetMempoolAncestors(pub Vec<String>);

impl GetMempoolAncestors {
    /// Converts version specific type to a version nonspecific, more strongly typed type.
    pub fn into_model(self) -> (r: Result<model::GetMempoolAncestors, bitcoin::hex::HexToArrayError>)
        ensures
            r is Ok <==> all_hash_hex(self.0@),
            r matches Ok(m) ==> hashes_from_hex(self.0@, m.0@),
            r matches Err(e) ==> e == first_hash_error(self.0@),
    {
        match txids_from_strs(&self.0) {
            Ok(v) => Ok(model::GetMempoolAncestors(v)),
            Err(e) => Err(e),
        }
    }
}

/// Result of JSON-RPC method `getmempooldescendants` with verbose set to `false`.
///
/// > getmempooldescendants txid (verbose)
/// >
/// > If txid is in the mempool, returns all in-mempool descendants.
#[derive(Clone, Debug, PartialEq)]
pub struct GetMempoolDescendants(pub Vec<String>);

impl GetMempoolDescendants {
    /// Converts version specific type to a version nonspecific, more strongly typed type.
    pub fn into_model(self) -> (r: Result<model::GetMempoolDescendants, bitcoin::hex::HexToArrayError>)
        ensures
            r is Ok <==> all_hash_hex(self.0@),
            r matches Ok(m) ==> hashes_from_hex(self.0@, m.0@),
            r matches Err(e) ==> e == first_hash_error(self.0@),
    {
        match txids_from_strs(&self.0) {
            Ok(v) => Ok(model::GetMempoolDescendants(v)),
            Err(e) => Err(e),
        }
    }
}

} // verus!
