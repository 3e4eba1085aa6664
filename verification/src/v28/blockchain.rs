//! The JSON-RPC API for Bitcoin Core `v28` - blockchain.
//!
//! Types for methods found under the `== Blockchain ==` section of the API docs.
use vstd::prelude::*;

use std::collections::BTreeMap;

use crate::chain::{
    is_u256_hex_splittable, network_error, network_from_core_arg, parse_network, parse_work,
    u256_hex_error, u256_hex_splittable, work_from_unprefixed_hex,
};
use crate::hex::{array_hex_error, block_hash_from_str, hash_from_hex, is_hash_hex};
use crate::model;
use crate::numeric::{
    fits_u32, opt_as_u32, opt_fits_u32, to_u32, to_u32_opt, u32_error, NumericErrorView,
};
use crate::v19::{GetBlockchainInfoError, Softfork};

verus! {

/// Result of JSON-RPC method `getblockchaininfo`.
///
/// Method call: `getblockchaininfo`
///
/// > Returns an object containing various state info regarding blockchain processing.
///
/// `F` is the type of the fields that Core writes as JSON floating point numbers.
#[derive(Clone, Debug, PartialEq)]
pub struct GetBlockchainInfo<F> {
    /// Current network name as defined in BIP70 (main, test, signet, regtest).
    pub chain: String,
    /// The current number of blocks processed in the server.
    pub blocks: i64,
    /// The current number of headers we have validated.
    pub headers: i64,
    /// The hash of the currently best block.
    pub best_block_hash: String,
    /// The current difficulty.
    pub difficulty: F,
    /// Median time for the current best block.
    pub median_time: i64,
    /// Estimate of verification progress (between 0 and 1).
    pub verification_progress: F,
    /// Estimate of whether this node is in Initial Block Download (IBD) mode.
    pub initial_block_download: bool,
    /// Total amount of work in active chain, in hexadecimal.
    pub chain_work: String,
    /// The estimated size of the block and undo files on disk.
    pub size_on_disk: u64,
    /// If the blocks are subject to pruning.
    pub pruned: bool,
    /// Lowest-height complete block stored (only present if pruning is enabled).
    pub prune_height: Option<i64>,
    /// Whether automatic pruning is enabled (only present if pruning is enabled).
    pub automatic_pruning: Option<bool>,
    /// The target size used by pruning (only present if automatic pruning is enabled).
    pub prune_target_size: Option<i64>,
    /// Status of softforks in progress, maps softfork name -> [`Softfork`].
    pub softforks: BTreeMap<String, Softfork>,
    /// Any network and blockchain warnings.
    pub warnings: Vec<String>,
}

impl<F> GetBlockchainInfo<F> {
    /// The first numeric field that does not fit a `u32`, in the order of conversion, and its
    /// error.
    pub open spec fn numeric_failure(&self) -> Option<NumericErrorView> {
        if !opt_fits_u32(self.prune_height) {
            Some(u32_error(self.prune_height->0, "prune_height"@))
        } else if !opt_fits_u32(self.prune_target_size) {
            Some(u32_error(self.prune_target_size->0, "prune_target_size"@))
        } else if !fits_u32(self.blocks) {
            Some(u32_error(self.blocks, "blocks"@))
        } else if !fits_u32(self.headers) {
            Some(u32_error(self.headers, "headers"@))
        } else if !fits_u32(self.median_time) {
            Some(u32_error(self.median_time, "median_time"@))
        } else {
            None
        }
    }

    /// The chain and the best block hash convert, so that `into_model` goes on to read the chain
    /// work.
    pub open spec fn reaches_chain_work(&self) -> bool {
        network_from_core_arg(self.chain@) is Some && is_hash_hex(self.best_block_hash@)
    }

    /// `r` is what converting `self` gives: the model with each field converted, or the error of
    /// the first conversion that fails. The softforks come out empty, and the bits, target, time
    /// and signet challenge are not reported.
    pub open spec fn conversion(&self, r: Result<model::GetBlockchainInfo<F>, GetBlockchainInfoError>) -> bool {
        match r {
            Ok(m) => {
                &&& network_from_core_arg(self.chain@) == Some(m.chain)
                &&& is_hash_hex(self.best_block_hash@)
                &&& m.best_block_hash@ == hash_from_hex(self.best_block_hash@)
                &&& work_from_unprefixed_hex(self.chain_work@) == Some(m.chain_work@)
                &&& self.numeric_failure() is None
                &&& m.blocks == self.blocks
                &&& m.headers == self.headers
                &&& m.difficulty == self.difficulty
                &&& m.median_time == self.median_time
                &&& m.verification_progress == self.verification_progress
                &&& m.initial_block_download == self.initial_block_download
                &&& m.size_on_disk == self.size_on_disk
                &&& m.pruned == self.pruned
                &&& m.prune_height == opt_as_u32(self.prune_height)
                &&& m.automatic_pruning == self.automatic_pruning
                &&& m.prune_target_size == opt_as_u32(self.prune_target_size)
                &&& m.warnings == self.warnings
                &&& m.bits is None
                &&& m.target is None
                &&& m.time is None
                &&& m.softforks@ == Map::<String, model::Softfork>::empty()
                &&& m.signet_challenge is None
            },
            Err(GetBlockchainInfoError::Chain(e)) => {
                network_from_core_arg(self.chain@) is None && e == network_error(self.chain@)
            },
            Err(GetBlockchainInfoError::BestBlockHash(e)) => {
                &&& network_from_core_arg(self.chain@) is Some
                &&& !is_hash_hex(self.best_block_hash@)
                &&& e == array_hex_error(self.best_block_hash@)
            },
            Err(GetBlockchainInfoError::ChainWork(e)) => {
                &&& network_from_core_arg(self.chain@) is Some
                &&& is_hash_hex(self.best_block_hash@)
                &&& work_from_unprefixed_hex(self.chain_work@) is None
                &&& e == u256_hex_error(self.chain_work@)
            },
            Err(GetBlockchainInfoError::Numeric(e)) => {
                &&& network_from_core_arg(self.chain@) is Some
                &&& is_hash_hex(self.best_block_hash@)
                &&& work_from_unprefixed_hex(self.chain_work@) is Some
                &&& self.numeric_failure() == Some(e@)
            },
        }
    }

    /// Law: a successful conversion reports the node's state as the input gives it. The chain is
    /// the network Core names, the best block hash and the chain work are the values written in
    /// hex, each number and flag is the same value as in the input, and none of the other fields
    /// is made up.
    pub proof fn lemma_conversion_carries_fields(&self, m: model::GetBlockchainInfo<F>)
        requires
            self.conversion(Ok(m)),
        ensures
            network_from_core_arg(self.chain@) == Some(m.chain),
            m.best_block_hash@ == hash_from_hex(self.best_block_hash@),
            work_from_unprefixed_hex(self.chain_work@) == Some(m.chain_work@),
            m.blocks == self.blocks,
            m.headers == self.headers,
            m.median_time == self.median_time,
            m.difficulty == self.difficulty,
            m.verification_progress == self.verification_progress,
            m.initial_block_download == self.initial_block_download,
            m.size_on_disk == self.size_on_disk,
            m.pruned == self.pruned,
            m.automatic_pruning == self.automatic_pruning,
            m.prune_height is Some <==> self.prune_height is Some,
            self.prune_height matches Some(h) ==> m.prune_height->0 == h,
            m.prune_target_size is Some <==> self.prune_target_size is Some,
            self.prune_target_size matches Some(s) ==> m.prune_target_size->0 == s,
            m.warnings == self.warnings,
            m.bits is None,
            m.target is None,
            m.time is None,
            m.softforks@.len() == 0,
            m.signet_challenge is None,
    {
    }

    /// Law: the conversion succeeds exactly when every field converts: the chain is a name Core
    /// uses, the best block hash is 64 hex digits, the chain work reads, and each number fits a
    /// `u32`; and a failure names a field that does not convert, the earliest of the chain, the
    /// best block hash and the chain work.
    pub proof fn lemma_conversion_fails_on_bad_field(
        &self,
        r: Result<model::GetBlockchainInfo<F>, GetBlockchainInfoError>,
    )
        requires
            self.conversion(r),
        ensures
            r is Ok <==> {
                &&& network_from_core_arg(self.chain@) is Some
                &&& is_hash_hex(self.best_block_hash@)
                &&& work_from_unprefixed_hex(self.chain_work@) is Some
                &&& opt_fits_u32(self.prune_height)
                &&& opt_fits_u32(self.prune_target_size)
                &&& fits_u32(self.blocks)
                &&& fits_u32(self.headers)
                &&& fits_u32(self.median_time)
            },
            r matches Err(GetBlockchainInfoError::Chain(_)) <==> network_from_core_arg(self.chain@) is None,
            r matches Err(GetBlockchainInfoError::BestBlockHash(_)) <==> (network_from_core_arg(
                self.chain@,
            ) is Some && !is_hash_hex(self.best_block_hash@)),
            r matches Err(GetBlockchainInfoError::ChainWork(_)) <==> (network_from_core_arg(
                self.chain@,
            ) is Some && is_hash_hex(self.best_block_hash@) && work_from_unprefixed_hex(
                self.chain_work@,
            ) is None),
    {
        if r is Ok {
            assert(self.numeric_failure() is None);
        }
        if r matches Err(GetBlockchainInfoError::Numeric(_)) {
            assert(self.numeric_failure() is Some);
        }
    }

    /// Law: the numeric error reported is that of the first number, in the order of conversion,
    /// that does not fit a `u32`; where every number fits there is none.
    pub proof fn lemma_numeric_failure_is_first_bad_field(&self)
        ensures
            !(opt_fits_u32(self.prune_height)) ==> self.numeric_failure() == Some(u32_error(self.prune_height->0, "prune_height"@)),
            opt_fits_u32(self.prune_height) && !(opt_fits_u32(self.prune_target_size)) ==> self.numeric_failure() == Some(u32_error(self.prune_target_size->0, "prune_target_size"@)),
            opt_fits_u32(self.prune_height) && opt_fits_u32(self.prune_target_size) && !(fits_u32(self.blocks)) ==> self.numeric_failure() == Some(u32_error(self.blocks, "blocks"@)),
            opt_fits_u32(self.prune_height) && opt_fits_u32(self.prune_target_size) && fits_u32(self.blocks) && !(fits_u32(self.headers)) ==> self.numeric_failure() == Some(u32_error(self.headers, "headers"@)),
            opt_fits_u32(self.prune_height) && opt_fits_u32(self.prune_target_size) && fits_u32(self.blocks) && fits_u32(self.headers) && !(fits_u32(self.median_time)) ==> self.numeric_failure() == Some(u32_error(self.median_time, "median_time"@)),
            opt_fits_u32(self.prune_height) && opt_fits_u32(self.prune_target_size) && fits_u32(self.blocks) && fits_u32(self.headers) && fits_u32(self.median_time) ==> self.numeric_failure() is None,
    {
    }

    /// Converts as [`Self::into_model`] does, or returns `None` on the inputs that `into_model`
    /// leaves out: where the chain and the best block hash convert and reading the chain work
    /// would split a character (`bitcoin::Work::from_unprefixed_hex` panics there).
    pub fn into_model_checked(self) -> (r: Option<Result<model::GetBlockchainInfo<F>, GetBlockchainInfoError>>)
        ensures
            r is None <==> self.reaches_chain_work() && !u256_hex_splittable(self.chain_work@),
            r matches Some(res) ==> self.conversion(res),
    {
        let chain = match parse_network(self.chain.as_str()) {
            Ok(c) => c,
            Err(e) => return Some(Err(GetBlockchainInfoError::Chain(e))),
        };
        let best_block_hash = match block_hash_from_str(self.best_block_hash.as_str()) {
            Ok(h) => h,
            Err(e) => return Some(Err(GetBlockchainInfoError::BestBlockHash(e))),
        };
        if !is_u256_hex_splittable(self.chain_work.as_str()) {
            return None;
        }
        let chain_work = match parse_work(self.chain_work.as_str()) {
            Ok(w) => w,
            Err(e) => return Some(Err(GetBlockchainInfoError::ChainWork(e))),
        };
        let prune_height = match to_u32_opt(self.prune_height, "prune_height") {
            Ok(v) => v,
            Err(e) => return Some(Err(GetBlockchainInfoError::Numeric(e))),
        };
        let prune_target_size = match to_u32_opt(self.prune_target_size, "prune_target_size") {
            Ok(v) => v,
            Err(e) => return Some(Err(GetBlockchainInfoError::Numeric(e))),
        };
        let blocks = match to_u32(self.blocks, "blocks") {
            Ok(v) => v,
            Err(e) => return Some(Err(GetBlockchainInfoError::Numeric(e))),
        };
        let headers = match to_u32(self.headers, "headers") {
            Ok(v) => v,
            Err(e) => return Some(Err(GetBlockchainInfoError::Numeric(e))),
        };
        let median_time = match to_u32(self.median_time, "median_time") {
            Ok(v) => v,
            Err(e) => return Some(Err(GetBlockchainInfoError::Numeric(e))),
        };
        Some(Ok(model::GetBlockchainInfo {
            chain,
            blocks,
            headers,
            best_block_hash,
            bits: None,
            target: None,
            difficulty: self.difficulty,
            time: None,
            median_time,
            verification_progress: self.verification_progress,
            initial_block_download: self.initial_block_download,
            chain_work,
            size_on_disk: self.size_on_disk,
            pruned: self.pruned,
            prune_height,
            automatic_pruning: self.automatic_pruning,
            prune_target_size,
            softforks: BTreeMap::new(),
            signet_challenge: None,
            warnings: self.warnings,
        }))
    }

    /// Converts version specific type to a version nonspecific, more strongly typed type.
    ///
    /// The fields are converted in order: chain, best block hash, chain work, then the numeric
    /// fields; the first that fails gives the error. The softforks are not converted.
    pub fn into_model(self) -> (r: Result<model::GetBlockchainInfo<F>, GetBlockchainInfoError>)
        requires
            self.reaches_chain_work() ==> u256_hex_splittable(self.chain_work@),
        ensures
            self.conversion(r),
    {
        self.into_model_checked().unwrap()
    }
}

} // verus!
