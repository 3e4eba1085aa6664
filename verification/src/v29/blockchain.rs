//! The JSON-RPC API for Bitcoin Core `v29` - blockchain.
//!
//! Types for methods found under the `== Blockchain ==` section of the API docs.
use vstd::prelude::*;

use std::collections::BTreeMap;

use crate::chain::{
    compact_target_error, compact_target_from_unprefixed_hex, is_u256_hex_splittable, network_error,
    network_from_core_arg, parse_compact_target, parse_network, parse_target, parse_work,
    target_from_unprefixed_hex, u256_hex_error, u256_hex_splittable, work_from_unprefixed_hex,
};
use crate::consensus::{
    block_from_hex, block_hex_decodes, block_hex_result, decode_block_hex, decode_header,
    header_decode_error, header_decodes_to,
};
use crate::hex::{
    all_hash_hex, array_hex_error, block_hash_from_str, bytes_from_hex, bytes_hex_error,
    first_hash_error, hash_from_hex, hashes_from_hex, hex_decode, is_hash_hex, is_hex,
    merkle_node_from_str, opt_block_hash_from_str, opt_hash_from_hex, opt_is_hash_hex,
    txids_from_strs,
};
use crate::model;
use crate::numeric::{
    fits_u32, opt_as_u32, opt_fits_u32, to_u32, to_u32_opt, u32_error, NumericError,
    NumericErrorView,
};
use crate::v19::GetBlockchainInfoError;

verus! {

/// Result of JSON-RPC method `getblock` with verbosity set to 0.
///
/// A string that is serialized, hex-encoded data for block 'hash'.
#[derive(Clone, Debug, PartialEq, Eq)]
pub struct GetBlockVerboseZero(pub String);

impl GetBlockVerboseZero {
    /// Converts version specific type to a version nonspecific, more strongly typed type.
    pub fn into_model(self) -> (r: Result<
        model::GetBlockVerboseZero,
        bitcoin::consensus::encode::FromHexError,
    >)
        ensures
            r is Ok <==> block_hex_decodes(self.0@),
            r matches Ok(m) ==> block_from_hex(self.0@) == Some(m.0),
            r matches Err(e) ==> block_hex_result(self.0@) == Err::<bitcoin::Block, _>(e),
    {
        match decode_block_hex(self.0.as_str()) {
            Ok(block) => Ok(model::GetBlockVerboseZero(block)),
            Err(e) => Err(e),
        }
    }

    /// Converts json straight to a `bitcoin::Block`.
    pub fn block(self) -> (r: Result<bitcoin::Block, bitcoin::consensus::encode::FromHexError>)
        ensures
            r is Ok <==> block_hex_decodes(self.0@),
            r matches Ok(b) ==> block_from_hex(self.0@) == Some(b),
            r matches Err(e) ==> block_hex_result(self.0@) == Err::<bitcoin::Block, _>(e),
    {
        match self.into_model() {
            Ok(m) => Ok(m.0),
            Err(e) => Err(e),
        }
    }
}

/// Result of JSON-RPC method `getblock` with verbosity set to 1.
///
/// `F` is the type of the difficulty, which Core writes as a JSON floating point number.
#[derive(Clone, PartialEq, Debug)]
pub struct GetBlockVerboseOne<F> {
    /// The block hash (same as provided) in RPC call.
    pub hash: String,
    /// The number of confirmations, or -1 if the block is not on the main chain.
    pub confirmations: i64,
    /// The block size.
    pub size: i64,
    /// The block size excluding witness data.
    pub stripped_size: Option<i64>,
    /// The block weight as defined in BIP-141.
    pub weight: u64,
    /// The block height or index.
    pub height: i64,
    /// The block version.
    pub version: i32,
    /// The block version formatted in hexadecimal.
    pub version_hex: String,
    /// The merkle root
    pub merkle_root: String,
    /// The transaction ids.
    pub tx: Vec<String>,
    /// The block time expressed in UNIX epoch time.
    pub time: i64,
    /// The median block time expressed in UNIX epoch time.
    pub median_time: Option<i64>,
    /// The nonce (this should be only 4 bytes).
    pub nonce: i64,
    /// The bits.
    pub bits: String,
    /// The difficulty target.
    pub target: String,
    /// The difficulty.
    pub difficulty: F,
    /// Expected number of hashes required to produce the chain up to this block (in hex).
    pub chain_work: String,
    /// The number of transactions in the block.
    pub n_tx: i64,
    /// The hash of the previous block (if available).
    pub previous_block_hash: Option<String>,
    /// The hash of the next block (if available).
    pub next_block_hash: Option<String>,
}

/// Error when converting a `GetBlockVerboseOne` type into the model type.
#[derive(Debug)]
pub enum GetBlockVerboseOneError {
    /// Conversion of numeric type to expected type failed.
    Numeric(NumericError),
    /// Conversion of the transaction `hash` field failed.
    Hash(bitcoin::hex::HexToArrayError),
    /// Conversion of the transaction `bits` field failed.
    Bits(bitcoin::error::UnprefixedHexError),
    /// Conversion of the transaction `chain_work` field failed.
    ChainWork(bitcoin::error::UnprefixedHexError),
    /// Conversion of the transaction `previous_block_hash` field failed.
    PreviousBlockHash(bitcoin::hex::HexToArrayError),
    /// Conversion of the transaction `next_block_hash` field failed.
    NextBlockHash(bitcoin::hex::HexToArrayError),
}

/// Which conversion a [`GetBlockVerboseOneError`] reports, with the error it carries.
pub enum GetBlockVerboseOneErrorView {
    Numeric(NumericErrorView),
    Hash(bitcoin::hex::HexToArrayError),
    Bits(bitcoin::error::UnprefixedHexError),
    ChainWork(bitcoin::error::UnprefixedHexError),
    PreviousBlockHash(bitcoin::hex::HexToArrayError),
    NextBlockHash(bitcoin::hex::HexToArrayError),
}

impl View for GetBlockVerboseOneError {
    type V = GetBlockVerboseOneErrorView;

    open spec fn view(&self) -> GetBlockVerboseOneErrorView {
        match self {
            GetBlockVerboseOneError::Numeric(e) => GetBlockVerboseOneErrorView::Numeric(e@),
            GetBlockVerboseOneError::Hash(e) => GetBlockVerboseOneErrorView::Hash(*e),
            GetBlockVerboseOneError::Bits(e) => GetBlockVerboseOneErrorView::Bits(*e),
            GetBlockVerboseOneError::ChainWork(e) => GetBlockVerboseOneErrorView::ChainWork(*e),
            GetBlockVerboseOneError::PreviousBlockHash(e) => {
                GetBlockVerboseOneErrorView::PreviousBlockHash(*e)
            },
            GetBlockVerboseOneError::NextBlockHash(e) => GetBlockVerboseOneErrorView::NextBlockHash(*e),
        }
    }
}

impl<F> GetBlockVerboseOne<F> {
    /// The first conversion that fails, in the order `into_model` makes them: the block hash,
    /// the stripped size, the transaction ids, the median time, the bits, the chain work, the
    /// previous and the next block hash, then size, height, time, nonce and transaction count.
    pub open spec fn failure(&self) -> Option<GetBlockVerboseOneErrorView> {
        if !is_hash_hex(self.hash@) {
            Some(GetBlockVerboseOneErrorView::Hash(array_hex_error(self.hash@)))
        } else if !opt_fits_u32(self.stripped_size) {
            Some(
                GetBlockVerboseOneErrorView::Numeric(
                    u32_error(self.stripped_size->0, "stripped_size"@),
                ),
            )
        } else if !all_hash_hex(self.tx@) {
            Some(GetBlockVerboseOneErrorView::Hash(first_hash_error(self.tx@)))
        } else if !opt_fits_u32(self.median_time) {
            Some(
                GetBlockVerboseOneErrorView::Numeric(
                    u32_error(self.median_time->0, "median_time"@),
                ),
            )
        } else if compact_target_from_unprefixed_hex(self.bits@) is None {
            Some(GetBlockVerboseOneErrorView::Bits(compact_target_error(self.bits@)))
        } else if work_from_unprefixed_hex(self.chain_work@) is None {
            Some(GetBlockVerboseOneErrorView::ChainWork(u256_hex_error(self.chain_work@)))
        } else if !opt_is_hash_hex(self.previous_block_hash) {
            Some(
                GetBlockVerboseOneErrorView::PreviousBlockHash(
                    array_hex_error(self.previous_block_hash->0@),
                ),
            )
        } else if !opt_is_hash_hex(self.next_block_hash) {
            Some(GetBlockVerboseOneErrorView::NextBlockHash(array_hex_error(self.next_block_hash->0@)))
        } else if !fits_u32(self.size) {
            Some(GetBlockVerboseOneErrorView::Numeric(u32_error(self.size, "size"@)))
        } else if !fits_u32(self.height) {
            Some(GetBlockVerboseOneErrorView::Numeric(u32_error(self.height, "height"@)))
        } else if !fits_u32(self.time) {
            Some(GetBlockVerboseOneErrorView::Numeric(u32_error(self.time, "time"@)))
        } else if !fits_u32(self.nonce) {
            Some(GetBlockVerboseOneErrorView::Numeric(u32_error(self.nonce, "nonce"@)))
        } else if !fits_u32(self.n_tx) {
            Some(GetBlockVerboseOneErrorView::Numeric(u32_error(self.n_tx, "n_tx"@)))
        } else {
            None
        }
    }

    /// The conversions that come before the chain work (block hash, stripped size, transaction
    /// ids, median time, bits) all succeed.
    pub open spec fn reaches_chain_work(&self) -> bool {
        &&& is_hash_hex(self.hash@)
        &&& opt_fits_u32(self.stripped_size)
        &&& all_hash_hex(self.tx@)
        &&& opt_fits_u32(self.median_time)
        &&& compact_target_from_unprefixed_hex(self.bits@) is Some
    }

    /// `m` holds the values of `self`, each converted.
    pub open spec fn converted_to(&self, m: model::GetBlockVerboseOne<F>) -> bool {
        &&& m.hash@ == hash_from_hex(self.hash@)
        &&& m.confirmations == self.confirmations
        &&& m.size == self.size
        &&& m.stripped_size == opt_as_u32(self.stripped_size)
        &&& m.weight == self.weight
        &&& m.height == self.height
        &&& m.version == self.version
        &&& m.merkle_root@ == self.merkle_root@
        &&& hashes_from_hex(self.tx@, m.tx@)
        &&& m.time == self.time
        &&& m.median_time == opt_as_u32(self.median_time)
        &&& m.nonce == self.nonce
        &&& compact_target_from_unprefixed_hex(self.bits@) == Some(m.bits)
        &&& m.difficulty == self.difficulty
        &&& work_from_unprefixed_hex(self.chain_work@) == Some(m.chain_work@)
        &&& m.n_tx == self.n_tx
        &&& opt_hash_from_hex(self.previous_block_hash, m.previous_block_hash)
        &&& opt_hash_from_hex(self.next_block_hash, m.next_block_hash)
    }

    /// Law: a converted block reports the block as the input gives it: each hash is the one
    /// written in hex, each number is the same number (the stripped size and the median time
    /// exactly where the input has them), the transaction ids come in the input's order, and the
    /// bits and the chain work are the values read from their hex.
    pub proof fn lemma_converted_carries_fields(&self, m: model::GetBlockVerboseOne<F>)
        requires
            self.converted_to(m),
        ensures
            m.hash@ == hash_from_hex(self.hash@),
            m.confirmations == self.confirmations,
            m.size == self.size,
            m.stripped_size is Some <==> self.stripped_size is Some,
            self.stripped_size matches Some(s) ==> m.stripped_size->0 == s as u32,
            m.weight == self.weight,
            m.height == self.height,
            m.version == self.version,
            m.merkle_root@ == self.merkle_root@,
            m.tx@.len() == self.tx@.len(),
            forall|i: int| 0 <= i < self.tx@.len() ==> (#[trigger] m.tx@[i])@ == hash_from_hex(self.tx@[i]@),
            m.time == self.time,
            m.median_time is Some <==> self.median_time is Some,
            self.median_time matches Some(t) ==> m.median_time->0 == t as u32,
            m.nonce == self.nonce,
            compact_target_from_unprefixed_hex(self.bits@) == Some(m.bits),
            m.difficulty == self.difficulty,
            work_from_unprefixed_hex(self.chain_work@) == Some(m.chain_work@),
            m.n_tx == self.n_tx,
            m.previous_block_hash is Some <==> self.previous_block_hash is Some,
            self.previous_block_hash matches Some(p) ==> m.previous_block_hash->0@ == hash_from_hex(p@),
            m.next_block_hash is Some <==> self.next_block_hash is Some,
            self.next_block_hash matches Some(p) ==> m.next_block_hash->0@ == hash_from_hex(p@),
    {
    }

    /// Law: the conversion fails exactly when some field does not convert, and the error names
    /// such a field with the error of reading it; a bad block hash is reported first.
    pub proof fn lemma_failure_names_bad_field(&self)
        ensures
            self.failure() is None <==> {
                &&& is_hash_hex(self.hash@)
                &&& opt_fits_u32(self.stripped_size)
                &&& all_hash_hex(self.tx@)
                &&& opt_fits_u32(self.median_time)
                &&& compact_target_from_unprefixed_hex(self.bits@) is Some
                &&& work_from_unprefixed_hex(self.chain_work@) is Some
                &&& opt_is_hash_hex(self.previous_block_hash)
                &&& opt_is_hash_hex(self.next_block_hash)
                &&& fits_u32(self.size)
                &&& fits_u32(self.height)
                &&& fits_u32(self.time)
                &&& fits_u32(self.nonce)
                &&& fits_u32(self.n_tx)
            },
            !is_hash_hex(self.hash@) ==> self.failure() == Some(
                GetBlockVerboseOneErrorView::Hash(array_hex_error(self.hash@)),
            ),
            self.failure() matches Some(GetBlockVerboseOneErrorView::Hash(e)) ==> {
                ||| !is_hash_hex(self.hash@) && e == array_hex_error(self.hash@)
                ||| !all_hash_hex(self.tx@) && e == first_hash_error(self.tx@)
            },
            self.failure() matches Some(GetBlockVerboseOneErrorView::Bits(e)) ==> {
                compact_target_from_unprefixed_hex(self.bits@) is None && e == compact_target_error(self.bits@)
            },
            self.failure() matches Some(GetBlockVerboseOneErrorView::ChainWork(e)) ==> {
                work_from_unprefixed_hex(self.chain_work@) is None && e == u256_hex_error(self.chain_work@)
            },
            self.failure() matches Some(GetBlockVerboseOneErrorView::PreviousBlockHash(e)) ==> {
                self.previous_block_hash matches Some(p) && !is_hash_hex(p@) && e == array_hex_error(p@)
            },
            self.failure() matches Some(GetBlockVerboseOneErrorView::NextBlockHash(e)) ==> {
                self.next_block_hash matches Some(p) && !is_hash_hex(p@) && e == array_hex_error(p@)
            },
            self.failure() matches Some(GetBlockVerboseOneErrorView::Numeric(e)) ==> {
                ||| self.stripped_size matches Some(v) && !fits_u32(v) && e == u32_error(v, "stripped_size"@)
                ||| self.median_time matches Some(v) && !fits_u32(v) && e == u32_error(v, "median_time"@)
                ||| !fits_u32(self.size) && e == u32_error(self.size, "size"@)
                ||| !fits_u32(self.height) && e == u32_error(self.height, "height"@)
                ||| !fits_u32(self.time) && e == u32_error(self.time, "time"@)
                ||| !fits_u32(self.nonce) && e == u32_error(self.nonce, "nonce"@)
                ||| !fits_u32(self.n_tx) && e == u32_error(self.n_tx, "n_tx"@)
            },
    {
    }

    /// Law: the error reported is that of the first field, in the order of conversion, that does
    /// not convert; where every field converts there is none.
    pub proof fn lemma_failure_is_first_bad_field(&self)
        ensures
            !(is_hash_hex(self.hash@)) ==> self.failure() == Some(GetBlockVerboseOneErrorView::Hash(array_hex_error(self.hash@))),
            is_hash_hex(self.hash@) && !(opt_fits_u32(self.stripped_size)) ==> self.failure() == Some(GetBlockVerboseOneErrorView::Numeric(u32_error(self.stripped_size->0, "stripped_size"@))),
            is_hash_hex(self.hash@) && opt_fits_u32(self.stripped_size) && !(all_hash_hex(self.tx@)) ==> self.failure() == Some(GetBlockVerboseOneErrorView::Hash(first_hash_error(self.tx@))),
            is_hash_hex(self.hash@) && opt_fits_u32(self.stripped_size) && all_hash_hex(self.tx@) && !(opt_fits_u32(self.median_time)) ==> self.failure() == Some(GetBlockVerboseOneErrorView::Numeric(u32_error(self.median_time->0, "median_time"@))),
            is_hash_hex(self.hash@) && opt_fits_u32(self.stripped_size) && all_hash_hex(self.tx@) && opt_fits_u32(self.median_time) && !(compact_target_from_unprefixed_hex(self.bits@) is Some) ==> self.failure() == Some(GetBlockVerboseOneErrorView::Bits(compact_target_error(self.bits@))),
            is_hash_hex(self.hash@) && opt_fits_u32(self.stripped_size) && all_hash_hex(self.tx@) && opt_fits_u32(self.median_time) && compact_target_from_unprefixed_hex(self.bits@) is Some && !(work_from_unprefixed_hex(self.chain_work@) is Some) ==> self.failure() == Some(GetBlockVerboseOneErrorView::ChainWork(u256_hex_error(self.chain_work@))),
            is_hash_hex(self.hash@) && opt_fits_u32(self.stripped_size) && all_hash_hex(self.tx@) && opt_fits_u32(self.median_time) && compact_target_from_unprefixed_hex(self.bits@) is Some && work_from_unprefixed_hex(self.chain_work@) is Some && !(opt_is_hash_hex(self.previous_block_hash)) ==> self.failure() == Some(GetBlockVerboseOneErrorView::PreviousBlockHash(array_hex_error(self.previous_block_hash->0@))),
            is_hash_hex(self.hash@) && opt_fits_u32(self.stripped_size) && all_hash_hex(self.tx@) && opt_fits_u32(self.median_time) && compact_target_from_unprefixed_hex(self.bits@) is Some && work_from_unprefixed_hex(self.chain_work@) is Some && opt_is_hash_hex(self.previous_block_hash) && !(opt_is_hash_hex(self.next_block_hash)) ==> self.failure() == Some(GetBlockVerboseOneErrorView::NextBlockHash(array_hex_error(self.next_block_hash->0@))),
            is_hash_hex(self.hash@) && opt_fits_u32(self.stripped_size) && all_hash_hex(self.tx@) && opt_fits_u32(self.median_time) && compact_target_from_unprefixed_hex(self.bits@) is Some && work_from_unprefixed_hex(self.chain_work@) is Some && opt_is_hash_hex(self.previous_block_hash) && opt_is_hash_hex(self.next_block_hash) && !(fits_u32(self.size)) ==> self.failure() == Some(GetBlockVerboseOneErrorView::Numeric(u32_error(self.size, "size"@))),
            is_hash_hex(self.hash@) && opt_fits_u32(self.stripped_size) && all_hash_hex(self.tx@) && opt_fits_u32(self.median_time) && compact_target_from_unprefixed_hex(self.bits@) is Some && work_from_unprefixed_hex(self.chain_work@) is Some && opt_is_hash_hex(self.previous_block_hash) && opt_is_hash_hex(self.next_block_hash) && fits_u32(self.size) && !(fits_u32(self.height)) ==> self.failure() == Some(GetBlockVerboseOneErrorView::Numeric(u32_error(self.height, "height"@))),
            is_hash_hex(self.hash@) && opt_fits_u32(self.stripped_size) && all_hash_hex(self.tx@) && opt_fits_u32(self.median_time) && compact_target_from_unprefixed_hex(self.bits@) is Some && work_from_unprefixed_hex(self.chain_work@) is Some && opt_is_hash_hex(self.previous_block_hash) && opt_is_hash_hex(self.next_block_hash) && fits_u32(self.size) && fits_u32(self.height) && !(fits_u32(self.time)) ==> self.failure() == Some(GetBlockVerboseOneErrorView::Numeric(u32_error(self.time, "time"@))),
            is_hash_hex(self.hash@) && opt_fits_u32(self.stripped_size) && all_hash_hex(self.tx@) && opt_fits_u32(self.median_time) && compact_target_from_unprefixed_hex(self.bits@) is Some && work_from_unprefixed_hex(self.chain_work@) is Some && opt_is_hash_hex(self.previous_block_hash) && opt_is_hash_hex(self.next_block_hash) && fits_u32(self.size) && fits_u32(self.height) && fits_u32(self.time) && !(fits_u32(self.nonce)) ==> self.failure() == Some(GetBlockVerboseOneErrorView::Numeric(u32_error(self.nonce, "nonce"@))),
            is_hash_hex(self.hash@) && opt_fits_u32(self.stripped_size) && all_hash_hex(self.tx@) && opt_fits_u32(self.median_time) && compact_target_from_unprefixed_hex(self.bits@) is Some && work_from_unprefixed_hex(self.chain_work@) is Some && opt_is_hash_hex(self.previous_block_hash) && opt_is_hash_hex(self.next_block_hash) && fits_u32(self.size) && fits_u32(self.height) && fits_u32(self.time) && fits_u32(self.nonce) && !(fits_u32(self.n_tx)) ==> self.failure() == Some(GetBlockVerboseOneErrorView::Numeric(u32_error(self.n_tx, "n_tx"@))),
            is_hash_hex(self.hash@) && opt_fits_u32(self.stripped_size) && all_hash_hex(self.tx@) && opt_fits_u32(self.median_time) && compact_target_from_unprefixed_hex(self.bits@) is Some && work_from_unprefixed_hex(self.chain_work@) is Some && opt_is_hash_hex(self.previous_block_hash) && opt_is_hash_hex(self.next_block_hash) && fits_u32(self.size) && fits_u32(self.height) && fits_u32(self.time) && fits_u32(self.nonce) && fits_u32(self.n_tx) ==> self.failure() is None,
    {
    }

    /// Converts as [`Self::into_model`] does, or returns `None` on the inputs that `into_model`
    /// leaves out: where the conversions before the chain work succeed and
    /// reading the chain work would split a character (`bitcoin::Work::from_unprefixed_hex`
    /// panics there).
    pub fn into_model_checked(self) -> (r: Option<Result<model::GetBlockVerboseOne<F>, GetBlockVerboseOneError>>)
        ensures
            r is None <==> self.reaches_chain_work() && !u256_hex_splittable(self.chain_work@),
            r matches Some(res) ==> {
                &&& res is Ok <==> self.failure() is None
                &&& res matches Err(e) ==> self.failure() == Some(e@)
                &&& res matches Ok(m) ==> self.converted_to(m)
            },
    {
        let hash = match block_hash_from_str(self.hash.as_str()) {
            Ok(h) => h,
            Err(e) => return Some(Err(GetBlockVerboseOneError::Hash(e))),
        };
        let stripped_size = match to_u32_opt(self.stripped_size, "stripped_size") {
            Ok(v) => v,
            Err(e) => return Some(Err(GetBlockVerboseOneError::Numeric(e))),
        };
        let tx = match txids_from_strs(&self.tx) {
            Ok(t) => t,
            Err(e) => return Some(Err(GetBlockVerboseOneError::Hash(e))),
        };
        let median_time = match to_u32_opt(self.median_time, "median_time") {
            Ok(v) => v,
            Err(e) => return Some(Err(GetBlockVerboseOneError::Numeric(e))),
        };
        let bits = match parse_compact_target(self.bits.as_str()) {
            Ok(b) => b,
            Err(e) => return Some(Err(GetBlockVerboseOneError::Bits(e))),
        };
        if !is_u256_hex_splittable(self.chain_work.as_str()) {
            return None;
        }
        let chain_work = match parse_work(self.chain_work.as_str()) {
            Ok(w) => w,
            Err(e) => return Some(Err(GetBlockVerboseOneError::ChainWork(e))),
        };
        let previous_block_hash = match opt_block_hash_from_str(&self.previous_block_hash) {
            Ok(h) => h,
            Err(e) => return Some(Err(GetBlockVerboseOneError::PreviousBlockHash(e))),
        };
        let next_block_hash = match opt_block_hash_from_str(&self.next_block_hash) {
            Ok(h) => h,
            Err(e) => return Some(Err(GetBlockVerboseOneError::NextBlockHash(e))),
        };
        let size = match to_u32(self.size, "size") {
            Ok(v) => v,
            Err(e) => return Some(Err(GetBlockVerboseOneError::Numeric(e))),
        };
        let height = match to_u32(self.height, "height") {
            Ok(v) => v,
            Err(e) => return Some(Err(GetBlockVerboseOneError::Numeric(e))),
        };
        let time = match to_u32(self.time, "time") {
            Ok(v) => v,
            Err(e) => return Some(Err(GetBlockVerboseOneError::Numeric(e))),
        };
        let nonce = match to_u32(self.nonce, "nonce") {
            Ok(v) => v,
            Err(e) => return Some(Err(GetBlockVerboseOneError::Numeric(e))),
        };
        let n_tx = match to_u32(self.n_tx, "n_tx") {
            Ok(v) => v,
            Err(e) => return Some(Err(GetBlockVerboseOneError::Numeric(e))),
        };
        Some(Ok(model::GetBlockVerboseOne {
            hash,
            confirmations: self.confirmations,
            size,
            stripped_size,
            weight: self.weight,
            height,
            version: self.version,
            merkle_root: self.merkle_root,
            tx,
            time,
            median_time,
            nonce,
            bits,
            difficulty: self.difficulty,
            chain_work,
            n_tx,
            previous_block_hash,
            next_block_hash,
        }))
    }

    /// Converts version specific type to a version nonspecific, more strongly typed type.
    ///
    /// The merkle root is carried as the string Core sent.
    pub fn into_model(self) -> (r: Result<model::GetBlockVerboseOne<F>, GetBlockVerboseOneError>)
        requires
            self.reaches_chain_work() ==> u256_hex_splittable(self.chain_work@),
        ensures
            r is Ok <==> self.failure() is None,
            r matches Err(e) ==> self.failure() == Some(e@),
            r matches Ok(m) ==> self.converted_to(m),
    {
        self.into_model_checked().unwrap()
    }
}

/// Result of JSON-RPC method `getblockchaininfo`.
///
/// > getblockchaininfo
/// >
/// > Returns an object containing various state info regarding blockchain processing.
///
/// `F` is the type of the fields that Core writes as JSON floating point numbers.
#[derive(Clone, Debug, PartialEq)]
pub struct GetBlockchainInfo<F> {
    /// Current network name as defined in BIP70 (main, test, signet, regtest).
    pub chain: String,
    /// The current number of blocks processed in the server.
    pub blocks: i64,
    /// The current number of headers we have validated.
    pub headers: i64,
    /// The hash of the currently best block.
    pub best_block_hash: String,
    /// The bits
    pub bits: String,
    /// The difficulty target.
    pub target: String,
    /// The current difficulty.
    pub difficulty: F,
    /// Median time for the current best block.
    pub median_time: i64,
    /// Estimate of verification progress (between 0 and 1).
    pub verification_progress: F,
    /// Estimate of whether this node is in Initial Block Download (IBD) mode.
    pub initial_block_download: bool,
    /// Total amount of work in active chain, in hexadecimal.
    pub chain_work: String,
    /// The estimated size of the block and undo files on disk.
    pub size_on_disk: u64,
    /// If the blocks are subject to pruning.
    pub pruned: bool,
    /// Lowest-height complete block stored (only present if pruning is enabled).
    pub prune_height: Option<i64>,
    /// Whether automatic pruning is enabled (only present if pruning is enabled).
    pub automatic_pruning: Option<bool>,
    /// The target size used by pruning (only present if automatic pruning is enabled).
    pub prune_target_size: Option<i64>,
    /// Status of softforks in progress.
    pub softforks: Vec<Softfork>,
    /// Status of BIP-9 softforks in progress, maps softfork name -> [`Softfork`].
    pub bip9_softforks: BTreeMap<String, Bip9Softfork>,
    /// The block challenge (aka. block script)
    pub signet_challenge: String,
    /// Any network and blockchain warnings.
    pub warnings: String,
}

/// Status of softfork.
#[derive(Clone, Debug, PartialEq, Eq)]
pub struct Softfork {
    /// Name of softfork.
    pub id: String,
    /// Block version.
    pub version: i64,
    /// Progress toward rejecting pre-softfork blocks.
    pub reject: SoftforkReject,
}

/// Progress toward rejecting pre-softfork blocks.
#[derive(Clone, Debug, PartialEq, Eq)]
pub struct SoftforkReject {
    /// `true` if threshold reached.
    pub status: bool,
}

/// Status of BIP-9 softforksin progress.
#[derive(Clone, PartialEq, Eq, Debug)]
pub struct Bip9Softfork {
    /// One of "defined", "started", "locked_in", "active", "failed".
    pub status: Bip9SoftforkStatus,
    /// The bit (0-28) in the block version field used to signal this softfork (only for
    /// "started" status).
    pub bit: Option<u8>,
    /// The minimum median time past of a block at which the bit gains its meaning.
    pub start_time: i64,
    /// The median time past of a block at which the deployment is considered failed if not yet
    /// locked in.
    pub timeout: i64,
    /// Height of the first block to which the status applies.
    pub since: i64,
}

/// BIP-9 softfork status: one of "defined", "started", "locked_in", "active", "failed".
#[derive(Copy, Clone, PartialEq, Eq, Debug)]
pub enum Bip9SoftforkStatus {
    /// BIP-9 softfork status "defined".
    Defined,
    /// BIP-9 softfork status "started".
    Started,
    /// BIP-9 softfork status "locked_in".
    LockedIn,
    /// BIP-9 softfork status "active".
    Active,
    /// BIP-9 softfork status "failed".
    Failed,
}

impl<F> GetBlockchainInfo<F> {
    /// The first numeric field that does not fit a `u32`, in the order of conversion, and its
    /// error.
    pub open spec fn numeric_failure(&self) -> Option<NumericErrorView> {
        if !opt_fits_u32(self.prune_height) {
            Some(u32_error(self.prune_height->0, "prune_height"@))
        } else if !opt_fits_u32(self.prune_target_size) {
            Some(u32_error(self.prune_target_size->0, "prune_target_size"@))
        } else if !fits_u32(self.blocks) {
            Some(u32_error(self.blocks, "blocks"@))
        } else if !fits_u32(self.headers) {
            Some(u32_error(self.headers, "headers"@))
        } else if !fits_u32(self.median_time) {
            Some(u32_error(self.median_time, "median_time"@))
        } else {
            None
        }
    }

    /// The chain and the best block hash convert, so that `into_model` goes on to read the chain
    /// work.
    pub open spec fn reaches_chain_work(&self) -> bool {
        network_from_core_arg(self.chain@) is Some && is_hash_hex(self.best_block_hash@)
    }

    /// `r` is what converting `self` gives: the model with each field converted, or the error of
    /// the first conversion that fails. The softforks come out empty, and the bits, target, time
    /// and signet challenge are not reported.
    pub open spec fn conversion(&self, r: Result<model::GetBlockchainInfo<F>, GetBlockchainInfoError>) -> bool {
        match r {
            Ok(m) => {
                &&& network_from_core_arg(self.chain@) == Some(m.chain)
                &&& is_hash_hex(self.best_block_hash@)
                &&& m.best_block_hash@ == hash_from_hex(self.best_block_hash@)
                &&& work_from_unprefixed_hex(self.chain_work@) == Some(m.chain_work@)
                &&& self.numeric_failure() is None
                &&& m.blocks == self.blocks
                &&& m.headers == self.headers
                &&& m.difficulty == self.difficulty
                &&& m.median_time == self.median_time
                &&& m.verification_progress == self.verification_progress
                &&& m.initial_block_download == self.initial_block_download
                &&& m.size_on_disk == self.size_on_disk
                &&& m.pruned == self.pruned
                &&& m.prune_height == opt_as_u32(self.prune_height)
                &&& m.automatic_pruning == self.automatic_pruning
                &&& m.prune_target_size == opt_as_u32(self.prune_target_size)
                &&& m.warnings@.len() == 1
                &&& m.warnings@[0]@ == self.warnings@
                &&& m.bits is None
                &&& m.target is None
                &&& m.time is None
                &&& m.softforks@ == Map::<String, model::Softfork>::empty()
                &&& m.signet_challenge is None
            },
            Err(GetBlockchainInfoError::Chain(e)) => {
                network_from_core_arg(self.chain@) is None && e == network_error(self.chain@)
            },
            Err(GetBlockchainInfoError::BestBlockHash(e)) => {
                &&& network_from_core_arg(self.chain@) is Some
                &&& !is_hash_hex(self.best_block_hash@)
                &&& e == array_hex_error(self.best_block_hash@)
            },
            Err(GetBlockchainInfoError::ChainWork(e)) => {
                &&& network_from_core_arg(self.chain@) is Some
                &&& is_hash_hex(self.best_block_hash@)
                &&& work_from_unprefixed_hex(self.chain_work@) is None
                &&& e == u256_hex_error(self.chain_work@)
            },
            Err(GetBlockchainInfoError::Numeric(e)) => {
                &&& network_from_core_arg(self.chain@) is Some
                &&& is_hash_hex(self.best_block_hash@)
                &&& work_from_unprefixed_hex(self.chain_work@) is Some
                &&& self.numeric_failure() == Some(e@)
            },
        }
    }

    /// Law: a successful conversion reports the node's state as the input gives it. The chain is
    /// the network Core names, the best block hash and the chain work are the values written in
    /// hex, each number and flag is the same value as in the input, and none of the other fields
    /// is made up.
    pub proof fn lemma_conversion_carries_fields(&self, m: model::GetBlockchainInfo<F>)
        requires
            self.conversion(Ok(m)),
        ensures
            network_from_core_arg(self.chain@) == Some(m.chain),
            m.best_block_hash@ == hash_from_hex(self.best_block_hash@),
            work_from_unprefixed_hex(self.chain_work@) == Some(m.chain_work@),
            m.blocks == self.blocks,
            m.headers == self.headers,
            m.median_time == self.median_time,
            m.difficulty == self.difficulty,
            m.verification_progress == self.verification_progress,
            m.initial_block_download == self.initial_block_download,
            m.size_on_disk == self.size_on_disk,
            m.pruned == self.pruned,
            m.automatic_pruning == self.automatic_pruning,
            m.prune_height is Some <==> self.prune_height is Some,
            self.prune_height matches Some(h) ==> m.prune_height->0 == h,
            m.prune_target_size is Some <==> self.prune_target_size is Some,
            self.prune_target_size matches Some(s) ==> m.prune_target_size->0 == s,
            m.warnings@.len() == 1,
            m.warnings@[0]@ == self.warnings@,
            m.bits is None,
            m.target is None,
            m.time is None,
            m.softforks@.len() == 0,
            m.signet_challenge is None,
    {
    }

    /// Law: the conversion succeeds exactly when every field converts: the chain is a name Core
    /// uses, the best block hash is 64 hex digits, the chain work reads, and each number fits a
    /// `u32`; and a failure names a field that does not convert, the earliest of the chain, the
    /// best block hash and the chain work.
    pub proof fn lemma_conversion_fails_on_bad_field(
        &self,
        r: Result<model::GetBlockchainInfo<F>, GetBlockchainInfoError>,
    )
        requires
            self.conversion(r),
        ensures
            r is Ok <==> {
                &&& network_from_core_arg(self.chain@) is Some
                &&& is_hash_hex(self.best_block_hash@)
                &&& work_from_unprefixed_hex(self.chain_work@) is Some
                &&& opt_fits_u32(self.prune_height)
                &&& opt_fits_u32(self.prune_target_size)
                &&& fits_u32(self.blocks)
                &&& fits_u32(self.headers)
                &&& fits_u32(self.median_time)
            },
            r matches Err(GetBlockchainInfoError::Chain(_)) <==> network_from_core_arg(self.chain@) is None,
            r matches Err(GetBlockchainInfoError::BestBlockHash(_)) <==> (network_from_core_arg(
                self.chain@,
            ) is Some && !is_hash_hex(self.best_block_hash@)),
            r matches Err(GetBlockchainInfoError::ChainWork(_)) <==> (network_from_core_arg(
                self.chain@,
            ) is Some && is_hash_hex(self.best_block_hash@) && work_from_unprefixed_hex(
                self.chain_work@,
            ) is None),
    {
        if r is Ok {
            assert(self.numeric_failure() is None);
        }
        if r matches Err(GetBlockchainInfoError::Numeric(_)) {
            assert(self.numeric_failure() is Some);
        }
    }

    /// Law: the numeric error reported is that of the first number, in the order of conversion,
    /// that does not fit a `u32`; where every number fits there is none.
    pub proof fn lemma_numeric_failure_is_first_bad_field(&self)
        ensures
            !(opt_fits_u32(self.prune_height)) ==> self.numeric_failure() == Some(u32_error(self.prune_height->0, "prune_height"@)),
            opt_fits_u32(self.prune_height) && !(opt_fits_u32(self.prune_target_size)) ==> self.numeric_failure() == Some(u32_error(self.prune_target_size->0, "prune_target_size"@)),
            opt_fits_u32(self.prune_height) && opt_fits_u32(self.prune_target_size) && !(fits_u32(self.blocks)) ==> self.numeric_failure() == Some(u32_error(self.blocks, "blocks"@)),
            opt_fits_u32(self.prune_height) && opt_fits_u32(self.prune_target_size) && fits_u32(self.blocks) && !(fits_u32(self.headers)) ==> self.numeric_failure() == Some(u32_error(self.headers, "headers"@)),
            opt_fits_u32(self.prune_height) && opt_fits_u32(self.prune_target_size) && fits_u32(self.blocks) && fits_u32(self.headers) && !(fits_u32(self.median_time)) ==> self.numeric_failure() == Some(u32_error(self.median_time, "median_time"@)),
            opt_fits_u32(self.prune_height) && opt_fits_u32(self.prune_target_size) && fits_u32(self.blocks) && fits_u32(self.headers) && fits_u32(self.median_time) ==> self.numeric_failure() is None,
    {
    }

    /// Converts as [`Self::into_model`] does, or returns `None` on the inputs that `into_model`
    /// leaves out: where the chain and the best block hash convert and reading the chain work
    /// would split a character (`bitcoin::Work::from_unprefixed_hex` panics there).
    pub fn into_model_checked(self) -> (r: Option<Result<model::GetBlockchainInfo<F>, GetBlockchainInfoError>>)
        ensures
            r is None <==> self.reaches_chain_work() && !u256_hex_splittable(self.chain_work@),
            r matches Some(res) ==> self.conversion(res),
    {
        let chain = match parse_network(self.chain.as_str()) {
            Ok(c) => c,
            Err(e) => return Some(Err(GetBlockchainInfoError::Chain(e))),
        };
        let best_block_hash = match block_hash_from_str(self.best_block_hash.as_str()) {
            Ok(h) => h,
            Err(e) => return Some(Err(GetBlockchainInfoError::BestBlockHash(e))),
        };
        if !is_u256_hex_splittable(self.chain_work.as_str()) {
            return None;
        }
        let chain_work = match parse_work(self.chain_work.as_str()) {
            Ok(w) => w,
            Err(e) => return Some(Err(GetBlockchainInfoError::ChainWork(e))),
        };
        let prune_height = match to_u32_opt(self.prune_height, "prune_height") {
            Ok(v) => v,
            Err(e) => return Some(Err(GetBlockchainInfoError::Numeric(e))),
        };
        let prune_target_size = match to_u32_opt(self.prune_target_size, "prune_target_size") {
            Ok(v) => v,
            Err(e) => return Some(Err(GetBlockchainInfoError::Numeric(e))),
        };
        let blocks = match to_u32(self.blocks, "blocks") {
            Ok(v) => v,
            Err(e) => return Some(Err(GetBlockchainInfoError::Numeric(e))),
        };
        let headers = match to_u32(self.headers, "headers") {
            Ok(v) => v,
            Err(e) => return Some(Err(GetBlockchainInfoError::Numeric(e))),
        };
        let median_time = match to_u32(self.median_time, "median_time") {
            Ok(v) => v,
            Err(e) => return Some(Err(GetBlockchainInfoError::Numeric(e))),
        };
        Some(Ok(model::GetBlockchainInfo {
            chain,
            blocks,
            headers,
            best_block_hash,
            bits: None,
            target: None,
            difficulty: self.difficulty,
            time: None,
            median_time,
            verification_progress: self.verification_progress,
            initial_block_download: self.initial_block_download,
            chain_work,
            size_on_disk: self.size_on_disk,
            pruned: self.pruned,
            prune_height,
            automatic_pruning: self.automatic_pruning,
            prune_target_size,
            softforks: BTreeMap::new(),
            signet_challenge: None,
            warnings: vec![self.warnings],
        }))
    }

    /// Converts version specific type to a version nonspecific, more strongly typed type.
    ///
    /// The fields are converted in order: chain, best block hash, chain work, then the numeric
    /// fields; the first that fails gives the error. The bits, the target, the softforks and the
    /// signet challenge are not converted; the warnings become a list of one.
    pub fn into_model(self) -> (r: Result<model::GetBlockchainInfo<F>, GetBlockchainInfoError>)
        requires
            self.reaches_chain_work() ==> u256_hex_splittable(self.chain_work@),
        ensures
            self.conversion(r),
    {
        self.into_model_checked().unwrap()
    }
}

/// The model status that each status of this version stands for.
pub open spec fn bip9_status_model(s: Bip9SoftforkStatus) -> model::Bip9SoftforkStatus {
    match s {
        Bip9SoftforkStatus::Defined => model::Bip9SoftforkStatus::Defined,
        Bip9SoftforkStatus::Started => model::Bip9SoftforkStatus::Started,
        Bip9SoftforkStatus::LockedIn => model::Bip9SoftforkStatus::LockedIn,
        Bip9SoftforkStatus::Active => model::Bip9SoftforkStatus::Active,
        Bip9SoftforkStatus::Failed => model::Bip9SoftforkStatus::Failed,
    }
}

/// Law: each status of this version stands for the model status of the same name.
pub proof fn lemma_bip9_status_same_name(s: Bip9SoftforkStatus)
    ensures
        s == Bip9SoftforkStatus::Defined <==> bip9_status_model(s) == model::Bip9SoftforkStatus::Defined,
        s == Bip9SoftforkStatus::Started <==> bip9_status_model(s) == model::Bip9SoftforkStatus::Started,
        s == Bip9SoftforkStatus::LockedIn <==> bip9_status_model(s) == model::Bip9SoftforkStatus::LockedIn,
        s == Bip9SoftforkStatus::Active <==> bip9_status_model(s) == model::Bip9SoftforkStatus::Active,
        s == Bip9SoftforkStatus::Failed <==> bip9_status_model(s) == model::Bip9SoftforkStatus::Failed,
{
}

impl Bip9SoftforkStatus {
    /// Converts version specific type to a version nonspecific, more strongly typed type.
    pub fn into_model(self) -> (m: model::Bip9SoftforkStatus)
        ensures
            m == bip9_status_model(self),
    {
        match self {
            Bip9SoftforkStatus::Defined => model::Bip9SoftforkStatus::Defined,
            Bip9SoftforkStatus::Started => model::Bip9SoftforkStatus::Started,
            Bip9SoftforkStatus::LockedIn => model::Bip9SoftforkStatus::LockedIn,
            Bip9SoftforkStatus::Active => model::Bip9SoftforkStatus::Active,
            Bip9SoftforkStatus::Failed => model::Bip9SoftforkStatus::Failed,
        }
    }
}

/// Result of JSON-RPC method `getblockheader` with verbosity set to `false`.
///
/// > Arguments:
/// > 1. "hash"          (string, required) The block hash
#[derive(Clone, Debug, PartialEq, Eq)]
pub struct GetBlockHeader(pub String);

/// Error when converting a `GetBlockHeader` type into the model type.
#[derive(Debug)]
pub enum GetBlockHeaderError {
    /// Conversion of hex data to bytes failed.
    Hex(bitcoin::hex::HexToBytesError),
    /// Consensus decoding of bytes to header failed.
    Consensus(bitcoin::consensus::encode::Error),
}

impl GetBlockHeader {
    /// Converts version specific type to a version nonspecific, more strongly typed type.
    ///
    /// Succeeds exactly on the hex of 80 bytes, and reads the header fields from those bytes.
    pub fn into_model(self) -> (r: Result<model::GetBlockHeader, GetBlockHeaderError>)
        ensures
            r is Ok <==> is_hex(self.0@) && hex_decode(self.0@).len() == 80,
            r matches Ok(m) ==> header_decodes_to(hex_decode(self.0@), m.0),
            r matches Err(GetBlockHeaderError::Hex(e)) ==> !is_hex(self.0@) && e == bytes_hex_error(self.0@),
            r matches Err(GetBlockHeaderError::Consensus(e)) ==> is_hex(self.0@) && e == header_decode_error(
                hex_decode(self.0@),
            ),
    {
        let v = match bytes_from_hex(self.0.as_str()) {
            Ok(v) => v,
            Err(e) => return Err(GetBlockHeaderError::Hex(e)),
        };
        let header = match decode_header(v.as_slice()) {
            Ok(h) => h,
            Err(e) => return Err(GetBlockHeaderError::Consensus(e)),
        };
        Ok(model::GetBlockHeader(header))
    }

    /// Converts json straight to a block header.
    pub fn block_header(self) -> (r: Result<model::BlockHeader, GetBlockHeaderError>)
        ensures
            r is Ok <==> is_hex(self.0@) && hex_decode(self.0@).len() == 80,
            r matches Ok(h) ==> header_decodes_to(hex_decode(self.0@), h),
            r matches Err(GetBlockHeaderError::Hex(e)) ==> !is_hex(self.0@) && e == bytes_hex_error(self.0@),
            r matches Err(GetBlockHeaderError::Consensus(e)) ==> is_hex(self.0@) && e == header_decode_error(
                hex_decode(self.0@),
            ),
    {
        match self.into_model() {
            Ok(m) => Ok(m.0),
            Err(e) => Err(e),
        }
    }
}

/// Result of JSON-RPC method `getblockheader` with verbosity set to `true`.
///
/// > If verbose is false, returns a string that is serialized, hex-encoded data for blockheader 'hash'.
/// > If verbose is true, returns an Object with information about blockheader `<hash>`.
/// >
/// > Arguments:
/// > 1. "hash"          (string, required) The block hash
///
/// `F` is the type of the difficulty, which Core writes as a JSON floating point number.
#[derive(Clone, Debug, PartialEq)]
pub struct GetBlockHeaderVerbose<F> {
    /// The block hash.
    pub hash: String,
    /// The number of confirmations, or -1 if the block is not on the main chain.
    pub confirmations: i64,
    /// The block height or index.
    pub height: i64,
    /// The block version.
    pub version: i32,
    /// The block version formatted in hexadecimal.
    pub version_hex: String,
    /// The merkle root.
    pub merkle_root: String,
    /// The block time in seconds since epoch (Jan 1 1970 GMT).
    pub time: i64,
    /// The median block time in seconds since epoch (Jan 1 1970 GMT).
    pub median_time: i64,
    /// The nonce.
    pub nonce: i64,
    /// The bits.
    pub bits: String,
    /// The difficulty target (hex-encoded). From v29+
    pub target: String,
    /// The difficulty.
    pub difficulty: F,
    /// Expected number of hashes required to produce the current chain (in hex).
    pub chain_work: String,
    /// The number of transactions in the block.
    pub n_tx: u32,
    /// The hash of the previous block (if available).
    pub previous_block_hash: Option<String>,
    /// The hash of the next block (if available).
    pub next_block_hash: Option<String>,
}

/// Error when converting a `GetBlockHeaderVerbose` type into the model type.
#[derive(Debug)]
pub enum GetBlockHeaderVerboseError {
    /// Conversion of numeric type to expected type failed.
    Numeric(NumericError),
    /// Conversion of `hash` field failed.
    Hash(bitcoin::hex::HexToArrayError),
    /// Conversion of `merkle_root` field failed.
    MerkleRoot(bitcoin::hex::HexToArrayError),
    /// Conversion of `bits` field failed.
    Bits(bitcoin::error::UnprefixedHexError),
    /// Conversion of `chain_work` field failed.
    ChainWork(bitcoin::error::UnprefixedHexError),
    /// Conversion of `target` field failed.
    Target(bitcoin::error::UnprefixedHexError),
    /// Conversion of `previous_block_hash` field failed.
    PreviousBlockHash(bitcoin::hex::HexToArrayError),
    /// Conversion of `next_block_hash` field failed.
    NextBlockHash(bitcoin::hex::HexToArrayError),
}

/// Which conversion a [`GetBlockHeaderVerboseError`] reports, with the error it carries.
pub enum GetBlockHeaderVerboseErrorView {
    Numeric(NumericErrorView),
    Hash(bitcoin::hex::HexToArrayError),
    MerkleRoot(bitcoin::hex::HexToArrayError),
    Bits(bitcoin::error::UnprefixedHexError),
    ChainWork(bitcoin::error::UnprefixedHexError),
    Target(bitcoin::error::UnprefixedHexError),
    PreviousBlockHash(bitcoin::hex::HexToArrayError),
    NextBlockHash(bitcoin::hex::HexToArrayError),
}

impl View for GetBlockHeaderVerboseError {
    type V = GetBlockHeaderVerboseErrorView;

    open spec fn view(&self) -> GetBlockHeaderVerboseErrorView {
        match self {
            GetBlockHeaderVerboseError::Numeric(e) => GetBlockHeaderVerboseErrorView::Numeric(e@),
            GetBlockHeaderVerboseError::Hash(e) => GetBlockHeaderVerboseErrorView::Hash(*e),
            GetBlockHeaderVerboseError::MerkleRoot(e) => GetBlockHeaderVerboseErrorView::MerkleRoot(*e),
            GetBlockHeaderVerboseError::Bits(e) => GetBlockHeaderVerboseErrorView::Bits(*e),
            GetBlockHeaderVerboseError::ChainWork(e) => GetBlockHeaderVerboseErrorView::ChainWork(*e),
            GetBlockHeaderVerboseError::Target(e) => GetBlockHeaderVerboseErrorView::Target(*e),
            GetBlockHeaderVerboseError::PreviousBlockHash(e) => {
                GetBlockHeaderVerboseErrorView::PreviousBlockHash(*e)
            },
            GetBlockHeaderVerboseError::NextBlockHash(e) => {
                GetBlockHeaderVerboseErrorView::NextBlockHash(*e)
            },
        }
    }
}

impl<F> GetBlockHeaderVerbose<F> {
    /// The first conversion that fails, in the order `into_model` makes them: the block hash,
    /// the merkle root, the bits, the chain work, the target, the previous and the next block
    /// hash, then height, time, median time and nonce.
    pub open spec fn failure(&self) -> Option<GetBlockHeaderVerboseErrorView> {
        if !is_hash_hex(self.hash@) {
            Some(GetBlockHeaderVerboseErrorView::Hash(array_hex_error(self.hash@)))
        } else if !is_hash_hex(self.merkle_root@) {
            Some(GetBlockHeaderVerboseErrorView::MerkleRoot(array_hex_error(self.merkle_root@)))
        } else if compact_target_from_unprefixed_hex(self.bits@) is None {
            Some(GetBlockHeaderVerboseErrorView::Bits(compact_target_error(self.bits@)))
        } else if work_from_unprefixed_hex(self.chain_work@) is None {
            Some(GetBlockHeaderVerboseErrorView::ChainWork(u256_hex_error(self.chain_work@)))
        } else if target_from_unprefixed_hex(self.target@) is None {
            Some(GetBlockHeaderVerboseErrorView::Target(u256_hex_error(self.target@)))
        } else if !opt_is_hash_hex(self.previous_block_hash) {
            Some(
                GetBlockHeaderVerboseErrorView::PreviousBlockHash(
                    array_hex_error(self.previous_block_hash->0@),
                ),
            )
        } else if !opt_is_hash_hex(self.next_block_hash) {
            Some(
                GetBlockHeaderVerboseErrorView::NextBlockHash(array_hex_error(self.next_block_hash->0@)),
            )
        } else if !fits_u32(self.height) {
            Some(GetBlockHeaderVerboseErrorView::Numeric(u32_error(self.height, "height"@)))
        } else if !fits_u32(self.time) {
            Some(GetBlockHeaderVerboseErrorView::Numeric(u32_error(self.time, "time"@)))
        } else if !fits_u32(self.median_time) {
            Some(
                GetBlockHeaderVerboseErrorView::Numeric(u32_error(self.median_time, "median_time"@)),
            )
        } else if !fits_u32(self.nonce) {
            Some(GetBlockHeaderVerboseErrorView::Numeric(u32_error(self.nonce, "nonce"@)))
        } else {
            None
        }
    }

    /// The conversions that come before the chain work (block hash, merkle root, bits) all
    /// succeed.
    pub open spec fn reaches_chain_work(&self) -> bool {
        &&& is_hash_hex(self.hash@)
        &&& is_hash_hex(self.merkle_root@)
        &&& compact_target_from_unprefixed_hex(self.bits@) is Some
    }

    /// The conversions that come before the target (those before the chain work, and the chain
    /// work itself) all succeed.
    pub open spec fn reaches_target(&self) -> bool {
        &&& self.reaches_chain_work()
        &&& u256_hex_splittable(self.chain_work@)
        &&& work_from_unprefixed_hex(self.chain_work@) is Some
    }

    /// `m` holds the values of `self`, each converted.
    pub open spec fn converted_to(&self, m: model::GetBlockHeaderVerbose<F>) -> bool {
        &&& m.hash@ == hash_from_hex(self.hash@)
        &&& m.confirmations == self.confirmations
        &&& m.height == self.height
        &&& m.version == self.version
        &&& m.merkle_root@ == hash_from_hex(self.merkle_root@)
        &&& m.time == self.time
        &&& m.median_time == self.median_time
        &&& m.nonce == self.nonce
        &&& compact_target_from_unprefixed_hex(self.bits@) == Some(m.bits)
        &&& m.target matches Some(t) && target_from_unprefixed_hex(self.target@) == Some(t@)
        &&& m.difficulty == self.difficulty
        &&& work_from_unprefixed_hex(self.chain_work@) == Some(m.chain_work@)
        &&& m.n_tx == self.n_tx
        &&& opt_hash_from_hex(self.previous_block_hash, m.previous_block_hash)
        &&& opt_hash_from_hex(self.next_block_hash, m.next_block_hash)
    }

    /// Law: a converted header reports the header as the input gives it: each hash is the one
    /// written in hex, each number is the same number, and the bits, target and chain work are
    /// the values read from their hex.
    pub proof fn lemma_converted_carries_fields(&self, m: model::GetBlockHeaderVerbose<F>)
        requires
            self.converted_to(m),
        ensures
            m.hash@ == hash_from_hex(self.hash@),
            m.confirmations == self.confirmations,
            m.height == self.height,
            m.version == self.version,
            m.merkle_root@ == hash_from_hex(self.merkle_root@),
            m.time == self.time,
            m.median_time == self.median_time,
            m.nonce == self.nonce,
            compact_target_from_unprefixed_hex(self.bits@) == Some(m.bits),
            m.target is Some,
            target_from_unprefixed_hex(self.target@) == Some(m.target->0@),
            m.difficulty == self.difficulty,
            work_from_unprefixed_hex(self.chain_work@) == Some(m.chain_work@),
            m.n_tx == self.n_tx,
            m.previous_block_hash is Some <==> self.previous_block_hash is Some,
            self.previous_block_hash matches Some(p) ==> m.previous_block_hash->0@ == hash_from_hex(p@),
            m.next_block_hash is Some <==> self.next_block_hash is Some,
            self.next_block_hash matches Some(p) ==> m.next_block_hash->0@ == hash_from_hex(p@),
    {
    }

    /// Law: the conversion fails exactly when some field does not convert, and the error names
    /// such a field with the error of reading it; a bad block hash is reported first.
    pub proof fn lemma_failure_names_bad_field(&self)
        ensures
            self.failure() is None <==> {
                &&& is_hash_hex(self.hash@)
                &&& is_hash_hex(self.merkle_root@)
                &&& compact_target_from_unprefixed_hex(self.bits@) is Some
                &&& work_from_unprefixed_hex(self.chain_work@) is Some
                &&& target_from_unprefixed_hex(self.target@) is Some
                &&& opt_is_hash_hex(self.previous_block_hash)
                &&& opt_is_hash_hex(self.next_block_hash)
                &&& fits_u32(self.height)
                &&& fits_u32(self.time)
                &&& fits_u32(self.median_time)
                &&& fits_u32(self.nonce)
            },
            !is_hash_hex(self.hash@) ==> self.failure() == Some(
                GetBlockHeaderVerboseErrorView::Hash(array_hex_error(self.hash@)),
            ),
            self.failure() matches Some(GetBlockHeaderVerboseErrorView::Hash(e)) ==> {
                !is_hash_hex(self.hash@) && e == array_hex_error(self.hash@)
            },
            self.failure() matches Some(GetBlockHeaderVerboseErrorView::MerkleRoot(e)) ==> {
                !is_hash_hex(self.merkle_root@) && e == array_hex_error(self.merkle_root@)
            },
            self.failure() matches Some(GetBlockHeaderVerboseErrorView::Bits(e)) ==> {
                compact_target_from_unprefixed_hex(self.bits@) is None && e == compact_target_error(self.bits@)
            },
            self.failure() matches Some(GetBlockHeaderVerboseErrorView::ChainWork(e)) ==> {
                work_from_unprefixed_hex(self.chain_work@) is None && e == u256_hex_error(self.chain_work@)
            },
            self.failure() matches Some(GetBlockHeaderVerboseErrorView::Target(e)) ==> {
                target_from_unprefixed_hex(self.target@) is None && e == u256_hex_error(self.target@)
            },
            self.failure() matches Some(GetBlockHeaderVerboseErrorView::PreviousBlockHash(e)) ==> {
                self.previous_block_hash matches Some(p) && !is_hash_hex(p@) && e == array_hex_error(p@)
            },
            self.failure() matches Some(GetBlockHeaderVerboseErrorView::NextBlockHash(e)) ==> {
                self.next_block_hash matches Some(p) && !is_hash_hex(p@) && e == array_hex_error(p@)
            },
            self.failure() matches Some(GetBlockHeaderVerboseErrorView::Numeric(e)) ==> {
                ||| !fits_u32(self.height) && e == u32_error(self.height, "height"@)
                ||| !fits_u32(self.time) && e == u32_error(self.time, "time"@)
                ||| !fits_u32(self.median_time) && e == u32_error(self.median_time, "median_time"@)
                ||| !fits_u32(self.nonce) && e == u32_error(self.nonce, "nonce"@)
            },
    {
    }

    /// Law: the error reported is that of the first field, in the order of conversion, that does
    /// not convert; where every field converts there is none.
    pub proof fn lemma_failure_is_first_bad_field(&self)
        ensures
            !(is_hash_hex(self.hash@)) ==> self.failure() == Some(GetBlockHeaderVerboseErrorView::Hash(array_hex_error(self.hash@))),
            is_hash_hex(self.hash@) && !(is_hash_hex(self.merkle_root@)) ==> self.failure() == Some(GetBlockHeaderVerboseErrorView::MerkleRoot(array_hex_error(self.merkle_root@))),
            is_hash_hex(self.hash@) && is_hash_hex(self.merkle_root@) && !(compact_target_from_unprefixed_hex(self.bits@) is Some) ==> self.failure() == Some(GetBlockHeaderVerboseErrorView::Bits(compact_target_error(self.bits@))),
            is_hash_hex(self.hash@) && is_hash_hex(self.merkle_root@) && compact_target_from_unprefixed_hex(self.bits@) is Some && !(work_from_unprefixed_hex(self.chain_work@) is Some) ==> self.failure() == Some(GetBlockHeaderVerboseErrorView::ChainWork(u256_hex_error(self.chain_work@))),
            is_hash_hex(self.hash@) && is_hash_hex(self.merkle_root@) && compact_target_from_unprefixed_hex(self.bits@) is Some && work_from_unprefixed_hex(self.chain_work@) is Some && !(target_from_unprefixed_hex(self.target@) is Some) ==> self.failure() == Some(GetBlockHeaderVerboseErrorView::Target(u256_hex_error(self.target@))),
            is_hash_hex(self.hash@) && is_hash_hex(self.merkle_root@) && compact_target_from_unprefixed_hex(self.bits@) is Some && work_from_unprefixed_hex(self.chain_work@) is Some && target_from_unprefixed_hex(self.target@) is Some && !(opt_is_hash_hex(self.previous_block_hash)) ==> self.failure() == Some(GetBlockHeaderVerboseErrorView::PreviousBlockHash(array_hex_error(self.previous_block_hash->0@))),
            is_hash_hex(self.hash@) && is_hash_hex(self.merkle_root@) && compact_target_from_unprefixed_hex(self.bits@) is Some && work_from_unprefixed_hex(self.chain_work@) is Some && target_from_unprefixed_hex(self.target@) is Some && opt_is_hash_hex(self.previous_block_hash) && !(opt_is_hash_hex(self.next_block_hash)) ==> self.failure() == Some(GetBlockHeaderVerboseErrorView::NextBlockHash(array_hex_error(self.next_block_hash->0@))),
            is_hash_hex(self.hash@) && is_hash_hex(self.merkle_root@) && compact_target_from_unprefixed_hex(self.bits@) is Some && work_from_unprefixed_hex(self.chain_work@) is Some && target_from_unprefixed_hex(self.target@) is Some && opt_is_hash_hex(self.previous_block_hash) && opt_is_hash_hex(self.next_block_hash) && !(fits_u32(self.height)) ==> self.failure() == Some(GetBlockHeaderVerboseErrorView::Numeric(u32_error(self.height, "height"@))),
            is_hash_hex(self.hash@) && is_hash_hex(self.merkle_root@) && compact_target_from_unprefixed_hex(self.bits@) is Some && work_from_unprefixed_hex(self.chain_work@) is Some && target_from_unprefixed_hex(self.target@) is Some && opt_is_hash_hex(self.previous_block_hash) && opt_is_hash_hex(self.next_block_hash) && fits_u32(self.height) && !(fits_u32(self.time)) ==> self.failure() == Some(GetBlockHeaderVerboseErrorView::Numeric(u32_error(self.time, "time"@))),
            is_hash_hex(self.hash@) && is_hash_hex(self.merkle_root@) && compact_target_from_unprefixed_hex(self.bits@) is Some && work_from_unprefixed_hex(self.chain_work@) is Some && target_from_unprefixed_hex(self.target@) is Some && opt_is_hash_hex(self.previous_block_hash) && opt_is_hash_hex(self.next_block_hash) && fits_u32(self.height) && fits_u32(self.time) && !(fits_u32(self.median_time)) ==> self.failure() == Some(GetBlockHeaderVerboseErrorView::Numeric(u32_error(self.median_time, "median_time"@))),
            is_hash_hex(self.hash@) && is_hash_hex(self.merkle_root@) && compact_target_from_unprefixed_hex(self.bits@) is Some && work_from_unprefixed_hex(self.chain_work@) is Some && target_from_unprefixed_hex(self.target@) is Some && opt_is_hash_hex(self.previous_block_hash) && opt_is_hash_hex(self.next_block_hash) && fits_u32(self.height) && fits_u32(self.time) && fits_u32(self.median_time) && !(fits_u32(self.nonce)) ==> self.failure() == Some(GetBlockHeaderVerboseErrorView::Numeric(u32_error(self.nonce, "nonce"@))),
            is_hash_hex(self.hash@) && is_hash_hex(self.merkle_root@) && compact_target_from_unprefixed_hex(self.bits@) is Some && work_from_unprefixed_hex(self.chain_work@) is Some && target_from_unprefixed_hex(self.target@) is Some && opt_is_hash_hex(self.previous_block_hash) && opt_is_hash_hex(self.next_block_hash) && fits_u32(self.height) && fits_u32(self.time) && fits_u32(self.median_time) && fits_u32(self.nonce) ==> self.failure() is None,
    {
    }

    /// Converts as [`Self::into_model`] does, or returns `None` on the inputs that `into_model`
    /// leaves out: where the conversions before the chain work
    /// (or before the target) succeed and reading the chain work (or the target) would split a
    /// character (`bitcoin::Work::from_unprefixed_hex` and `bitcoin::Target::from_unprefixed_hex`
    /// panic there).
    pub fn into_model_checked(self) -> (r: Option<Result<model::GetBlockHeaderVerbose<F>, GetBlockHeaderVerboseError>>)
        ensures
            r is None <==> (self.reaches_chain_work() && !u256_hex_splittable(self.chain_work@))
                || (self.reaches_target() && !u256_hex_splittable(self.target@)),
            r matches Some(res) ==> {
                &&& res is Ok <==> self.failure() is None
                &&& res matches Err(e) ==> self.failure() == Some(e@)
                &&& res matches Ok(m) ==> self.converted_to(m)
            },
    {
        let hash = match block_hash_from_str(self.hash.as_str()) {
            Ok(h) => h,
            Err(e) => return Some(Err(GetBlockHeaderVerboseError::Hash(e))),
        };
        let merkle_root = match merkle_node_from_str(self.merkle_root.as_str()) {
            Ok(h) => h,
            Err(e) => return Some(Err(GetBlockHeaderVerboseError::MerkleRoot(e))),
        };
        let bits = match parse_compact_target(self.bits.as_str()) {
            Ok(b) => b,
            Err(e) => return Some(Err(GetBlockHeaderVerboseError::Bits(e))),
        };
        if !is_u256_hex_splittable(self.chain_work.as_str()) {
            return None;
        }
        let chain_work = match parse_work(self.chain_work.as_str()) {
            Ok(w) => w,
            Err(e) => return Some(Err(GetBlockHeaderVerboseError::ChainWork(e))),
        };
        if !is_u256_hex_splittable(self.target.as_str()) {
            return None;
        }
        let target = match parse_target(self.target.as_str()) {
            Ok(t) => t,
            Err(e) => return Some(Err(GetBlockHeaderVerboseError::Target(e))),
        };
        let previous_block_hash = match opt_block_hash_from_str(&self.previous_block_hash) {
            Ok(h) => h,
            Err(e) => return Some(Err(GetBlockHeaderVerboseError::PreviousBlockHash(e))),
        };
        let next_block_hash = match opt_block_hash_from_str(&self.next_block_hash) {
            Ok(h) => h,
            Err(e) => return Some(Err(GetBlockHeaderVerboseError::NextBlockHash(e))),
        };
        let height = match to_u32(self.height, "height") {
            Ok(v) => v,
            Err(e) => return Some(Err(GetBlockHeaderVerboseError::Numeric(e))),
        };
        let time = match to_u32(self.time, "time") {
            Ok(v) => v,
            Err(e) => return Some(Err(GetBlockHeaderVerboseError::Numeric(e))),
        };
        let median_time = match to_u32(self.median_time, "median_time") {
            Ok(v) => v,
            Err(e) => return Some(Err(GetBlockHeaderVerboseError::Numeric(e))),
        };
        let nonce = match to_u32(self.nonce, "nonce") {
            Ok(v) => v,
            Err(e) => return Some(Err(GetBlockHeaderVerboseError::Numeric(e))),
        };
        Some(Ok(model::GetBlockHeaderVerbose {
            hash,
            confirmations: self.confirmations,
            height,
            version: self.version,
            merkle_root,
            time,
            median_time,
            nonce,
            bits,
            target: Some(target),
            difficulty: self.difficulty,
            chain_work,
            n_tx: self.n_tx,
            previous_block_hash,
            next_block_hash,
        }))
    }

    /// Converts version specific type to a version nonspecific, more strongly typed type.
    pub fn into_model(self) -> (r: Result<
        model::GetBlockHeaderVerbose<F>,
        GetBlockHeaderVerboseError,
    >)
        requires
            self.reaches_chain_work() ==> u256_hex_splittable(self.chain_work@),
            self.reaches_target() ==> u256_hex_splittable(self.target@),
        ensures
            r is Ok <==> self.failure() is None,
            r matches Err(e) ==> self.failure() == Some(e@),
            r matches Ok(m) ==> self.converted_to(m),
    {
        self.into_model_checked().unwrap()
    }

    /// Converts json straight to a block header: the version, the previous block hash (all
    /// zeros where there is none, as in the genesis block), the merkle root, time, bits and nonce
    /// of the converted model.
    pub fn block_header(self) -> (r: Result<model::BlockHeader, GetBlockHeaderVerboseError>)
        requires
            self.reaches_chain_work() ==> u256_hex_splittable(self.chain_work@),
            self.reaches_target() ==> u256_hex_splittable(self.target@),
        ensures
            r is Ok <==> self.failure() is None,
            r matches Err(e) ==> self.failure() == Some(e@),
            r matches Ok(h) ==> {
                &&& h.version == self.version
                &&& h.prev_blockhash@ == match self.previous_block_hash {
                    Some(s) => hash_from_hex(s@),
                    None => Seq::new(32, |i: int| 0u8),
                }
                &&& h.merkle_root@ == hash_from_hex(self.merkle_root@)
                &&& h.time == self.time
                &&& compact_target_from_unprefixed_hex(self.bits@) == Some(h.bits)
                &&& h.nonce == self.nonce
            },
    {
        match self.into_model() {
            Ok(m) => {
                let prev_blockhash = match m.previous_block_hash {
                    Some(h) => h,
                    None => [0u8; 32],
                };
                Ok(model::BlockHeader {
                    version: m.version,
                    prev_blockhash,
                    merkle_root: m.merkle_root,
                    time: m.time,
                    bits: m.bits,
                    nonce: m.nonce,
                })
            },
            Err(e) => Err(e),
        }
    }
}

} // verus!
