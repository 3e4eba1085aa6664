//! The JSON-RPC API for Bitcoin Core `v19` - the mempool methods of the `== Blockchain ==`
//! section of the API docs.
use vstd::prelude::*;

use std::collections::BTreeMap;

use crate::amount::{ReadAmount, ReadFeeRate};
use crate::hex::{
    all_hash_hex, array_hex_error, first_hash_error, hash_from_hex, hashes_from_hex, is_hash_hex,
    txid_from_str, txids_from_strs, wtxid_from_str,
};
use crate::model;
use crate::numeric::{fits_u32, to_u32, u32_error, NumericError, NumericErrorView};

verus! {

/// Result of JSON-RPC method `getmempoolancestors` with verbose set to true.
///
/// Map of txid to `MempoolEntry` i.e., an ancestor. `A` is the type of the BTC amounts (see
/// [`MempoolEntry`]).
#[derive(Clone, Debug, PartialEq)]
pub struct GetMempoolAncestorsVerbose<A>(pub BTreeMap<String, MempoolEntry<A>>);

/// Result of JSON-RPC method `getmempooldescendants` with verbose set to true.
///
/// Map of txid to [`MempoolEntry`] i.e., a descendant. `A` is the type of the BTC amounts.
#[derive(Clone, Debug, PartialEq)]
pub struct GetMempoolDescendantsVerbose<A>(pub BTreeMap<String, MempoolEntry<A>>);

/// Result of JSON-RPC method `getmempoolentry`.
///
/// > getmempoolentry txid
/// >
/// > Returns mempool data for given transaction
/// >
/// > Arguments:
/// > 1. "txid"                 (string, required) The transaction id (must be in mempool)
///
/// `A` is the type of the BTC amounts (see [`MempoolEntry`]).
#[derive(Clone, Debug, PartialEq)]
pub struct GetMempoolEntry<A>(pub MempoolEntry<A>);

/// A relative (ancestor or descendant) transaction of a transaction in the mempool.
///
/// `A` is the type of the BTC amounts. Core writes them as JSON floating point numbers;
/// `into_model` takes each as `bitcoin::Amount::from_btc` read it ([`ReadAmount`]), floating
/// point work that is done outside this library.
#[derive(Clone, Debug, PartialEq)]
pub struct MempoolEntry<A> {
    /// Virtual transaction size as defined in BIP 141.
    ///
    /// This is different from actual serialized size for witness transactions as witness data is
    /// discounted.
    pub vsize: i64,
    /// DEPRECATED: same as vsize. Only returned if bitcoind is started with -deprecatedrpc=size
    /// size will be completely removed in v0.20.
    pub size: Option<i64>,
    /// Transaction weight as defined in BIP 141.
    pub weight: i64,
    /// DEPRECATED: Transaction fee in BTC.
    pub fee: A,
    /// DEPRECATED: Transaction fee with fee deltas used for mining priority.
    pub modified_fee: A,
    /// Local time transaction entered pool in seconds since 1 Jan 1970 GMT.
    pub time: i64,
    /// Block height when transaction entered pool.
    pub height: i64,
    /// Number of in-mempool descendant transactions (including this one).
    pub descendant_count: i64,
    /// Virtual transaction size of in-mempool descendants (including this one).
    pub descendant_size: i64,
    /// DEPRECATED: Modified fees (see above) of in-mempool descendants (including this one).
    pub descendant_fees: A,
    /// Number of in-mempool ancestor transactions (including this one).
    pub ancestor_count: i64,
    /// Virtual transaction size of in-mempool ancestors (including this one).
    pub ancestor_size: i64,
    /// DEPRECATED: Modified fees (see above) of in-mempool ancestors (including this one).
    pub ancestor_fees: A,
    /// Hash of serialized transaction, including witness data.
    pub wtxid: String,
    /// Fee information.
    pub fees: MempoolEntryFees<A>,
    /// Unconfirmed transactions used as inputs for this transaction (parent transaction id).
    pub depends: Vec<String>,
    /// Unconfirmed transactions spending outputs from this transaction (child transaction id).
    pub spent_by: Vec<String>,
    /// Whether this transaction could be replaced due to BIP125 (replace-by-fee)
    pub bip125_replaceable: bool,
}

/// Fee object. Part of `getmempoolentry`.
///
/// `A` is the type of the BTC amounts (see [`MempoolEntry`]).
#[derive(Clone, Debug, PartialEq)]
pub struct MempoolEntryFees<A> {
    /// Transaction fee in BTC.
    pub base: A,
    /// Transaction fee with fee deltas used for mining priority in BTC.
    pub modified: A,
    /// Modified fees (see above) of in-mempool ancestors (including this one) in BTC
    pub ancestor: A,
    /// Modified fees (see above) of in-mempool descendants (including this one) in BTC.
    pub descendant: A,
}

/// Error when converting a `MempoolEntryFees` type into the model type.
#[derive(Debug)]
pub enum MempoolEntryFeesError {
    /// Conversion of the `base` field failed.
    Base(bitcoin::amount::ParseAmountError),
    /// Conversion of the `modified` field failed.
    Modified(bitcoin::amount::ParseAmountError),
    /// Conversion of the `ancestor` field failed.
    MempoolEntry(bitcoin::amount::ParseAmountError),
    /// Conversion of the `descendant` field failed.
    Descendant(bitcoin::amount::ParseAmountError),
}

/// Which field a [`MempoolEntryFeesError`] reports, with the error of reading it.
pub enum MempoolEntryFeesErrorView {
    Base(bitcoin::amount::ParseAmountError),
    Modified(bitcoin::amount::ParseAmountError),
    MempoolEntry(bitcoin::amount::ParseAmountError),
    Descendant(bitcoin::amount::ParseAmountError),
}

impl View for MempoolEntryFeesError {
    type V = MempoolEntryFeesErrorView;

    open spec fn view(&self) -> MempoolEntryFeesErrorView {
        match self {
            MempoolEntryFeesError::Base(e) => MempoolEntryFeesErrorView::Base(*e),
            MempoolEntryFeesError::Modified(e) => MempoolEntryFeesErrorView::Modified(*e),
            MempoolEntryFeesError::MempoolEntry(e) => MempoolEntryFeesErrorView::MempoolEntry(*e),
            MempoolEntryFeesError::Descendant(e) => MempoolEntryFeesErrorView::Descendant(*e),
        }
    }
}

/// Error when converting a `MempoolEntry` type into the model type.
#[derive(Debug)]
pub enum MempoolEntryError {
    /// Conversion of numeric type to expected type failed.
    Numeric(NumericError),
    /// Conversion of the `wtxid` field failed.
    Wtxid(bitcoin::hex::HexToArrayError),
    /// Conversion of the `MempoolEntryFees` type failed.
    Fees(MempoolEntryFeesError),
    /// Conversion of the `depends` field failed.
    Depends(bitcoin::hex::HexToArrayError),
    /// Conversion of the `spent_by` field failed.
    SpentBy(bitcoin::hex::HexToArrayError),
}

/// Which conversion a [`MempoolEntryError`] reports, with the error it carries.
pub enum MempoolEntryErrorView {
    Numeric(NumericErrorView),
    Wtxid(bitcoin::hex::HexToArrayError),
    Fees(MempoolEntryFeesErrorView),
    Depends(bitcoin::hex::HexToArrayError),
    SpentBy(bitcoin::hex::HexToArrayError),
}

impl View for MempoolEntryError {
    type V = MempoolEntryErrorView;

    open spec fn view(&self) -> MempoolEntryErrorView {
        match self {
            MempoolEntryError::Numeric(e) => MempoolEntryErrorView::Numeric(e@),
            MempoolEntryError::Wtxid(e) => MempoolEntryErrorView::Wtxid(*e),
            MempoolEntryError::Fees(e) => MempoolEntryErrorView::Fees(e@),
            MempoolEntryError::Depends(e) => MempoolEntryErrorView::Depends(*e),
            MempoolEntryError::SpentBy(e) => MempoolEntryErrorView::SpentBy(*e),
        }
    }
}

impl MempoolEntryFees<ReadAmount> {
    /// The first amount that was not read, in the order `base`, `modified`, `ancestor`,
    /// `descendant`.
    pub open spec fn failure(&self) -> Option<MempoolEntryFeesErrorView> {
        if let Err(e) = self.base {
            Some(MempoolEntryFeesErrorView::Base(e))
        } else if let Err(e) = self.modified {
            Some(MempoolEntryFeesErrorView::Modified(e))
        } else if let Err(e) = self.ancestor {
            Some(MempoolEntryFeesErrorView::MempoolEntry(e))
        } else if let Err(e) = self.descendant {
            Some(MempoolEntryFeesErrorView::Descendant(e))
        } else {
            None
        }
    }

    /// `m` holds the four amounts read.
    pub open spec fn converted_to(&self, m: model::MempoolEntryFees) -> bool {
        &&& self.base == Ok::<bitcoin::Amount, bitcoin::amount::ParseAmountError>(m.base)
        &&& self.modified == Ok::<bitcoin::Amount, bitcoin::amount::ParseAmountError>(m.modified)
        &&& self.ancestor == Ok::<bitcoin::Amount, bitcoin::amount::ParseAmountError>(m.ancestor)
        &&& self.descendant == Ok::<bitcoin::Amount, bitcoin::amount::ParseAmountError>(m.descendant)
    }

    /// Law: the converted fees are the four amounts read, each in its own field.
    pub proof fn lemma_converted_carries_amounts(&self, m: model::MempoolEntryFees)
        requires
            self.converted_to(m),
        ensures
            self.base matches Ok(a) && a == m.base,
            self.modified matches Ok(a) && a == m.modified,
            self.ancestor matches Ok(a) && a == m.ancestor,
            self.descendant matches Ok(a) && a == m.descendant,
    {
    }

    /// Law: converting the fees fails exactly when an amount was not read, with that amount's
    /// error; a failure of the base fee is reported first.
    pub proof fn lemma_failure_names_bad_amount(&self)
        ensures
            self.failure() is None <==> (self.base is Ok && self.modified is Ok && self.ancestor is Ok
                && self.descendant is Ok),
            self.base matches Err(e) ==> self.failure() == Some(MempoolEntryFeesErrorView::Base(e)),
            self.failure() matches Some(MempoolEntryFeesErrorView::Base(e)) ==> self.base == ReadAmount::Err(e),
            self.failure() matches Some(MempoolEntryFeesErrorView::Modified(e)) ==> self.modified == ReadAmount::Err(e),
            self.failure() matches Some(MempoolEntryFeesErrorView::MempoolEntry(e)) ==> self.ancestor == ReadAmount::Err(e),
            self.failure() matches Some(MempoolEntryFeesErrorView::Descendant(e)) ==> self.descendant == ReadAmount::Err(e),
    {
    }

    /// Converts version specific type to a version nonspecific, more strongly typed type.
    pub fn into_model(self) -> (r: Result<model::MempoolEntryFees, MempoolEntryFeesError>)
        ensures
            r is Ok <==> self.failure() is None,
            r matches Err(e) ==> self.failure() == Some(e@),
            r matches Ok(m) ==> self.converted_to(m),
    {
        let base = match self.base {
            Ok(a) => a,
            Err(e) => return Err(MempoolEntryFeesError::Base(e)),
        };
        let modified = match self.modified {
            Ok(a) => a,
            Err(e) => return Err(MempoolEntryFeesError::Modified(e)),
        };
        let ancestor = match self.ancestor {
            Ok(a) => a,
            Err(e) => return Err(MempoolEntryFeesError::MempoolEntry(e)),
        };
        let descendant = match self.descendant {
            Ok(a) => a,
            Err(e) => return Err(MempoolEntryFeesError::Descendant(e)),
        };
        Ok(model::MempoolEntryFees { base, modified, ancestor, descendant })
    }
}

impl MempoolEntry<ReadAmount> {
    /// The first conversion that fails, in the order `into_model` makes them: the sizes, times
    /// and counts, the wtxid, the fees, the parents, then the children.
    pub open spec fn failure(&self) -> Option<MempoolEntryErrorView> {
        if !fits_u32(self.vsize) {
            Some(MempoolEntryErrorView::Numeric(u32_error(self.vsize, "vsize"@)))
        } else if !fits_u32(self.weight) {
            Some(MempoolEntryErrorView::Numeric(u32_error(self.weight, "weight"@)))
        } else if !fits_u32(self.time) {
            Some(MempoolEntryErrorView::Numeric(u32_error(self.time, "time"@)))
        } else if !fits_u32(self.height) {
            Some(MempoolEntryErrorView::Numeric(u32_error(self.height, "height"@)))
        } else if !fits_u32(self.descendant_count) {
            Some(
                MempoolEntryErrorView::Numeric(
                    u32_error(self.descendant_count, "descendant_count"@),
                ),
            )
        } else if !fits_u32(self.descendant_size) {
            Some(
                MempoolEntryErrorView::Numeric(u32_error(self.descendant_size, "descendant_size"@)),
            )
        } else if !fits_u32(self.ancestor_count) {
            Some(MempoolEntryErrorView::Numeric(u32_error(self.ancestor_count, "ancestor_count"@)))
        } else if !fits_u32(self.ancestor_size) {
            Some(MempoolEntryErrorView::Numeric(u32_error(self.ancestor_size, "ancestor_size"@)))
        } else if !is_hash_hex(self.wtxid@) {
            Some(MempoolEntryErrorView::Wtxid(array_hex_error(self.wtxid@)))
        } else if self.fees.failure() is Some {
            Some(MempoolEntryErrorView::Fees(self.fees.failure()->0))
        } else if !all_hash_hex(self.depends@) {
            Some(MempoolEntryErrorView::Depends(first_hash_error(self.depends@)))
        } else if !all_hash_hex(self.spent_by@) {
            Some(MempoolEntryErrorView::SpentBy(first_hash_error(self.spent_by@)))
        } else {
            None
        }
    }

    /// `m` holds the values of `self`, each converted. The total size is not reported by this
    /// version, nor whether the transaction was broadcast.
    pub open spec fn converted_to(&self, m: model::MempoolEntry) -> bool {
        &&& m.vsize == Some(self.vsize as u32)
        &&& m.size is None
        &&& m.weight == Some(self.weight as u32)
        &&& m.time == self.time
        &&& m.height == self.height
        &&& m.descendant_count == self.descendant_count
        &&& m.descendant_size == self.descendant_size
        &&& m.ancestor_count == self.ancestor_count
        &&& m.ancestor_size == self.ancestor_size
        &&& m.wtxid@ == hash_from_hex(self.wtxid@)
        &&& self.fees.converted_to(m.fees)
        &&& hashes_from_hex(self.depends@, m.depends@)
        &&& hashes_from_hex(self.spent_by@, m.spent_by@)
        &&& m.bip125_replaceable == Some(self.bip125_replaceable)
        &&& m.unbroadcast is None
    }

    /// Law: a converted entry reports the transaction as the input gives it: each size, time and
    /// count is the number in the field of the same name, the wtxid and the ids of parents and
    /// children are the ones written in hex, in order, and the fees are the amounts read.
    pub proof fn lemma_converted_carries_fields(&self, m: model::MempoolEntry)
        requires
            self.converted_to(m),
        ensures
            m.vsize is Some && m.vsize->0 == self.vsize as u32,
            m.weight is Some && m.weight->0 == self.weight as u32,
            m.size is None,
            m.time == self.time,
            m.height == self.height,
            m.descendant_count == self.descendant_count,
            m.descendant_size == self.descendant_size,
            m.ancestor_count == self.ancestor_count,
            m.ancestor_size == self.ancestor_size,
            m.wtxid@ == hash_from_hex(self.wtxid@),
            self.fees.base matches Ok(a) && a == m.fees.base,
            self.fees.modified matches Ok(a) && a == m.fees.modified,
            self.fees.ancestor matches Ok(a) && a == m.fees.ancestor,
            self.fees.descendant matches Ok(a) && a == m.fees.descendant,
            m.depends@.len() == self.depends@.len(),
            forall|i: int| 0 <= i < self.depends@.len() ==> (#[trigger] m.depends@[i])@ == hash_from_hex(self.depends@[i]@),
            m.spent_by@.len() == self.spent_by@.len(),
            forall|i: int| 0 <= i < self.spent_by@.len() ==> (#[trigger] m.spent_by@[i])@ == hash_from_hex(self.spent_by@[i]@),
            m.bip125_replaceable == Some(self.bip125_replaceable),
            m.unbroadcast is None,
    {
    }

    /// Law: converting an entry fails exactly when some field does not convert, and the error
    /// names such a field with the error of reading it; a `vsize` that does not fit is reported
    /// first.
    pub proof fn lemma_failure_names_bad_field(&self)
        ensures
            self.failure() is None <==> {
                &&& fits_u32(self.vsize)
                &&& fits_u32(self.weight)
                &&& fits_u32(self.time)
                &&& fits_u32(self.height)
                &&& fits_u32(self.descendant_count)
                &&& fits_u32(self.descendant_size)
                &&& fits_u32(self.ancestor_count)
                &&& fits_u32(self.ancestor_size)
                &&& is_hash_hex(self.wtxid@)
                &&& self.fees.base is Ok
                &&& self.fees.modified is Ok
                &&& self.fees.ancestor is Ok
                &&& self.fees.descendant is Ok
                &&& all_hash_hex(self.depends@)
                &&& all_hash_hex(self.spent_by@)
            },
            !fits_u32(self.vsize) ==> self.failure() == Some(
                MempoolEntryErrorView::Numeric(u32_error(self.vsize, "vsize"@)),
            ),
            self.failure() matches Some(MempoolEntryErrorView::Numeric(e)) ==> {
                ||| !fits_u32(self.vsize) && e == u32_error(self.vsize, "vsize"@)
                ||| !fits_u32(self.weight) && e == u32_error(self.weight, "weight"@)
                ||| !fits_u32(self.time) && e == u32_error(self.time, "time"@)
                ||| !fits_u32(self.height) && e == u32_error(self.height, "height"@)
                ||| !fits_u32(self.descendant_count) && e == u32_error(self.descendant_count, "descendant_count"@)
                ||| !fits_u32(self.descendant_size) && e == u32_error(self.descendant_size, "descendant_size"@)
                ||| !fits_u32(self.ancestor_count) && e == u32_error(self.ancestor_count, "ancestor_count"@)
                ||| !fits_u32(self.ancestor_size) && e == u32_error(self.ancestor_size, "ancestor_size"@)
            },
            self.failure() matches Some(MempoolEntryErrorView::Wtxid(e)) ==> {
                !is_hash_hex(self.wtxid@) && e == array_hex_error(self.wtxid@)
            },
            self.failure() matches Some(MempoolEntryErrorView::Fees(e)) ==> self.fees.failure() == Some(e),
            self.failure() matches Some(MempoolEntryErrorView::Depends(e)) ==> {
                !all_hash_hex(self.depends@) && e == first_hash_error(self.depends@)
            },
            self.failure() matches Some(MempoolEntryErrorView::SpentBy(e)) ==> {
                !all_hash_hex(self.spent_by@) && e == first_hash_error(self.spent_by@)
            },
    {
    }

    /// Law: the error reported is that of the first field, in the order of conversion, that does
    /// not convert; where every field converts there is none.
    pub proof fn lemma_failure_is_first_bad_field(&self)
        ensures
            !(fits_u32(self.vsize)) ==> self.failure() == Some(MempoolEntryErrorView::Numeric(u32_error(self.vsize, "vsize"@))),
            fits_u32(self.vsize) && !(fits_u32(self.weight)) ==> self.failure() == Some(MempoolEntryErrorView::Numeric(u32_error(self.weight, "weight"@))),
            fits_u32(self.vsize) && fits_u32(self.weight) && !(fits_u32(self.time)) ==> self.failure() == Some(MempoolEntryErrorView::Numeric(u32_error(self.time, "time"@))),
            fits_u32(self.vsize) && fits_u32(self.weight) && fits_u32(self.time) && !(fits_u32(self.height)) ==> self.failure() == Some(MempoolEntryErrorView::Numeric(u32_error(self.height, "height"@))),
            fits_u32(self.vsize) && fits_u32(self.weight) && fits_u32(self.time) && fits_u32(self.height) && !(fits_u32(self.descendant_count)) ==> self.failure() == Some(MempoolEntryErrorView::Numeric(u32_error(self.descendant_count, "descendant_count"@))),
            fits_u32(self.vsize) && fits_u32(self.weight) && fits_u32(self.time) && fits_u32(self.height) && fits_u32(self.descendant_count) && !(fits_u32(self.descendant_size)) ==> self.failure() == Some(MempoolEntryErrorView::Numeric(u32_error(self.descendant_size, "descendant_size"@))),
            fits_u32(self.vsize) && fits_u32(self.weight) && fits_u32(self.time) && fits_u32(self.height) && fits_u32(self.descendant_count) && fits_u32(self.descendant_size) && !(fits_u32(self.ancestor_count)) ==> self.failure() == Some(MempoolEntryErrorView::Numeric(u32_error(self.ancestor_count, "ancestor_count"@))),
            fits_u32(self.vsize) && fits_u32(self.weight) && fits_u32(self.time) && fits_u32(self.height) && fits_u32(self.descendant_count) && fits_u32(self.descendant_size) && fits_u32(self.ancestor_count) && !(fits_u32(self.ancestor_size)) ==> self.failure() == Some(MempoolEntryErrorView::Numeric(u32_error(self.ancestor_size, "ancestor_size"@))),
            fits_u32(self.vsize) && fits_u32(self.weight) && fits_u32(self.time) && fits_u32(self.height) && fits_u32(self.descendant_count) && fits_u32(self.descendant_size) && fits_u32(self.ancestor_count) && fits_u32(self.ancestor_size) && !(is_hash_hex(self.wtxid@)) ==> self.failure() == Some(MempoolEntryErrorView::Wtxid(array_hex_error(self.wtxid@))),
            fits_u32(self.vsize) && fits_u32(self.weight) && fits_u32(self.time) && fits_u32(self.height) && fits_u32(self.descendant_count) && fits_u32(self.descendant_size) && fits_u32(self.ancestor_count) && fits_u32(self.ancestor_size) && is_hash_hex(self.wtxid@) && !(self.fees.failure() is None) ==> self.failure() == Some(MempoolEntryErrorView::Fees(self.fees.failure()->0)),
            fits_u32(self.vsize) && fits_u32(self.weight) && fits_u32(self.time) && fits_u32(self.height) && fits_u32(self.descendant_count) && fits_u32(self.descendant_size) && fits_u32(self.ancestor_count) && fits_u32(self.ancestor_size) && is_hash_hex(self.wtxid@) && self.fees.failure() is None && !(all_hash_hex(self.depends@)) ==> self.failure() == Some(MempoolEntryErrorView::Depends(first_hash_error(self.depends@))),
            fits_u32(self.vsize) && fits_u32(self.weight) && fits_u32(self.time) && fits_u32(self.height) && fits_u32(self.descendant_count) && fits_u32(self.descendant_size) && fits_u32(self.ancestor_count) && fits_u32(self.ancestor_size) && is_hash_hex(self.wtxid@) && self.fees.failure() is None && all_hash_hex(self.depends@) && !(all_hash_hex(self.spent_by@)) ==> self.failure() == Some(MempoolEntryErrorView::SpentBy(first_hash_error(self.spent_by@))),
            fits_u32(self.vsize) && fits_u32(self.weight) && fits_u32(self.time) && fits_u32(self.height) && fits_u32(self.descendant_count) && fits_u32(self.descendant_size) && fits_u32(self.ancestor_count) && fits_u32(self.ancestor_size) && is_hash_hex(self.wtxid@) && self.fees.failure() is None && all_hash_hex(self.depends@) && all_hash_hex(self.spent_by@) ==> self.failure() is None,
    {
    }

    /// Converts version specific type to a version nonspecific, more strongly typed type.
    pub fn into_model(self) -> (r: Result<model::MempoolEntry, MempoolEntryError>)
        ensures
            r is Ok <==> self.failure() is None,
            r matches Err(e) ==> self.failure() == Some(e@),
            r matches Ok(m) ==> self.converted_to(m),
    {
        let vsize = match to_u32(self.vsize, "vsize") {
            Ok(v) => v,
            Err(e) => return Err(MempoolEntryError::Numeric(e)),
        };
        let weight = match to_u32(self.weight, "weight") {
            Ok(v) => v,
            Err(e) => return Err(MempoolEntryError::Numeric(e)),
        };
        let time = match to_u32(self.time, "time") {
            Ok(v) => v,
            Err(e) => return Err(MempoolEntryError::Numeric(e)),
        };
        let height = match to_u32(self.height, "height") {
            Ok(v) => v,
            Err(e) => return Err(MempoolEntryError::Numeric(e)),
        };
        let descendant_count = match to_u32(self.descendant_count, "descendant_count") {
            Ok(v) => v,
            Err(e) => return Err(MempoolEntryError::Numeric(e)),
        };
        let descendant_size = match to_u32(self.descendant_size, "descendant_size") {
            Ok(v) => v,
            Err(e) => return Err(MempoolEntryError::Numeric(e)),
        };
        let ancestor_count = match to_u32(self.ancestor_count, "ancestor_count") {
            Ok(v) => v,
            Err(e) => return Err(MempoolEntryError::Numeric(e)),
        };
        let ancestor_size = match to_u32(self.ancestor_size, "ancestor_size") {
            Ok(v) => v,
            Err(e) => return Err(MempoolEntryError::Numeric(e)),
        };
        let wtxid = match wtxid_from_str(self.wtxid.as_str()) {
            Ok(h) => h,
            Err(e) => return Err(MempoolEntryError::Wtxid(e)),
        };
        let fees = match self.fees.into_model() {
            Ok(f) => f,
            Err(e) => return Err(MempoolEntryError::Fees(e)),
        };
        let depends = match txids_from_strs(&self.depends) {
            Ok(d) => d,
            Err(e) => return Err(MempoolEntryError::Depends(e)),
        };
        let spent_by = match txids_from_strs(&self.spent_by) {
            Ok(s) => s,
            Err(e) => return Err(MempoolEntryError::SpentBy(e)),
        };
        Ok(model::MempoolEntry {
            vsize: Some(vsize),
            size: None,
            weight: Some(weight),
            time,
            height,
            descendant_count,
            descendant_size,
            ancestor_count,
            ancestor_size,
            wtxid,
            fees,
            depends,
            spent_by,
            bip125_replaceable: Some(self.bip125_replaceable),
            unbroadcast: None,
        })
    }
}

/// Error when converting a map of txid to mempool entry into the model type.
#[derive(Debug)]
pub enum MapMempoolEntryError {
    /// Conversion of a `txid` failed.
    Txid(bitcoin::hex::HexToArrayError),
    /// Conversion of a `MempoolEntry` failed.
    MempoolEntry(MempoolEntryError),
}

/// Which conversion a [`MapMempoolEntryError`] reports, with the error it carries.
pub enum MapMempoolEntryErrorView {
    Txid(bitcoin::hex::HexToArrayError),
    MempoolEntry(MempoolEntryErrorView),
}

impl View for MapMempoolEntryError {
    type V = MapMempoolEntryErrorView;

    open spec fn view(&self) -> MapMempoolEntryErrorView {
        match self {
            MapMempoolEntryError::Txid(e) => MapMempoolEntryErrorView::Txid(*e),
            MapMempoolEntryError::MempoolEntry(e) => MapMempoolEntryErrorView::MempoolEntry(e@),
        }
    }
}

/// What converting the entry `(id, entry)` of a map of mempool entries fails on, if anything:
/// the id, as a txid, then the entry.
pub open spec fn map_entry_failure(pair: (String, MempoolEntry<ReadAmount>)) -> Option<MapMempoolEntryErrorView> {
    if !is_hash_hex(pair.0@) {
        Some(MapMempoolEntryErrorView::Txid(array_hex_error(pair.0@)))
    } else if pair.1.failure() is Some {
        Some(MapMempoolEntryErrorView::MempoolEntry(pair.1.failure()->0))
    } else {
        None
    }
}

/// Law: an entry of a map of mempool entries converts exactly when its id is a txid and its
/// entry converts; a bad id is reported before anything wrong with the entry.
pub proof fn lemma_map_entry_failure_id_first(pair: (String, MempoolEntry<ReadAmount>))
    ensures
        map_entry_failure(pair) is None <==> (is_hash_hex(pair.0@) && pair.1.failure() is None),
        !is_hash_hex(pair.0@) ==> map_entry_failure(pair) == Some(
            MapMempoolEntryErrorView::Txid(array_hex_error(pair.0@)),
        ),
        is_hash_hex(pair.0@) && pair.1.failure() is Some ==> map_entry_failure(pair) == Some(
            MapMempoolEntryErrorView::MempoolEntry(pair.1.failure()->0),
        ),
{
}

/// Converts the entries of a map of txid to mempool entry, given in the map's key order: each id
/// is parsed as a txid and each entry converted; the first entry that fails gives the error.
///
/// The caller walks the map (a `BTreeMap` walks in key order) and builds the model's map of the
/// pairs returned, which come in the same order.
pub fn mempool_entries_into_model(entries: Vec<(String, MempoolEntry<ReadAmount>)>) -> (r: Result<
    Vec<([u8; 32], model::MempoolEntry)>,
    MapMempoolEntryError,
>)
    ensures
        r is Ok <==> forall|i: int|
            0 <= i < entries@.len() ==> map_entry_failure(#[trigger] entries@[i]) is None,
        r matches Ok(v) ==> {
            &&& v@.len() == entries@.len()
            &&& forall|i: int|
                0 <= i < entries@.len() ==> {
                    &&& (#[trigger] v@[i]).0@ == hash_from_hex(entries@[i].0@)
                    &&& entries@[i].1.converted_to(v@[i].1)
                }
        },
        r matches Err(e) ==> exists|i: int|
            {
                &&& 0 <= i < entries@.len()
                &&& forall|j: int| 0 <= j < i ==> map_entry_failure(#[trigger] entries@[j]) is None
                &&& map_entry_failure(#[trigger] entries@[i]) == Some(e@)
            },
{
    let ghost input = entries@;
    let mut converted: Vec<([u8; 32], model::MempoolEntry)> = Vec::new();
    for pair in it: entries.into_iter()
        invariant
            it.seq() == input,
            converted@.len() == it.index(),
            forall|j: int| 0 <= j < it.index() ==> map_entry_failure(#[trigger] input[j]) is None,
            forall|j: int|
                0 <= j < it.index() ==> {
                    &&& (#[trigger] converted@[j]).0@ == hash_from_hex(input[j].0@)
                    &&& input[j].1.converted_to(converted@[j].1)
                },
    {
        let (id, entry) = pair;
        let txid = match txid_from_str(id.as_str()) {
            Ok(t) => t,
            Err(e) => {
                assert(map_entry_failure(input[it.index() as int]) == Some(MapMempoolEntryErrorView::Txid(e)));
                return Err(MapMempoolEntryError::Txid(e));
            },
        };
        let relative = match entry.into_model() {
            Ok(m) => m,
            Err(e) => {
                assert(map_entry_failure(input[it.index() as int]) == Some(MapMempoolEntryError::MempoolEntry(e)@));
                return Err(MapMempoolEntryError::MempoolEntry(e));
            },
        };
        converted.push((txid, relative));
    }
    Ok(converted)
}

impl GetMempoolEntry<ReadAmount> {
    /// Converts version specific type to a version nonspecific, more strongly typed type.
    pub fn into_model(self) -> (r: Result<model::GetMempoolEntry, MempoolEntryError>)
        ensures
            r is Ok <==> self.0.failure() is None,
            r matches Err(e) ==> self.0.failure() == Some(e@),
            r matches Ok(m) ==> self.0.converted_to(m.0),
    {
        match self.0.into_model() {
            Ok(e) => Ok(model::GetMempoolEntry(e)),
            Err(e) => Err(e),
        }
    }
}

/// Result of JSON-RPC method `getmempoolinfo` with verbose set to `true`.
///
/// > getmempoolinfo
/// >
/// > Returns details on the active state of the TX memory pool.
///
/// `R` is the type of the fee rates. Core writes them as JSON floating point numbers of BTC per
/// kvB; `into_model` takes them as read outside this library ([`ReadFeeRate`]).
#[derive(Clone, Debug, PartialEq)]
pub struct GetMempoolInfo<R> {
    /// True if the mempool is fully loaded.
    pub loaded: bool,
    /// Current transaction count.
    pub size: i64,
    /// Sum of all virtual transaction sizes as defined in BIP 141.
    ///
    /// Differs from actual serialized size because witness data is discounted.
    pub bytes: i64,
    /// Total memory usage for the mempool.
    pub usage: i64,
    /// Maximum memory usage for the mempool.
    pub max_mempool: i64,
    /// Minimum fee rate in BTC/kB for a transaction to be accepted.
    ///
    /// This is the maximum of `minrelaytxfee` and the minimum mempool fee.
    pub mempool_min_fee: R,
    /// Current minimum relay fee for transactions.
    pub min_relay_tx_fee: R,
}

/// Error when converting a `GetMempoolInfo` type into the model type.
#[derive(Debug)]
pub enum GetMempoolInfoError {
    /// Conversion of numeric type to expected type failed.
    Numeric(NumericError),
    /// Conversion of a fee rate failed.
    FeeRate(bitcoin::amount::ParseAmountError),
}

impl GetMempoolInfo<ReadFeeRate> {
    /// The first numeric field that does not fit a `u32`, in the order of conversion, and its
    /// error.
    pub open spec fn numeric_failure(&self) -> Option<NumericErrorView> {
        if !fits_u32(self.size) {
            Some(u32_error(self.size, "size"@))
        } else if !fits_u32(self.bytes) {
            Some(u32_error(self.bytes, "bytes"@))
        } else if !fits_u32(self.usage) {
            Some(u32_error(self.usage, "usage"@))
        } else if !fits_u32(self.max_mempool) {
            Some(u32_error(self.max_mempool, "max_mempool"@))
        } else {
            None
        }
    }

    /// Law: the numeric error reported is that of the first number, in the order of conversion,
    /// that does not fit a `u32`; where every number fits there is none.
    pub proof fn lemma_numeric_failure_is_first_bad_field(&self)
        ensures
            !(fits_u32(self.size)) ==> self.numeric_failure() == Some(u32_error(self.size, "size"@)),
            fits_u32(self.size) && !(fits_u32(self.bytes)) ==> self.numeric_failure() == Some(u32_error(self.bytes, "bytes"@)),
            fits_u32(self.size) && fits_u32(self.bytes) && !(fits_u32(self.usage)) ==> self.numeric_failure() == Some(u32_error(self.usage, "usage"@)),
            fits_u32(self.size) && fits_u32(self.bytes) && fits_u32(self.usage) && !(fits_u32(self.max_mempool)) ==> self.numeric_failure() == Some(u32_error(self.max_mempool, "max_mempool"@)),
            fits_u32(self.size) && fits_u32(self.bytes) && fits_u32(self.usage) && fits_u32(self.max_mempool) ==> self.numeric_failure() is None,
    {
    }

    /// Converts version specific type to a version nonspecific, more strongly typed type.
    ///
    /// The numeric fields are converted first, then the two fee rates; the first that fails
    /// gives the error.
    pub fn into_model(self) -> (r: Result<model::GetMempoolInfo, GetMempoolInfoError>)
        ensures
            match r {
                Ok(m) => {
                    &&& self.numeric_failure() is None
                    &&& self.mempool_min_fee == Ok::<Option<bitcoin::FeeRate>, bitcoin::amount::ParseAmountError>(m.mempool_min_fee)
                    &&& self.min_relay_tx_fee == Ok::<Option<bitcoin::FeeRate>, bitcoin::amount::ParseAmountError>(m.min_relay_tx_fee)
                    &&& m.loaded == Some(self.loaded)
                    &&& m.size == self.size
                    &&& m.bytes == self.bytes
                    &&& m.usage == self.usage
                    &&& m.total_fee is None
                    &&& m.max_mempool == self.max_mempool
                    &&& m.incremental_relay_fee is None
                    &&& m.unbroadcast_count is None
                    &&& m.full_rbf is None
                },
                Err(GetMempoolInfoError::Numeric(e)) => self.numeric_failure() == Some(e@),
                Err(GetMempoolInfoError::FeeRate(e)) => {
                    &&& self.numeric_failure() is None
                    &&& match self.mempool_min_fee {
                        Err(x) => x == e,
                        Ok(_) => self.min_relay_tx_fee == ReadFeeRate::Err(e),
                    }
                },
            },
    {
        let size = match to_u32(self.size, "size") {
            Ok(v) => v,
            Err(e) => return Err(GetMempoolInfoError::Numeric(e)),
        };
        let bytes = match to_u32(self.bytes, "bytes") {
            Ok(v) => v,
            Err(e) => return Err(GetMempoolInfoError::Numeric(e)),
        };
        let usage = match to_u32(self.usage, "usage") {
            Ok(v) => v,
            Err(e) => return Err(GetMempoolInfoError::Numeric(e)),
        };
        let max_mempool = match to_u32(self.max_mempool, "max_mempool") {
            Ok(v) => v,
            Err(e) => return Err(GetMempoolInfoError::Numeric(e)),
        };
        let mempool_min_fee = match self.mempool_min_fee {
            Ok(f) => f,
            Err(e) => return Err(GetMempoolInfoError::FeeRate(e)),
        };
        let min_relay_tx_fee = match self.min_relay_tx_fee {
            Ok(f) => f,
            Err(e) => return Err(GetMempoolInfoError::FeeRate(e)),
        };
        Ok(model::GetMempoolInfo {
            loaded: Some(self.loaded),
            size,
            bytes,
            usage,
            total_fee: None,
            max_mempool,
            mempool_min_fee,
            min_relay_tx_fee,
            incremental_relay_fee: None,
            unbroadcast_count: None,
            full_rbf: None,
        })
    }
}

} // verus!
