//! The JSON-RPC API for Bitcoin Core `v19` - `scantxoutset`, of the `== Blockchain ==` section of
//! the API docs.
use vstd::prelude::*;

use crate::amount::ReadAmount;
use crate::hex::{
    array_hex_error, block_hash_from_str, bytes_from_hex, bytes_hex_error, hash_from_hex,
    hex_decode, is_hash_hex, is_hex, txid_from_str,
};
use crate::model;

verus! {

/// Result of JSON-RPC method `scantxoutset`.
///
/// > scantxoutset "action" ( [scanobjects,...] )
/// >
/// > Arguments:
/// > 1. action                        (string, required) The action to execute
/// > 2. scanobjects                   (json array, required) Array of scan objects
///
/// `A` is the type of the BTC amounts. Core writes them as JSON floating point numbers;
/// `into_model` takes each as `bitcoin::Amount::from_btc` read it ([`ReadAmount`]), floating
/// point work that is done outside this library.
#[derive(Clone, Debug, PartialEq)]
pub struct ScanTxOutSetStart<A> {
    /// Whether the scan is completed
    pub success: bool,
    /// The number of unspent transaction outputs scanned
    pub txouts: u64,
    /// The current block height (index)
    pub height: u64,
    /// The hash of the block at the tip of the chain
    pub best_block: String,
    /// The unspents
    pub unspents: Vec<ScanTxOutSetUnspent<A>>,
    /// The total amount of all found unspent outputs in BTC
    pub total_amount: A,
}

/// Result of JSON-RPC method `scantxoutset`, for each action.
///
/// `A` is the type of the BTC amounts (see [`ScanTxOutSetStart`]); `F` is that of the progress,
/// which Core writes as a JSON floating point number.
#[derive(Debug, Clone, PartialEq)]
pub enum ScanTxOutSet<A, F> {
    /// Returns after scan completes.
    Start(ScanTxOutSetStart<A>),
    /// True (scan will be aborted), False (no scan to abort).
    Abort(bool),
    /// Scan in progress or Completed.
    Status(Option<ScanTxOutSetStatus<F>>),
}

/// The progress of a scan.
#[derive(Debug, Clone, PartialEq)]
pub struct ScanTxOutSetStatus<F> {
    /// Approximate percent complete
    pub progress: F,
}

/// An unspent output found by a scan.
#[derive(Clone, Debug, PartialEq)]
pub struct ScanTxOutSetUnspent<A> {
    /// The transaction id
    pub txid: String,
    /// The vout value
    pub vout: u32,
    /// The script key
    pub script_pubkey: String,
    /// An output descriptor
    pub descriptor: String,
    /// The total amount in BTC of unspent output
    pub amount: A,
    /// Whether this is a coinbase output
    pub coinbase: bool,
    /// Height of the unspent transaction output
    pub height: u64,
}

/// Error when converting a `ScanTxOutSet` type into the model type.
#[derive(Debug)]
pub enum ScanTxOutSetError {
    /// Conversion of the `bestblock` field failed.
    BestBlockHash(bitcoin::hex::HexToArrayError),
    /// Conversion of the `txid` field failed.
    Txid(bitcoin::hex::HexToArrayError),
    /// Conversion of the `amount` field failed.
    Amount(bitcoin::amount::ParseAmountError),
    /// Conversion of the `scriptPubKey` field failed.
    ScriptPubKey(bitcoin::hex::HexToBytesError),
    /// Conversion of the `blockhash` field failed.
    BlockHash(bitcoin::hex::HexToArrayError),
    /// Conversion of the `total_amount` field failed.
    TotalAmount(bitcoin::amount::ParseAmountError),
}

/// Which conversion a [`ScanTxOutSetError`] reports, with the error it carries.
pub enum ScanTxOutSetErrorView {
    BestBlockHash(bitcoin::hex::HexToArrayError),
    Txid(bitcoin::hex::HexToArrayError),
    Amount(bitcoin::amount::ParseAmountError),
    ScriptPubKey(bitcoin::hex::HexToBytesError),
    BlockHash(bitcoin::hex::HexToArrayError),
    TotalAmount(bitcoin::amount::ParseAmountError),
}

impl View for ScanTxOutSetError {
    type V = ScanTxOutSetErrorView;

    open spec fn view(&self) -> ScanTxOutSetErrorView {
        match self {
            ScanTxOutSetError::BestBlockHash(e) => ScanTxOutSetErrorView::BestBlockHash(*e),
            ScanTxOutSetError::Txid(e) => ScanTxOutSetErrorView::Txid(*e),
            ScanTxOutSetError::Amount(e) => ScanTxOutSetErrorView::Amount(*e),
            ScanTxOutSetError::ScriptPubKey(e) => ScanTxOutSetErrorView::ScriptPubKey(*e),
            ScanTxOutSetError::BlockHash(e) => ScanTxOutSetErrorView::BlockHash(*e),
            ScanTxOutSetError::TotalAmount(e) => ScanTxOutSetErrorView::TotalAmount(*e),
        }
    }
}


impl ScanTxOutSetUnspent<ReadAmount> {
    /// The first conversion that fails: the txid, the amount, then the script.
    pub open spec fn failure(&self) -> Option<ScanTxOutSetErrorView> {
        if !is_hash_hex(self.txid@) {
            Some(ScanTxOutSetErrorView::Txid(array_hex_error(self.txid@)))
        } else if let Err(e) = self.amount {
            Some(ScanTxOutSetErrorView::Amount(e))
        } else if !is_hex(self.script_pubkey@) {
            Some(ScanTxOutSetErrorView::ScriptPubKey(bytes_hex_error(self.script_pubkey@)))
        } else {
            None
        }
    }

    /// `m` holds the values of `self`, each converted. Whether the output is a coinbase one is
    /// not carried over, and this version reports no block hash nor confirmations.
    pub open spec fn converted_to(&self, m: model::ScanTxOutSetUnspent) -> bool {
        &&& m.txid@ == hash_from_hex(self.txid@)
        &&& m.vout == self.vout
        &&& m.script_pubkey@ == hex_decode(self.script_pubkey@)
        &&& m.desc matches Some(d) && d@ == self.descriptor@
        &&& self.amount == Ok::<bitcoin::Amount, bitcoin::amount::ParseAmountError>(m.amount)
        &&& m.coinbase is None
        &&& m.height == self.height
        &&& m.blockhash is None
        &&& m.confirmations is None
    }

    /// Law: a converted unspent output is the one the input describes: its txid written in hex,
    /// the same output index and height, its script decoded from hex, its descriptor, and the
    /// amount read.
    pub proof fn lemma_converted_carries_fields(&self, m: model::ScanTxOutSetUnspent)
        requires
            self.converted_to(m),
        ensures
            m.txid@ == hash_from_hex(self.txid@),
            m.vout == self.vout,
            m.script_pubkey@ == hex_decode(self.script_pubkey@),
            m.desc is Some && m.desc->0@ == self.descriptor@,
            self.amount matches Ok(a) && a == m.amount,
            m.height == self.height,
            m.coinbase is None,
            m.blockhash is None,
            m.confirmations is None,
    {
    }

    /// Law: the conversion fails exactly when the txid is not 64 hex digits, the amount was not
    /// read or the script is not hex, and the error is that of the first of these.
    pub proof fn lemma_failure_names_bad_field(&self)
        ensures
            self.failure() is None <==> (is_hash_hex(self.txid@) && self.amount is Ok && is_hex(
                self.script_pubkey@,
            )),
            !is_hash_hex(self.txid@) ==> self.failure() == Some(
                ScanTxOutSetErrorView::Txid(array_hex_error(self.txid@)),
            ),
            self.amount matches Err(e) ==> (is_hash_hex(self.txid@) ==> self.failure() == Some(
                ScanTxOutSetErrorView::Amount(e),
            )),
            is_hash_hex(self.txid@) && self.amount is Ok && !is_hex(self.script_pubkey@)
                ==> self.failure() == Some(
                ScanTxOutSetErrorView::ScriptPubKey(bytes_hex_error(self.script_pubkey@)),
            ),
    {
    }

    /// Converts version specific type to a version nonspecific, more strongly typed type.
    pub fn into_model(self) -> (r: Result<model::ScanTxOutSetUnspent, ScanTxOutSetError>)
        ensures
            r is Ok <==> self.failure() is None,
            r matches Err(e) ==> self.failure() == Some(e@),
            r matches Ok(m) ==> self.converted_to(m),
    {
        let txid = match txid_from_str(self.txid.as_str()) {
            Ok(h) => h,
            Err(e) => return Err(ScanTxOutSetError::Txid(e)),
        };
        let amount = match self.amount {
            Ok(a) => a,
            Err(e) => return Err(ScanTxOutSetError::Amount(e)),
        };
        let script_pubkey = match bytes_from_hex(self.script_pubkey.as_str()) {
            Ok(b) => b,
            Err(e) => return Err(ScanTxOutSetError::ScriptPubKey(e)),
        };
        Ok(model::ScanTxOutSetUnspent {
            txid,
            vout: self.vout,
            script_pubkey,
            desc: Some(self.descriptor),
            amount,
            coinbase: None,
            height: self.height,
            blockhash: None,
            confirmations: None,
        })
    }
}

impl ScanTxOutSetStart<ReadAmount> {
    /// The first conversion that fails: the best block hash, the unspents in order, then the
    /// total amount.
    pub open spec fn failure(&self) -> Option<ScanTxOutSetErrorView> {
        if !is_hash_hex(self.best_block@) {
            Some(ScanTxOutSetErrorView::BestBlockHash(array_hex_error(self.best_block@)))
        } else if exists|i: int|
            0 <= i < self.unspents@.len() && (#[trigger] self.unspents@[i]).failure() is Some {
            let i = choose|i: int|
                0 <= i < self.unspents@.len() && (#[trigger] self.unspents@[i]).failure() is Some
                    && forall|j: int|
                    0 <= j < i ==> (#[trigger] self.unspents@[j]).failure() is None;
            self.unspents@[i].failure()
        } else if let Err(e) = self.total_amount {
            Some(ScanTxOutSetErrorView::TotalAmount(e))
        } else {
            None
        }
    }

    /// Converts version specific type to a version nonspecific, more strongly typed type.
    pub fn into_model(self) -> (r: Result<model::ScanTxOutSetStart, ScanTxOutSetError>)
        ensures
            r is Ok <==> self.failure() is None,
            r matches Err(e) ==> self.failure() == Some(e@),
            r matches Ok(m) ==> {
                &&& m.success == Some(self.success)
                &&& m.txouts == Some(self.txouts)
                &&& m.height == Some(self.height)
                &&& m.bestblock matches Some(b) && b@ == hash_from_hex(self.best_block@)
                &&& m.unspents@.len() == self.unspents@.len()
                &&& forall|i: int|
                    0 <= i < self.unspents@.len() ==> (#[trigger] self.unspents@[i]).converted_to(
                        m.unspents@[i],
                    )
                &&& self.total_amount == Ok::<bitcoin::Amount, bitcoin::amount::ParseAmountError>(
                    m.total_amount,
                )
            },
    {
        let bestblock = match block_hash_from_str(self.best_block.as_str()) {
            Ok(h) => h,
            Err(e) => return Err(ScanTxOutSetError::BestBlockHash(e)),
        };
        let ghost found = self.unspents@;
        let mut unspents: Vec<model::ScanTxOutSetUnspent> = Vec::new();
        for u in it: self.unspents.into_iter()
            invariant
                it.seq() == found,
                found == self.unspents@,
                is_hash_hex(self.best_block@),
                unspents@.len() == it.index(),
                forall|j: int| 0 <= j < it.index() ==> (#[trigger] found[j]).failure() is None,
                forall|j: int| 0 <= j < it.index() ==> (#[trigger] found[j]).converted_to(unspents@[j]),
        {
            match u.into_model() {
                Ok(m) => unspents.push(m),
                Err(e) => {
                    proof {
                        let k = it.index() as int;
                        assert(found[k].failure() is Some);
                        let i = choose|i: int|
                            0 <= i < found.len() && (#[trigger] found[i]).failure() is Some
                                && forall|j: int| 0 <= j < i ==> (#[trigger] found[j]).failure() is None;
                        if i < k {
                            assert(found[i].failure() is None);
                        }
                        if i > k {
                            assert(found[k].failure() is None);
                        }
                    }
                    return Err(e);
                },
            }
        }
        let total_amount = match self.total_amount {
            Ok(a) => a,
            Err(e) => return Err(ScanTxOutSetError::TotalAmount(e)),
        };
        Ok(model::ScanTxOutSetStart {
            success: Some(self.success),
            txouts: Some(self.txouts),
            height: Some(self.height),
            bestblock: Some(bestblock),
            unspents,
            total_amount,
        })
    }
}

} // verus!
