//! The JSON-RPC API for Bitcoin Core `v29` - descriptor activity (`getdescriptoractivity`, in the
//! `== Blockchain ==` section of the API docs).
use vstd::prelude::*;

use crate::address::{
    address_parse_result, address_parses, opt_address_from_str, parse_address, Address,
};
use crate::amount::ReadAmount;
use crate::hex::{
    array_hex_error, bytes_from_hex, bytes_hex_error, hash_from_hex, hex_decode, is_hash_hex,
    is_hex, opt_block_hash_from_str, opt_hash_from_hex, opt_is_hash_hex, txid_from_str,
};
use crate::model;
use crate::numeric::{
    opt_as_u32, opt_fits_u32, to_u32_opt, u32_error, NumericError, NumericErrorView,
};

verus! {

/// Result of JSON-RPC method `getdescriptoractivity`.
///
/// > getdescriptoractivity ( ["blockhash",...] [scanobjects,...] include_mempool )
/// >
/// > Arguments:
/// > 1. blockhashes  (json array, optional) The list of blockhashes to examine for activity. Order doesn't matter. Must be along main chain or an error is thrown.
/// > 2. scanobjects  (json array, optional) Array of scan objects. Required for "start" action
/// > 3. include_mempool  (boolean, optional, default=true) Whether to include unconfirmed activitydata
///
/// `A` is the type of the amounts. Core writes them as JSON floating point numbers of BTC;
/// `into_model` takes each as `bitcoin::Amount::from_btc` read it ([`ReadAmount`]), floating
/// point work that is done outside this library.
#[derive(Debug, Clone, PartialEq)]
pub struct GetDescriptorActivity<A> {
    pub activity: Vec<ActivityEntry<A>>,
}

/// A script pubkey.
#[derive(Clone, Debug, PartialEq, Eq)]
pub struct ScriptPubkey {
    /// Script assembly.
    pub assembly: String,
    /// Script hex.
    pub hex: String,
    /// The type, eg pubkeyhash.
    pub type_: String,
    /// bitcoin address.
    pub address: Option<String>,
}

/// Represents a 'spend' activity event.
#[derive(Debug, Clone, PartialEq)]
pub struct SpendActivity<A> {
    /// The total amount in BTC of the spent output
    pub amount: A,
    /// The blockhash
    pub block_hash: Option<String>,
    /// Height of the spend
    pub height: Option<i64>,
    /// The txid of the spending transaction
    pub spend_txid: String,
    /// The vout of the spend
    pub spend_vout: u32,
    /// The txid of the prevout
    pub prevout_txid: String,
    /// The vout of the spend
    pub prevout_vout: u32,
    /// The prev scriptPubKey
    pub prevout_spk: ScriptPubkey,
}

/// Represents a 'receive' activity event.
#[derive(Debug, Clone, PartialEq)]
pub struct ReceiveActivity<A> {
    /// The total amount in BTC of the new output
    pub amount: A,
    /// The block that this receive is in
    pub block_hash: Option<String>,
    /// The height of the receive
    pub height: Option<i64>,
    /// The txid of the receiving transaction
    pub txid: String,
    /// The vout of the receiving output
    pub vout: u32,
    /// The ScriptPubKey
    pub output_spk: ScriptPubkey,
}

/// Enum representing either a spend or receive activity entry.
#[derive(Debug, Clone, PartialEq)]
pub enum ActivityEntry<A> {
    /// The spend activity
    Spend(SpendActivity<A>),
    /// The receive activity
    Receive(ReceiveActivity<A>),
}

/// Error when converting a `GetDescriptorActivity` type into the model type.
#[derive(Debug)]
pub enum GetDescriptorActivityError {
    /// Conversion of an `amount` field failed.
    Amount(bitcoin::amount::ParseAmountError),
    /// Conversion of a hash field failed.
    Hash(bitcoin::hex::HexToArrayError),
    /// Conversion of numeric type to expected type failed.
    Numeric(NumericError),
    /// Conversion of a script pubkey of an activity entry failed.
    ActivityEntry(Box<GetDescriptorActivityError>),
    /// Conversion of a script's hex failed.
    Script(bitcoin::hex::HexToBytesError),
    /// Conversion of an address failed.
    Address(bitcoin::address::ParseError),
}

/// Which conversion a [`GetDescriptorActivityError`] reports, with the error it carries.
pub enum GetDescriptorActivityErrorView {
    Amount(bitcoin::amount::ParseAmountError),
    Hash(bitcoin::hex::HexToArrayError),
    Numeric(NumericErrorView),
    ActivityEntry(Box<GetDescriptorActivityErrorView>),
    Script(bitcoin::hex::HexToBytesError),
    Address(bitcoin::address::ParseError),
}

/// The view of `e`, through the boxes it nests.
pub open spec fn descriptor_activity_error_view(e: GetDescriptorActivityError) -> GetDescriptorActivityErrorView
    decreases e,
{
    match e {
        GetDescriptorActivityError::Amount(a) => GetDescriptorActivityErrorView::Amount(a),
        GetDescriptorActivityError::Hash(h) => GetDescriptorActivityErrorView::Hash(h),
        GetDescriptorActivityError::Numeric(n) => GetDescriptorActivityErrorView::Numeric(n@),
        GetDescriptorActivityError::ActivityEntry(b) => GetDescriptorActivityErrorView::ActivityEntry(
            Box::new(descriptor_activity_error_view(*b)),
        ),
        GetDescriptorActivityError::Script(x) => GetDescriptorActivityErrorView::Script(x),
        GetDescriptorActivityError::Address(a) => GetDescriptorActivityErrorView::Address(a),
    }
}

impl View for GetDescriptorActivityError {
    type V = GetDescriptorActivityErrorView;

    open spec fn view(&self) -> GetDescriptorActivityErrorView {
        descriptor_activity_error_view(*self)
    }
}

/// What converting `spk` fails on, if anything: its hex, then its address.
pub open spec fn script_pubkey_failure(spk: ScriptPubkey) -> Option<GetDescriptorActivityErrorView> {
    if !is_hex(spk.hex@) {
        Some(GetDescriptorActivityErrorView::Script(bytes_hex_error(spk.hex@)))
    } else if spk.address matches Some(a) && !address_parses(a@) {
        Some(GetDescriptorActivityErrorView::Address(address_parse_result(spk.address->0@)->Err_0))
    } else {
        None
    }
}

/// `m` holds the values of `spk`, converted: the script bytes decoded from the hex, and the
/// address read from `spk`'s exactly where `spk` has one.
pub open spec fn script_pubkey_converted(spk: ScriptPubkey, m: model::ScriptPubkey) -> bool {
    &&& m.assembly@ == spk.assembly@
    &&& m.hex@ == hex_decode(spk.hex@)
    &&& m.type_@ == spk.type_@
    &&& m.address == opt_address_from_str(spk.address)
}

/// Converts the script pubkey of an activity entry into the model type.
fn convert_script_pubkey(spk: ScriptPubkey) -> (r: Result<model::ScriptPubkey, GetDescriptorActivityError>)
    ensures
        r is Ok <==> script_pubkey_failure(spk) is None,
        r matches Err(e) ==> script_pubkey_failure(spk) == Some(e@),
        r matches Ok(m) ==> script_pubkey_converted(spk, m),
{
    let hex = match bytes_from_hex(spk.hex.as_str()) {
        Ok(b) => b,
        Err(e) => return Err(GetDescriptorActivityError::Script(e)),
    };
    let address = match &spk.address {
        Some(a) => match parse_address(a.as_str()) {
            Ok(addr) => Some(addr),
            Err(e) => return Err(GetDescriptorActivityError::Address(e)),
        },
        None => None,
    };
    Ok(model::ScriptPubkey { assembly: spk.assembly, hex, type_: spk.type_, address })
}

/// The failure of converting a script pubkey, as an activity entry reports it.
pub open spec fn entry_script_failure(spk: ScriptPubkey) -> Option<GetDescriptorActivityErrorView> {
    match script_pubkey_failure(spk) {
        Some(f) => Some(GetDescriptorActivityErrorView::ActivityEntry(Box::new(f))),
        None => None,
    }
}

/// The first conversion of a spend that fails: the amount, the block hash, the height, the spend
/// txid, the prevout txid, then the prevout script pubkey.
pub open spec fn spend_failure(s: SpendActivity<ReadAmount>) -> Option<GetDescriptorActivityErrorView> {
    if let Err(e) = s.amount {
        Some(GetDescriptorActivityErrorView::Amount(e))
    } else if !opt_is_hash_hex(s.block_hash) {
        Some(GetDescriptorActivityErrorView::Hash(array_hex_error(s.block_hash->0@)))
    } else if !opt_fits_u32(s.height) {
        Some(GetDescriptorActivityErrorView::Numeric(u32_error(s.height->0, "height"@)))
    } else if !is_hash_hex(s.spend_txid@) {
        Some(GetDescriptorActivityErrorView::Hash(array_hex_error(s.spend_txid@)))
    } else if !is_hash_hex(s.prevout_txid@) {
        Some(GetDescriptorActivityErrorView::Hash(array_hex_error(s.prevout_txid@)))
    } else {
        entry_script_failure(s.prevout_spk)
    }
}

/// The first conversion of a receive that fails: the amount, the block hash, the height, the
/// txid, then the output script pubkey.
pub open spec fn receive_failure(r: ReceiveActivity<ReadAmount>) -> Option<GetDescriptorActivityErrorView> {
    if let Err(e) = r.amount {
        Some(GetDescriptorActivityErrorView::Amount(e))
    } else if !opt_is_hash_hex(r.block_hash) {
        Some(GetDescriptorActivityErrorView::Hash(array_hex_error(r.block_hash->0@)))
    } else if !opt_fits_u32(r.height) {
        Some(GetDescriptorActivityErrorView::Numeric(u32_error(r.height->0, "height"@)))
    } else if !is_hash_hex(r.txid@) {
        Some(GetDescriptorActivityErrorView::Hash(array_hex_error(r.txid@)))
    } else {
        entry_script_failure(r.output_spk)
    }
}

/// The first conversion of an activity entry that fails, if any.
pub open spec fn entry_failure(e: ActivityEntry<ReadAmount>) -> Option<GetDescriptorActivityErrorView> {
    match e {
        ActivityEntry::Spend(s) => spend_failure(s),
        ActivityEntry::Receive(r) => receive_failure(r),
    }
}

/// `m` is the entry `e`, converted: of the same kind, its amount the one read, its hashes decoded
/// and its numbers and script pubkey converted.
pub open spec fn entry_converted(e: ActivityEntry<ReadAmount>, m: model::ActivityEntry) -> bool {
    match (e, m) {
        (ActivityEntry::Spend(s), model::ActivityEntry::Spend(t)) => {
            &&& s.amount == Ok::<bitcoin::Amount, bitcoin::amount::ParseAmountError>(t.amount)
            &&& opt_hash_from_hex(s.block_hash, t.block_hash)
            &&& t.height == opt_as_u32(s.height)
            &&& t.spend_txid@ == hash_from_hex(s.spend_txid@)
            &&& t.spend_vout == s.spend_vout
            &&& t.prevout_txid@ == hash_from_hex(s.prevout_txid@)
            &&& t.prevout_vout == s.prevout_vout
            &&& script_pubkey_converted(s.prevout_spk, t.prevout_spk)
        },
        (ActivityEntry::Receive(r), model::ActivityEntry::Receive(t)) => {
            &&& r.amount == Ok::<bitcoin::Amount, bitcoin::amount::ParseAmountError>(t.amount)
            &&& opt_hash_from_hex(r.block_hash, t.block_hash)
            &&& t.height == opt_as_u32(r.height)
            &&& t.txid@ == hash_from_hex(r.txid@)
            &&& t.vout == r.vout
            &&& script_pubkey_converted(r.output_spk, t.output_spk)
        },
        _ => false,
    }
}

/// Law: a converted script pubkey is the input's assembly, type and decoded hex, and it holds an
/// address exactly where the input has one: the address read from the input's string.
pub proof fn lemma_script_pubkey_carries_fields(spk: ScriptPubkey, m: model::ScriptPubkey)
    requires
        script_pubkey_converted(spk, m),
        script_pubkey_failure(spk) is None,
    ensures
        m.assembly@ == spk.assembly@,
        m.hex@ == hex_decode(spk.hex@),
        m.type_@ == spk.type_@,
        m.address is Some <==> spk.address is Some,
        spk.address matches Some(a) ==> address_parse_result(a@) == Ok::<Address, bitcoin::address::ParseError>(m.address->0),
{
}

/// Law: an activity entry converts to an entry of the same kind that reports the activity as the
/// input gives it: the amount read, the block hash and height exactly where the input has them,
/// the txids written in hex, the same output indexes, and the script pubkey with its hex decoded
/// and its address, where the input has one, read from the input's string.
pub proof fn lemma_entry_converted_carries_fields(e: ActivityEntry<ReadAmount>, m: model::ActivityEntry)
    requires
        entry_converted(e, m),
        entry_failure(e) is None,
    ensures
        e is Spend <==> m is Spend,
        e is Receive <==> m is Receive,
        e matches ActivityEntry::Spend(s) ==> m matches model::ActivityEntry::Spend(t) && {
            &&& s.amount == ReadAmount::Ok(t.amount)
            &&& (t.block_hash is Some <==> s.block_hash is Some)
            &&& (s.block_hash matches Some(h) ==> t.block_hash->0@ == hash_from_hex(h@))
            &&& (t.height is Some <==> s.height is Some)
            &&& (s.height matches Some(h) ==> t.height->0 == h)
            &&& t.spend_txid@ == hash_from_hex(s.spend_txid@)
            &&& t.spend_vout == s.spend_vout
            &&& t.prevout_txid@ == hash_from_hex(s.prevout_txid@)
            &&& t.prevout_vout == s.prevout_vout
            &&& t.prevout_spk.assembly@ == s.prevout_spk.assembly@
            &&& t.prevout_spk.hex@ == hex_decode(s.prevout_spk.hex@)
            &&& t.prevout_spk.type_@ == s.prevout_spk.type_@
            &&& (t.prevout_spk.address is Some <==> s.prevout_spk.address is Some)
            &&& (s.prevout_spk.address matches Some(a) ==> address_parse_result(a@) == Ok::<Address, bitcoin::address::ParseError>(
                t.prevout_spk.address->0,
            ))
        },
        e matches ActivityEntry::Receive(r) ==> m matches model::ActivityEntry::Receive(t) && {
            &&& r.amount == ReadAmount::Ok(t.amount)
            &&& (t.block_hash is Some <==> r.block_hash is Some)
            &&& (r.block_hash matches Some(h) ==> t.block_hash->0@ == hash_from_hex(h@))
            &&& (t.height is Some <==> r.height is Some)
            &&& (r.height matches Some(h) ==> t.height->0 == h)
            &&& t.txid@ == hash_from_hex(r.txid@)
            &&& t.vout == r.vout
            &&& t.output_spk.assembly@ == r.output_spk.assembly@
            &&& t.output_spk.hex@ == hex_decode(r.output_spk.hex@)
            &&& t.output_spk.type_@ == r.output_spk.type_@
            &&& (t.output_spk.address is Some <==> r.output_spk.address is Some)
            &&& (r.output_spk.address matches Some(a) ==> address_parse_result(a@) == Ok::<Address, bitcoin::address::ParseError>(
                t.output_spk.address->0,
            ))
        },
{
}

/// Law: an activity entry converts exactly when each of its fields does: the amount was read,
/// the block hash (where there is one) and the txids are 64 hex digits, the height (where there
/// is one) fits a `u32`, the script's hex is hex and its address (where there is one) parses.
pub proof fn lemma_entry_failure_iff_bad_field(e: ActivityEntry<ReadAmount>)
    ensures
        e matches ActivityEntry::Spend(s) ==> (entry_failure(e) is None <==> {
            &&& s.amount is Ok
            &&& opt_is_hash_hex(s.block_hash)
            &&& opt_fits_u32(s.height)
            &&& is_hash_hex(s.spend_txid@)
            &&& is_hash_hex(s.prevout_txid@)
            &&& is_hex(s.prevout_spk.hex@)
            &&& (s.prevout_spk.address matches Some(a) ==> address_parse_result(a@) is Ok)
        }),
        e matches ActivityEntry::Receive(r) ==> (entry_failure(e) is None <==> {
            &&& r.amount is Ok
            &&& opt_is_hash_hex(r.block_hash)
            &&& opt_fits_u32(r.height)
            &&& is_hash_hex(r.txid@)
            &&& is_hex(r.output_spk.hex@)
            &&& (r.output_spk.address matches Some(a) ==> address_parse_result(a@) is Ok)
        }),
        entry_failure(e) matches Some(GetDescriptorActivityErrorView::Amount(x)) ==> match e {
            ActivityEntry::Spend(s) => s.amount == ReadAmount::Err(x),
            ActivityEntry::Receive(r) => r.amount == ReadAmount::Err(x),
        },
{
}

/// Law: the error reported is that of the first field, in the order of conversion, that does
/// not convert; where every field converts there is none.
pub proof fn lemma_spend_failure_is_first_bad_field(s: SpendActivity<ReadAmount>)
    ensures
        !(s.amount is Ok) ==> spend_failure(s) == Some(GetDescriptorActivityErrorView::Amount(s.amount->Err_0)),
        s.amount is Ok && !(opt_is_hash_hex(s.block_hash)) ==> spend_failure(s) == Some(GetDescriptorActivityErrorView::Hash(array_hex_error(s.block_hash->0@))),
        s.amount is Ok && opt_is_hash_hex(s.block_hash) && !(opt_fits_u32(s.height)) ==> spend_failure(s) == Some(GetDescriptorActivityErrorView::Numeric(u32_error(s.height->0, "height"@))),
        s.amount is Ok && opt_is_hash_hex(s.block_hash) && opt_fits_u32(s.height) && !(is_hash_hex(s.spend_txid@)) ==> spend_failure(s) == Some(GetDescriptorActivityErrorView::Hash(array_hex_error(s.spend_txid@))),
        s.amount is Ok && opt_is_hash_hex(s.block_hash) && opt_fits_u32(s.height) && is_hash_hex(s.spend_txid@) && !(is_hash_hex(s.prevout_txid@)) ==> spend_failure(s) == Some(GetDescriptorActivityErrorView::Hash(array_hex_error(s.prevout_txid@))),
        s.amount is Ok && opt_is_hash_hex(s.block_hash) && opt_fits_u32(s.height) && is_hash_hex(s.spend_txid@) && is_hash_hex(s.prevout_txid@) && !(is_hex(s.prevout_spk.hex@)) ==> spend_failure(s) == Some(GetDescriptorActivityErrorView::ActivityEntry(Box::new(GetDescriptorActivityErrorView::Script(bytes_hex_error(s.prevout_spk.hex@))))),
        s.amount is Ok && opt_is_hash_hex(s.block_hash) && opt_fits_u32(s.height) && is_hash_hex(s.spend_txid@) && is_hash_hex(s.prevout_txid@) && is_hex(s.prevout_spk.hex@) && !((s.prevout_spk.address matches Some(a) ==> address_parses(a@))) ==> spend_failure(s) == Some(GetDescriptorActivityErrorView::ActivityEntry(Box::new(GetDescriptorActivityErrorView::Address(address_parse_result(s.prevout_spk.address->0@)->Err_0)))),
        s.amount is Ok && opt_is_hash_hex(s.block_hash) && opt_fits_u32(s.height) && is_hash_hex(s.spend_txid@) && is_hash_hex(s.prevout_txid@) && is_hex(s.prevout_spk.hex@) && (s.prevout_spk.address matches Some(a) ==> address_parses(a@)) ==> spend_failure(s) is None,
{
}

/// Law: the error reported is that of the first field, in the order of conversion, that does
/// not convert; where every field converts there is none.
pub proof fn lemma_receive_failure_is_first_bad_field(r: ReceiveActivity<ReadAmount>)
    ensures
        !(r.amount is Ok) ==> receive_failure(r) == Some(GetDescriptorActivityErrorView::Amount(r.amount->Err_0)),
        r.amount is Ok && !(opt_is_hash_hex(r.block_hash)) ==> receive_failure(r) == Some(GetDescriptorActivityErrorView::Hash(array_hex_error(r.block_hash->0@))),
        r.amount is Ok && opt_is_hash_hex(r.block_hash) && !(opt_fits_u32(r.height)) ==> receive_failure(r) == Some(GetDescriptorActivityErrorView::Numeric(u32_error(r.height->0, "height"@))),
        r.amount is Ok && opt_is_hash_hex(r.block_hash) && opt_fits_u32(r.height) && !(is_hash_hex(r.txid@)) ==> receive_failure(r) == Some(GetDescriptorActivityErrorView::Hash(array_hex_error(r.txid@))),
        r.amount is Ok && opt_is_hash_hex(r.block_hash) && opt_fits_u32(r.height) && is_hash_hex(r.txid@) && !(is_hex(r.output_spk.hex@)) ==> receive_failure(r) == Some(GetDescriptorActivityErrorView::ActivityEntry(Box::new(GetDescriptorActivityErrorView::Script(bytes_hex_error(r.output_spk.hex@))))),
        r.amount is Ok && opt_is_hash_hex(r.block_hash) && opt_fits_u32(r.height) && is_hash_hex(r.txid@) && is_hex(r.output_spk.hex@) && !((r.output_spk.address matches Some(a) ==> address_parses(a@))) ==> receive_failure(r) == Some(GetDescriptorActivityErrorView::ActivityEntry(Box::new(GetDescriptorActivityErrorView::Address(address_parse_result(r.output_spk.address->0@)->Err_0)))),
        r.amount is Ok && opt_is_hash_hex(r.block_hash) && opt_fits_u32(r.height) && is_hash_hex(r.txid@) && is_hex(r.output_spk.hex@) && (r.output_spk.address matches Some(a) ==> address_parses(a@)) ==> receive_failure(r) is None,
{
}

/// Converts one activity entry.
fn convert_entry(entry: ActivityEntry<ReadAmount>) -> (r: Result<model::ActivityEntry, GetDescriptorActivityError>)
    ensures
        r is Ok <==> entry_failure(entry) is None,
        r matches Err(e) ==> entry_failure(entry) == Some(e@),
        r matches Ok(m) ==> entry_converted(entry, m),
{
    match entry {
        ActivityEntry::Spend(spend) => {
            let amount = match spend.amount {
                Ok(a) => a,
                Err(e) => return Err(GetDescriptorActivityError::Amount(e)),
            };
            let block_hash = match opt_block_hash_from_str(&spend.block_hash) {
                Ok(h) => h,
                Err(e) => return Err(GetDescriptorActivityError::Hash(e)),
            };
            let height = match to_u32_opt(spend.height, "height") {
                Ok(h) => h,
                Err(e) => return Err(GetDescriptorActivityError::Numeric(e)),
            };
            let spend_txid = match txid_from_str(spend.spend_txid.as_str()) {
                Ok(h) => h,
                Err(e) => return Err(GetDescriptorActivityError::Hash(e)),
            };
            let prevout_txid = match txid_from_str(spend.prevout_txid.as_str()) {
                Ok(h) => h,
                Err(e) => return Err(GetDescriptorActivityError::Hash(e)),
            };
            let prevout_spk = match convert_script_pubkey(spend.prevout_spk) {
                Ok(s) => s,
                Err(e) => return Err(GetDescriptorActivityError::ActivityEntry(Box::new(e))),
            };
            Ok(model::ActivityEntry::Spend(model::SpendActivity {
                amount,
                block_hash,
                height,
                spend_txid,
                spend_vout: spend.spend_vout,
                prevout_txid,
                prevout_vout: spend.prevout_vout,
                prevout_spk,
            }))
        },
        ActivityEntry::Receive(receive) => {
            let amount = match receive.amount {
                Ok(a) => a,
                Err(e) => return Err(GetDescriptorActivityError::Amount(e)),
            };
            let block_hash = match opt_block_hash_from_str(&receive.block_hash) {
                Ok(h) => h,
                Err(e) => return Err(GetDescriptorActivityError::Hash(e)),
            };
            let height = match to_u32_opt(receive.height, "height") {
                Ok(h) => h,
                Err(e) => return Err(GetDescriptorActivityError::Numeric(e)),
            };
            let txid = match txid_from_str(receive.txid.as_str()) {
                Ok(h) => h,
                Err(e) => return Err(GetDescriptorActivityError::Hash(e)),
            };
            let output_spk = match convert_script_pubkey(receive.output_spk) {
                Ok(s) => s,
                Err(e) => return Err(GetDescriptorActivityError::ActivityEntry(Box::new(e))),
            };
            Ok(model::ActivityEntry::Receive(model::ReceiveActivity {
                amount,
                block_hash,
                height,
                txid,
                vout: receive.vout,
                output_spk,
            }))
        },
    }
}

impl GetDescriptorActivity<ReadAmount> {
    /// Converts the raw JSON-RPC `GetDescriptorActivity` type into the strongly-typed model version.
    ///
    /// The entries are converted in order; the first that fails gives the error.
    pub fn into_model(self) -> (r: Result<model::GetDescriptorActivity, GetDescriptorActivityError>)
        ensures
            r is Ok <==> forall|i: int|
                0 <= i < self.activity@.len() ==> (#[trigger] entry_failure(self.activity@[i])) is None,
            r matches Err(e) ==> exists|i: int|
                0 <= i < self.activity@.len() && (forall|j: int|
                    0 <= j < i ==> (#[trigger] entry_failure(self.activity@[j])) is None)
                    && entry_failure(#[trigger] self.activity@[i]) == Some(e@),
            r matches Ok(m) ==> {
                &&& m.activity@.len() == self.activity@.len()
                &&& forall|i: int|
                    0 <= i < self.activity@.len() ==> #[trigger] entry_converted(
                        self.activity@[i],
                        m.activity@[i],
                    )
            },
    {
        let ghost entries = self.activity@;
        let mut activity: Vec<model::ActivityEntry> = Vec::new();
        for entry in it: self.activity.into_iter()
            invariant
                it.seq() == entries,
                activity@.len() == it.index(),
                forall|j: int| 0 <= j < it.index() ==> (#[trigger] entry_failure(entries[j])) is None,
                forall|j: int|
                    0 <= j < it.index() ==> #[trigger] entry_converted(entries[j], activity@[j]),
        {
            match convert_entry(entry) {
                Ok(m) => activity.push(m),
                Err(e) => return Err(e),
            }
        }
        Ok(model::GetDescriptorActivity { activity })
    }
}

} // verus!
