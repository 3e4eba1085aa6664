//! The JSON-RPC API for Bitcoin Core `v0.17` - wallet.
//!
//! Types for methods found under the `== Wallet ==` section of the API docs.
use vstd::prelude::*;

use std::collections::BTreeMap;

use crate::hex::{array_hex_error, hash_from_hex, is_hash_hex, txid_from_str};
use crate::keys::{private_key_from_wif, wif_parses, wif_private_key, wif_result};
use crate::model;

verus! {

/// Returned as part of `getaddressesbylabel` and `getaddressinfo`.
#[derive(Copy, Clone, PartialEq, Eq, Debug)]
pub enum AddressPurpose {
    /// A send-to address.
    Send,
    /// A receive-from address.
    Receive,
}

/// The category of a transaction.
#[derive(Copy, Clone, PartialEq, Eq, Debug)]
pub enum TransactionCategory {
    /// Transactions sent.
    Send,
    /// Non-coinbase transactions received.
    Receive,
    /// Coinbase transactions received with more than 100 confirmations.
    Generate,
    /// Coinbase transactions received with 100 or fewer confirmations.
    Immature,
    /// Orphaned coinbase transactions received.
    Orphan,
}

/// Whether this transaction can be RBF'ed.
#[derive(Copy, Clone, PartialEq, Eq, Debug)]
pub enum Bip125Replaceable {
    /// Yes, can be replaced due to BIP-125 (RBF).
    Yes,
    /// No, cannot be replaced due to BIP-125 (RBF).
    No,
    /// RBF unknown.
    Unknown,
}

/// Result of JSON-RPC method `abortrescan`.
///
/// > abortrescan
/// >
/// > Stops current wallet rescan triggered by an RPC call, e.g. by an importprivkey call.
#[derive(Clone, Debug, PartialEq)]
pub struct AbortRescan(pub bool);

/// Result of the JSON-RPC method `addmultisigaddress`.
///
/// > addmultisigaddress nrequired ["key",...] ( "label" "address_type" )
/// >
/// > Add a nrequired-to-sign multisignature address to the wallet. Requires a new wallet backup.
#[derive(Clone, Debug, PartialEq, Eq)]
pub struct AddMultisigAddress {
    /// The value of the new multisig address.
    pub address: String,
    /// The string value of the hex-encoded redemption script.
    pub redeem_script: String,
}

/// Result of the JSON-RPC method `createwallet`.
///
/// > createwallet "wallet_name" ( disable_private_keys )
/// >
/// > Creates and loads a new wallet.
#[derive(Clone, Debug, PartialEq, Eq)]
pub struct CreateWallet {
    /// The wallet name if created successfully.
    ///
    /// If the wallet was created using a full path, the wallet_name will be the full path.
    pub name: String,
    /// Warning messages, if any, related to creating and loading the wallet.
    pub warning: String,
}

impl CreateWallet {
    /// Converts version specific type to a version nonspecific, more strongly typed type.
    pub fn into_model(self) -> (m: model::CreateWallet)
        ensures
            m.name@ == self.name@,
            m.warnings@.len() == 1,
            m.warnings@[0]@ == self.warning@,
    {
        model::CreateWallet { name: self.name, warnings: vec![self.warning] }
    }

    /// Returns the created wallet name.
    pub fn name(self) -> (n: String)
        ensures
            n@ == self.name@,
    {
        self.into_model().name
    }
}

/// Result of the JSON-RPC method `dumpprivkey`.
///
/// > dumpprivkey "address"
/// >
/// > Reveals the private key corresponding to 'address'.
#[derive(Clone, Debug, PartialEq, Eq)]
pub struct DumpPrivKey(pub String);

impl DumpPrivKey {
    /// Converts version specific type to a version nonspecific, more strongly typed type.
    pub fn into_model(self) -> (r: Result<model::DumpPrivKey, bitcoin::key::FromWifError>)
        ensures
            r is Ok <==> wif_parses(self.0@),
            r matches Ok(m) ==> wif_private_key(self.0@) == Some(m.0),
            r matches Err(e) ==> wif_result(self.0@) == Err::<bitcoin::PrivateKey, _>(e),
    {
        match private_key_from_wif(self.0.as_str()) {
            Ok(key) => Ok(model::DumpPrivKey(key)),
            Err(e) => Err(e),
        }
    }

    /// Returns the dumped key.
    pub fn key(self) -> (r: Result<bitcoin::PrivateKey, bitcoin::key::FromWifError>)
        ensures
            r is Ok <==> wif_parses(self.0@),
            r matches Ok(k) ==> wif_private_key(self.0@) == Some(k),
            r matches Err(e) ==> wif_result(self.0@) == Err::<bitcoin::PrivateKey, _>(e),
    {
        match self.into_model() {
            Ok(m) => Ok(m.0),
            Err(e) => Err(e),
        }
    }
}

/// Result of the JSON-RPC method `dumpwallet`.
///
/// > dumpwallet "filename"
/// >
/// > Dumps all wallet keys in a human-readable format to a server-side file.
#[derive(Clone, Debug, PartialEq, Eq)]
pub struct DumpWallet {
    /// The filename with full absolute path.
    pub file_name: String,
}

/// Result of the JSON-RPC method `encryptwallet`.
///
/// > encryptwallet "passphrase"
/// >
/// > Encrypts the wallet with 'passphrase'. This is for first time encryption.
#[derive(Clone, Debug, PartialEq, Eq)]
pub struct EncryptWallet(pub String);

/// Result of the JSON-RPC method `getaddressesbylabel`.
///
/// > getaddressesbylabel "label"
/// >
/// > Returns the list of addresses assigned the specified label.
#[derive(Clone, Debug, PartialEq, Eq)]
pub struct GetAddressesByLabel(pub BTreeMap<String, AddressInformation>);

/// Returned as part of `getaddressesbylabel`.
#[derive(Clone, Debug, PartialEq, Eq)]
pub struct AddressInformation {
    /// Purpose of address.
    pub purpose: AddressPurpose,
}

/// Result of the JSON-RPC method `getaddressinfo`.
///
/// > getaddressinfo "address"
/// >
/// > Return information about the given bitcoin address. Some information requires the address
/// > to be in the wallet.
#[derive(Clone, Debug, PartialEq, Eq)]
pub struct GetAddressInfo {
    /// The bitcoin address validated.
    pub address: String,
    /// The hex encoded scriptPubKey generated by the address.
    pub script_pubkey: String,
    /// If the address is yours or not.
    pub is_mine: bool,
    /// If the address is watchonly.
    pub is_watch_only: bool,
    /// If the key is a script.
    pub is_script: bool,
    /// If the address is a witness address.
    pub is_witness: bool,
    /// The version number of the witness program.
    pub witness_version: Option<i64>,
    /// The hex value of the witness program.
    pub witness_program: Option<String>,
    /// The output script type.
    ///
    /// Only if "is_script" is true and the redeemscript is known.
    pub script: Option<ScriptType>,
    /// The redeemscript for the p2sh address.
    pub hex: Option<String>,
    /// Array of pubkeys associated with the known redeemscript (only if "script" is "multisig").
    pub pubkeys: Option<Vec<String>>,
    /// Number of signatures required to spend multisig output (only if "script" is "multisig").
    pub sigs_required: Option<i64>,
    /// The hex value of the raw public key, for single-key addresses.
    pub pubkey: Option<String>,
    /// Information about the address embedded in P2SH or P2WSH, if relevant and known.
    pub embedded: Option<GetAddressInfoEmbedded>,
    /// If the address is compressed.
    pub is_compressed: bool,
    /// The label associated with the address, "" is the default account.
    pub label: String,
    /// DEPRECATED. The account associated with the address, "" is the default account.
    pub account: String,
    /// The creation time of the key if available in seconds since epoch (Jan 1 1970 GMT).
    pub timestamp: Option<u32>,
    /// The HD keypath if the key is HD and available.
    pub hd_key_path: Option<String>,
    /// The Hash160 of the HD seed.
    pub hd_seed_id: Option<String>,
    /// Alias for hdseedid maintained for backwards compatibility.
    pub hd_master_key_id: Option<String>,
    /// Array of labels associated with the address.
    pub labels: Vec<GetAddressInfoLabel>,
}

/// The `script` field of `GetAddressInfo` (and `GetAddressInfoEmbedded`).
#[derive(Clone, Copy, Debug, PartialEq, Eq)]
pub enum ScriptType {
    /// Non-standard output script type.
    NonStandard,
    /// Pubkey output script.
    Pubkey,
    /// Pubkey hash output script.
    PubkeyHash,
    /// Script hash output script.
    ScriptHash,
    /// Multisig output script.
    Multisig,
    /// Null data for output script.
    NullData,
    /// Witness version 0 key hash output script.
    WitnessV0KeyHash,
    /// Witness version 0 script hash output script.
    WitnessV0ScriptHash,
    /// Witness unknown for output script.
    WitnessUnknown,
}

/// The `embedded` field of `GetAddressInfo`.
///
/// It includes all getaddressinfo output fields for the embedded address, excluding metadata
/// ("timestamp", "hdkeypath", "hdseedid") and relation to the wallet ("ismine", "iswatchonly",
/// "account").
#[derive(Clone, Debug, PartialEq, Eq)]
pub struct GetAddressInfoEmbedded {
    /// The bitcoin address validated.
    pub address: String,
    /// The hex encoded scriptPubKey generated by the address.
    pub script_pubkey: String,
    /// If the key is a script.
    pub is_script: bool,
    /// If the address is a witness address.
    pub is_witness: bool,
    /// The version number of the witness program.
    pub witness_version: Option<i64>,
    /// The hex value of the witness program.
    pub witness_program: Option<String>,
    /// The output script type.
    pub script: Option<ScriptType>,
    /// The redeemscript for the p2sh address.
    pub hex: Option<String>,
    /// Array of pubkeys associated with the known redeemscript (only if "script" is "multisig").
    pub pubkeys: Vec<String>,
    /// Number of signatures required to spend multisig output (only if "script" is "multisig").
    pub sigs_required: Option<i64>,
    /// The hex value of the raw public key, for single-key addresses.
    pub pubkey: Option<String>,
    /// If the address is compressed.
    pub is_compressed: bool,
    /// The label associated with the address, "" is the default account.
    pub label: String,
    /// Array of labels associated with the address.
    pub labels: Vec<GetAddressInfoLabel>,
}

/// The `label` field of `GetAddressInfo` (and `GetAddressInfoEmbedded`).
#[derive(Clone, Debug, PartialEq, Eq)]
pub struct GetAddressInfoLabel {
    /// The label.
    pub name: String,
    /// Purpose of address ("send" for sending address, "receive" for receiving address).
    pub purpose: AddressPurpose,
}

/// Result of the JSON-RPC method `getnewaddress`.
///
/// > getnewaddress ( "label" "address_type" )
/// >
/// > Returns a new Bitcoin address for receiving payments.
#[derive(Clone, Debug, PartialEq)]
pub struct GetNewAddress(pub String);

/// Result of the JSON-RPC method `getrawchangeaddress`.
///
/// > getrawchangeaddress ( "address_type" )
/// >
/// > Returns a new Bitcoin address, for receiving change.
#[derive(Clone, Debug, PartialEq)]
pub struct GetRawChangeAddress(pub String);

/// Item returned as part of of `gettransaction`. v26 and later only.
#[derive(Clone, Debug, PartialEq)]
pub struct LastProcessedBlock {
    /// Hash of the block this information was generated on.
    pub hash: String,
    /// Height of the block this information was generated on.
    pub height: i64,
}

/// Result of the JSON-RPC method `listlabels`.
///
/// > listlabels ( "purpose" )
/// >
/// > Returns the list of all labels, or labels that are assigned to addresses with a specific purpose.
#[derive(Clone, Debug, PartialEq)]
pub struct ListLabels(pub Vec<String>);

/// Result of the JSON-RPC method `listlockunspent`.
///
/// > listlockunspent
/// >
/// > Returns list of temporarily unspendable outputs.
#[derive(Clone, Debug, PartialEq)]
pub struct ListLockUnspent(pub Vec<ListLockUnspentItem>);

/// List item returned as part of of `listlockunspent`.
#[derive(Clone, Debug, PartialEq)]
pub struct ListLockUnspentItem {
    /// The transaction id locked.
    pub txid: String,
    /// The vout value.
    pub vout: i64,
}

/// Result of the JSON-RPC method `listwallets`.
///
/// > listwallets
/// > Returns a list of currently loaded wallets.
#[derive(Clone, Debug, PartialEq, Eq)]
pub struct ListWallets(pub Vec<String>);

/// Result of the JSON-RPC method `loadwallet`.
///
/// > loadwallet "filename"
/// >
/// > Loads a wallet from a wallet file or directory.
#[derive(Clone, Debug, PartialEq, Eq)]
pub struct LoadWallet {
    /// The wallet name if loaded successfully.
    pub name: String,
    /// Warning messages, if any, related to loading the wallet.
    pub warning: String,
}

impl LoadWallet {
    /// Converts version specific type to a version nonspecific, more strongly typed type.
    pub fn into_model(self) -> (m: model::LoadWallet)
        ensures
            m.name@ == self.name@,
            m.warnings@.len() == 1,
            m.warnings@[0]@ == self.warning@,
    {
        model::LoadWallet { name: self.name, warnings: vec![self.warning] }
    }

    /// Returns the loaded wallet name.
    pub fn name(self) -> (n: String)
        ensures
            n@ == self.name@,
    {
        self.into_model().name
    }
}

/// Result of the JSON-RPC method `rescanblockchain`.
///
/// > rescanblockchain ("start_height") ("stop_height")
/// >
/// > Rescan the local blockchain for wallet related transactions.
#[derive(Clone, Debug, PartialEq, Eq)]
pub struct RescanBlockchain {
    /// The block height where the rescan has started.
    pub start_height: i64,
    /// The height of the last rescanned block.
    pub stop_height: i64,
}

/// Result of the JSON-RPC method `sendmany`.
///
/// > sendmany "" {"address":amount,...} ( minconf "comment" ["address",...] replaceable conf_target "estimate_mode")
/// >
/// > Send multiple times.
#[derive(Clone, Debug, PartialEq, Eq)]
pub struct SendMany(
    /// The transaction id for the send.
    ///
    /// Only 1 transaction is created regardless of the number of addresses.
    pub String,
);

/// Result of the JSON-RPC method `sendtoaddress`.
///
/// > sendtoaddress "address" amount ( "comment" "comment_to" subtractfeefromamount replaceable conf_target "estimate_mode")
/// >
/// > Send an amount to a given address.
#[derive(Clone, Debug, PartialEq, Eq)]
pub struct SendToAddress(pub String);

impl SendToAddress {
    /// Converts version specific type to a version nonspecific, more strongly typed type.
    pub fn into_model(self) -> (r: Result<model::SendToAddress, bitcoin::hex::HexToArrayError>)
        ensures
            r is Ok <==> is_hash_hex(self.0@),
            r matches Ok(m) ==> m.txid@ == hash_from_hex(self.0@),
            r matches Err(e) ==> e == array_hex_error(self.0@),
    {
        match txid_from_str(self.0.as_str()) {
            Ok(txid) => Ok(model::SendToAddress { txid }),
            Err(e) => Err(e),
        }
    }

    /// Converts json straight to the transaction id (its bytes in internal order).
    pub fn txid(self) -> (r: Result<[u8; 32], bitcoin::hex::HexToArrayError>)
        ensures
            r is Ok <==> is_hash_hex(self.0@),
            r matches Ok(t) ==> t@ == hash_from_hex(self.0@),
            r matches Err(e) ==> e == array_hex_error(self.0@),
    {
        match self.into_model() {
            Ok(m) => Ok(m.txid),
            Err(e) => Err(e),
        }
    }
}

/// Result of the JSON-RPC method `signmessage`.
///
/// > signmessage "address" "message"
/// >
/// > Sign a message with the private key of an address
#[derive(Clone, Debug, PartialEq, Eq)]
pub struct SignMessage(
    /// The signature of the message encoded in base 64.
    pub String,
);

/// Result of the JSON-RPC method `walletprocesspsbt`.
///
/// > walletprocesspsbt "psbt" ( sign "sighashtype" bip32derivs )
/// >
/// > Update a PSBT with input information from our wallet and then sign inputs
/// > that we can sign for.
#[derive(Clone, Debug, PartialEq, Eq)]
pub struct WalletProcessPsbt {
    /// The base64-encoded partially signed transaction.
    pub psbt: String,
    /// If the transaction has a complete set of signatures.
    pub complete: bool,
}

/// Result of the JSON-RPC method `bumpfee`.
///
/// > bumpfee "txid" ( options )
/// >
/// > Bumps the fee of an opt-in-RBF transaction T, replacing it with a new transaction B.
/// > An opt-in RBF transaction with the given txid must be in the wallet.
/// > The command will pay the additional fee by decreasing (or perhaps removing) its change output.
/// > If the change output is not big enough to cover the increased fee, the command will currently fail
/// > instead of adding new inputs to compensate. (A future implementation could improve this.)
/// > The command will fail if the wallet or mempool contains a transaction that spends one of T's outputs.
/// > By default, the new fee will be calculated automatically using estimatesmartfee.
/// > The user can specify a confirmation target for estimatesmartfee.
/// > Alternatively, the user can specify totalFee, or use RPC settxfee to set a higher fee rate.
/// > At a minimum, the new fee rate must be high enough to pay an additional new relay fee (incrementalfee
/// > returned by getnetworkinfo) to enter the node's mempool.
/// >
/// > Arguments:
/// > 1. txid                  (string, required) The txid to be bumped
///
/// `F` is the type of the fields that Core writes as JSON floating point numbers.
#[derive(Clone, Debug, PartialEq)]
pub struct BumpFee<F> {
    /// The id of the new transaction.
    pub txid: String,
    /// Fee of the replaced transaction.
    pub original_fee: F,
    /// Fee of the new transaction.
    pub fee: F,
    /// Errors encountered during processing (may be empty).
    pub errors: Vec<String>,
}

/// Result of the JSON-RPC method `getbalance`.
///
/// > getbalance ( "(dummy)" minconf include_watchonly )
/// >
/// > Returns the total available balance.
/// > The available balance is what the wallet considers currently spendable, and is
/// > thus affected by options which limit spendability such as -spendzeroconfchange.
///
/// `F` is the type of the fields that Core writes as JSON floating point numbers.
#[derive(Clone, Debug, PartialEq)]
pub struct GetBalance<F>(pub F);

/// Result of the JSON-RPC method `getreceivedbyaddress`.
///
/// > getreceivedbyaddress "address" ( minconf )
/// >
/// > Returns the total amount received by the given address in transactions with at least minconf confirmations.
/// >
/// > Arguments:
/// > 1. "address"         (string, required) The bitcoin address for transactions.
///
/// `F` is the type of the fields that Core writes as JSON floating point numbers.
#[derive(Clone, Debug, PartialEq)]
pub struct GetReceivedByAddress<F>(pub F);

/// Result of the JSON-RPC method `gettransaction`.
///
/// > gettransaction "txid" ( include_watchonly )
/// >
/// > Get detailed information about in-wallet transaction `<txid>`
/// >
/// > Arguments:
/// > 1. txid                 (string, required) The transaction id
///
/// `F` is the type of the fields that Core writes as JSON floating point numbers.
#[derive(Clone, Debug, PartialEq)]
pub struct GetTransaction<F> {
    /// The transaction amount in BTC.
    pub amount: F,
    /// The amount of the fee in BTC.
    ///
    /// This is negative and only available for the 'send' category of transactions.
    pub fee: Option<F>,
    /// The number of confirmations.
    pub confirmations: i64,
    /// Only present if the transaction's only input is a coinbase one. v29 and later only.
    pub generated: Option<bool>,
    /// Whether we consider the outputs of this unconfirmed transaction safe to spend.
    pub trusted: Option<bool>,
    /// The block hash.
    pub block_hash: Option<String>,
    /// The block height containing the transaction. v29 and later only.
    pub block_height: Option<i64>,
    /// The index of the transaction in the block that includes it.
    pub block_index: Option<i64>,
    /// The time in seconds since epoch (1 Jan 1970 GMT).
    pub block_time: Option<u32>,
    /// The transaction id.
    pub txid: String,
    /// The hash of serialized transaction, including witness data. v23 and later only.
    pub wtxid: Option<String>,
    /// Confirmed transactions that have been detected by the wallet to conflict with this transaction.
    pub wallet_conflicts: Vec<String>,
    /// Only if 'category' is 'send'. The txid if this tx was replaced. v29 and later only.
    pub replaced_by_txid: Option<String>,
    /// Only if 'category' is 'send'. The txid if this tx replaces another. v29 and later only.
    pub replaces_txid: Option<String>,
    /// Transactions in the mempool that directly conflict with either this transaction or an ancestor
    /// transaction. v29 and later only.
    pub mempool_conflicts: Option<Vec<String>>,
    /// If a comment to is associated with the transaction. v29 and later only.
    pub to: Option<String>,
    /// The transaction time in seconds since epoch (1 Jan 1970 GMT).
    pub time: u32,
    /// The time received in seconds since epoch (1 Jan 1970 GMT).
    pub time_received: u32,
    /// If a comment is associated with the transaction, only present if not empty. v29 and later only.
    pub comment: Option<String>,
    /// Whether this transaction could be replaced due to BIP125 (replace-by-fee);
    /// may be unknown for unconfirmed transactions not in the mempool
    pub bip125_replaceable: Bip125Replaceable,
    /// Only if 'category' is 'received'. List of parent descriptors for the output script of this
    /// coin. v24 and later only.
    pub parent_descriptors: Option<Vec<String>>,
    /// Transaction details.
    pub details: Vec<GetTransactionDetail<F>>,
    /// Raw data for transaction.
    pub hex: String,
    /// The decoded transaction (only present when `verbose` is passed). v29 and later only.
    pub decoded: Option<bitcoin::Transaction>,
    /// Hash and height of the block this information was generated on. v26 and later only.
    pub last_processed_block: Option<LastProcessedBlock>,
}

/// `F` is the type of the fields that Core writes as JSON floating point numbers.
#[derive(Clone, Debug, PartialEq)]
pub struct GetTransactionDetail<F> {
    /// Only returns true if imported addresses were involved in transaction. v29 and later only.
    pub involves_watchonly: Option<bool>,
    /// DEPRECATED. The account name involved in the transaction, can be "" for the default account.
    pub account: Option<String>,
    /// The bitcoin address involved in the transaction.
    pub address: String,
    /// The category, either 'send' or 'receive'.
    pub category: TransactionCategory,
    ///  The amount in BTC.
    pub amount: F,
    /// A comment for the address/transaction, if any.
    pub label: Option<String>,
    /// the vout value.
    pub vout: u32,
    /// The amount of the fee.
    ///
    /// This is negative and only available for the 'send' category of transactions.
    pub fee: Option<F>,
    /// If the transaction has been abandoned (inputs are respendable).
    ///
    /// Only available for the 'send' category of transactions.
    pub abandoned: Option<bool>,
    /// Only if 'category' is 'received'. List of parent descriptors for the output script of this
    /// coin. v24 and later only.
    pub parent_descriptors: Option<Vec<String>>,
}

/// Result of the JSON-RPC method `getunconfirmedbalance`.
///
/// > getunconfirmedbalance
/// > Returns the server's total unconfirmed balance
///
/// `F` is the type of the fields that Core writes as JSON floating point numbers.
#[derive(Clone, Debug, PartialEq)]
pub struct GetUnconfirmedBalance<F>(pub F);

/// Result of the JSON-RPC method `getwalletinfo`.
///
/// > getwalletinfo
/// > Returns an object containing various wallet state info.
///
/// `F` is the type of the fields that Core writes as JSON floating point numbers.
#[derive(Clone, Debug, PartialEq)]
pub struct GetWalletInfo<F> {
    /// The wallet name.
    pub wallet_name: String,
    /// The wallet version.
    pub wallet_version: i64,
    /// The total confirmed balance of the wallet in BTC.
    pub balance: F,
    /// The total unconfirmed balance of the wallet in BTC.
    pub unconfirmed_balance: F,
    /// The total immature balance of the wallet in BTC.
    pub immature_balance: F,
    /// The total number of transactions in the wallet
    pub tx_count: i64,
    /// The timestamp (seconds since Unix epoch) of the oldest pre-generated key in the key pool.
    pub keypool_oldest: i64,
    /// How many new keys are pre-generated (only counts external keys).
    pub keypool_size: i64,
    /// How many new keys are pre-generated for internal use (used for change outputs, only appears
    /// if the wallet is using this feature, otherwise external keys are used).
    pub keypool_size_hd_internal: i64,
    /// The timestamp in seconds since epoch (midnight Jan 1 1970 GMT) that the wallet is unlocked
    /// for transfers, or 0 if the wallet is locked.
    pub unlocked_until: u32,
    /// The transaction fee configuration, set in BTC/kB.
    pub pay_tx_fee: F,
    /// The Hash160 of the HD seed (only present when HD is enabled).
    pub hd_seed_id: Option<String>,
    /// DEPRECATED. Alias for hdseedid retained for backwards-compatibility.
    pub hd_master_key_id: Option<String>,
    /// If privatekeys are disabled for this wallet (enforced watch-only wallet).
    pub private_keys_enabled: bool,
}

/// Result of the JSON-RPC method `listaddressgroupings`.
///
/// > listaddressgroupings
/// >
/// > Lists groups of addresses which have had their common ownership
/// > made public by common use as inputs or as the resulting change
/// > in past transactions
///
/// `F` is the type of the fields that Core writes as JSON floating point numbers.
#[derive(Clone, Debug, PartialEq)]
pub struct ListAddressGroupings<F>(pub Vec<Vec<ListAddressGroupingsItem<F>>>);

/// `F` is the type of the fields that Core writes as JSON floating point numbers.
#[derive(Clone, Debug, PartialEq)]
pub struct ListAddressGroupingsItem<F> {
    /// The bitcoin address.
    pub address: String,
    /// The amount in BTC.
    pub amount: F,
    /// The label.
    pub label: Option<String>,
}

/// Result of the JSON-RPC method `listreceivedbyaddress`.
///
/// > listreceivedbyaddress ( minconf include_empty include_watchonly address_filter )
/// >
/// > List balances by receiving address.
///
/// `F` is the type of the fields that Core writes as JSON floating point numbers.
#[derive(Clone, Debug, PartialEq)]
pub struct ListReceivedByAddress<F>(pub Vec<ListReceivedByAddressItem<F>>);

/// List item returned as part of of `listreceivedByaddress`.
///
/// `F` is the type of the fields that Core writes as JSON floating point numbers.
#[derive(Clone, Debug, PartialEq)]
pub struct ListReceivedByAddressItem<F> {
    /// Only returned if imported addresses were involved in transaction.
    pub involves_watch_only: bool,
    /// The receiving address.
    pub address: String,
    /// DEPRECATED. Backwards compatible alias for label.
    pub account: String,
    /// The total amount in BTC received by the address.
    pub amount: F,
    /// The number of confirmations of the most recent transaction included.
    pub confirmations: i64,
    /// The label of the receiving address. The default label is "".
    pub label: String,
    /// The ids of transactions received with the address.
    pub txids: Vec<String>,
}

/// Result of the JSON-RPC method `listsinceblock`.
///
/// > listsinceblock ( "blockhash" target_confirmations include_watchonly include_removed )
/// >
/// > Get all transactions in blocks since block `blockhash`, or all transactions if omitted.
/// > If "blockhash" is no longer a part of the main chain, transactions from the fork point onward are included.
/// > Additionally, if include_removed is set, transactions affecting the wallet which were removed are returned in the "removed" array.
///
/// `F` is the type of the fields that Core writes as JSON floating point numbers.
#[derive(Clone, Debug, PartialEq)]
pub struct ListSinceBlock<F> {
    /// All the transactions.
    pub transactions: Vec<ListSinceBlockTransaction<F>>,
    /// Only present if `include_removed=true`.
    ///
    /// Note: transactions that were re-added in the active chain will appear as-is in this array,
    /// and may thus have a positive confirmation count.
    pub removed: Vec<ListSinceBlockTransaction<F>>,
    /// The hash of the block (target_confirmations-1) from the best block on the main chain.
    ///
    /// This is typically used to feed back into listsinceblock the next time you call it. So you
    /// would generally use a target_confirmations of say 6, so you will be continually
    /// re-notified of transactions until they've reached 6 confirmations plus any new ones.
    pub last_block: String,
}

/// `F` is the type of the fields that Core writes as JSON floating point numbers.
#[derive(Clone, Debug, PartialEq)]
pub struct ListSinceBlockTransaction<F> {
    /// DEPRECATED. The account name associated with the transaction. Will be "" for the default account.
    pub account: String,
    /// The bitcoin address of the transaction.
    ///
    /// Not present for move transactions (category = move).
    pub address: String,
    /// The transaction category. 'send' has negative amounts, 'receive' has positive amounts.
    pub category: TransactionCategory,
    /// The amount in BTC.
    ///
    /// This is negative for the 'send' category, and for the 'move' category for moves outbound. It
    /// is positive for the 'receive' category, and for the 'move' category for inbound funds.
    pub amount: F,
    /// The vout value.
    pub vout: i64,
    /// The amount of the fee in BTC.
    ///
    /// This is negative and only available for the 'send' category of transactions.
    pub fee: F,
    /// The number of confirmations for the transaction.
    ///
    /// Available for 'send' and 'receive' category of transactions. When it's < 0, it means the
    /// transaction conflicted that many blocks ago.
    pub confirmations: i64,
    /// The block hash containing the transaction.
    ///
    /// Available for 'send' and 'receive' category of transactions.
    pub block_hash: String,
    /// The index of the transaction in the block that includes it.
    ///
    /// Available for 'send' and 'receive' category of transactions.
    pub block_index: i64,
    /// The block time in seconds since epoch (1 Jan 1970 GMT).
    pub block_time: u32,
    /// The transaction id.
    ///
    /// Available for 'send' and 'receive' category of transactions.
    pub txid: Option<String>,
    /// The transaction time in seconds since epoch (Jan 1 1970 GMT).
    pub time: u32,
    /// The time received in seconds since epoch (Jan 1 1970 GMT).
    ///
    /// Available for 'send' and 'receive' category of transactions.
    pub time_received: u32,
    /// Whether this transaction could be replaced due to BIP125 (replace-by-fee);
    /// may be unknown for unconfirmed transactions not in the mempool
    pub bip125_replaceable: Bip125Replaceable,
    /// If the transaction has been abandoned (inputs are respendable).
    ///
    /// Only available for the 'send' category of transactions.
    pub abandoned: Option<bool>,
    /// If a comment is associated with the transaction.
    pub comment: Option<String>,
    /// A comment for the address/transaction, if any.
    pub label: Option<String>,
    /// If a comment to is associated with the transaction.
    pub to: Option<String>,
}

/// Result of the JSON-RPC method `listtransactions`.
///
/// > listtransactions (label count skip include_watchonly)
/// >
/// > If a label name is provided, this will return only incoming transactions paying to addresses with the specified label.
/// >
/// > Returns up to 'count' most recent transactions skipping the first 'from' transactions.
/// > Note that the "account" argument and "otheraccount" return value have been removed in V0.17. To use this RPC with an "account" argument, restart
/// > bitcoind with -deprecatedrpc=accounts
///
/// `F` is the type of the fields that Core writes as JSON floating point numbers.
#[derive(Clone, Debug, PartialEq)]
pub struct ListTransactions<F>(pub Vec<ListTransactionsItem<F>>);

/// Transaction item returned as part of `listtransactions`.
///
/// `F` is the type of the fields that Core writes as JSON floating point numbers.
#[derive(Clone, Debug, PartialEq)]
pub struct ListTransactionsItem<F> {
    /// The bitcoin address of the transaction.
    pub address: String,
    /// The transaction category.
    pub category: TransactionCategory,
    /// The amount in BTC.
    ///
    /// This is negative for the 'send' category, and is positive for the 'receive' category.
    pub amount: F,
    /// A comment for the address/transaction, if any.
    pub label: Option<String>,
    /// The vout value.
    pub vout: i64,
    /// The amount of the fee in BTC.
    ///
    /// This is negative and only available for the 'send' category of transactions.
    pub fee: F,
    /// The number of confirmations for the transaction.
    ///
    /// Negative confirmations indicate the transaction conflicts with the block chain.
    pub confirmations: i64,
    /// Whether we consider the outputs of this unconfirmed transaction safe to spend.
    pub trusted: bool,
    /// The block hash containing the transaction.
    pub block_hash: String,
    /// The index of the transaction in the block that includes it.
    pub block_index: i64,
    /// The block time in seconds since epoch (1 Jan 1970 GMT).
    pub block_time: u32,
    /// The transaction id.
    pub txid: String,
    /// The transaction time in seconds since epoch (Jan 1 1970 GMT).
    pub time: u32,
    /// The time received in seconds since epoch (Jan 1 1970 GMT).
    pub time_received: u32,
    /// If a comment is associated with the transaction.
    pub comment: Option<String>,
    /// Whether this transaction could be replaced due to BIP125 (replace-by-fee);
    /// may be unknown for unconfirmed transactions not in the mempool
    pub bip125_replaceable: Bip125Replaceable,
    /// If the transaction has been abandoned (inputs are respendable).
    ///
    /// Only available for the 'send' category of transactions.
    pub abandoned: Option<bool>,
}

/// Result of the JSON-RPC method `listunspent`.
///
/// > listunspent ( minconf maxconf  ["addresses",...] `[include_unsafe]` `[query_options]`)
/// >
/// > Returns array of unspent transaction outputs
/// > with between minconf and maxconf (inclusive) confirmations.
/// > Optionally filter to only include txouts paid to specified addresses.
///
/// `F` is the type of the fields that Core writes as JSON floating point numbers.
#[derive(Clone, Debug, PartialEq)]
pub struct ListUnspent<F>(pub Vec<ListUnspentItem<F>>);

/// Unspent transaction output, returned as part of `listunspent`.
///
/// `F` is the type of the fields that Core writes as JSON floating point numbers.
#[derive(Clone, Debug, PartialEq)]
pub struct ListUnspentItem<F> {
    /// The transaction id.
    pub txid: String,
    /// The vout value.
    pub vout: i64,
    /// The bitcoin address of the transaction.
    pub address: String,
    /// The associated label, or "" for the default label.
    pub label: String,
    /// DEPRECATED. The account name associated with the transaction. Will be "" for the default account.
    pub account: String,
    /// The script key.
    pub script_pubkey: String,
    /// The transaction amount in BTC.
    pub amount: F,
    /// The number of confirmations.
    pub confirmations: i64,
    /// The redeemScript if scriptPubKey is P2SH.
    pub redeem_script: Option<String>,
    /// Whether we have the private keys to spend this output.
    pub spendable: bool,
    /// Whether we know how to spend this output, ignoring the lack of keys.
    pub solvable: bool,
    /// Whether this output is considered safe to spend. Unconfirmed transactions from outside keys
    /// and unconfirmed replacement transactions are considered unsafe and are not eligible for
    /// spending by fundrawtransaction and sendtoaddress.
    pub safe: bool,
}

/// Result of the JSON-RPC method `walletcreatefundedpsbt`.
///
/// > walletcreatefundedpsbt [{"txid":"id","vout":n},...] [{"address":amount},{"data":"hex"},...] ( locktime ) ( replaceable ) ( options bip32derivs )
/// >
/// > Creates and funds a transaction in the Partially Signed Transaction format. Inputs will be added if supplied inputs are not enough
/// > Implements the Creator and Updater roles.
/// >
/// > Arguments:
/// > 1. "inputs"                (array, required) A json array of json objects
/// >      [
/// >        {
/// >          "txid":"id",      (string, required) The transaction id
/// >          "vout":n,         (numeric, required) The output number
/// >          "sequence":n      (numeric, optional) The sequence number
/// >        }
/// >        ,...
/// >      ]
/// > 2. "outputs"               (array, required) a json array with outputs (key-value pairs)
/// >    [
/// >     {
/// >       "address": x.xxx,    (obj, optional) A key-value pair. The key (string) is the bitcoin address, the value (float or string) is the amount in BTC
/// >     },
/// >     {
/// >       "data": "hex"        (obj, optional) A key-value pair. The key must be "data", the value is hex encoded data
/// >     }
/// >     ,...                     More key-value pairs of the above form. For compatibility reasons, a dictionary, which holds the key-value pairs directly, is also
/// >                              accepted as second parameter.
/// >    ]
///
/// `F` is the type of the fields that Core writes as JSON floating point numbers.
#[derive(Clone, Debug, PartialEq)]
pub struct WalletCreateFundedPsbt<F> {
    /// The resulting raw transaction (base64-encoded string).
    pub psbt: String,
    /// Fee in BTC the resulting transaction pays.
    pub fee: F,
    /// The position of the added change output, or -1.
    pub change_pos: i64,
}

} // verus!
