//! The JSON-RPC API for Bitcoin Core `v0.17` - raw transactions: the errors of converting the
//! version specific types into the model types.
use vstd::prelude::*;

verus! {

/// Error of parsing a base64 encoded PSBT.
#[verifier::external_type_specification]
#[verifier::external_body]
pub struct ExPsbtParseError(bitcoin::psbt::PsbtParseError);

/// Error of parsing an amount.
#[verifier::external_type_specification]
#[verifier::external_body]
pub struct ExParseAmountError(bitcoin::amount::ParseAmountError);

/// Error when converting a `DecodeScript` type into the model type.
#[derive(Debug)]
pub enum DecodeScriptError {
    /// Conversion of the transaction `hex` field failed.
    Hex(bitcoin::hex::HexToBytesError),
    /// Conversion of the transaction `addresses` field failed.
    Addresses(bitcoin::address::ParseError),
    /// Conversion of the transaction `p2sh` field failed.
    P2sh(bitcoin::address::ParseError),
}

impl DecodeScriptError {
    /// The human readable description of the error, as its `Display` renders it.
    pub fn message(&self) -> (r: &'static str)
        ensures
            r@ == match self {
                DecodeScriptError::Hex(_) => "conversion of the `hex` field failed"@,
                DecodeScriptError::Addresses(_) => "conversion of the `addresses` field failed"@,
                DecodeScriptError::P2sh(_) => "conversion of the `p2sh` field failed"@,
            },
    {
        match self {
            DecodeScriptError::Hex(_) => "conversion of the `hex` field failed",
            DecodeScriptError::Addresses(_) => "conversion of the `addresses` field failed",
            DecodeScriptError::P2sh(_) => "conversion of the `p2sh` field failed",
        }
    }
}

/// Error when converting a `FinalizePsbt` type into the model type.
#[derive(Debug)]
pub enum FinalizePsbtError {
    /// Conversion of the transaction `psbt` field failed.
    Psbt(bitcoin::psbt::PsbtParseError),
    /// Conversion of the transaction `hex` field failed.
    Hex(bitcoin::consensus::encode::FromHexError),
}

impl FinalizePsbtError {
    /// The human readable description of the error, as its `Display` renders it.
    pub fn message(&self) -> (r: &'static str)
        ensures
            r@ == match self {
                FinalizePsbtError::Psbt(_) => "conversion of the `psbt` field failed"@,
                FinalizePsbtError::Hex(_) => "conversion of the `hex` field failed"@,
            },
    {
        match self {
            FinalizePsbtError::Psbt(_) => "conversion of the `psbt` field failed",
            FinalizePsbtError::Hex(_) => "conversion of the `hex` field failed",
        }
    }
}

/// Error when converting a `FundRawTransaction` type into the model type.
#[derive(Debug)]
pub enum FundRawTransactionError {
    /// Conversion of the transaction `hex` field failed.
    Hex(bitcoin::consensus::encode::FromHexError),
    /// Conversion of the transaction `fee` field failed.
    Fee(bitcoin::amount::ParseAmountError),
}

impl FundRawTransactionError {
    /// The human readable description of the error, as its `Display` renders it.
    pub fn message(&self) -> (r: &'static str)
        ensures
            r@ == match self {
                FundRawTransactionError::Hex(_) => "conversion of the `hex` field failed"@,
                FundRawTransactionError::Fee(_) => "conversion of the `fee` field failed"@,
            },
    {
        match self {
            FundRawTransactionError::Hex(_) => "conversion of the `hex` field failed",
            FundRawTransactionError::Fee(_) => "conversion of the `fee` field failed",
        }
    }
}

/// Error when converting a `SignRawTransaction` type into the model type.
#[derive(Debug)]
pub enum SignRawTransactionError {
    /// Conversion of the transaction `hex` field failed.
    Hex(bitcoin::consensus::encode::FromHexError),
    /// Conversion of the transaction `errors` field failed.
    Errors(SignFailError),
}

impl SignRawTransactionError {
    /// The human readable description of the error, as its `Display` renders it.
    pub fn message(&self) -> (r: &'static str)
        ensures
            r@ == match self {
                SignRawTransactionError::Hex(_) => "conversion of the `hex` field failed"@,
                SignRawTransactionError::Errors(_) => "conversion of the `errors` field failed"@,
            },
    {
        match self {
            SignRawTransactionError::Hex(_) => "conversion of the `hex` field failed",
            SignRawTransactionError::Errors(_) => "conversion of the `errors` field failed",
        }
    }
}

/// Error when converting a `SignFailError` type into the model type.
#[derive(Debug)]
pub enum SignFailError {
    /// Conversion of the transaction `txid` field failed.
    Txid(bitcoin::hex::HexToArrayError),
    /// Conversion of the transaction `script_sig` field failed.
    ScriptSig(bitcoin::hex::HexToBytesError),
}

impl SignFailError {
    /// The human readable description of the error, as its `Display` renders it.
    pub fn message(&self) -> (r: &'static str)
        ensures
            r@ == match self {
                SignFailError::Txid(_) => "conversion of the `txid` field failed"@,
                SignFailError::ScriptSig(_) => "conversion of the `script_sig` field failed"@,
            },
    {
        match self {
            SignFailError::Txid(_) => "conversion of the `txid` field failed",
            SignFailError::ScriptSig(_) => "conversion of the `script_sig` field failed",
        }
    }
}

/// Error of parsing a sighash type.
#[verifier::external_type_specification]
#[verifier::external_body]
pub struct ExSighashTypeParseError(bitcoin::sighash::SighashTypeParseError);

/// Error when converting a `DecodePsbt` type into the model type.
///
/// `T`, `W`, `P` and `B` are the error types of converting a raw transaction, a witness UTXO, a
/// partial signature and a BIP-32 derivation.
#[derive(Debug)]
pub enum DecodePsbtError<T, W, P, B> {
    /// Conversion of the `tx` field failed.
    Tx(T),
    /// Conversion of one the map items in the `unknown` field failed.
    Unknown(bitcoin::hex::HexToBytesError),
    /// Conversion of one of the PSBT inputs failed.
    Inputs(PsbtInputError<T, W, P, B>),
    /// Conversion of one of the PSBT outputs failed.
    Outputs(PsbtOutputError<B>),
}

impl<T, W, P, B> DecodePsbtError<T, W, P, B> {
    /// The human readable description of the error, as its `Display` renders it.
    pub fn message(&self) -> (r: &'static str)
        ensures
            r@ == match self {
                DecodePsbtError::Tx(_) => "conversion of raw transaction data field failed"@,
                DecodePsbtError::Unknown(_) => {
                    "conversion of one the map items in the `unknown` field failed"@
                },
                DecodePsbtError::Inputs(_) => "conversion of one of the PSBT inputs failed"@,
                DecodePsbtError::Outputs(_) => "conversion of one of the PSBT outputs failed"@,
            },
    {
        match self {
            DecodePsbtError::Tx(_) => "conversion of raw transaction data field failed",
            DecodePsbtError::Unknown(_) => {
                "conversion of one the map items in the `unknown` field failed"
            },
            DecodePsbtError::Inputs(_) => "conversion of one of the PSBT inputs failed",
            DecodePsbtError::Outputs(_) => "conversion of one of the PSBT outputs failed",
        }
    }
}

/// Error when converting one of the `DecodePsbt` inputs failed.
///
/// `T`, `W`, `P` and `B` are the error types of converting a raw transaction, a witness UTXO, a
/// partial signature and a BIP-32 derivation.
#[derive(Debug)]
pub enum PsbtInputError<T, W, P, B> {
    /// Conversion of the `non_witness_utxo` field failed.
    NonWitnessUtxo(T),
    /// Conversion of the `witness_utxo` field failed.
    WitnessUtxo(W),
    /// Conversion of the `partial_signatures` field failed.
    PartialSignatures(P),
    /// Conversion of the `sighash` field failed.
    Sighash(bitcoin::sighash::SighashTypeParseError),
    /// Conversion of the `redeem_script` field failed.
    RedeemScript(bitcoin::hex::HexToBytesError),
    /// Conversion of the `witness_script` field failed.
    WitnessScript(bitcoin::hex::HexToBytesError),
    /// Conversion of the `bip32_derivs` field failed.
    Bip32Derivs(B),
    /// Conversion of the `final_script_sig` field failed.
    FinalScriptSig(bitcoin::hex::HexToBytesError),
    /// Conversion of the `final_script_witness` field failed.
    FinalScriptWitness(bitcoin::hex::HexToBytesError),
    /// Conversion of the `unknown` field failed.
    Unknown(bitcoin::hex::HexToBytesError),
}

impl<T, W, P, B> PsbtInputError<T, W, P, B> {
    /// The human readable description of the error, as its `Display` renders it.
    pub fn message(&self) -> (r: &'static str)
        ensures
            r@ == match self {
                PsbtInputError::NonWitnessUtxo(_) => {
                    "conversion of the `non_witness_utxo` field failed"@
                },
                PsbtInputError::WitnessUtxo(_) => "conversion of the `witness_utxo` field failed"@,
                PsbtInputError::PartialSignatures(_) => {
                    "conversion of the `partial_signatures` field failed"@
                },
                PsbtInputError::Sighash(_) => "conversion of the `sighash` field failed"@,
                PsbtInputError::RedeemScript(_) => "conversion of the `redeem_script` field failed"@,
                PsbtInputError::WitnessScript(_) => {
                    "conversion of the `witness_script` field failed"@
                },
                PsbtInputError::Bip32Derivs(_) => "conversion of the `bip32_derivs` field failed"@,
                PsbtInputError::FinalScriptSig(_) => {
                    "conversion of the `final_script_sig` field failed"@
                },
                PsbtInputError::FinalScriptWitness(_) => {
                    "conversion of the `final_script_witness` field failed"@
                },
                PsbtInputError::Unknown(_) => "conversion of the `unknown` field failed"@,
            },
    {
        match self {
            PsbtInputError::NonWitnessUtxo(_) => "conversion of the `non_witness_utxo` field failed",
            PsbtInputError::WitnessUtxo(_) => "conversion of the `witness_utxo` field failed",
            PsbtInputError::PartialSignatures(_) => {
                "conversion of the `partial_signatures` field failed"
            },
            PsbtInputError::Sighash(_) => "conversion of the `sighash` field failed",
            PsbtInputError::RedeemScript(_) => "conversion of the `redeem_script` field failed",
            PsbtInputError::WitnessScript(_) => "conversion of the `witness_script` field failed",
            PsbtInputError::Bip32Derivs(_) => "conversion of the `bip32_derivs` field failed",
            PsbtInputError::FinalScriptSig(_) => "conversion of the `final_script_sig` field failed",
            PsbtInputError::FinalScriptWitness(_) => {
                "conversion of the `final_script_witness` field failed"
            },
            PsbtInputError::Unknown(_) => "conversion of the `unknown` field failed",
        }
    }
}

/// Error when converting one of the `DecodePsbt` outputs failed.
///
/// `B` is the error type of converting a BIP-32 derivation.
#[derive(Debug)]
pub enum PsbtOutputError<B> {
    /// Conversion of the `redeem_script` field failed.
    RedeemScript(bitcoin::hex::HexToBytesError),
    /// Conversion of the `witness_script` field failed.
    WitnessScript(bitcoin::hex::HexToBytesError),
    /// Conversion of the `bip32_derivs` field failed.
    Bip32Derivs(B),
    /// Conversion of the `unknown` field failed.
    Unknown(bitcoin::hex::HexToBytesError),
}

impl<B> PsbtOutputError<B> {
    /// The human readable description of the error, as its `Display` renders it.
    pub fn message(&self) -> (r: &'static str)
        ensures
            r@ == match self {
                PsbtOutputError::RedeemScript(_) => "conversion of the `redeem_script` field failed"@,
                PsbtOutputError::WitnessScript(_) => {
                    "conversion of the `witness_script` field failed"@
                },
                PsbtOutputError::Bip32Derivs(_) => "conversion of the `bip32_derivs` field failed"@,
                PsbtOutputError::Unknown(_) => "conversion of the `unknown` field failed"@,
            },
    {
        match self {
            PsbtOutputError::RedeemScript(_) => "conversion of the `redeem_script` field failed",
            PsbtOutputError::WitnessScript(_) => "conversion of the `witness_script` field failed",
            PsbtOutputError::Bip32Derivs(_) => "conversion of the `bip32_derivs` field failed",
            PsbtOutputError::Unknown(_) => "conversion of the `unknown` field failed",
        }
    }
}

/// Error when converting a `GetRawTransactionVerbose` type into the model type.
///
/// `I` and `O` are the error types of converting a transaction input and a transaction output.
#[derive(Debug)]
pub enum GetRawTransactionVerboseError<I, O> {
    /// Conversion of one of the transaction inputs failed.
    Inputs(I),
    /// Conversion of one of the transaction outputs failed.
    Outputs(O),
    /// Conversion of the `block_hash` field failed.
    BlockHash(bitcoin::hex::HexToArrayError),
}

impl<I, O> GetRawTransactionVerboseError<I, O> {
    /// The human readable description of the error, as its `Display` renders it.
    pub fn message(&self) -> (r: &'static str)
        ensures
            r@ == match self {
                GetRawTransactionVerboseError::Inputs(_) => {
                    "conversion of one of the transaction inputs failed"@
                },
                GetRawTransactionVerboseError::Outputs(_) => {
                    "conversion of one of the transaction outputs failed"@
                },
                GetRawTransactionVerboseError::BlockHash(_) => {
                    "conversion of the `block_hash` field failed"@
                },
            },
    {
        match self {
            GetRawTransactionVerboseError::Inputs(_) => {
                "conversion of one of the transaction inputs failed"
            },
            GetRawTransactionVerboseError::Outputs(_) => {
                "conversion of one of the transaction outputs failed"
            },
            GetRawTransactionVerboseError::BlockHash(_) => "conversion of the `block_hash` field failed",
        }
    }
}

} // verus!
