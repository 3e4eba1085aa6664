//! The JSON-RPC API for Bitcoin Core `v0.17` - util.
//!
//! Types for methods found under the `== Util ==` section of the API docs.
use vstd::prelude::*;

use crate::amount::ReadFeeRate;
use crate::address::{
    address_from_str, address_parse_result, address_parses, parse_address, witness_program_error,
    witness_program_new, witness_program_of, witness_version_error, witness_version_from_u8,
    witness_version_of, Address,
};
use crate::hex::{bytes_from_hex, bytes_hex_error, hex_decode, is_hex};
use crate::keys::{message_signature_parses, message_signature_result, parse_message_signature};
use crate::model;

verus! {

/// Result of JSON-RPC method `createmultisig`.
///
/// > createmultisig nrequired ["key",...] ( "address_type" )
/// >
/// > Creates a multi-signature address with n signature of m keys required.
#[derive(Clone, Debug, PartialEq, Eq)]
pub struct CreateMultisig {
    /// The value of the new multisig address.
    pub address: String,
    /// The string value of the hex-encoded redemption script.
    pub redeem_script: String,
}

/// Error when converting a `CreateMultisig` type into the model type.
#[derive(Debug)]
pub enum CreateMultisigError {
    /// Conversion of the `address` field failed.
    Address(bitcoin::address::ParseError),
    /// Conversion of the `redeem_script` field failed.
    RedeemScript(bitcoin::hex::HexToBytesError),
}

impl CreateMultisig {
    /// Converts version specific type to a version nonspecific, more strongly typed type.
    pub fn into_model(self) -> (r: Result<model::CreateMultisig, CreateMultisigError>)
        ensures
            match r {
                Ok(m) => {
                    &&& address_from_str(self.address@) == Some(m.address)
                    &&& is_hex(self.redeem_script@)
                    &&& m.redeem_script@ == hex_decode(self.redeem_script@)
                    &&& m.descriptor is None
                    &&& m.warnings is None
                },
                Err(CreateMultisigError::Address(e)) => address_parse_result(self.address@) == Err::<Address, _>(e),
                Err(CreateMultisigError::RedeemScript(e)) => {
                    &&& address_parses(self.address@)
                    &&& !is_hex(self.redeem_script@)
                    &&& e == bytes_hex_error(self.redeem_script@)
                },
            },
    {
        let address = match parse_address(self.address.as_str()) {
            Ok(a) => a,
            Err(e) => return Err(CreateMultisigError::Address(e)),
        };
        let redeem_script = match bytes_from_hex(self.redeem_script.as_str()) {
            Ok(s) => s,
            Err(e) => return Err(CreateMultisigError::RedeemScript(e)),
        };
        Ok(model::CreateMultisig { address, redeem_script, descriptor: None, warnings: None })
    }
}

/// Result of JSON-RPC method `signmessagewithprivkey`.
///
/// > signmessagewithprivkey "privkey" "message"
/// >
/// > Sign a message with the private key of an address
#[derive(Clone, Debug, PartialEq, Eq)]
pub struct SignMessageWithPrivKey(
    /// The signature of the message encoded in base 64.
    pub String,
);

impl SignMessageWithPrivKey {
    /// Converts version specific type to a version nonspecific, more strongly typed type.
    ///
    /// The RPC returns a base64-encoded Bitcoin message signature.
    pub fn into_model(self) -> (r: Result<
        model::SignMessageWithPrivKey,
        bitcoin::sign_message::MessageSignatureError,
    >)
        ensures
            r is Ok <==> message_signature_parses(self.0@),
            r matches Ok(m) ==> message_signature_result(self.0@) == Ok::<_, bitcoin::sign_message::MessageSignatureError>(m.0),
            r matches Err(e) ==> message_signature_result(self.0@) == Err::<bitcoin::sign_message::MessageSignature, _>(e),
    {
        match parse_message_signature(self.0.as_str()) {
            Ok(sig) => Ok(model::SignMessageWithPrivKey(sig)),
            Err(e) => Err(e),
        }
    }
}

/// Result of JSON-RPC method `validateaddress`.
///
/// > validateaddress "address"
/// >
/// > Return information about the given bitcoin address.
#[derive(Clone, Debug, PartialEq, Eq)]
pub struct ValidateAddress {
    /// If the address is valid or not. If not, this is the only property returned.
    pub is_valid: bool,
    /// The bitcoin address validated.
    pub address: String,
    /// The hex encoded scriptPubKey generated by the address.
    pub script_pubkey: String,
    /// If the key is a script.
    pub is_script: bool,
    /// If the address is a witness address.
    pub is_witness: bool,
    /// The version number of the witness program.
    pub witness_version: Option<i64>,
    /// The hex value of the witness program.
    pub witness_program: Option<String>,
}

/// Error when converting a `ValidateAddress` type into the model type.
#[derive(Debug)]
pub enum ValidateAddressError {
    /// Conversion of the `address` field failed.
    Address(bitcoin::address::ParseError),
    /// Conversion of the `script_pubkey` field failed.
    ScriptPubKey(bitcoin::hex::HexToBytesError),
    /// The `witness_version` field's value was too big for a u8.
    WitnessVersionValue(i64),
    /// Conversion of the `witness_version` field failed.
    WitnessVersion(bitcoin::script::witness_version::TryFromError),
    /// Conversion of the `witness_program` field hex string to bytes failed.
    WitnessProgramBytes(bitcoin::hex::HexToBytesError),
    /// Conversion of the `witness_program` field failed.
    WitnessProgram(bitcoin::script::witness_program::Error),
}

impl ValidateAddress {
    /// The witness fields are converted: both are present.
    pub open spec fn has_witness(self) -> bool {
        self.witness_version is Some && self.witness_program is Some
    }

    /// The address and the script pubkey convert.
    pub open spec fn base_converts(self) -> bool {
        address_parses(self.address@) && is_hex(self.script_pubkey@)
    }

    /// The witness version is a valid segwit version (0 to 16).
    pub open spec fn witness_version_valid(self) -> bool {
        0 <= self.witness_version->0 <= 16
    }

    /// Law: the witness fields are converted exactly where both are present; the address and
    /// the script pubkey convert exactly where the address parses and the script is hex; a
    /// witness version is valid exactly from 0 to 16.
    pub proof fn lemma_validate_address_conditions(self)
        ensures
            self.has_witness() <==> (self.witness_version is Some && self.witness_program is Some),
            self.base_converts() <==> (address_parse_result(self.address@) is Ok && is_hex(
                self.script_pubkey@,
            )),
            self.witness_version matches Some(v) ==> (self.witness_version_valid() <==> 0 <= v <= 16),
    {
    }

    /// Converts version specific type to a version nonspecific, more strongly typed type.
    ///
    /// The witness version and program are converted only where both are present; otherwise both
    /// are absent from the model.
    pub fn into_model(self) -> (r: Result<model::ValidateAddress, ValidateAddressError>)
        ensures
            match r {
                Ok(m) => {
                    &&& self.base_converts()
                    &&& address_from_str(self.address@) == Some(m.address)
                    &&& m.is_valid == self.is_valid
                    &&& m.script_pubkey@ == hex_decode(self.script_pubkey@)
                    &&& m.is_script == self.is_script
                    &&& m.is_witness == self.is_witness
                    &&& self.has_witness() ==> {
                        &&& self.witness_version_valid()
                        &&& is_hex(self.witness_program->0@)
                        &&& 2 <= hex_decode(self.witness_program->0@).len() <= 40
                        &&& self.witness_version->0 == 0 ==> (hex_decode(self.witness_program->0@).len()
                            == 20 || hex_decode(self.witness_program->0@).len() == 32)
                        &&& m.witness_version == Some(witness_version_of(self.witness_version->0 as u8))
                        &&& m.witness_program == Some(
                            witness_program_of(
                                witness_version_of(self.witness_version->0 as u8),
                                hex_decode(self.witness_program->0@),
                            ),
                        )
                    }
                    &&& !self.has_witness() ==> m.witness_version is None && m.witness_program is None
                },
                Err(ValidateAddressError::Address(e)) => address_parse_result(self.address@) == Err::<Address, _>(e),
                Err(ValidateAddressError::ScriptPubKey(e)) => {
                    &&& address_parses(self.address@)
                    &&& !is_hex(self.script_pubkey@)
                    &&& e == bytes_hex_error(self.script_pubkey@)
                },
                Err(ValidateAddressError::WitnessVersionValue(v)) => {
                    &&& self.base_converts()
                    &&& self.has_witness()
                    &&& v == self.witness_version->0
                    &&& !(0 <= v <= 255)
                },
                Err(ValidateAddressError::WitnessVersion(e)) => {
                    &&& self.base_converts()
                    &&& self.has_witness()
                    &&& 16 < self.witness_version->0 <= 255
                    &&& e == witness_version_error(self.witness_version->0 as u8)
                },
                Err(ValidateAddressError::WitnessProgramBytes(e)) => {
                    &&& self.base_converts()
                    &&& self.has_witness()
                    &&& self.witness_version_valid()
                    &&& !is_hex(self.witness_program->0@)
                    &&& e == bytes_hex_error(self.witness_program->0@)
                },
                Err(ValidateAddressError::WitnessProgram(e)) => {
                    &&& e == witness_program_error(
                        witness_version_of(self.witness_version->0 as u8),
                        hex_decode(self.witness_program->0@),
                    )
                    &&& self.base_converts()
                    &&& self.has_witness()
                    &&& self.witness_version_valid()
                    &&& is_hex(self.witness_program->0@)
                    &&& !(2 <= hex_decode(self.witness_program->0@).len() <= 40) || (
                    self.witness_version->0 == 0 && hex_decode(self.witness_program->0@).len() != 20
                        && hex_decode(self.witness_program->0@).len() != 32)
                },
            },
    {
        let address = match parse_address(self.address.as_str()) {
            Ok(a) => a,
            Err(e) => return Err(ValidateAddressError::Address(e)),
        };
        let script_pubkey = match bytes_from_hex(self.script_pubkey.as_str()) {
            Ok(s) => s,
            Err(e) => return Err(ValidateAddressError::ScriptPubKey(e)),
        };
        let (witness_version, witness_program) = match (self.witness_version, self.witness_program) {
            (Some(v), Some(hex)) => {
                if v > 255 || v < 0 {
                    return Err(ValidateAddressError::WitnessVersionValue(v));
                }
                let witness_version = match witness_version_from_u8(v as u8) {
                    Ok(wv) => wv,
                    Err(e) => return Err(ValidateAddressError::WitnessVersion(e)),
                };
                let bytes = match bytes_from_hex(hex.as_str()) {
                    Ok(b) => b,
                    Err(e) => return Err(ValidateAddressError::WitnessProgramBytes(e)),
                };
                let witness_program = match witness_program_new(witness_version, bytes.as_slice()) {
                    Ok(p) => p,
                    Err(e) => return Err(ValidateAddressError::WitnessProgram(e)),
                };
                (Some(witness_version), Some(witness_program))
            },
            _ => (None, None),
        };
        Ok(model::ValidateAddress {
            is_valid: self.is_valid,
            address,
            script_pubkey,
            is_script: self.is_script,
            is_witness: self.is_witness,
            witness_version,
            witness_program,
        })
    }
}

/// Result of JSON-RPC method `verifymessage`.
///
/// > verifymessage "address" "signature" "message"
/// >
/// > Verify a signed message
#[derive(Clone, Debug, PartialEq, Eq)]
pub struct VerifyMessage(
    /// If the signature is verified or not.
    pub bool,
);

/// Result of JSON-RPC method `estimatesmartfee`.
///
/// > estimatesmartfee conf_target ("estimate_mode")
/// >
/// > Estimates the approximate fee per kilobyte needed for a transaction to begin
/// > confirmation within conf_target blocks if possible and return the number of blocks
/// > for which the estimate is valid.
///
/// `R` is the type of the fee rate. Core writes it as a JSON floating point number of BTC per
/// kvB; `into_model` takes it as read outside this library ([`ReadFeeRate`]).
#[derive(Clone, Debug, PartialEq)]
pub struct EstimateSmartFee<R> {
    /// Estimate fee rate in BTC/kB.
    pub fee_rate: Option<R>,
    /// Errors encountered during processing.
    pub errors: Option<Vec<String>>,
    /// Block number where estimate was found.
    pub blocks: u32,
}

impl EstimateSmartFee<ReadFeeRate> {
    /// Converts version specific type to a version nonspecific, more strongly typed type.
    ///
    /// Fails exactly where reading the fee rate failed, with the error of that reading; a rate
    /// read as not fitting is kept as `Some(None)`.
    pub fn into_model(self) -> (r: Result<model::EstimateSmartFee, bitcoin::amount::ParseAmountError>)
        ensures
            r is Err <==> self.fee_rate matches Some(Err(_)),
            r matches Err(e) ==> self.fee_rate == Some(ReadFeeRate::Err(e)),
            r matches Ok(m) ==> {
                &&& m.fee_rate == match self.fee_rate {
                    Some(Ok(f)) => Some(f),
                    _ => None,
                }
                &&& m.errors == self.errors
                &&& m.blocks == self.blocks
            },
    {
        let fee_rate = match self.fee_rate {
            Some(Ok(f)) => Some(f),
            Some(Err(e)) => return Err(e),
            None => None,
        };
        Ok(model::EstimateSmartFee { fee_rate, errors: self.errors, blocks: self.blocks })
    }
}

} // verus!
