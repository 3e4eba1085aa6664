//! Keys and message signatures: the calls into `bitcoin` that parse them.
use vstd::prelude::*;

use core::str::FromStr;

verus! {

/// A private key of `bitcoin`, carried through unopened.
#[verifier::external_type_specification]
#[verifier::external_body]
pub struct ExPrivateKey(bitcoin::PrivateKey);

/// Error of reading a private key in Wallet Import Format.
#[verifier::external_type_specification]
#[verifier::external_body]
pub struct ExFromWifError(bitcoin::key::FromWifError);

/// A signed message signature of `bitcoin`, carried through unopened.
#[verifier::external_type_specification]
#[verifier::external_body]
pub struct ExMessageSignature(bitcoin::sign_message::MessageSignature);

/// Error of parsing a message signature.
#[verifier::external_type_specification]
#[verifier::external_body]
pub struct ExMessageSignatureError(bitcoin::sign_message::MessageSignatureError);

/// What `bitcoin::PrivateKey::from_wif` returns for `s`: the private key, or its error.
pub uninterp spec fn wif_result(s: Seq<char>) -> Result<bitcoin::PrivateKey, bitcoin::key::FromWifError>;

/// The private key read from `s`, or `None` where it does not parse.
pub open spec fn wif_private_key(s: Seq<char>) -> Option<bitcoin::PrivateKey> {
    match wif_result(s) {
        Ok(k) => Some(k),
        Err(_) => None,
    }
}

/// Whether `bitcoin::PrivateKey::from_wif` accepts `s`.
pub open spec fn wif_parses(s: Seq<char>) -> bool {
    wif_private_key(s) is Some
}

/// What `<bitcoin::sign_message::MessageSignature as FromStr>::from_str` returns for `s`: the
/// signature, or its error.
pub uninterp spec fn message_signature_result(s: Seq<char>) -> Result<
    bitcoin::sign_message::MessageSignature,
    bitcoin::sign_message::MessageSignatureError,
>;

/// The signature read from `s`, or `None` where it does not parse.
pub open spec fn message_signature_from_str(s: Seq<char>) -> Option<bitcoin::sign_message::MessageSignature> {
    match message_signature_result(s) {
        Ok(sig) => Some(sig),
        Err(_) => None,
    }
}

/// Whether `<bitcoin::sign_message::MessageSignature as FromStr>::from_str` accepts `s`.
pub open spec fn message_signature_parses(s: Seq<char>) -> bool {
    message_signature_from_str(s) is Some
}

/// Reads a private key in Wallet Import Format with `bitcoin::PrivateKey::from_wif`.
///
/// Trusted: the result, the error included, is a function of the string alone, named by
/// [`wif_result`] (base58check decoding is not restated).
#[verifier::external_body]
pub(crate) fn private_key_from_wif(s: &str) -> (r: Result<bitcoin::PrivateKey, bitcoin::key::FromWifError>)
    ensures
        r == wif_result(s@),
{
    bitcoin::PrivateKey::from_wif(s)
}

/// Parses a base64 message signature with
/// `<bitcoin::sign_message::MessageSignature as FromStr>::from_str`.
///
/// Trusted: the result, the error included, is a function of the string alone, named by
/// [`message_signature_result`] (base64 decoding is not restated).
#[verifier::external_body]
pub(crate) fn parse_message_signature(s: &str) -> (r: Result<
    bitcoin::sign_message::MessageSignature,
    bitcoin::sign_message::MessageSignatureError,
>)
    ensures
        r == message_signature_result(s@),
{
    bitcoin::sign_message::MessageSignature::from_str(s)
}

} // verus!
