//! The JSON-RPC API for Bitcoin Core `v20` - wallet.
//!
//! Types for methods found under the `== Wallet ==` section of the API docs.
use vstd::prelude::*;

verus! {

/// Result of JSON-RPC method `abortrescan`.
///
/// > abortrescan
/// >
/// > Returns null
#[derive(Clone, Debug, PartialEq, Eq)]
pub struct AbortRescan(pub bool);

/// Result of JSON-RPC method `encryptwallet`.
///
/// > encryptwallet
/// >
/// > Arguments:
/// > 1. passphrase (string, required) The pass phrase to encrypt the wallet with. It must be at
/// > least 1 character, but should be long.
/// >
/// > Returns "str" (string) A string with further instructions
#[derive(Clone, Debug, PartialEq, Eq)]
pub struct EncryptWallet(pub String);

} // verus!
