//! The JSON-RPC API for Bitcoin Core `v19` - raw transactions.
//!
//! Types for methods found under the `== Rawtransactions ==` section of the API docs.
use vstd::prelude::*;

use crate::address::Address;

verus! {

/// Result of JSON-RPC method `decodescript`.
///
/// > decodescript "hexstring"
/// >
/// > Decode a hex-encoded script.
#[derive(Debug, PartialEq)]
pub struct DecodeScript {
    /// Script public key.
    pub assembly: String,
    /// The output type.
    pub type_: String,
    /// Bitcoin address (only if a well-defined address exists). v22 and later only.
    pub address: Option<String>,
    /// The required signatures.
    pub required_signatures: Option<u64>,
    /// List of bitcoin addresses.
    pub addresses: Option<Vec<String>>,
    /// Address of P2SH script wrapping this redeem script (not returned if the script is already a P2SH).
    pub p2sh: Option<String>,
    /// Result of a witness output script wrapping this redeem script (not returned for types that
    /// should not be wrapped).
    pub segwit: Option<DecodeScriptSegwit>,
}

/// `segwit` item returned as part of `decodescript`.
#[derive(Debug, PartialEq)]
pub struct DecodeScriptSegwit {
    /// Disassembly of the script.
    pub assembly: String,
    /// The raw output script bytes, hex-encoded.
    pub hex: bitcoin::ScriptBuf,
    /// The output type (e.g. nonstandard, anchor, pubkey, pubkeyhash, scripthash, multisig,
    /// nulldata, witness_v0_scripthash, witness_v0_keyhash, witness_v1_taproot, witness_unknown).
    pub type_: String,
    /// Bitcoin address (only if a well-defined address exists). v22 and later only.
    pub address: Option<String>,
    /// The required signatures.
    pub required_signatures: Option<u64>,
    /// List of bitcoin addresses.
    pub addresses: Option<Vec<String>>,
    /// Address of the P2SH script wrapping this witness redeem script.
    pub p2sh_segwit: Option<Address>,
}

} // verus!
