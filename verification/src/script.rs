//! Scripts as Core reports them, and witnesses built from hex.
use vstd::prelude::*;

use crate::address::{address_parse_result, parse_address, Address};
use crate::consensus::{witness_from_items, witness_from_slice};
use crate::hex::{bytes_from_hex, hex_decode, is_hex};

verus! {

/// A script of `bitcoin`, carried through unopened.
#[verifier::external_type_specification]
#[verifier::external_body]
pub struct ExScriptBuf(bitcoin::ScriptBuf);

/// Data returned by Core for a script pubkey.
///
/// This is used by methods in the blockchain section and in the raw transaction section (i.e raw
/// transaction and psbt methods). The shape changed in Core v22 but the new shape is fully
/// backwards compatible so only it is provided.
#[derive(Clone, Debug, PartialEq, Eq)]
pub struct ScriptPubkey {
    /// Script assembly.
    pub assembly: String,
    /// Inferred descriptor for the output. v23 and later only.
    pub descriptor: Option<String>,
    /// Script hex.
    pub hex: String,
    /// Number of required signatures - deprecated in Core v22.
    pub req_sigs: Option<i64>,
    /// The type, eg pubkeyhash.
    pub type_: String,
    /// Bitcoin address (only if a well-defined address exists).
    pub address: Option<String>,
    /// Array of bitcoin addresses - deprecated in Core v22.
    pub addresses: Option<Vec<String>>,
}

impl ScriptPubkey {
    /// The bytes of the script, decoded from the `hex` field.
    #[allow(dead_code)]
    pub(crate) fn script_buf(&self) -> (r: Result<Vec<u8>, bitcoin::hex::HexToBytesError>)
        ensures
            r is Ok <==> is_hex(self.hex@),
            r matches Ok(b) ==> b@ == hex_decode(self.hex@),
    {
        bytes_from_hex(self.hex.as_str())
    }

    /// The address, parsed from the `address` field where there is one.
    #[allow(dead_code)]
    pub(crate) fn address(&self) -> (r: Option<Result<Address, bitcoin::address::ParseError>>)
        ensures
            self.address is None ==> r is None,
            self.address matches Some(a) ==> r == Some(address_parse_result(a@)),
    {
        match &self.address {
            Some(addr) => Some(parse_address(addr.as_str())),
            None => None,
        }
    }
}

/// Data returned by Core for a script signature.
#[derive(Clone, Debug, PartialEq)]
pub struct ScriptSig {
    /// Assembly representation of the script.
    pub assembly: String,
    /// Hex representation of the script.
    pub hex: String,
}

impl ScriptSig {
    /// The bytes of the script, decoded from the `hex` field.
    pub fn script_buf(&self) -> (r: Result<Vec<u8>, bitcoin::hex::HexToBytesError>)
        ensures
            r is Ok <==> is_hex(self.hex@),
            r matches Ok(b) ==> b@ == hex_decode(self.hex@),
    {
        bytes_from_hex(self.hex.as_str())
    }
}

/// Every item of `items` is hex.
pub open spec fn all_items_hex(items: Seq<String>) -> bool {
    forall|i: int| 0 <= i < items.len() ==> is_hex(#[trigger] items[i]@)
}

/// Builds a witness from its items, each written in hex.
///
/// Fails, with the error of the first item that is not hex, where an item is not hex.
#[allow(dead_code)]
pub(crate) fn witness_from_hex_slice(witness: &[String]) -> (r: Result<
    bitcoin::Witness,
    bitcoin::hex::HexToBytesError,
>)
    ensures
        r is Ok <==> all_items_hex(witness@),
        r matches Ok(w) ==> w == witness_from_slice(witness@.map_values(|s: String| hex_decode(s@))),
{
    let mut bytes: Vec<Vec<u8>> = Vec::new();
    let n = witness.len();
    let mut i: usize = 0;
    while i < n
        invariant
            n == witness@.len(),
            i <= n,
            bytes@.len() == i,
            forall|j: int| 0 <= j < i ==> is_hex(#[trigger] witness@[j]@),
            forall|j: int| 0 <= j < i ==> (#[trigger] bytes@[j])@ == hex_decode(witness@[j]@),
        decreases n - i,
    {
        match bytes_from_hex(witness[i].as_str()) {
            Ok(b) => bytes.push(b),
            Err(e) => return Err(e),
        }
        i = i + 1;
    }
    assert(bytes@.map_values(|v: Vec<u8>| v@) =~= witness@.map_values(|s: String| hex_decode(s@)));
    Ok(witness_from_items(bytes.as_slice()))
}

} // verus!
