//! The JSON-RPC API for Bitcoin Core `v22` - raw transactions.
//!
//! Types for methods found under the `== Rawtransactions ==` section of the API docs.
use vstd::prelude::*;

use crate::address::{
    address_parse_result, address_parses, addresses_from_strs, all_addresses_parse,
    first_address_error, opt_address_from_str, parse_address, parse_addresses, Address,
};
use crate::model;
use crate::v19::DecodeScriptSegwit;

verus! {

/// Result of JSON-RPC method `decodescript`.
///
/// > decodescript "hexstring"
/// >
/// > Decode a hex-encoded script.
#[derive(Debug, PartialEq)]
pub struct DecodeScript {
    /// Script public key.
    pub assembly: String,
    /// The output type.
    pub type_: String,
    /// Bitcoin address (only if a well-defined address exists).
    pub address: Option<String>,
    /// The required signatures.
    pub required_signatures: Option<u64>,
    /// List of bitcoin addresses.
    pub addresses: Option<Vec<String>>,
    /// Address of P2SH script wrapping this redeem script (not returned if the script is already a P2SH).
    pub p2sh: Option<String>,
    /// Address of the P2SH script wrapping this witness redeem script.
    pub p2sh_segwit: Option<String>,
    /// Result of a witness output script wrapping this redeem script (not returned for types that
    /// should not be wrapped).
    pub segwit: Option<DecodeScriptSegwit>,
}

/// Error when converting a `DecodeScript` type into the model type.
#[derive(Debug)]
pub enum DecodeScriptError {
    /// Conversion of the `address` field failed.
    Address(bitcoin::address::ParseError),
    /// Conversion of the `addresses` field failed.
    Addresses(bitcoin::address::ParseError),
    /// Conversion of the `p2sh` field failed.
    P2sh(bitcoin::address::ParseError),
}

/// An optional address field converts: it is absent or parses.
pub open spec fn opt_address_parses(a: Option<String>) -> bool {
    match a {
        Some(s) => address_parses(s@),
        None => true,
    }
}

/// An optional list of addresses converts: it is absent or every address parses.
pub open spec fn opt_addresses_parse(a: Option<Vec<String>>) -> bool {
    match a {
        Some(v) => all_addresses_parse(v@),
        None => true,
    }
}

/// `m` is the `segwit` item `s` carried into the model.
pub open spec fn segwit_carried(s: DecodeScriptSegwit, m: model::DecodeScriptSegwit) -> bool {
    &&& m.assembly == s.assembly
    &&& m.hex == s.hex
    &&& m.type_ == s.type_
    &&& m.address == s.address
    &&& m.required_signatures == s.required_signatures
    &&& m.addresses == s.addresses
    &&& m.p2sh_segwit == s.p2sh_segwit
}

/// Law: the `segwit` item is carried into the model field by field, each unchanged.
pub proof fn lemma_segwit_carried_fields(s: DecodeScriptSegwit, m: model::DecodeScriptSegwit)
    requires
        segwit_carried(s, m),
    ensures
        m.assembly@ == s.assembly@,
        m.hex == s.hex,
        m.type_@ == s.type_@,
        m.address == s.address,
        m.required_signatures == s.required_signatures,
        m.addresses == s.addresses,
        m.p2sh_segwit == s.p2sh_segwit,
{
}

impl DecodeScript {
    /// Converts version specific type to a version nonspecific, more strongly typed type.
    ///
    /// The address, the list of addresses (empty where absent) and the P2SH address are parsed in
    /// that order; the first that fails gives the error. The `segwit` item is carried unchanged.
    pub fn into_model(self) -> (r: Result<model::DecodeScript, DecodeScriptError>)
        ensures
            match r {
                Ok(m) => {
                    &&& opt_address_parses(self.address)
                    &&& opt_addresses_parse(self.addresses)
                    &&& opt_address_parses(self.p2sh)
                    &&& m.script_pubkey is None
                    &&& m.type_ == self.type_
                    &&& m.descriptor is None
                    &&& m.address == opt_address_from_str(self.address)
                    &&& m.required_signatures == self.required_signatures
                    &&& match self.addresses {
                        Some(v) => addresses_from_strs(v@, m.addresses@),
                        None => m.addresses@.len() == 0,
                    }
                    &&& m.p2sh == opt_address_from_str(self.p2sh)
                    &&& m.p2sh_segwit == self.p2sh_segwit
                    &&& (m.segwit is Some <==> self.segwit is Some)
                    &&& self.segwit matches Some(s) ==> segwit_carried(s, m.segwit->0)
                },
                Err(DecodeScriptError::Address(e)) => {
                    self.address matches Some(a) && address_parse_result(a@) == Err::<Address, _>(e)
                },
                Err(DecodeScriptError::Addresses(e)) => {
                    &&& opt_address_parses(self.address)
                    &&& !opt_addresses_parse(self.addresses)
                    &&& self.addresses matches Some(v) && first_address_error(v@, e)
                },
                Err(DecodeScriptError::P2sh(e)) => {
                    &&& opt_address_parses(self.address)
                    &&& opt_addresses_parse(self.addresses)
                    &&& self.p2sh matches Some(a) && address_parse_result(a@) == Err::<Address, _>(e)
                },
            },
    {
        let address = match &self.address {
            Some(addr) => match parse_address(addr.as_str()) {
                Ok(a) => Some(a),
                Err(e) => return Err(DecodeScriptError::Address(e)),
            },
            None => None,
        };
        let addresses = match &self.addresses {
            Some(addresses) => match parse_addresses(addresses) {
                Ok(v) => v,
                Err(e) => return Err(DecodeScriptError::Addresses(e)),
            },
            None => Vec::new(),
        };
        let p2sh = match &self.p2sh {
            Some(s) => match parse_address(s.as_str()) {
                Ok(a) => Some(a),
                Err(e) => return Err(DecodeScriptError::P2sh(e)),
            },
            None => None,
        };
        let segwit = match self.segwit {
            Some(s) => Some(model::DecodeScriptSegwit {
                assembly: s.assembly,
                hex: s.hex,
                type_: s.type_,
                address: s.address,
                required_signatures: s.required_signatures,
                addresses: s.addresses,
                p2sh_segwit: s.p2sh_segwit,
            }),
            None => None,
        };
        Ok(model::DecodeScript {
            script_pubkey: None,
            type_: self.type_,
            descriptor: None,
            address,
            required_signatures: self.required_signatures,
            addresses,
            p2sh,
            p2sh_segwit: self.p2sh_segwit,
            segwit,
        })
    }
}

} // verus!
