//! The JSON-RPC API for Bitcoin Core `v20` - util.
//!
//! Types for methods found under the `== Util ==` section of the API docs.
use vstd::prelude::*;

use crate::address::{
    address_from_str, address_parse_result, address_parses, parse_address, Address,
};
use crate::hex::{bytes_from_hex, bytes_hex_error, hex_decode, is_hex};
use crate::model;
use crate::v17::CreateMultisigError;

verus! {

/// Result of JSON-RPC method `createmultisig`.
///
/// > createmultisig nrequired ["key",...] ( "address_type" )
/// >
/// > Creates a multi-signature address with n signature of m keys required.
#[derive(Clone, Debug, PartialEq, Eq)]
pub struct CreateMultisig {
    /// The value of the new multisig address.
    pub address: String,
    /// The string value of the hex-encoded redemption script.
    pub redeem_script: String,
    /// The descriptor for this multisig.
    pub descriptor: String,
}

impl CreateMultisig {
    /// Converts version specific type to a version nonspecific, more strongly typed type.
    pub fn into_model(self) -> (r: Result<model::CreateMultisig, CreateMultisigError>)
        ensures
            match r {
                Ok(m) => {
                    &&& address_from_str(self.address@) == Some(m.address)
                    &&& is_hex(self.redeem_script@)
                    &&& m.redeem_script@ == hex_decode(self.redeem_script@)
                    &&& m.descriptor matches Some(d) && d@ == self.descriptor@
                    &&& m.warnings is None
                },
                Err(CreateMultisigError::Address(e)) => address_parse_result(self.address@) == Err::<Address, _>(e),
                Err(CreateMultisigError::RedeemScript(e)) => {
                    &&& address_parses(self.address@)
                    &&& !is_hex(self.redeem_script@)
                    &&& e == bytes_hex_error(self.redeem_script@)
                },
            },
    {
        let address = match parse_address(self.address.as_str()) {
            Ok(a) => a,
            Err(e) => return Err(CreateMultisigError::Address(e)),
        };
        let redeem_script = match bytes_from_hex(self.redeem_script.as_str()) {
            Ok(s) => s,
            Err(e) => return Err(CreateMultisigError::RedeemScript(e)),
        };
        Ok(model::CreateMultisig {
            address,
            redeem_script,
            descriptor: Some(self.descriptor),
            warnings: None,
        })
    }
}

} // verus!
