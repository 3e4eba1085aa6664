//! The JSON-RPC API for Bitcoin Core `v22` - hidden.
//!
//! Types for methods that are excluded from the API docs by default.
use vstd::prelude::*;

use crate::model;

verus! {

/// Result of JSON-RPC method `addconnection`.
///
/// > addconnection "address" "connection_type"
/// >
/// > Open an outbound connection to a specified node. This RPC is for testing only.
#[derive(Clone, Debug, PartialEq, Eq)]
pub struct AddConnection {
    /// Address of newly added connection.
    pub address: String,
    /// Type of connection opened.
    pub connection_type: String,
}

impl AddConnection {
    /// Converts version specific type to a version nonspecific, more strongly typed type.
    pub fn into_model(self) -> (m: model::AddConnection)
        ensures
            m.address@ == self.address@,
            m.connection_type@ == self.connection_type@,
    {
        model::AddConnection { address: self.address, connection_type: self.connection_type }
    }
}

} // verus!
