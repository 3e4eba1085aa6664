//! The JSON-RPC API for Bitcoin Core `v20` - network.
//!
//! Types for methods found under the `== Network ==` section of the API docs.
use vstd::prelude::*;

verus! {

/// Result of JSON-RPC method `setnetworkactive`.
///
/// > setnetworkactive
/// >
/// > Arguments:
/// > 1. state (boolean, required) true to enable networking, false to disable
/// >
/// > Returns true|false (boolean) The value that was passed in
#[derive(Debug, Clone, PartialEq, Eq)]
pub struct SetNetworkActive(pub bool);

} // verus!
