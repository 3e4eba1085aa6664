//! JSON-RPC types for Bitcoin Core `v22`.
mod hidden;
mod raw_transactions;

pub use self::hidden::AddConnection;
pub use self::raw_transactions::{DecodeScript, DecodeScriptError};
pub use crate::v19::DecodeScriptSegwit;
