//! JSON-RPC types for Bitcoin Core `v20`.
mod network;
mod util;
mod wallet;

pub use self::network::SetNetworkActive;
pub use self::util::CreateMultisig;
pub use self::wallet::{AbortRescan, EncryptWallet};
pub use crate::v17::CreateMultisigError;
