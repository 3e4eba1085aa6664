//! Types returned by the JSON-RPC API of Bitcoin Core, with verified conversions.
//!
//! The version specific modules (`v17`, `v18`, ...) hold the types shaped like the JSON that Core
//! returns. Where a type can be converted into a version nonspecific, more strongly typed value,
//! it has an `into_model` method that produces a type of the [`model`] module.
use vstd::prelude::*;

pub mod amount;
pub mod decimal;
pub mod numeric;
pub mod hex;
pub mod chain;
pub mod address;
pub mod keys;
pub mod consensus;
pub mod model;
pub mod script;
pub mod v17;
pub mod v18;
pub mod v19;
pub mod v20;
pub mod v22;
pub mod v23;
pub mod v25;
pub mod v28;
pub mod v29;
pub mod v30;
pub mod compact_size;

pub use numeric::{to_u32, NumericError};
pub use compact_size::compact_size_decode;

verus! {

} // verus!
