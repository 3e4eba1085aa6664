//! Amounts and fee rates of `bitcoin`.
//!
//! Core writes amounts as JSON floating point numbers of BTC. Reading such a number is floating
//! point work and is done outside this library (with `bitcoin::Amount::from_btc`); the types
//! here carry its results through the conversions unopened.
use vstd::prelude::*;

verus! {

/// An amount of `bitcoin`, carried through unopened.
#[verifier::external_type_specification]
#[verifier::external_body]
pub struct ExAmount(bitcoin::Amount);

/// A signed amount of `bitcoin`, carried through unopened.
#[verifier::external_type_specification]
#[verifier::external_body]
pub struct ExSignedAmount(bitcoin::SignedAmount);

/// A fee rate of `bitcoin`, carried through unopened.
#[verifier::external_type_specification]
#[verifier::external_body]
pub struct ExFeeRate(bitcoin::FeeRate);

/// `Clone` of `bitcoin::Amount`, which `derive` writes beside `Copy` in `bitcoin-units`.
///
/// Trusted: the clone is the amount itself.
pub assume_specification[ <bitcoin::Amount as Clone>::clone ](a: &bitcoin::Amount) -> (r: bitcoin::Amount)
    ensures
        r == *a,
;

/// `Clone` of `bitcoin::FeeRate`, which `derive` writes beside `Copy` in `bitcoin-units`.
///
/// Trusted: the clone is the fee rate itself.
pub assume_specification[ <bitcoin::FeeRate as Clone>::clone ](f: &bitcoin::FeeRate) -> (r: bitcoin::FeeRate)
    ensures
        r == *f,
;

/// An amount as the conversions take it: what `bitcoin::Amount::from_btc` made of the BTC
/// number Core wrote.
pub type ReadAmount = Result<bitcoin::Amount, bitcoin::amount::ParseAmountError>;

/// A fee rate as the conversions take it: what reading Core's BTC per kvB number made of it
/// (`bitcoin::Amount::from_btc` of the rate per byte, then `bitcoin::FeeRate::from_sat_per_vb`,
/// which is `None` where the rate per kwu does not fit a `u64`).
pub type ReadFeeRate = Result<Option<bitcoin::FeeRate>, bitcoin::amount::ParseAmountError>;

} // verus!
