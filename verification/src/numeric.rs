//! Conversion of the `numeric` values of the JSON-RPC API into fixed width integers.
use vstd::prelude::*;

use crate::decimal::{int_decimal, push_int_decimal};

verus! {

/// Error converting an `i64` to a `u32`.
///
/// If a numeric value is expected to fit inside a `u32` the `model` module uses that type; this
/// requires converting the `i64` returned by the JSON-RPC API into a `u32`, and when that
/// expectation is not met this error is returned.
#[derive(Debug, Clone)]
pub enum NumericError {
    /// Expected an unsigned numeric value however the value was negative.
    Negative { field: String, value: i64 },
    /// A value larger than `u32::MAX` was unexpectedly encountered.
    Overflow { field: String, value: i64 },
}

/// The mathematical content of a [`NumericError`]: the kind of failure, the field name and the
/// value that was rejected.
pub enum NumericErrorView {
    Negative { field: Seq<char>, value: i64 },
    Overflow { field: Seq<char>, value: i64 },
}

impl View for NumericError {
    type V = NumericErrorView;

    open spec fn view(&self) -> NumericErrorView {
        match self {
            NumericError::Negative { field, value } => NumericErrorView::Negative {
                field: field@,
                value: *value,
            },
            NumericError::Overflow { field, value } => NumericErrorView::Overflow {
                field: field@,
                value: *value,
            },
        }
    }
}

impl NumericError {
    /// The human readable description of the error, as its `Display` renders it.
    pub fn message(&self) -> (r: String)
        ensures
            r@ == numeric_error_message(self@),
    {
        match self {
            NumericError::Negative { field, value } => {
                let mut s = String::from_str(
                    "expected an unsigned numeric value however the value was negative (field name: ",
                );
                s.append(field.as_str());
                s.append(" value: ");
                push_int_decimal(&mut s, *value);
                s.append(")");
                s
            },
            NumericError::Overflow { field, value } => {
                let mut s = String::from_str(
                    "a value larger than `u32::MAX` was unexpectedly encountered (field name: ",
                );
                s.append(field.as_str());
                s.append(" Value: ");
                push_int_decimal(&mut s, *value);
                s.append(")");
                s
            },
        }
    }
}

/// The description of a numeric error: what went wrong, the field name and the value in decimal.
pub open spec fn numeric_error_message(e: NumericErrorView) -> Seq<char> {
    match e {
        NumericErrorView::Negative { field, value } =>
            "expected an unsigned numeric value however the value was negative (field name: "@
                + field + " value: "@ + int_decimal(value as int) + ")"@,
        NumericErrorView::Overflow { field, value } =>
            "a value larger than `u32::MAX` was unexpectedly encountered (field name: "@ + field
                + " Value: "@ + int_decimal(value as int) + ")"@,
    }
}

/// Whether `value` is representable as a `u32`.
pub open spec fn fits_u32(value: i64) -> bool {
    0 <= value <= u32::MAX
}

/// The error that [`to_u32`] reports for a `value` that does not fit, named `field`.
pub open spec fn u32_error(value: i64, field: Seq<char>) -> NumericErrorView {
    if value < 0 {
        NumericErrorView::Negative { field, value }
    } else {
        NumericErrorView::Overflow { field, value }
    }
}

/// Converts an `i64` numeric value to a `u32`.
///
/// The Bitcoin Core JSON-RPC API has fields marked as 'numeric'. An `i64` is used for them in
/// the version specific types because it is the biggest signed integer on common machines and
/// because Core sometimes returns -1.
pub fn to_u32(value: i64, field: &str) -> (r: Result<u32, NumericError>)
    ensures
        fits_u32(value) ==> r == Ok::<u32, NumericError>(value as u32),
        !fits_u32(value) ==> (r matches Err(e) && e@ == u32_error(value, field@)),
{
    if value < 0 {
        return Err(NumericError::Negative { field: field.to_owned(), value });
    }
    if value > 0xffff_ffffi64 {
        return Err(NumericError::Overflow { field: field.to_owned(), value });
    }
    Ok(value as u32)
}

/// Whether an optional numeric value is absent or representable as a `u32`.
pub open spec fn opt_fits_u32(value: Option<i64>) -> bool {
    match value {
        Some(v) => fits_u32(v),
        None => true,
    }
}

/// An optional numeric value as an optional `u32` (meaningful where [`opt_fits_u32`] holds).
pub open spec fn opt_as_u32(value: Option<i64>) -> Option<u32> {
    match value {
        Some(v) => Some(v as u32),
        None => None,
    }
}

/// Converts an optional `i64` numeric value to an optional `u32`, as `value.map(|v| to_u32(v,
/// field)).transpose()` does.
pub fn to_u32_opt(value: Option<i64>, field: &str) -> (r: Result<Option<u32>, NumericError>)
    ensures
        opt_fits_u32(value) ==> r == Ok::<Option<u32>, NumericError>(opt_as_u32(value)),
        !opt_fits_u32(value) ==> (r matches Err(e) && e@ == u32_error(value->0, field@)),
{
    match value {
        Some(v) => match to_u32(v, field) {
            Ok(x) => Ok(Some(x)),
            Err(e) => Err(e),
        },
        None => Ok(None),
    }
}

} // verus!
