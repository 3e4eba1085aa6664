use corepc_types::{to_u32, NumericError};

#[test]
fn to_u32_accepts_values_in_range() {
    assert_eq!(to_u32(0, "blocks").unwrap(), 0);
    assert_eq!(to_u32(42, "blocks").unwrap(), 42);
    assert_eq!(to_u32(4_294_967_295, "blocks").unwrap(), u32::MAX);
}

#[test]
fn to_u32_rejects_negative_values() {
    match to_u32(-1, "height") {
        Err(NumericError::Negative { field, value }) => {
            assert_eq!(field, "height");
            assert_eq!(value, -1);
        }
        other => panic!("unexpected result: {:?}", other),
    }
    assert!(matches!(to_u32(i64::MIN, "x"), Err(NumericError::Negative { .. })));
}

#[test]
fn to_u32_rejects_values_above_u32_max() {
    match to_u32(4_294_967_296, "size") {
        Err(NumericError::Overflow { field, value }) => {
            assert_eq!(field, "size");
            assert_eq!(value, 4_294_967_296);
        }
        other => panic!("unexpected result: {:?}", other),
    }
    assert!(matches!(to_u32(i64::MAX, "x"), Err(NumericError::Overflow { .. })));
}

#[test]
fn numeric_error_messages() {
    let negative = to_u32(-1, "blocks").unwrap_err();
    assert_eq!(
        negative.message(),
        "expected an unsigned numeric value however the value was negative (field name: blocks value: -1)"
    );
    let overflow = to_u32(4_294_967_296, "size").unwrap_err();
    assert_eq!(
        overflow.message(),
        "a value larger than `u32::MAX` was unexpectedly encountered (field name: size Value: 4294967296)"
    );
    let min = to_u32(i64::MIN, "time").unwrap_err();
    assert_eq!(
        min.message(),
        "expected an unsigned numeric value however the value was negative (field name: time value: -9223372036854775808)"
    );
}
