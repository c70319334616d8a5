use apple_rs_sys::boolean::{Boolean, NO, YES};
use apple_rs_sys::error::BridgeError;

#[test]
fn test_boolean() {
    let boolean = Boolean::new(true);
    assert_eq!(boolean.value(), true);
    assert_eq!(boolean.id(), YES);

    let boolean = Boolean::new(false);
    assert_eq!(boolean.value(), false);
    assert_eq!(boolean.id(), NO);
}

#[test]
fn round_trip_both_values() {
    for host in [true, false] {
        let raw = Boolean::new(host).id();
        assert_eq!(Boolean::try_from_raw(raw), Ok(Boolean(host)));
    }
}

#[test]
fn unmarshal_rejects_non_sentinels() {
    for raw in [-1i8, 2, 7, i8::MIN, i8::MAX] {
        assert_eq!(Boolean::try_from_raw(raw), Err(BridgeError::UnmarshalError));
    }
}

#[test]
fn unmarshal_accepts_sentinels() {
    assert_eq!(Boolean::try_from_raw(YES), Ok(Boolean(true)));
    assert_eq!(Boolean::try_from_raw(NO), Ok(Boolean(false)));
}

#[test]
fn not_flips_host_value() {
    assert_eq!(Boolean::new(true).not(), Boolean(false));
    assert_eq!(Boolean::new(false).not(), Boolean(true));
    assert_eq!(Boolean::new(true).not().id(), NO);
}
