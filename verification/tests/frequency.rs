use librtlsdr_rs::device::frequency::freq_minus_offset;
use librtlsdr_rs::error::RtlSdrError;

#[test]
fn freq_minus_offset_above_floor_subtracts() {
    assert_eq!(
        freq_minus_offset(100_000_000, 2_720_000).ok(),
        Some(97_280_000)
    );
}

#[test]
fn freq_minus_offset_at_floor_returns_zero() {
    assert_eq!(freq_minus_offset(2_720_000, 2_720_000).ok(), Some(0));
}

#[test]
fn freq_minus_offset_with_zero_offset_is_identity() {
    assert_eq!(freq_minus_offset(100_000_000, 0).ok(), Some(100_000_000));
}

#[test]
fn freq_minus_offset_below_floor_returns_invalid_parameter() {
    let result = freq_minus_offset(100_000, 2_720_000);
    assert!(
        matches!(
            &result,
            Err(RtlSdrError::InvalidParameter(msg))
                if msg.contains("100000") && msg.contains("2720000")
        ),
        "expected InvalidParameter naming both values, got {result:?}",
    );
}
