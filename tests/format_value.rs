use execution_time::{FormatFloatValue, FormatIntegerValue, Seconds, Unit};

#[test]
fn test_integer_formatting() {
    assert_eq!(0u64.format_unit(Unit::Day), "0 day");
    assert_eq!(1u64.format_unit(Unit::Day), "1 day");
    assert_eq!(2u64.format_unit(Unit::Day), "2 days");
}

#[test]
fn test_floating_point_formatting() {
    assert_eq!(Seconds::from_nanos(2_000_000_000).format_float_unit(0, Unit::Hour), "2 hours");
    assert_eq!(Seconds::from_nanos(567_000_000).format_float_unit(2, Unit::Second), "0.57 second");
    assert_eq!(Seconds::from_nanos(1_567_000_000).format_float_unit(2, Unit::Second), "1.57 second");
    assert_eq!(Seconds::from_nanos(2_567_000_000).format_float_unit(2, Unit::Second), "2.57 seconds");
}

#[test]
fn integer_plural_threshold() {
    assert_eq!(1u8.format_unit(Unit::Minute), "1 minute");
    assert_eq!(2u8.format_unit(Unit::Minute), "2 minutes");
    assert_eq!(255u8.format_unit(Unit::Hour), "255 hours");
    assert_eq!(u64::MAX.format_unit(Unit::Day), "18446744073709551615 days");
    assert_eq!(10u64.format_unit(Unit::Second), "10 seconds");
}

#[test]
fn float_plural_threshold_reads_the_value_not_the_digits() {
    // 1.999999999 shows as "2" with no fractional digit, yet stays singular.
    assert_eq!(Seconds::from_nanos(1_999_999_999).format_float_unit(0, Unit::Second), "2 second");
    assert_eq!(Seconds::from_nanos(1_999_999_999).format_float_unit(9, Unit::Second), "1.999999999 second");
    assert_eq!(Seconds::from_nanos(2_000_000_000).format_float_unit(2, Unit::Hour), "2.00 hours");
    assert_eq!(Seconds::from_nanos(0).format_float_unit(1, Unit::Second), "0.0 second");
}

#[test]
fn float_formatting_pads_and_rounds() {
    assert_eq!(Seconds::from_nanos(40_056_891_730).format_float_unit(3, Unit::Second), "40.057 seconds");
    assert_eq!(Seconds::from_nanos(15_200_000).format_float_unit(6, Unit::Second), "0.015200 second");
    assert_eq!(Seconds::from_nanos(57).format_float_unit(9, Unit::Second), "0.000000057 second");
    assert_eq!(Seconds::from_nanos(5_500_000_000).format_float_unit(0, Unit::Minute), "6 minutes");
    assert_eq!(Seconds::from_nanos(999_500_000).format_float_unit(3, Unit::Second), "1.000 second");
    assert_eq!(Seconds::from_nanos(2_500_000_001).format_float_unit(12, Unit::Day), "2.500000001000 days");
}
