use systemmor::fmt::{fmt_fixed1, fmt_fixed2, fmt_u64, pad_left, pad_right};
use systemmor::units::{avg_round, gib_centi, kbit_centi, mib_centi};

#[test]
fn decimal_rendering() {
    assert_eq!(fmt_u64(0), "0");
    assert_eq!(fmt_u64(7), "7");
    assert_eq!(fmt_u64(42), "42");
    assert_eq!(fmt_u64(1_234_567), "1234567");
    assert_eq!(fmt_u64(u64::MAX), "18446744073709551615");
}

#[test]
fn two_decimal_rendering() {
    assert_eq!(fmt_fixed2(0), "0.00");
    assert_eq!(fmt_fixed2(5), "0.05");
    assert_eq!(fmt_fixed2(50), "0.50");
    assert_eq!(fmt_fixed2(100), "1.00");
    assert_eq!(fmt_fixed2(1205), "12.05");
    assert_eq!(fmt_fixed2(9999), "99.99");
}

#[test]
fn one_decimal_rendering_with_sign() {
    assert_eq!(fmt_fixed1(0), "0.0");
    assert_eq!(fmt_fixed1(370), "37.0");
    assert_eq!(fmt_fixed1(421), "42.1");
    assert_eq!(fmt_fixed1(-53), "-5.3");
    assert_eq!(fmt_fixed1(-5), "-0.5");
}

#[test]
fn padding() {
    assert_eq!(pad_right("init".to_string(), 8), "init    ");
    assert_eq!(pad_right("long enough".to_string(), 8), "long enough");
    assert_eq!(pad_left("42".to_string(), 7), "     42");
    assert_eq!(pad_left("1234567".to_string(), 7), "1234567");
    assert_eq!(pad_left("12345678".to_string(), 7), "12345678");
}

#[test]
fn gibibyte_hundredths() {
    assert_eq!(gib_centi(0), 0);
    assert_eq!(gib_centi(1_073_741_824), 100);
    assert_eq!(gib_centi(536_870_912), 50);
    assert_eq!(gib_centi(1_610_612_736), 150);
    // rounding: just below half a hundredth stays down, the half rounds up
    assert_eq!(gib_centi(5_368_709), 0);
    assert_eq!(gib_centi(5_368_710), 1);
}

#[test]
fn mebibyte_hundredths() {
    assert_eq!(mib_centi(1_048_576), 100);
    assert_eq!(mib_centi(2_097_152), 200);
    assert_eq!(mib_centi(524_288), 50);
}

#[test]
fn kilobit_hundredths() {
    // 1000 bytes are 8 kilobits: 800 hundredths.
    assert_eq!(kbit_centi(1000), 800);
    assert_eq!(kbit_centi(500), 400);
    // 1 byte is 0.008 kilobits, displayed as 0.01.
    assert_eq!(kbit_centi(1), 1);
    assert_eq!(kbit_centi(0), 0);
}

#[test]
fn rounded_average() {
    assert_eq!(avg_round(300, 2), 150);
    assert_eq!(avg_round(10_000, 2), 5000);
    // a half rounds up
    assert_eq!(avg_round(1, 2), 1);
    assert_eq!(avg_round(9999, 3), 3333);
}
