use sutra_erp::decimal::DecimalValue;
use sutra_erp::money::{format_rupees_indian, sum_money, Money};

#[test]
fn test_display_indian_format() {
    assert_eq!(format!("{}", Money::from_paise(0).to_string()), "₹0.00");
    assert_eq!(format!("{}", Money::from_paise(1).to_string()), "₹0.01");
    assert_eq!(format!("{}", Money::from_paise(100).to_string()), "₹1.00");
    assert_eq!(format!("{}", Money::from_paise(100_000).to_string()), "₹1,000.00");
    assert_eq!(format!("{}", Money::from_paise(1_234_567).to_string()), "₹12,345.67");
    assert_eq!(
        format!("{}", Money::from_paise(12_345_678_900).to_string()),
        "₹12,34,56,789.00"
    );
}

#[test]
fn test_from_str() {
    assert_eq!(Money::from_str("100.00").unwrap(), Money::from_paise(10_000));
    assert!(Money::from_str("-1.00").is_err());
    assert!(Money::from_str("abc").is_err());
}

#[test]
fn test_arithmetic() {
    let a = Money::from_paise(100);
    let b = Money::from_paise(200);
    assert_eq!(a + b, Money::from_paise(300));
    assert_eq!(b - a, Money::from_paise(100));
    assert_eq!(-a, Money::from_paise(-100));
}

#[test]
fn display_of_negative_amounts_puts_the_sign_first() {
    assert_eq!(Money::from_paise(-1_234_567).to_string(), "-₹12,345.67");
    assert_eq!(Money::from_paise(-5).to_string(), "-₹0.05");
}

#[test]
fn indian_grouping_of_rupee_amounts() {
    assert_eq!(format_rupees_indian(0), "0");
    assert_eq!(format_rupees_indian(999), "999");
    assert_eq!(format_rupees_indian(1000), "1,000");
    assert_eq!(format_rupees_indian(123456), "1,23,456");
    assert_eq!(format_rupees_indian(1234567), "12,34,567");
    assert_eq!(format_rupees_indian(123456789), "12,34,56,789");
}

#[test]
fn from_str_rounds_half_to_even() {
    assert_eq!(Money::from_str("1.005").unwrap(), Money::from_paise(100));
    assert_eq!(Money::from_str("1.015").unwrap(), Money::from_paise(102));
    assert_eq!(Money::from_str("1.0151").unwrap(), Money::from_paise(102));
    assert_eq!(Money::from_str("1234.56").unwrap(), Money::from_paise(123_456));
    assert_eq!(Money::from_str("7").unwrap(), Money::from_paise(700));
}

#[test]
fn from_str_error_messages() {
    assert_eq!(Money::from_str("-1.00").unwrap_err(), "money amount cannot be negative");
    assert!(Money::from_str("abc").unwrap_err().starts_with("invalid decimal: "));
    assert_eq!(
        Money::from_str("100000000000000000").unwrap_err(),
        "money value out of range"
    );
}

#[test]
fn add_then_subtract_gives_back_the_amount() {
    let a = Money::from_paise(12_345);
    let b = Money::from_paise(-678);
    assert_eq!((a + b) - b, a);
    assert_eq!(-(-a), a);
}

#[test]
fn in_place_arithmetic() {
    let mut m = Money::from_paise(500);
    m.add_assign(Money::from_paise(250));
    assert_eq!(m.as_paise(), 750);
    m.sub_assign(Money::from_paise(1000));
    assert_eq!(m.as_paise(), -250);
}

#[test]
fn zero_and_conversions() {
    assert!(Money::zero().is_zero());
    assert!(!Money::from_paise(1).is_zero());
    assert_eq!(i64::from(Money::from_paise(4321)), 4321);
    let d = Money::from_paise(12_345).as_rupees_decimal();
    assert_eq!(d, DecimalValue { mantissa: 12_345, scale: 2 });
}

#[test]
fn sum_of_amounts_in_order() {
    let v = vec![Money::from_paise(100), Money::from_paise(250), Money::from_paise(-50)];
    assert_eq!(sum_money(&v), Money::from_paise(300));
    assert_eq!(sum_money(&Vec::new()), Money::zero());
}
