use laundry_pos::currency::{format_currency, format_weight};

#[test]
fn currency_groups_millions() {
    assert_eq!(format_currency(1500000), "1.500.000");
}

#[test]
fn currency_zero() {
    assert_eq!(format_currency(0), "0");
}

#[test]
fn currency_three_digits_ungrouped() {
    assert_eq!(format_currency(999), "999");
}

#[test]
fn currency_four_digits_grouped() {
    assert_eq!(format_currency(1000), "1.000");
}

#[test]
fn currency_negative() {
    assert_eq!(format_currency(-1500000), "-1.500.000");
    assert_eq!(format_currency(-7), "-7");
}

#[test]
fn currency_extremes() {
    assert_eq!(format_currency(i64::MAX), "9.223.372.036.854.775.807");
    assert_eq!(format_currency(i64::MIN), "-9.223.372.036.854.775.808");
}

#[test]
fn currency_round_trip_drops_separators() {
    // Stripping the group separators and reading the digits back yields the
    // original amount.
    for &amount in &[0i64, 1, 42, 999, 1000, 52500, 15000, 1500000, 987654321, i64::MAX] {
        let s = format_currency(amount);
        let stripped: String = s.chars().filter(|&c| c != '.').collect();
        assert_eq!(stripped.parse::<i64>().unwrap(), amount);
    }
}

#[test]
fn weight_whole_kilograms() {
    assert_eq!(format_weight(30), "3");
    assert_eq!(format_weight(0), "0");
}

#[test]
fn weight_with_fraction() {
    assert_eq!(format_weight(35), "3.5");
    assert_eq!(format_weight(1), "0.1");
    assert_eq!(format_weight(105), "10.5");
}
