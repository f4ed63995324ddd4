use tx_provenance::numerals::{
    absolute, format_amount, format_decimal, FRACTION_DIGITS, UNITS_PER_COIN,
};

#[test]
fn amount_of_fifty_coins() {
    assert_eq!(format_amount(5_000_000_000), "50.00000000");
}

#[test]
fn amount_of_twenty_coins() {
    assert_eq!(format_amount(2_000_000_000), "20.00000000");
}

#[test]
fn amount_with_four_fraction_digits() {
    assert_eq!(format_amount(2_999_990_000), "29.99990000");
}

#[test]
fn amount_with_five_fraction_digits() {
    assert_eq!(format_amount(1_499_999_000), "14.99999000");
}

#[test]
fn amount_below_one_coin_has_a_leading_zero() {
    assert_eq!(format_amount(10_000), "0.00010000");
    assert_eq!(format_amount(15_000), "0.00015000");
}

#[test]
fn amount_of_zero() {
    assert_eq!(format_amount(0), "0.00000000");
}

#[test]
fn amount_of_one_unit() {
    assert_eq!(format_amount(1), "0.00000001");
}

#[test]
fn amount_just_below_one_coin() {
    assert_eq!(format_amount(99_999_999), "0.99999999");
}

#[test]
fn amount_of_exactly_one_coin() {
    assert_eq!(format_amount(100_000_000), "1.00000000");
}

#[test]
fn amount_of_the_whole_supply() {
    assert_eq!(format_amount(2_100_000_000_000_000), "21000000.00000000");
}

#[test]
fn amount_of_the_largest_value() {
    assert_eq!(format_amount(u64::MAX), "184467440737.09551615");
}

#[test]
fn amount_matches_fixed_point_formatting_of_the_float() {
    let cases: [u64; 6] = [0, 1, 15_000, 2_999_990_000, 5_000_000_000, 123_456_789_012];
    for units in cases {
        let coins = units as f64 / 100_000_000.0;
        assert_eq!(format_amount(units), format!("{coins:.8}"));
    }
}

#[test]
fn decimal_numerals() {
    assert_eq!(format_decimal(0), "0");
    assert_eq!(format_decimal(7), "7");
    assert_eq!(format_decimal(10), "10");
    assert_eq!(format_decimal(101), "101");
    assert_eq!(format_decimal(4_294_967_295), "4294967295");
    assert_eq!(format_decimal(u64::MAX), "18446744073709551615");
}

#[test]
fn absolute_of_a_negative_fee() {
    assert_eq!(absolute(-15_000), 15_000);
}

#[test]
fn absolute_of_a_positive_fee() {
    assert_eq!(absolute(15_000), 15_000);
}

#[test]
fn absolute_of_zero() {
    assert_eq!(absolute(0), 0);
}

#[test]
fn absolute_of_the_extremes() {
    assert_eq!(absolute(i64::MAX), 9_223_372_036_854_775_807);
    assert_eq!(absolute(i64::MIN), 9_223_372_036_854_775_808);
    assert_eq!(absolute(i64::MIN + 1), 9_223_372_036_854_775_807);
}

#[test]
fn currency_constants() {
    assert_eq!(UNITS_PER_COIN, 100_000_000);
    assert_eq!(FRACTION_DIGITS, 8);
}
