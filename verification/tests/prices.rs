use thermal_receipt::options::ReceiptOptions;
use thermal_receipt::price::format_price;

fn with_symbol(symbol: &str, left_leaning_price: bool) -> ReceiptOptions {
    ReceiptOptions {
        currency_symbol: symbol.to_string(),
        left_leaning_price,
        ..ReceiptOptions::default()
    }
}

/// The digits after the last point of the amount, once the symbol is taken off.
fn decimals(text: &str, symbol: &str) -> Option<usize> {
    let amount = text.strip_suffix(symbol).unwrap();
    assert!(amount.chars().all(|c| c.is_ascii_digit() || c == '.'));
    assert!(amount.chars().next().unwrap().is_ascii_digit());
    amount.find('.').map(|point| amount.len() - point - 1)
}

#[test]
fn price_has_two_decimals_without_rounding() {
    let options = ReceiptOptions::default();
    assert_eq!(format_price(1234, false, &options), "12.34$");
    assert_eq!(format_price(1200, false, &options), "12.00$");
    assert_eq!(format_price(5, false, &options), "0.05$");
    assert_eq!(format_price(50, false, &options), "0.50$");
    assert_eq!(format_price(109, false, &options), "1.09$");
    assert_eq!(format_price(0, false, &options), "0.00$");
}

#[test]
fn price_drops_decimals_only_when_whole() {
    let options = ReceiptOptions::default();
    assert_eq!(format_price(1200, true, &options), "12$");
    assert_eq!(format_price(1250, true, &options), "12.50$");
    assert_eq!(format_price(1201, true, &options), "12.01$");
    assert_eq!(format_price(0, true, &options), "0$");
    assert_eq!(format_price(100, true, &options), "1$");
    assert_eq!(format_price(99, true, &options), "0.99$");
}

#[test]
fn price_symbol_side_follows_options() {
    assert_eq!(format_price(2500000, false, &with_symbol("zl", true)), "25000.00zl");
    assert_eq!(format_price(2500000, false, &with_symbol("zl", false)), "zl25000.00");
    assert_eq!(format_price(2500000, true, &with_symbol("zl", false)), "zl25000");
    assert_eq!(format_price(1999, false, &with_symbol("", true)), "19.99");
    assert_eq!(format_price(1999, false, &with_symbol(" EUR", true)), "19.99 EUR");
}

#[test]
fn price_of_large_amounts_is_exact() {
    let options = ReceiptOptions::default();
    assert_eq!(format_price(4294967295, false, &options), "42949672.95$");
    assert_eq!(format_price(9007199254740993, false, &options), "90071992547409.93$");
    assert_eq!(
        format_price(u128::MAX, false, &options),
        "3402823669209384634633746074317682114.55$"
    );
    assert_eq!(format_price(10_000_000_000_000_000_000_000, true, &options), "100000000000000000000$");
}

#[test]
fn unrounded_prices_always_show_two_decimals() {
    let options = ReceiptOptions::default();
    for price in (0u128..2500).chain([9999, 10000, 10001, 123456789, 4294967295]) {
        let text = format_price(price, false, &options);
        assert_eq!(decimals(&text, "$"), Some(2), "price {price} gave {text}");
    }
}

#[test]
fn rounded_prices_show_no_decimals_iff_whole() {
    let options = ReceiptOptions::default();
    for price in (0u128..2500).chain([9999, 10000, 10001, 123456700, 4294967295]) {
        let text = format_price(price, true, &options);
        let expected = if price % 100 == 0 { None } else { Some(2) };
        assert_eq!(decimals(&text, "$"), expected, "price {price} gave {text}");
    }
}
