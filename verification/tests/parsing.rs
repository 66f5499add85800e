//! Unit behaviour: classification, numeric parsing, text utilities, the
//! selector registry, URL building and code decoding.

use quote_batch::batch::{decode_code, quote_url};
use quote_batch::classify::{get_code_type, CodeType};
use quote_batch::number::{parse_number, Decimal};
use quote_batch::parse::parse_price_values;
use quote_batch::selectors::get_default_selectors;
use quote_batch::text::{
    contains_sub, prefix_before, remove_token, strip_commas, strip_rate_marks, string_of_chars,
    trim, u16_chars,
};

#[test]
fn classification_examples() {
    assert_eq!(get_code_type("7203.T"), CodeType::Stock);
    assert_eq!(get_code_type("USDJPY=FX"), CodeType::Fx);
    assert_eq!(get_code_type("^N225"), CodeType::Nikkei);
    assert_eq!(get_code_type("^DJI"), CodeType::Dji);
}

#[test]
fn classification_order_of_checks() {
    // The FX suffix wins over the index prefix, and the Nikkei prefix
    // over the generic one.
    assert_eq!(get_code_type("^N225=FX"), CodeType::Fx);
    assert_eq!(get_code_type("^N225X"), CodeType::Nikkei);
    assert_eq!(get_code_type(""), CodeType::Stock);
}

#[test]
fn price_values_parse_exactly() {
    let (p, c, r) = parse_price_values(
        "1,234.5".to_string(),
        "-0.50".to_string(),
        "(1.23%)".to_string(),
    )
    .unwrap();
    assert_eq!(p, Decimal { neg: false, mant: 12345, scale: 1 });
    assert_eq!(c, Decimal { neg: true, mant: 50, scale: 2 });
    assert_eq!(r, Decimal { neg: false, mant: 123, scale: 2 });
}

#[test]
fn price_values_reject_non_numeric() {
    let e = parse_price_values("abc".to_string(), "1".to_string(), "(2%)".to_string())
        .unwrap_err();
    assert_eq!(e, "Failed to parse stock price values.");
}

#[test]
fn change_field_keeps_commas_and_fails() {
    // Only the price field strips thousands separators; a comma in the
    // change field is a parse failure.
    assert!(parse_price_values("1,234".to_string(), "1,234".to_string(), "(1%)".to_string())
        .is_err());
    assert!(parse_price_values("1,234".to_string(), "1234".to_string(), "(1%)".to_string())
        .is_ok());
}

#[test]
fn numeral_grammar() {
    let chars = |s: &str| s.chars().collect::<Vec<char>>();
    assert_eq!(parse_number(&chars("0")), Some(Decimal { neg: false, mant: 0, scale: 0 }));
    assert_eq!(parse_number(&chars("+7.5")), Some(Decimal { neg: false, mant: 75, scale: 1 }));
    assert_eq!(parse_number(&chars("-0.50")), Some(Decimal { neg: true, mant: 50, scale: 2 }));
    assert_eq!(parse_number(&chars("123.")), Some(Decimal { neg: false, mant: 123, scale: 0 }));
    assert_eq!(parse_number(&chars(".5")), Some(Decimal { neg: false, mant: 5, scale: 1 }));
    assert_eq!(
        parse_number(&chars("18446744073709551615")),
        Some(Decimal { neg: false, mant: u64::MAX, scale: 0 })
    );
    assert_eq!(parse_number(&chars("18446744073709551616")), None);
    assert_eq!(parse_number(&chars("")), None);
    assert_eq!(parse_number(&chars("-")), None);
    assert_eq!(parse_number(&chars(".")), None);
    assert_eq!(parse_number(&chars("1.2.3")), None);
    assert_eq!(parse_number(&chars("12a3")), None);
}

#[test]
fn text_utilities() {
    let chars = |s: &str| s.chars().collect::<Vec<char>>();
    assert_eq!(string_of_chars(&trim(&chars("  \u{3000}x y\t\n"))), "x y");
    assert_eq!(string_of_chars(&strip_commas(&chars("1,234,5"))), "12345");
    assert_eq!(string_of_chars(&strip_rate_marks(&chars("(1.23%)"))), "1.23");
    assert_eq!(
        string_of_chars(&remove_token(&chars("a<!-- -->b<!-- -->"), &chars("<!-- -->"))),
        "ab"
    );
    assert_eq!(string_of_chars(&prefix_before(&chars("米ドル/円【USDJPY=FX】"), '【')), "米ドル/円");
    assert_eq!(string_of_chars(&prefix_before(&chars("no bracket"), '【')), "no bracket");
    assert!(contains_sub(&chars("xxBid（売値）yy"), &chars("Bid（売値）")));
    assert!(!contains_sub(&chars("Bid（売値"), &chars("Bid（売値）")));
    assert_eq!(string_of_chars(&u16_chars(404)), "404");
    assert_eq!(string_of_chars(&u16_chars(0)), "0");
}

#[test]
fn selector_registry_profiles() {
    let fx = get_default_selectors(CodeType::Fx);
    assert_eq!(fx.name_selector.as_deref(), Some("title"));
    assert_eq!(fx.update_time_selector.as_deref(), Some("time"));
    assert_eq!(fx.fx_item_selector.as_deref(), Some("div[class*=\"FxPriceBoard__item\"]"));
    assert!(fx.current_value_selector.is_none());

    let nikkei = get_default_selectors(CodeType::Nikkei);
    let dji = get_default_selectors(CodeType::Dji);
    // The two index categories share one extraction profile.
    assert_eq!(nikkei.name_selector, dji.name_selector);
    assert_eq!(nikkei.current_value_selector, dji.current_value_selector);
    assert_eq!(nikkei.update_time_selector, dji.update_time_selector);

    let stock = get_default_selectors(CodeType::Stock);
    assert_eq!(stock.name_selector.as_deref(), Some("h2[class*=\"PriceBoard__name\"]"));
    assert_eq!(
        stock.update_time_selector.as_deref(),
        Some("ul[class*=\"PriceBoard__times\"] > li > time")
    );
    assert!(stock.fx_item_selector.is_none());
}

#[test]
fn urls_add_trailing_slash_for_fx_only() {
    assert_eq!(quote_url("7203.T", CodeType::Stock), "https://finance.yahoo.co.jp/quote/7203.T");
    assert_eq!(quote_url("^N225", CodeType::Nikkei), "https://finance.yahoo.co.jp/quote/^N225");
    assert_eq!(
        quote_url("USDJPY=FX", CodeType::Fx),
        "https://finance.yahoo.co.jp/quote/USDJPY=FX/"
    );
}

#[test]
fn decoding_recovers_or_falls_back() {
    assert_eq!(decode_code("USDJPY%3DFX"), "USDJPY=FX");
    assert_eq!(decode_code("7203.T"), "7203.T");
    // Percent bytes that decode to invalid UTF-8 keep the raw text.
    assert_eq!(decode_code("%FF"), "%FF");
}
