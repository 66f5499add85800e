//! End-to-end behaviour of the batch pipeline on concrete page bodies.

use quote_batch::batch::run_batch;
use quote_batch::classify::CodeType;
use quote_batch::number::Decimal;
use quote_batch::parse::{get_fx_info, get_index_info, get_regular_stock_info};
use quote_batch::quote::FetchOutcome;
use quote_batch::selectors::get_default_selectors;

fn stock_body() -> String {
    let mut b = String::new();
    b.push_str("<html><body>");
    b.push_str("<h2 class=\"XPriceBoard__name\">トヨタ自動車</h2>");
    b.push_str("<ul class=\"XPriceBoard__times\"><li><time>15:00</time></li></ul>");
    b.push_str("<span class=\"XPriceBoard__price\"><span><span>1,234.5</span></span></span>");
    b.push_str("<span class=\"PriceChangeLabel__primary\"><span>-12.5</span></span>");
    b.push_str(
        "<span class=\"PriceChangeLabel__secondary\"><span class=\"StyledNumber__value\">(1.23%)</span></span>",
    );
    b.push_str("</body></html>");
    b
}

fn fx_body() -> String {
    let mut b = String::new();
    b.push_str("<html><head><title>米ドル/円【USDJPY=FX】：外国為替</title></head><body>");
    b.push_str("<time>17:00</time>");
    b.push_str("<div class=\"FxPriceBoard__item\">");
    b.push_str("<dt class=\"FxPriceBoard__term\">Bid（売値）</dt>");
    b.push_str("<span class=\"FxPriceBoard__price\">156.23</span>");
    b.push_str("</div>");
    b.push_str("<div class=\"FxPriceBoard__item\">");
    b.push_str("<dt class=\"FxPriceBoard__term\">Change（始値比）</dt>");
    b.push_str("<span class=\"FxPriceBoard__price\">0.15</span>");
    b.push_str("</div>");
    b.push_str("</body></html>");
    b
}

fn index_body() -> String {
    let mut b = String::new();
    b.push_str("<html><body>");
    b.push_str("<h2 class=\"_BasePriceBoard__name\">日経平均株価</h2>");
    b.push_str("<li class=\"_CommonPriceBoard__time\"><time>15:45</time></li>");
    b.push_str("<span class=\"CommonPriceBoard__price\"><span><span>38,000.25</span></span></span>");
    b.push_str("<span class=\"PriceChangeLabel__primary\"><span>+120.75</span></span>");
    b.push_str(
        "<span class=\"PriceChangeLabel__secondary\"><span class=\"StyledNumber__value\">(0.32%)</span></span>",
    );
    b.push_str("</body></html>");
    b
}

#[test]
fn stock_page_parses_all_fields() {
    let sel = get_default_selectors(CodeType::Stock);
    let r = get_regular_stock_info("7203.T".to_string(), &stock_body(), &sel).unwrap();
    assert_eq!(r.code, "7203.T");
    assert_eq!(r.name, "トヨタ自動車");
    assert_eq!(r.update_time, "15:00");
    assert_eq!(r.price, Decimal { neg: false, mant: 12345, scale: 1 });
    assert_eq!(r.change, Decimal { neg: true, mant: 125, scale: 1 });
    assert_eq!(r.change_percent, Decimal { neg: false, mant: 123, scale: 2 });
}

#[test]
fn index_page_parses_all_fields() {
    let sel = get_default_selectors(CodeType::Nikkei);
    let r = get_index_info("^N225".to_string(), &index_body(), &sel).unwrap();
    assert_eq!(r.name, "日経平均株価");
    assert_eq!(r.update_time, "15:45");
    assert_eq!(r.price, Decimal { neg: false, mant: 3800025, scale: 2 });
    assert_eq!(r.change, Decimal { neg: false, mant: 12075, scale: 2 });
    assert_eq!(r.change_percent, Decimal { neg: false, mant: 32, scale: 2 });
}

#[test]
fn stock_page_missing_change_rate_fails_whole_code() {
    let mut b = String::new();
    b.push_str("<html><body>");
    b.push_str("<h2 class=\"XPriceBoard__name\">トヨタ自動車</h2>");
    b.push_str("<ul class=\"XPriceBoard__times\"><li><time>15:00</time></li></ul>");
    b.push_str("<span class=\"XPriceBoard__price\"><span><span>1,234.5</span></span></span>");
    b.push_str("<span class=\"PriceChangeLabel__primary\"><span>-12.5</span></span>");
    b.push_str("</body></html>");
    let sel = get_default_selectors(CodeType::Stock);
    let e = get_regular_stock_info("7203.T".to_string(), &b, &sel).unwrap_err();
    assert_eq!(e, "Could not find all required stock price elements on the page.");

    // The same body through the batch contributes to `failed`, not `success`.
    let codes = vec!["7203.T".to_string()];
    let outcomes = vec![FetchOutcome::Response { status: 200, body: b }];
    let resp = run_batch(&codes, &outcomes);
    assert_eq!(resp.data.success.len(), 0);
    assert_eq!(resp.data.failed.len(), 1);
    assert_eq!(resp.data.failed[0].code, "7203.T");
    assert_eq!(
        resp.data.failed[0].error,
        "Could not find all required stock price elements on the page."
    );
}

#[test]
fn stock_page_missing_name_still_succeeds_with_empty_name() {
    let mut b = String::new();
    b.push_str("<html><body>");
    b.push_str("<span class=\"XPriceBoard__price\"><span><span>100</span></span></span>");
    b.push_str("<span class=\"PriceChangeLabel__primary\"><span>1</span></span>");
    b.push_str(
        "<span class=\"PriceChangeLabel__secondary\"><span class=\"StyledNumber__value\">(2%)</span></span>",
    );
    b.push_str("</body></html>");
    let sel = get_default_selectors(CodeType::Stock);
    let r = get_regular_stock_info("0000.T".to_string(), &b, &sel).unwrap();
    assert_eq!(r.name, "");
    assert_eq!(r.update_time, "");
    assert_eq!(r.price, Decimal { neg: false, mant: 100, scale: 0 });
}

#[test]
fn stock_page_bad_numeral_fails_parse_stage() {
    let mut b = String::new();
    b.push_str("<html><body>");
    b.push_str("<h2 class=\"XPriceBoard__name\">N</h2>");
    b.push_str("<ul class=\"XPriceBoard__times\"><li><time>t</time></li></ul>");
    b.push_str("<span class=\"XPriceBoard__price\"><span><span>---</span></span></span>");
    b.push_str("<span class=\"PriceChangeLabel__primary\"><span>-12.5</span></span>");
    b.push_str(
        "<span class=\"PriceChangeLabel__secondary\"><span class=\"StyledNumber__value\">(1.23%)</span></span>",
    );
    b.push_str("</body></html>");
    let sel = get_default_selectors(CodeType::Stock);
    let e = get_regular_stock_info("7203.T".to_string(), &b, &sel).unwrap_err();
    assert_eq!(e, "Failed to parse stock price values.");
}

#[test]
fn fx_page_two_items_give_price_change_and_zero_rate() {
    let sel = get_default_selectors(CodeType::Fx);
    let r = get_fx_info("USDJPY=FX".to_string(), &fx_body(), &sel).unwrap();
    assert_eq!(r.name, "米ドル/円");
    assert_eq!(r.update_time, "17:00");
    assert_eq!(r.price, Decimal { neg: false, mant: 15623, scale: 2 });
    assert_eq!(r.change, Decimal { neg: false, mant: 15, scale: 2 });
    assert_eq!(r.change_percent, Decimal { neg: false, mant: 0, scale: 1 });
    assert_eq!(r.change_percent, Decimal::zero());
}

#[test]
fn fx_page_skips_unparsable_item_and_keeps_later_match() {
    let mut b = String::new();
    b.push_str("<html><head><title>米ドル/円【USDJPY=FX】</title></head><body>");
    b.push_str("<time>17:00</time>");
    // An item whose value does not parse is ignored entirely.
    b.push_str("<div class=\"FxPriceBoard__item\">");
    b.push_str("<dt class=\"FxPriceBoard__term\">Bid（売値）</dt>");
    b.push_str("<span class=\"FxPriceBoard__price\">---</span>");
    b.push_str("</div>");
    // The comment placeholder inside a value is stripped before parsing.
    b.push_str("<div class=\"FxPriceBoard__item\">");
    b.push_str("<dt class=\"FxPriceBoard__term\">Bid（売値）</dt>");
    b.push_str("<span class=\"FxPriceBoard__price\">1,156&lt;!-- --&gt;.23</span>");
    b.push_str("</div>");
    b.push_str("<div class=\"FxPriceBoard__item\">");
    b.push_str("<dt class=\"FxPriceBoard__term\">Change（始値比）</dt>");
    b.push_str("<span class=\"FxPriceBoard__price\">-0.50</span>");
    b.push_str("</div>");
    b.push_str("</body></html>");
    let sel = get_default_selectors(CodeType::Fx);
    let r = get_fx_info("USDJPY=FX".to_string(), &b, &sel).unwrap();
    assert_eq!(r.price, Decimal { neg: false, mant: 115623, scale: 2 });
    assert_eq!(r.change, Decimal { neg: true, mant: 50, scale: 2 });
}

#[test]
fn fx_page_missing_change_item_fails_with_code_in_message() {
    let mut b = String::new();
    b.push_str("<html><head><title>米ドル/円【USDJPY=FX】</title></head><body>");
    b.push_str("<time>17:00</time>");
    b.push_str("<div class=\"FxPriceBoard__item\">");
    b.push_str("<dt class=\"FxPriceBoard__term\">Bid（売値）</dt>");
    b.push_str("<span class=\"FxPriceBoard__price\">156.23</span>");
    b.push_str("</div>");
    b.push_str("</body></html>");
    let sel = get_default_selectors(CodeType::Fx);
    let e = get_fx_info("USDJPY=FX".to_string(), &b, &sel).unwrap_err();
    assert_eq!(
        e,
        "Could not find all required FX price elements on the page for code: USDJPY=FX"
    );
}

#[test]
fn wrong_profile_reports_missing_selector() {
    // The FX profile lacks the price-board rules a stock page needs; the
    // parser defends against the misconfiguration instead of panicking.
    let sel = get_default_selectors(CodeType::Fx);
    let e = get_regular_stock_info("7203.T".to_string(), &stock_body(), &sel).unwrap_err();
    assert_eq!(e, "Missing price selector for regular stock");
}

#[test]
fn batch_of_three_partial_success() {
    // One code times out, one gets a 404, one succeeds.
    let codes = vec![
        "9984.T".to_string(),
        "^N225".to_string(),
        "7203.T".to_string(),
    ];
    let outcomes = vec![
        FetchOutcome::Transport { message: "connection timed out".to_string() },
        FetchOutcome::Response { status: 404, body: "Not Found".to_string() },
        FetchOutcome::Response { status: 200, body: stock_body() },
    ];
    let resp = run_batch(&codes, &outcomes);
    assert_eq!(resp.status, "partial_success");
    assert_eq!(resp.data.success.len(), 1);
    assert_eq!(resp.data.failed.len(), 2);
    // Every original code appears exactly once, in request order within
    // each side of the partition.
    assert_eq!(resp.data.success[0].code, "7203.T");
    assert_eq!(resp.data.failed[0].code, "9984.T");
    assert_eq!(resp.data.failed[1].code, "^N225");
    assert_eq!(resp.data.failed[0].error, "connection timed out");
    assert_eq!(
        resp.data.failed[1].error,
        "Request failed for ^N225 with status 404: Not Found"
    );
}

#[test]
fn batch_all_success_and_all_failure_statuses() {
    let codes = vec!["7203.T".to_string()];
    let ok = vec![FetchOutcome::Response { status: 200, body: stock_body() }];
    let resp = run_batch(&codes, &ok);
    assert_eq!(resp.status, "success");
    assert_eq!(resp.data.success.len(), 1);
    assert_eq!(resp.data.failed.len(), 0);

    let bad = vec![FetchOutcome::Response { status: 500, body: "boom".to_string() }];
    let resp2 = run_batch(&codes, &bad);
    assert_eq!(resp2.status, "failure");
    assert_eq!(resp2.data.success.len(), 0);
    assert_eq!(resp2.data.failed.len(), 1);
    assert_eq!(
        resp2.data.failed[0].error,
        "Request failed for 7203.T with status 500: boom"
    );
}

#[test]
fn empty_batch_is_success_with_empty_sides() {
    let codes: Vec<String> = Vec::new();
    let outcomes: Vec<FetchOutcome> = Vec::new();
    let resp = run_batch(&codes, &outcomes);
    assert_eq!(resp.status, "success");
    assert_eq!(resp.data.success.len(), 0);
    assert_eq!(resp.data.failed.len(), 0);
}

#[test]
fn encoded_code_is_decoded_for_classification_only() {
    // `USDJPY%3DFX` decodes to an FX code; the record keeps the caller's
    // original text. A decode that handed its input back unchanged would
    // classify this as a stock and fail on the FX body.
    let codes = vec!["USDJPY%3DFX".to_string()];
    let outcomes = vec![FetchOutcome::Response { status: 200, body: fx_body() }];
    let resp = run_batch(&codes, &outcomes);
    assert_eq!(resp.status, "success");
    assert_eq!(resp.data.success[0].code, "USDJPY%3DFX");
    assert_eq!(resp.data.success[0].price, Decimal { neg: false, mant: 15623, scale: 2 });
}

#[test]
fn duplicate_codes_give_independent_outcomes() {
    let codes = vec!["7203.T".to_string(), "7203.T".to_string()];
    let outcomes = vec![
        FetchOutcome::Response { status: 200, body: stock_body() },
        FetchOutcome::Response { status: 404, body: "gone".to_string() },
    ];
    let resp = run_batch(&codes, &outcomes);
    assert_eq!(resp.status, "partial_success");
    assert_eq!(resp.data.success.len(), 1);
    assert_eq!(resp.data.failed.len(), 1);
    assert_eq!(resp.data.success[0].code, "7203.T");
    assert_eq!(resp.data.failed[0].code, "7203.T");
}
