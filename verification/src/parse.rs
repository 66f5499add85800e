//! The page parsers: one per category shape (stock, index, FX), sharing
//! the numeric cleanup rules. Each takes the fetched markup, the selector
//! profile for the code's category, and the caller's code string, and
//! produces a full record or a descriptive failure — never a partial
//! record.

use vstd::prelude::*;
use vstd::string::StringExecFns;
use crate::html::{first_text, item_texts, pair_texts, select_first_text, select_item_texts};
use crate::number::{parse_number, spec_parse_number, Decimal};
use crate::quote::{res_info_view, StockInfo, StockInfoV};
use crate::selectors::{SelectorConfig, SelectorConfigV};
use crate::text::{
    chars_of, contains_sub, contains_sub_spec, prefix_before, prefix_before_spec, remove_token,
    remove_token_spec, string_of_chars, strip_commas, strip_commas_spec, strip_rate_marks,
    strip_rate_marks_spec, trim, trim_spec,
};

verus! {

/// The extracted text, or empty where the element is absent.
pub open spec fn or_empty(o: Option<Seq<char>>) -> Seq<char> {
    match o {
        Some(s) => s,
        None => Seq::empty(),
    }
}

/// A price: trimmed, thousands-separator commas removed, then read as a
/// decimal numeral.
pub open spec fn spec_clean_price(s: Seq<char>) -> Option<Decimal> {
    spec_parse_number(strip_commas_spec(trim_spec(s)))
}

/// A day change: trimmed, then read as a decimal numeral (may be signed).
pub open spec fn spec_clean_change(s: Seq<char>) -> Option<Decimal> {
    spec_parse_number(trim_spec(s))
}

/// A change rate: trimmed, the wrapping parentheses and percent sign
/// removed, then read as a decimal numeral.
pub open spec fn spec_clean_rate(s: Seq<char>) -> Option<Decimal> {
    spec_parse_number(strip_rate_marks_spec(trim_spec(s)))
}

/// All three numeric fields parse, or the whole triple is rejected.
pub open spec fn spec_parse_price_values(p: Seq<char>, c: Seq<char>, r: Seq<char>) -> Result<
    (Decimal, Decimal, Decimal),
    Seq<char>,
> {
    match (spec_clean_price(p), spec_clean_change(c), spec_clean_rate(r)) {
        (Some(a), Some(b), Some(g)) => Ok((a, b, g)),
        _ => Err("Failed to parse stock price values."@),
    }
}

/// The view of a parsed triple.
pub open spec fn res3_view(r: Result<(Decimal, Decimal, Decimal), String>) -> Result<
    (Decimal, Decimal, Decimal),
    Seq<char>,
> {
    match r {
        Ok(t) => Ok(t),
        Err(e) => Err(e@),
    }
}

/// Parse the three numeric texts of a price board: price, day change and
/// change rate. All three must parse, or the triple fails as one.
pub fn parse_price_values(price_s: String, change_s: String, percent_s: String) -> (r: Result<
    (Decimal, Decimal, Decimal),
    String,
>)
    ensures
        res3_view(r) == spec_parse_price_values(price_s@, change_s@, percent_s@),
{
    let price = parse_number(&strip_commas(&trim(&chars_of(price_s.as_str()))));
    let change = parse_number(&trim(&chars_of(change_s.as_str())));
    let percent = parse_number(&strip_rate_marks(&trim(&chars_of(percent_s.as_str()))));
    match (price, change, percent) {
        (Some(a), Some(b), Some(g)) => Ok((a, b, g)),
        _ => Err(String::from_str("Failed to parse stock price values.")),
    }
}

/// A price-board page (stock or index shape): name and update time fall
/// back to empty when absent; the three price elements must all be
/// present and all parse. The `m_*` texts are the errors for a profile
/// that lacks a rule the shape needs.
pub open spec fn spec_board_quote(
    code: Seq<char>,
    body: Seq<char>,
    sel: SelectorConfigV,
    m_name: Seq<char>,
    m_time: Seq<char>,
    m_price: Seq<char>,
    m_change: Seq<char>,
    m_rate: Seq<char>,
) -> Result<StockInfoV, Seq<char>> {
    if sel.name_selector is None {
        Err(m_name)
    } else if sel.update_time_selector is None {
        Err(m_time)
    } else if sel.current_value_selector is None {
        Err(m_price)
    } else if sel.previous_day_change_selector is None {
        Err(m_change)
    } else if sel.change_rate_selector is None {
        Err(m_rate)
    } else {
        let name = or_empty(first_text(body, sel.name_selector->0));
        let update_time = or_empty(first_text(body, sel.update_time_selector->0));
        match (
            first_text(body, sel.current_value_selector->0),
            first_text(body, sel.previous_day_change_selector->0),
            first_text(body, sel.change_rate_selector->0),
        ) {
            (Some(ps), Some(cs), Some(rs)) => match spec_parse_price_values(ps, cs, rs) {
                Ok(t) => Ok(
                    StockInfoV {
                        code,
                        name,
                        price: t.0,
                        change: t.1,
                        change_percent: t.2,
                        update_time,
                    },
                ),
                Err(e) => Err(e),
            },
            _ => Err("Could not find all required stock price elements on the page."@),
        }
    }
}

fn board_quote(
    code: String,
    body: &str,
    sel: &SelectorConfig,
    m_name: &str,
    m_time: &str,
    m_price: &str,
    m_change: &str,
    m_rate: &str,
) -> (r: Result<StockInfo, String>)
    ensures
        res_info_view(r) == spec_board_quote(
            code@,
            body@,
            sel@,
            m_name@,
            m_time@,
            m_price@,
            m_change@,
            m_rate@,
        ),
{
    let name_sel: &String = match &sel.name_selector {
        Some(s) => s,
        None => {
            return Err(String::from_str(m_name));
        },
    };
    let time_sel: &String = match &sel.update_time_selector {
        Some(s) => s,
        None => {
            return Err(String::from_str(m_time));
        },
    };
    let price_sel: &String = match &sel.current_value_selector {
        Some(s) => s,
        None => {
            return Err(String::from_str(m_price));
        },
    };
    let change_sel: &String = match &sel.previous_day_change_selector {
        Some(s) => s,
        None => {
            return Err(String::from_str(m_change));
        },
    };
    let rate_sel: &String = match &sel.change_rate_selector {
        Some(s) => s,
        None => {
            return Err(String::from_str(m_rate));
        },
    };
    let name = match select_first_text(body, name_sel.as_str()) {
        Some(t) => t,
        None => String::new(),
    };
    let update_time = match select_first_text(body, time_sel.as_str()) {
        Some(t) => t,
        None => String::new(),
    };
    let price_t = select_first_text(body, price_sel.as_str());
    let change_t = select_first_text(body, change_sel.as_str());
    let rate_t = select_first_text(body, rate_sel.as_str());
    match (price_t, change_t, rate_t) {
        (Some(ps), Some(cs), Some(rs)) => match parse_price_values(ps, cs, rs) {
            Ok((price, change, percent)) => Ok(
                StockInfo { code, name, price, change, change_percent: percent, update_time },
            ),
            Err(e) => Err(e),
        },
        _ => Err(
            String::from_str("Could not find all required stock price elements on the page."),
        ),
    }
}

/// A stock page, by the stock shape.
pub open spec fn spec_stock_quote(code: Seq<char>, body: Seq<char>, sel: SelectorConfigV) -> Result<
    StockInfoV,
    Seq<char>,
> {
    spec_board_quote(
        code,
        body,
        sel,
        "Missing name selector for regular stock"@,
        "Missing update time selector for regular stock"@,
        "Missing price selector for regular stock"@,
        "Missing change selector for regular stock"@,
        "Missing percent selector for regular stock"@,
    )
}

/// Extract a stock quote from a fetched page body.
pub fn get_regular_stock_info(code: String, body: &str, selectors: &SelectorConfig) -> (r: Result<
    StockInfo,
    String,
>)
    ensures
        res_info_view(r) == spec_stock_quote(code@, body@, selectors@),
{
    board_quote(
        code,
        body,
        selectors,
        "Missing name selector for regular stock",
        "Missing update time selector for regular stock",
        "Missing price selector for regular stock",
        "Missing change selector for regular stock",
        "Missing percent selector for regular stock",
    )
}

/// An index page, by the index shape.
pub open spec fn spec_index_quote(code: Seq<char>, body: Seq<char>, sel: SelectorConfigV) -> Result<
    StockInfoV,
    Seq<char>,
> {
    spec_board_quote(
        code,
        body,
        sel,
        "Missing name selector for index"@,
        "Missing update time selector for index"@,
        "Missing price selector for index"@,
        "Missing change selector for index"@,
        "Missing percent selector for index"@,
    )
}

/// Extract an index quote from a fetched page body.
pub fn get_index_info(code: String, body: &str, selectors: &SelectorConfig) -> (r: Result<
    StockInfo,
    String,
>)
    ensures
        res_info_view(r) == spec_index_quote(code@, body@, selectors@),
{
    board_quote(
        code,
        body,
        selectors,
        "Missing name selector for index",
        "Missing update time selector for index",
        "Missing price selector for index",
        "Missing change selector for index",
        "Missing percent selector for index",
    )
}

/// An FX board value: trimmed, commas removed, the literal HTML comment
/// placeholder removed, then read as a decimal numeral.
pub open spec fn spec_fx_clean(s: Seq<char>) -> Option<Decimal> {
    spec_parse_number(remove_token_spec(strip_commas_spec(trim_spec(s)), "<!-- -->"@))
}

/// One term/value item of the FX board, folded into the price and change
/// found so far. A later matching item overwrites an earlier one; an item
/// whose value does not parse is skipped.
pub open spec fn spec_fx_item_step(
    item: (Option<Seq<char>>, Option<Seq<char>>),
    price: Option<Decimal>,
    change: Option<Decimal>,
) -> (Option<Decimal>, Option<Decimal>) {
    match (item.0, item.1) {
        (Some(term), Some(val)) => match spec_fx_clean(val) {
            Some(d) => if contains_sub_spec(term, "Bid（売値）"@) {
                (Some(d), change)
            } else if contains_sub_spec(term, "Change（始値比）"@) {
                (price, Some(d))
            } else {
                (price, change)
            },
            None => (price, change),
        },
        _ => (price, change),
    }
}

/// The whole FX board scanned in document order.
pub open spec fn spec_fx_scan(
    items: Seq<(Option<Seq<char>>, Option<Seq<char>>)>,
    price: Option<Decimal>,
    change: Option<Decimal>,
) -> (Option<Decimal>, Option<Decimal>)
    decreases items.len(),
{
    if items.len() == 0 {
        (price, change)
    } else {
        let pc = spec_fx_item_step(items[0], price, change);
        spec_fx_scan(items.drop_first(), pc.0, pc.1)
    }
}

/// An FX page: the pair's name is the page title up to the full-width
/// bracket, trimmed; the bid price and the change against the open are
/// read off the item board; the page carries no change rate, so it is
/// fixed at zero.
pub open spec fn spec_fx_quote(code: Seq<char>, body: Seq<char>, sel: SelectorConfigV) -> Result<
    StockInfoV,
    Seq<char>,
> {
    if sel.name_selector is None {
        Err("Missing name selector for FX"@)
    } else if sel.update_time_selector is None {
        Err("Missing update time selector for FX"@)
    } else if sel.fx_item_selector is None {
        Err("Missing FX item selector"@)
    } else if sel.fx_price_selector is None {
        Err("Missing FX price selector"@)
    } else if sel.fx_term_selector is None {
        Err("Missing FX term selector"@)
    } else {
        let name_full = or_empty(first_text(body, sel.name_selector->0));
        let name = trim_spec(prefix_before_spec(name_full, '【'));
        let update_time = or_empty(first_text(body, sel.update_time_selector->0));
        let items = item_texts(
            body,
            sel.fx_item_selector->0,
            sel.fx_term_selector->0,
            sel.fx_price_selector->0,
        );
        let pc = spec_fx_scan(items, None, None);
        match pc {
            (Some(p), Some(c)) => Ok(
                StockInfoV {
                    code,
                    name,
                    price: p,
                    change: c,
                    change_percent: Decimal { neg: false, mant: 0, scale: 1 },
                    update_time,
                },
            ),
            _ => Err("Could not find all required FX price elements on the page for code: "@
                + code),
        }
    }
}

/// Extract an FX quote from a fetched page body.
#[verifier::loop_isolation(false)]
pub fn get_fx_info(code: String, body: &str, selectors: &SelectorConfig) -> (r: Result<
    StockInfo,
    String,
>)
    ensures
        res_info_view(r) == spec_fx_quote(code@, body@, selectors@),
{
    let name_sel: &String = match &selectors.name_selector {
        Some(s) => s,
        None => {
            return Err(String::from_str("Missing name selector for FX"));
        },
    };
    let time_sel: &String = match &selectors.update_time_selector {
        Some(s) => s,
        None => {
            return Err(String::from_str("Missing update time selector for FX"));
        },
    };
    let item_sel: &String = match &selectors.fx_item_selector {
        Some(s) => s,
        None => {
            return Err(String::from_str("Missing FX item selector"));
        },
    };
    let price_sel: &String = match &selectors.fx_price_selector {
        Some(s) => s,
        None => {
            return Err(String::from_str("Missing FX price selector"));
        },
    };
    let term_sel: &String = match &selectors.fx_term_selector {
        Some(s) => s,
        None => {
            return Err(String::from_str("Missing FX term selector"));
        },
    };
    let name_full = match select_first_text(body, name_sel.as_str()) {
        Some(t) => t,
        None => String::new(),
    };
    let name = string_of_chars(&trim(&prefix_before(&chars_of(name_full.as_str()), '【')));
    let update_time = match select_first_text(body, time_sel.as_str()) {
        Some(t) => t,
        None => String::new(),
    };
    let items = select_item_texts(
        body,
        item_sel.as_str(),
        term_sel.as_str(),
        price_sel.as_str(),
    );
    let bid_pat = chars_of("Bid（売値）");
    let change_pat = chars_of("Change（始値比）");
    let comment_tok = chars_of("<!-- -->");
    proof {
        reveal_strlit("<!-- -->");
    }
    let ghost pairs = pair_texts(items@);
    let mut price: Option<Decimal> = None;
    let mut change: Option<Decimal> = None;
    let mut i: usize = 0;
    proof {
        assert(pairs.skip(0) =~= pairs);
    }
    while i < items.len()
        invariant
            i <= items@.len(),
            spec_fx_scan(pairs, None, None) == spec_fx_scan(
                pairs.skip(i as int),
                price,
                change,
            ),
        decreases items@.len() - i,
    {
        proof {
            assert(pairs.skip(i as int).drop_first() =~= pairs.skip(i as int + 1));
            assert(pairs.skip(i as int)[0] == pairs[i as int]);
        }
        match (&items[i].0, &items[i].1) {
            (Some(term), Some(val)) => {
                let cleaned = remove_token(
                    &strip_commas(&trim(&chars_of(val.as_str()))),
                    &comment_tok,
                );
                match parse_number(&cleaned) {
                    Some(d) => {
                        let term_chars = chars_of(term.as_str());
                        if contains_sub(&term_chars, &bid_pat) {
                            price = Some(d);
                        } else if contains_sub(&term_chars, &change_pat) {
                            change = Some(d);
                        }
                    },
                    None => {},
                }
            },
            _ => {},
        }
        i = i + 1;
    }
    proof {
        assert(pairs.skip(pairs.len() as int) =~= Seq::empty());
    }
    match (price, change) {
        (Some(p), Some(c)) => Ok(
            StockInfo {
                code,
                name,
                price: p,
                change: c,
                change_percent: Decimal { neg: false, mant: 0, scale: 1 },
                update_time,
            },
        ),
        _ => {
            let mut e = String::from_str(
                "Could not find all required FX price elements on the page for code: ",
            );
            e.append(code.as_str());
            Err(e)
        },
    }
}

} // verus!
