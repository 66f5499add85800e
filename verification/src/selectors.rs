//! The selector registry: the hardcoded extraction rules for each code
//! category. A rule is a CSS-selector expression; a profile leaves the
//! rules it does not use unset, and the parsers defend against an unset
//! rule they need.

use vstd::prelude::*;
use vstd::string::StringExecFns;
use crate::classify::CodeType;
use crate::text::opt_text;

verus! {

/// The named extraction rules for one category of quote page.
#[derive(Debug)]
pub struct SelectorConfig {
    pub name_selector: Option<String>,
    pub current_value_selector: Option<String>,
    pub previous_day_change_selector: Option<String>,
    pub change_rate_selector: Option<String>,
    pub update_time_selector: Option<String>,
    pub fx_item_selector: Option<String>,
    pub fx_term_selector: Option<String>,
    pub fx_price_selector: Option<String>,
}

/// The mathematical image of a `SelectorConfig`.
#[verifier::ext_equal]
pub struct SelectorConfigV {
    pub name_selector: Option<Seq<char>>,
    pub current_value_selector: Option<Seq<char>>,
    pub previous_day_change_selector: Option<Seq<char>>,
    pub change_rate_selector: Option<Seq<char>>,
    pub update_time_selector: Option<Seq<char>>,
    pub fx_item_selector: Option<Seq<char>>,
    pub fx_term_selector: Option<Seq<char>>,
    pub fx_price_selector: Option<Seq<char>>,
}

impl View for SelectorConfig {
    type V = SelectorConfigV;

    open spec fn view(&self) -> SelectorConfigV {
        SelectorConfigV {
            name_selector: opt_text(self.name_selector),
            current_value_selector: opt_text(self.current_value_selector),
            previous_day_change_selector: opt_text(self.previous_day_change_selector),
            change_rate_selector: opt_text(self.change_rate_selector),
            update_time_selector: opt_text(self.update_time_selector),
            fx_item_selector: opt_text(self.fx_item_selector),
            fx_term_selector: opt_text(self.fx_term_selector),
            fx_price_selector: opt_text(self.fx_price_selector),
        }
    }
}

/// The FX profile: the page title carries the pair's name, and a board of
/// term/value items carries the prices.
pub open spec fn spec_fx_selectors() -> SelectorConfigV {
    SelectorConfigV {
        name_selector: Some("title"@),
        current_value_selector: None,
        previous_day_change_selector: None,
        change_rate_selector: None,
        update_time_selector: Some("time"@),
        fx_item_selector: Some("div[class*=\"FxPriceBoard__item\"]"@),
        fx_term_selector: Some("dt[class*=\"FxPriceBoard__term\"]"@),
        fx_price_selector: Some("span[class*=\"FxPriceBoard__price\"]"@),
    }
}

/// The index profile, shared by the Nikkei and every other index.
pub open spec fn spec_index_selectors() -> SelectorConfigV {
    SelectorConfigV {
        name_selector: Some("h2[class*=\"_BasePriceBoard__name\"]"@),
        current_value_selector: Some("span[class*=\"CommonPriceBoard__price\"] > span > span"@),
        previous_day_change_selector: Some("span[class*=\"PriceChangeLabel__primary\"] > span"@),
        change_rate_selector: Some(
            "span[class*=\"PriceChangeLabel__secondary\"] > span[class*=\"StyledNumber__value\"]"@,
        ),
        update_time_selector: Some("li[class*=\"_CommonPriceBoard__time\"] > time"@),
        fx_item_selector: None,
        fx_term_selector: None,
        fx_price_selector: None,
    }
}

/// The stock profile.
pub open spec fn spec_stock_selectors() -> SelectorConfigV {
    SelectorConfigV {
        name_selector: Some("h2[class*=\"PriceBoard__name\"]"@),
        current_value_selector: Some("span[class*=\"PriceBoard__price\"] > span > span"@),
        previous_day_change_selector: Some("span[class*=\"PriceChangeLabel__primary\"] > span"@),
        change_rate_selector: Some(
            "span[class*=\"PriceChangeLabel__secondary\"] > span[class*=\"StyledNumber__value\"]"@,
        ),
        update_time_selector: Some("ul[class*=\"PriceBoard__times\"] > li > time"@),
        fx_item_selector: None,
        fx_term_selector: None,
        fx_price_selector: None,
    }
}

/// The profile for a category.
pub open spec fn spec_default_selectors(code_type: CodeType) -> SelectorConfigV {
    match code_type {
        CodeType::Fx => spec_fx_selectors(),
        CodeType::Nikkei => spec_index_selectors(),
        CodeType::Dji => spec_index_selectors(),
        CodeType::Stock => spec_stock_selectors(),
    }
}

/// The hardcoded selector profile for a category. There is no external
/// configuration source: the registry is a constant table.
pub fn get_default_selectors(code_type: CodeType) -> (r: SelectorConfig)
    ensures
        r@ == spec_default_selectors(code_type),
{
    match code_type {
        CodeType::Fx => SelectorConfig {
            name_selector: Some(String::from_str("title")),
            current_value_selector: None,
            previous_day_change_selector: None,
            change_rate_selector: None,
            update_time_selector: Some(String::from_str("time")),
            fx_item_selector: Some(String::from_str("div[class*=\"FxPriceBoard__item\"]")),
            fx_term_selector: Some(String::from_str("dt[class*=\"FxPriceBoard__term\"]")),
            fx_price_selector: Some(String::from_str("span[class*=\"FxPriceBoard__price\"]")),
        },
        CodeType::Dji | CodeType::Nikkei => SelectorConfig {
            name_selector: Some(String::from_str("h2[class*=\"_BasePriceBoard__name\"]")),
            current_value_selector: Some(
                String::from_str("span[class*=\"CommonPriceBoard__price\"] > span > span"),
            ),
            previous_day_change_selector: Some(
                String::from_str("span[class*=\"PriceChangeLabel__primary\"] > span"),
            ),
            change_rate_selector: Some(
                String::from_str(
                    "span[class*=\"PriceChangeLabel__secondary\"] > span[class*=\"StyledNumber__value\"]",
                ),
            ),
            update_time_selector: Some(
                String::from_str("li[class*=\"_CommonPriceBoard__time\"] > time"),
            ),
            fx_item_selector: None,
            fx_term_selector: None,
            fx_price_selector: None,
        },
        CodeType::Stock => SelectorConfig {
            name_selector: Some(String::from_str("h2[class*=\"PriceBoard__name\"]")),
            current_value_selector: Some(
                String::from_str("span[class*=\"PriceBoard__price\"] > span > span"),
            ),
            previous_day_change_selector: Some(
                String::from_str("span[class*=\"PriceChangeLabel__primary\"] > span"),
            ),
            change_rate_selector: Some(
                String::from_str(
                    "span[class*=\"PriceChangeLabel__secondary\"] > span[class*=\"StyledNumber__value\"]",
                ),
            ),
            update_time_selector: Some(
                String::from_str("ul[class*=\"PriceBoard__times\"] > li > time"),
            ),
            fx_item_selector: None,
            fx_term_selector: None,
            fx_price_selector: None,
        },
    }
}

} // verus!
