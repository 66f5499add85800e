//! Markup queries, answered by the `scraper` crate behind trusted
//! wrappers. Parsing a document and matching a CSS selector against it are
//! deterministic, so each query's outcome is named as a function of the
//! page text and the selector text alone, and the parsers' contracts are
//! stated over those names.

use vstd::prelude::*;
use crate::text::opt_text;

verus! {

/// The concatenated text of the first element of `body`'s document that
/// matches the CSS selector `sel`; `None` when the selector text is not a
/// valid selector or nothing matches.
pub uninterp spec fn first_text(body: Seq<char>, sel: Seq<char>) -> Option<Seq<char>>;

/// Relies on scraper's `Html::parse_document`, `Selector::parse`,
/// `Html::select` and `ElementRef::text`: parsing is deterministic and
/// matching walks the document in order, so the outcome is a function of
/// the two texts alone.
#[verifier::external_body]
pub fn select_first_text(body: &str, sel: &str) -> (r: Option<String>)
    ensures
        opt_text(r) == first_text(body@, sel@),
{
    let parsed = match scraper::Selector::parse(sel) {
        Ok(s) => s,
        Err(_) => return None,
    };
    let doc = scraper::Html::parse_document(body);
    let found = doc.select(&parsed).next()?;
    Some(found.text().collect::<String>())
}

/// The view of a list of optional term/value text pairs.
pub open spec fn pair_texts(r: Seq<(Option<String>, Option<String>)>) -> Seq<
    (Option<Seq<char>>, Option<Seq<char>>),
> {
    r.map_values(|p: (Option<String>, Option<String>)| (opt_text(p.0), opt_text(p.1)))
}

/// For each element of `body`'s document matching `item_sel`, in document
/// order: the text of its first descendant matching `term_sel`, and the
/// text of its first descendant matching `price_sel` (`None` where such a
/// descendant is missing). Empty when any selector text is invalid.
pub uninterp spec fn item_texts(
    body: Seq<char>,
    item_sel: Seq<char>,
    term_sel: Seq<char>,
    price_sel: Seq<char>,
) -> Seq<(Option<Seq<char>>, Option<Seq<char>>)>;

/// Relies on the same scraper calls as `select_first_text`, plus
/// `ElementRef::select` for descendants; each matched item element is
/// mapped to its pair of optional texts, in document order.
#[verifier::external_body]
pub fn select_item_texts(body: &str, item_sel: &str, term_sel: &str, price_sel: &str) -> (r: Vec<
    (Option<String>, Option<String>),
>)
    ensures
        pair_texts(r@) == item_texts(body@, item_sel@, term_sel@, price_sel@),
{
    let (isel, tsel, psel) = match (
        scraper::Selector::parse(item_sel),
        scraper::Selector::parse(term_sel),
        scraper::Selector::parse(price_sel),
    ) {
        (Ok(a), Ok(b), Ok(c)) => (a, b, c),
        _ => return Vec::new(),
    };
    let doc = scraper::Html::parse_document(body);
    doc.select(&isel).map(
        |item| (
            item.select(&tsel).next().map(|e| e.text().collect::<String>()),
            item.select(&psel).next().map(|e| e.text().collect::<String>()),
        ),
    ).collect()
}

} // verus!
