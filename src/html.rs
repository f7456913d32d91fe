//! Queries on HTML pages, answered by scraper.
use vstd::prelude::*;
use crate::text::opt_view;

verus! {

/// The concatenated text of the first element of the page `html` that the CSS
/// selector matches, as scraper computes it; `None` where no element matches.
pub uninterp spec fn first_match_text(html: Seq<char>, selector: Seq<char>) -> Option<Seq<char>>;

/// The attribute `attr` of the first element of the page `html` that the CSS
/// selector matches, as scraper computes it; `None` where no element matches or
/// that element lacks the attribute.
pub uninterp spec fn first_match_attr(html: Seq<char>, selector: Seq<char>, attr: Seq<char>) -> Option<Seq<char>>;

/// Relies on scraper's Html::parse_document, Selector::parse, Html::select and
/// ElementRef::text: the text of the first match, found by parsing the page.
#[verifier::external_body]
pub(crate) fn select_first_text(html: &str, selector: &str) -> (r: Option<String>)
    ensures
        opt_view(r) == first_match_text(html@, selector@),
{
    let document = scraper::Html::parse_document(html);
    let selector = scraper::Selector::parse(selector).ok()?;
    document.select(&selector).next().map(|e| e.text().collect::<String>())
}

/// Relies on scraper's Html::parse_document, Selector::parse, Html::select and
/// ElementRef::attr: an attribute of the first match, found by parsing the page.
#[verifier::external_body]
pub(crate) fn select_first_attr(html: &str, selector: &str, attr: &str) -> (r: Option<String>)
    ensures
        opt_view(r) == first_match_attr(html@, selector@, attr@),
{
    let document = scraper::Html::parse_document(html);
    let selector = scraper::Selector::parse(selector).ok()?;
    document.select(&selector).next().and_then(|e| e.attr(attr)).map(|a| a.to_string())
}

} // verus!
