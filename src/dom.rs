//! Queries on an HTML document, answered by the `scraper` crate.
//!
//! Each query parses `html` as a document and matches CSS selector groups
//! against it; elements come in the order in which the parsed tree holds
//! them. What a query returns depends on its arguments alone, so each
//! result is given a name.
use vstd::prelude::*;
use scraper::{Html, Selector};
use crate::models::{view_opt, views};

verus! {

/// The text content of each element matching `selector` in `html`.
pub uninterp spec fn matched_texts(html: Seq<char>, selector: Seq<char>) -> Seq<Seq<char>>;

/// The value of attribute `attr` on each element matching `selector`.
pub uninterp spec fn matched_attrs(html: Seq<char>, selector: Seq<char>, attr: Seq<char>) -> Seq<
    Option<Seq<char>>,
>;

/// For each element matching `outer`, the text content of each of its
/// descendants matching `inner`.
pub uninterp spec fn matched_texts_within(html: Seq<char>, outer: Seq<char>, inner: Seq<char>) -> Seq<
    Seq<Seq<char>>,
>;

/// For each element matching `outer`, the value of attribute `attr` on each
/// of its descendants matching `inner`.
pub uninterp spec fn matched_attrs_within(
    html: Seq<char>,
    outer: Seq<char>,
    inner: Seq<char>,
    attr: Seq<char>,
) -> Seq<Seq<Option<Seq<char>>>>;

pub open spec fn attr_views(v: Seq<Option<String>>) -> Seq<Option<Seq<char>>> {
    v.map_values(|a: Option<String>| view_opt(a))
}

/// Relies on scraper's `Html::parse_document`, `Selector::parse`,
/// `Html::select` and `ElementRef::text`: the concatenated text nodes of
/// every matching element, none for a selector that does not parse.
#[verifier::external_body]
pub(crate) fn select_texts(html: &str, selector: &str) -> (r: Vec<String>)
    ensures
        r@.map_values(|s: String| s@) == matched_texts(html@, selector@),
{
    let doc = Html::parse_document(html);
    match Selector::parse(selector) {
        Ok(sel) => doc.select(&sel).map(|e| e.text().collect::<String>()).collect(),
        Err(_) => Vec::new(),
    }
}

/// Relies on scraper's `Html::parse_document`, `Selector::parse`,
/// `Html::select` and `Element::attr`: the attribute of every matching
/// element, none for a selector that does not parse.
#[verifier::external_body]
pub(crate) fn select_attrs(html: &str, selector: &str, attr: &str) -> (r: Vec<Option<String>>)
    ensures
        r@.map_values(|a: Option<String>| view_opt(a)) == matched_attrs(
            html@,
            selector@,
            attr@,
        ),
{
    let doc = Html::parse_document(html);
    match Selector::parse(selector) {
        Ok(sel) => doc.select(&sel).map(|e| e.value().attr(attr).map(|s| s.to_string())).collect(),
        Err(_) => Vec::new(),
    }
}

/// Relies on scraper's `Html::parse_document`, `Selector::parse`,
/// `Html::select`, `ElementRef::select` and `ElementRef::text`: for every
/// element matching `outer`, the texts of its matching descendants; none
/// when either selector does not parse.
#[verifier::external_body]
pub(crate) fn select_texts_within(html: &str, outer: &str, inner: &str) -> (r: Vec<Vec<String>>)
    ensures
        r@.map_values(|v: Vec<String>| views(v@)) == matched_texts_within(html@, outer@, inner@),
{
    let doc = Html::parse_document(html);
    match (Selector::parse(outer), Selector::parse(inner)) {
        (Ok(o), Ok(i)) => doc.select(&o).map(|e| e.select(&i).map(|d| d.text().collect::<String>()).collect())
            .collect(),
        _ => Vec::new(),
    }
}

/// Relies on scraper's `Html::parse_document`, `Selector::parse`,
/// `Html::select`, `ElementRef::select` and `Element::attr`: for every
/// element matching `outer`, the attribute on each of its matching
/// descendants; none when either selector does not parse.
#[verifier::external_body]
pub(crate) fn select_attrs_within(html: &str, outer: &str, inner: &str, attr: &str) -> (r: Vec<
    Vec<Option<String>>,
>)
    ensures
        r@.map_values(|v: Vec<Option<String>>| attr_views(v@)) == matched_attrs_within(
            html@,
            outer@,
            inner@,
            attr@,
        ),
{
    let doc = Html::parse_document(html);
    match (Selector::parse(outer), Selector::parse(inner)) {
        (Ok(o), Ok(i)) => doc.select(&o).map(|e| e.select(&i).map(|d| d.value().attr(attr).map(|s| s.to_string()))
            .collect()).collect(),
        _ => Vec::new(),
    }
}

} // verus!
