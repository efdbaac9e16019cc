//! Queries on HTML text, answered by the `scraper` crate.
//!
//! Each query takes the page as text and CSS selectors as text and hands
//! back plain strings. What HTML parsing, CSS matching and serialisation
//! produce is not restated here: each answer is named by an uninterpreted
//! function of the query's arguments, and only the short facts that the
//! crate's source shows (one entry per matching element, in the order in
//! which the parsed tree holds its nodes) are stated beside the names. The
//! crate is built with its `deterministic` feature, which keeps an element's
//! attributes in source order, so that the inner HTML it writes out is a
//! function of the page.
use vstd::prelude::*;

verus! {

/// Whether `scraper::Selector::parse` accepts `selector`.
pub uninterp spec fn selector_valid(selector: Seq<char>) -> bool;

/// How many elements of the document parsed from `document` match
/// `selector` (`Html::select`).
pub uninterp spec fn match_count(document: Seq<char>, selector: Seq<char>) -> nat;

/// The inner HTML (`ElementRef::inner_html`) of each element of the parsed
/// `document` that matches `selector`, in the order in which the parsed tree
/// holds its nodes (the order in which the parser created them).
pub uninterp spec fn matched_inner_html(document: Seq<char>, selector: Seq<char>) -> Seq<
    Seq<char>,
>;

/// The value of attribute `attr` (`Element::attr`) of each element of the
/// parsed `document` that matches `selector`, in the order in which the
/// parsed tree holds its nodes.
pub uninterp spec fn matched_attr(document: Seq<char>, selector: Seq<char>, attr: Seq<char>) -> Seq<
    Option<Seq<char>>,
>;

/// For each element of the parsed `document` that matches `outer` (in the
/// order in which the tree holds its nodes), the inner HTML of the first
/// descendant met in a walk of its subtree that matches `inner`, if any.
pub uninterp spec fn nested_inner_html(
    document: Seq<char>,
    outer: Seq<char>,
    inner: Seq<char>,
) -> Seq<Option<Seq<char>>>;

/// For each element of the parsed `document` that matches `outer` (in the
/// order in which the tree holds its nodes), the value of attribute `attr`
/// of the first descendant met in a walk of its subtree that matches
/// `inner`, if there is such a descendant and it has the attribute.
pub uninterp spec fn nested_attr(
    document: Seq<char>,
    outer: Seq<char>,
    inner: Seq<char>,
    attr: Seq<char>,
) -> Seq<Option<Seq<char>>>;

/// For each node of the tree parsed from `document`, in the order in which
/// the tree holds its nodes: the node's text if it is a text node.
pub uninterp spec fn node_texts_of(document: Seq<char>) -> Seq<Option<Seq<char>>>;

/// The views of a list of optional strings.
pub open spec fn opt_views(v: Seq<Option<String>>) -> Seq<Option<Seq<char>>> {
    v.map_values(|o: Option<String>| match o {
        Some(s) => Some(s@),
        None => None,
    })
}

/// `Html::parse_document`, `Selector::parse` and `Html::select`, keeping
/// `ElementRef::inner_html` of each match. `None` when the selector does
/// not parse.
#[verifier::external_body]
pub fn select_inner_html(document: &str, selector: &str) -> (r: Option<Vec<String>>)
    ensures
        r is Some <==> selector_valid(selector@),
        r matches Some(v) ==> v@.len() == match_count(document@, selector@) && crate::text::views(
            v@,
        ) == matched_inner_html(document@, selector@),
{
    let selector = scraper::Selector::parse(selector).ok()?;
    let html = scraper::Html::parse_document(document);
    Some(html.select(&selector).map(|e| e.inner_html()).collect())
}

/// `Html::parse_document`, `Selector::parse` and `Html::select`, keeping
/// the attribute `attr` (`Element::attr`) of each match. `None` when the
/// selector does not parse.
#[verifier::external_body]
pub fn select_attr(document: &str, selector: &str, attr: &str) -> (r: Option<Vec<Option<String>>>)
    ensures
        r is Some <==> selector_valid(selector@),
        r matches Some(v) ==> v@.len() == match_count(document@, selector@) && opt_views(v@)
            == matched_attr(document@, selector@, attr@),
{
    let selector = scraper::Selector::parse(selector).ok()?;
    let html = scraper::Html::parse_document(document);
    Some(html.select(&selector).map(|e| e.value().attr(attr).map(String::from)).collect())
}

/// `Html::parse_document`, then `ElementRef::select` with `inner` inside
/// each match of `outer`, keeping the inner HTML of the first inner match.
/// `None` when a selector does not parse.
#[verifier::external_body]
pub fn select_nested_inner_html(document: &str, outer: &str, inner: &str) -> (r: Option<
    Vec<Option<String>>,
>)
    ensures
        r is Some <==> (selector_valid(outer@) && selector_valid(inner@)),
        r matches Some(v) ==> v@.len() == match_count(document@, outer@) && opt_views(v@)
            == nested_inner_html(document@, outer@, inner@),
{
    let outer = scraper::Selector::parse(outer).ok()?;
    let inner = scraper::Selector::parse(inner).ok()?;
    let html = scraper::Html::parse_document(document);
    Some(html.select(&outer).map(|e| e.select(&inner).next().map(|f| f.inner_html())).collect())
}

/// `Html::parse_document`, then `ElementRef::select` with `inner` inside
/// each match of `outer`, keeping the attribute `attr` of the first inner
/// match. `None` when a selector does not parse.
#[verifier::external_body]
pub fn select_nested_attr(document: &str, outer: &str, inner: &str, attr: &str) -> (r: Option<
    Vec<Option<String>>,
>)
    ensures
        r is Some <==> (selector_valid(outer@) && selector_valid(inner@)),
        r matches Some(v) ==> v@.len() == match_count(document@, outer@) && opt_views(v@)
            == nested_attr(document@, outer@, inner@, attr@),
{
    let outer = scraper::Selector::parse(outer).ok()?;
    let inner = scraper::Selector::parse(inner).ok()?;
    let html = scraper::Html::parse_document(document);
    Some(html.select(&outer).map(|e| e.select(&inner).next().and_then(|f| f.value().attr(attr).map(String::from))).collect())
}

/// `Html::parse_document`, then, for each node of the resulting tree in the
/// tree's order, its text if it is a text node (`Node::as_text`).
#[verifier::external_body]
pub fn node_texts(document: &str) -> (r: Vec<Option<String>>)
    ensures
        opt_views(r@) == node_texts_of(document@),
{
    let html = scraper::Html::parse_document(document);
    html.tree.into_iter().map(|n| n.as_text().map(|t| t.text.to_string())).collect()
}

} // verus!
