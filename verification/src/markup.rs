//! The markup parser, as this crate sees it.
//!
//! Parsing markup and matching CSS patterns is the work of the `scraper`
//! crate. What its functions return is not spelled out here: each result is
//! given a name, and the five functions that make the calls state, without
//! proof, that the result is the named one. The rest of the crate is verified
//! against these statements alone.

use vstd::prelude::*;

verus! {

/// A parsed markup tree. Its contents are not visible to the verifier.
#[verifier::external_type_specification]
#[verifier::external_body]
pub struct ExHtml(scraper::Html);

/// A parsed CSS pattern. Its contents are not visible to the verifier.
#[verifier::external_type_specification]
#[verifier::external_body]
pub struct ExSelector(scraper::Selector);

/// The tree that `scraper::Html::parse_fragment` builds from a text.
pub uninterp spec fn fragment_tree(markup: Seq<char>) -> scraper::Html;

/// The tree that `scraper::Html::parse_document` builds from a text.
pub uninterp spec fn document_tree(markup: Seq<char>) -> scraper::Html;

/// What `scraper::Selector::parse` makes of a pattern: `None` where it
/// rejects the pattern.
pub uninterp spec fn pattern_selector(pattern: Seq<char>) -> Option<scraper::Selector>;

/// The inner markup of each element of a tree that matches a selector, in
/// the order in which `scraper::Html::select` yields the elements.
pub uninterp spec fn matched_inner_html(tree: scraper::Html, selector: scraper::Selector) -> Seq<
    Seq<char>,
>;

/// For each element of a tree that matches a selector, in the order in which
/// `scraper::Html::select` yields the elements, the value of the attribute
/// of the given name, or `None` where the element has no such attribute.
pub uninterp spec fn matched_attr(
    tree: scraper::Html,
    selector: scraper::Selector,
    name: Seq<char>,
) -> Seq<Option<Seq<char>>>;

/// Calls `scraper::Html::parse_fragment`. Parsing never fails: malformed
/// markup still gives a tree. The tree depends on the text alone.
#[verifier::external_body]
pub(crate) fn parse_fragment(markup: &str) -> (tree: scraper::Html)
    ensures
        tree == fragment_tree(markup@),
{
    scraper::Html::parse_fragment(markup)
}

/// Calls `scraper::Html::parse_document`. Parsing never fails: malformed
/// markup still gives a tree. The tree depends on the text alone.
#[verifier::external_body]
pub(crate) fn parse_document(markup: &str) -> (tree: scraper::Html)
    ensures
        tree == document_tree(markup@),
{
    scraper::Html::parse_document(markup)
}

/// Calls `scraper::Selector::parse` and drops the detail of its error. The
/// outcome depends on the pattern alone.
#[verifier::external_body]
pub(crate) fn parse_selector(pattern: &str) -> (selector: Option<scraper::Selector>)
    ensures
        selector == pattern_selector(pattern@),
{
    scraper::Selector::parse(pattern).ok()
}

/// Walks `scraper::Html::select` to its end and keeps the inner markup
/// (`ElementRef::inner_html`) of each element it yields, in that order.
#[verifier::external_body]
pub(crate) fn select_inner_html(tree: &scraper::Html, selector: &scraper::Selector) -> (found: Vec<
    String,
>)
    ensures
        found.deep_view() == matched_inner_html(*tree, *selector),
{
    tree.select(selector).map(|element| element.inner_html()).collect()
}

/// Walks `scraper::Html::select` to its end and keeps, for each element it
/// yields, the value of one attribute (`ElementRef::attr`), in that order.
#[verifier::external_body]
pub(crate) fn select_attr(tree: &scraper::Html, selector: &scraper::Selector, name: &str) -> (found:
    Vec<Option<String>>)
    ensures
        found.deep_view() == matched_attr(*tree, *selector, name@),
{
    tree.select(selector).map(|element| element.attr(name).map(String::from)).collect()
}

/// The inner markup of every element of a tree that matches a pattern, or
/// `None` where the pattern itself is not accepted.
pub open spec fn inner_html_of(tree: scraper::Html, pattern: Seq<char>) -> Option<Seq<Seq<char>>> {
    match pattern_selector(pattern) {
        Some(selector) => Some(matched_inner_html(tree, selector)),
        None => None,
    }
}

/// Collects the inner markup of every element of `tree` that matches
/// `pattern`.
pub(crate) fn inner_html_matches(tree: &scraper::Html, pattern: &str) -> (found: Option<Vec<String>>)
    ensures
        found.deep_view() == inner_html_of(*tree, pattern@),
{
    match parse_selector(pattern) {
        Some(selector) => Some(select_inner_html(tree, &selector)),
        None => None,
    }
}

/// For every element of a tree that matches a pattern, the value of one
/// attribute, or `None` where the pattern itself is not accepted.
pub open spec fn attr_of(tree: scraper::Html, pattern: Seq<char>, name: Seq<char>) -> Option<
    Seq<Option<Seq<char>>>,
> {
    match pattern_selector(pattern) {
        Some(selector) => Some(matched_attr(tree, selector, name)),
        None => None,
    }
}

/// Collects the value of the attribute `name` of every element of `tree`
/// that matches `pattern`.
pub(crate) fn attr_matches(tree: &scraper::Html, pattern: &str, name: &str) -> (found: Option<
    Vec<Option<String>>,
>)
    ensures
        found.deep_view() == attr_of(*tree, pattern@, name@),
{
    match parse_selector(pattern) {
        Some(selector) => Some(select_attr(tree, &selector, name)),
        None => None,
    }
}

} // verus!
