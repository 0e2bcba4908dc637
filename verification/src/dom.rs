//! The parsed page and the selector rules that are matched against it.
//!
//! Parsing and matching are the work of the `scraper` crate. Its documents,
//! selectors and element references pass through this library unopened; the
//! functions here make the calls, and the names beside them say no more than
//! that each call gives the same answer whenever it is asked the same thing.

use vstd::prelude::*;

verus! {

/// A parsed page: the tree of nodes that `scraper` builds from its text.
#[verifier::external_type_specification]
#[verifier::external_body]
pub struct ExHtml(scraper::Html);

/// A compiled selector rule.
#[verifier::external_type_specification]
#[verifier::external_body]
pub struct ExSelector(scraper::Selector);

/// A reference to one element of a parsed page.
#[verifier::external_type_specification]
#[verifier::external_body]
pub struct ExElementRef<'a>(scraper::ElementRef<'a>);

/// The error of the selector compiler.
#[verifier::external_type_specification]
#[verifier::external_body]
pub struct ExSelectorErrorKind(scraper::error::SelectorErrorKind);

/// The selector that `scraper::Selector::parse` compiles from `rule`, or
/// `None` where it reports an error.
pub uninterp spec fn compiled_selector(rule: Seq<char>) -> Option<scraper::Selector>;

/// The document that `scraper::Html::parse_document` builds from `body`.
pub uninterp spec fn parsed_document(body: Seq<char>) -> scraper::Html;

/// The elements that the iterator of `scraper::Html::select` yields for
/// `selector`, in the order in which it yields them.
pub uninterp spec fn document_matches(
    document: &scraper::Html,
    selector: scraper::Selector,
) -> Seq<scraper::ElementRef<'_>>;

/// The first element that the iterator of `scraper::ElementRef::select`
/// yields for `selector` among the descendants of `element`, if it yields any.
pub uninterp spec fn first_match(
    element: scraper::ElementRef<'_>,
    selector: scraper::Selector,
) -> Option<scraper::ElementRef<'_>>;

/// What `scraper::ElementRef::inner_html` returns: the markup inside `element`.
pub uninterp spec fn inner_html_of(element: scraper::ElementRef<'_>) -> Seq<char>;

/// What `scraper::ElementRef::attr` returns: the value of the attribute `name`
/// of `element`, if it has that attribute.
pub uninterp spec fn attribute_of(element: scraper::ElementRef<'_>, name: Seq<char>) -> Option<
    Seq<char>,
>;

/// Calls `scraper::Selector::parse`. The contract claims only that the outcome
/// depends on the rule alone, and gives it the name [`compiled_selector`].
#[verifier::external_body]
pub(crate) fn compile_selector(rule: &str) -> (r: Result<
    scraper::Selector,
    scraper::error::SelectorErrorKind,
>)
    ensures
        match r {
            Ok(selector) => compiled_selector(rule@) == Some(selector),
            Err(_) => compiled_selector(rule@) is None,
        },
{
    scraper::Selector::parse(rule)
}

/// Calls `scraper::Html::parse_document`, which builds a tree from any text
/// and reports no error. The contract claims only that the tree depends on
/// the text alone, and gives it the name [`parsed_document`].
#[verifier::external_body]
pub(crate) fn parse_document(body: &str) -> (document: scraper::Html)
    ensures
        document == parsed_document(body@),
{
    scraper::Html::parse_document(body)
}

/// Calls `scraper::Html::select` and gathers what its iterator yields. The
/// contract claims only that this depends on the document and the selector
/// alone, and gives it the name [`document_matches`].
#[verifier::external_body]
pub(crate) fn select_in_document<'a>(
    document: &'a scraper::Html,
    selector: &scraper::Selector,
) -> (elements: Vec<scraper::ElementRef<'a>>)
    ensures
        elements@ == document_matches(document, *selector),
{
    document.select(selector).collect()
}

/// Calls `scraper::ElementRef::select` and takes the first element that its
/// iterator yields. The contract claims only that this depends on the element
/// and the selector alone, and gives it the name [`first_match`].
#[verifier::external_body]
pub(crate) fn select_first<'a>(
    element: &scraper::ElementRef<'a>,
    selector: &scraper::Selector,
) -> (found: Option<scraper::ElementRef<'a>>)
    ensures
        found == first_match(*element, *selector),
{
    element.select(selector).next()
}

/// Calls `scraper::ElementRef::inner_html`, which writes out the children of
/// the element. The contract gives the text the name [`inner_html_of`].
#[verifier::external_body]
pub(crate) fn inner_html(element: &scraper::ElementRef<'_>) -> (markup: String)
    ensures
        markup@ == inner_html_of(*element),
{
    element.inner_html()
}

/// Calls `scraper::ElementRef::attr` and copies the value that it finds. The
/// contract gives the outcome the name [`attribute_of`].
#[verifier::external_body]
pub(crate) fn attribute(element: &scraper::ElementRef<'_>, name: &str) -> (value: Option<String>)
    ensures
        crate::text::optional_text(value) == attribute_of(*element, name@),
{
    element.attr(name).map(String::from)
}

} // verus!
