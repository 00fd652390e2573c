//! The HTML parser and selector engine that extraction relies on.
//!
//! Documents, selectors and elements are those of the `scraper` crate and are
//! opaque here. Each function marked `external_body` puts one question to
//! that crate; its contract is believed, not proved. The uninterpreted
//! functions give names to the answers, so that the rest of the crate can say
//! exactly which of them it combines, and how. Nothing is claimed of an
//! answer but that it depends on the question alone.

use scraper::{ElementRef, Html, Selector};
use vstd::prelude::*;
use vstd::utf8::encode_utf8;

verus! {

#[verifier::external_type_specification]
#[verifier::external_body]
pub struct ExHtml(scraper::Html);

#[verifier::external_type_specification]
#[verifier::external_body]
pub struct ExSelector(scraper::Selector);

#[verifier::external_type_specification]
#[verifier::external_body]
pub struct ExElementRef<'a>(scraper::ElementRef<'a>);

/// Longest page, in bytes, that is handed to the parser.
///
/// The parser keeps every text in a buffer whose length is a `u32` and whose
/// capacity grows in powers of two, and it fails where either overflows. It
/// writes a NUL byte of the page as a replacement character of three bytes,
/// and nothing else grows by more, so a text that it builds can be three
/// times as long as the page. A third of `2^31` keeps all of them in range.
pub const MAX_PAGE_BYTES: usize = 715_827_882;

/// The page `html` is short enough for the parser: its UTF-8 encoding has at
/// most [`MAX_PAGE_BYTES`] bytes.
pub open spec fn page_fits(html: Seq<char>) -> bool {
    encode_utf8(html).len() <= MAX_PAGE_BYTES
}

/// Whether the page `html` is short enough for the parser.
pub fn fits_parser(html: &str) -> (fits: bool)
    ensures
        fits == page_fits(html@),
{
    html.as_bytes().len() <= MAX_PAGE_BYTES
}

/// The document tree that `scraper::Html::parse_document` builds from `html`.
/// Two trees built from one text are held to be the same tree: they differ
/// at most in how the attribute maps inside them are hashed, which none of
/// the queries below can observe.
pub uninterp spec fn parsed_document(html: Seq<char>) -> Html;

/// What `scraper::Selector::parse` makes of `css`: the selector, or `None`
/// where the text is not a selector group.
pub uninterp spec fn compiled_selector(css: Seq<char>) -> Option<Selector>;

/// The elements of `doc` that `scraper::Html::select` yields for `selector`,
/// in the order in which it yields them: that in which the parser added the
/// nodes to the tree.
pub uninterp spec fn document_matches(doc: Html, selector: Selector) -> Seq<ElementRef<'static>>;

/// The descendants of `scope` that `scraper::ElementRef::select` yields for
/// `selector`, in the order in which it yields them: that of a walk through
/// the tree below `scope`, parents before children.
pub uninterp spec fn descendant_matches(scope: ElementRef<'_>, selector: Selector) -> Seq<
    ElementRef<'static>,
>;

/// What `scraper::node::Element::attr` returns for the attribute `name` of
/// `element`: its value, or `None` where the element has no such attribute.
pub uninterp spec fn attribute_value(element: ElementRef<'_>, name: Seq<char>) -> Option<Seq<char>>;

/// The texts that `scraper::ElementRef::text` yields for `element`, joined
/// in the order in which it yields them: every text node below `element`.
pub uninterp spec fn descendant_text(element: ElementRef<'_>) -> Seq<char>;

/// The elements of `doc` that the selector written as `css` matches; none
/// where `css` is not a selector.
pub open spec fn matches_in(doc: Html, css: Seq<char>) -> Seq<ElementRef<'static>> {
    match compiled_selector(css) {
        Some(selector) => document_matches(doc, selector),
        None => Seq::empty(),
    }
}

/// The first descendant of `scope` that the selector written as `css`
/// matches; `None` where there is none or `css` is not a selector.
pub open spec fn first_in(scope: ElementRef<'_>, css: Seq<char>) -> Option<ElementRef<'static>> {
    match compiled_selector(css) {
        Some(selector) => {
            let found = descendant_matches(scope, selector);
            if found.len() > 0 {
                Some(found[0])
            } else {
                None
            }
        },
        None => None,
    }
}

/// `scraper::Html::parse_document`: on a page that is short enough parsing
/// never fails, and the tree it builds depends on the text alone. Longer
/// pages are left out because the parser's text buffers can overflow on
/// them.
#[verifier::external_body]
pub(crate) fn parse_document(html: &str) -> (doc: Html)
    requires
        page_fits(html@),
    ensures
        doc == parsed_document(html@),
{
    Html::parse_document(html)
}

/// `scraper::Selector::parse`: the outcome depends on the text alone. The
/// error, where there is one, is dropped.
#[verifier::external_body]
pub(crate) fn parse_selector(css: &str) -> (selector: Option<Selector>)
    ensures
        selector == compiled_selector(css@),
{
    Selector::parse(css).ok()
}

/// `scraper::Html::select`, run to its end: every element that the iterator
/// yields, in its order.
#[verifier::external_body]
pub(crate) fn select_all<'a>(doc: &'a Html, selector: &Selector) -> (found: Vec<ElementRef<'a>>)
    ensures
        found@ == document_matches(*doc, *selector),
{
    doc.select(selector).collect()
}

/// `scraper::ElementRef::select`, asked once: the first element that the
/// iterator yields, if it yields any.
#[verifier::external_body]
pub(crate) fn select_first<'a>(scope: ElementRef<'a>, selector: &Selector) -> (found: Option<
    ElementRef<'a>,
>)
    ensures
        found == if descendant_matches(scope, *selector).len() > 0 {
            Some(descendant_matches(scope, *selector)[0])
        } else {
            None
        },
{
    scope.select(selector).next()
}

/// `scraper::node::Element::attr` on the element behind `element`, the value
/// copied into a `String`.
#[verifier::external_body]
pub(crate) fn attribute(element: ElementRef<'_>, name: &str) -> (value: Option<String>)
    ensures
        value.deep_view() == attribute_value(element, name@),
{
    element.value().attr(name).map(String::from)
}

/// `scraper::ElementRef::text`, run to its end and joined into one `String`.
#[verifier::external_body]
pub(crate) fn text_content(element: ElementRef<'_>) -> (text: String)
    ensures
        text@ == descendant_text(element),
{
    element.text().collect()
}

/// Every element of `doc` that the selector written as `css` matches. A text
/// that is not a selector matches nothing.
pub(crate) fn select_in_document<'a>(doc: &'a Html, css: &str) -> (found: Vec<ElementRef<'a>>)
    ensures
        found@ == matches_in(*doc, css@),
{
    match parse_selector(css) {
        Some(selector) => select_all(doc, &selector),
        None => Vec::new(),
    }
}

/// The first descendant of `scope` that the selector written as `css`
/// matches. A text that is not a selector matches nothing.
pub(crate) fn select_first_in<'a>(scope: ElementRef<'a>, css: &str) -> (found: Option<
    ElementRef<'a>,
>)
    ensures
        found == first_in(scope, css@),
{
    match parse_selector(css) {
        Some(selector) => select_first(scope, &selector),
        None => None,
    }
}

} // verus!
