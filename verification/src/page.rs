//! Reading an HTML page: the calls into the `scraper` crate, and the
//! lookups that the providers build from them.
//!
//! What `scraper` finds in a text is not described here: each of its
//! answers has a name, and the lookups are stated over those names.

use vstd::prelude::*;
use scraper::{ElementRef, Html, Selector};
use scraper::error::SelectorErrorKind;
use vstd::utf8::encode_utf8;
use crate::text::{flatten, flattened};

verus! {

/// A parsed document of `scraper`.
#[verifier::external_type_specification]
#[verifier::external_body]
pub struct ExHtml(Html);

/// A parsed selector of `scraper`.
#[verifier::external_type_specification]
#[verifier::external_body]
pub struct ExSelector(Selector);

/// Why `scraper` took a text for no selector.
#[verifier::external_type_specification]
#[verifier::external_body]
pub struct ExSelectorErrorKind(SelectorErrorKind);

/// An element of a parsed document. Contracts take an element for its
/// place in its document, whatever the lifetime of the reference.
#[verifier::external_type_specification]
#[verifier::external_body]
pub struct ExElementRef<'a>(ElementRef<'a>);

/// The most bytes that a text may have for the parser to take it: a third
/// of 2^30. The parser keeps each piece of a document (a text, a comment,
/// a name, an attribute's value) in a buffer of its own, with at most
/// three bytes for each byte of the text, so that no buffer of such a text
/// passes 2^30 bytes.
pub const LONGEST_TEXT: usize = 0x1555_5555;

/// A text can be parsed when its UTF-8 form has at most `LONGEST_TEXT`
/// bytes.
pub open spec fn is_readable(content: Seq<char>) -> bool {
    (encode_utf8(content).len() as usize) <= LONGEST_TEXT
}

/// The document that `Html::parse_document` builds from a text.
pub uninterp spec fn parsed_document(content: Seq<char>) -> Html;

/// What `Selector::parse` makes of a text: the selector, or why the text
/// is none.
pub uninterp spec fn parsed_selector(css: Seq<char>) -> Result<Selector, SelectorErrorKind>;

/// The elements that `Html::select` yields: those of the document that the
/// selector matches, in the order in which the document holds them.
pub uninterp spec fn document_matches(document: Html, selector: Selector) -> Seq<
    ElementRef<'static>,
>;

/// The elements that `ElementRef::select` yields: those below `scope` that
/// the selector matches, in document order.
pub uninterp spec fn element_matches(scope: ElementRef<'static>, selector: Selector) -> Seq<
    ElementRef<'static>,
>;

/// The pieces that `ElementRef::text` yields: the text nodes below the
/// element, in document order.
pub uninterp spec fn text_nodes(element: ElementRef<'static>) -> Seq<Seq<char>>;

/// What `ElementRef::attr` returns: the value of the element's attribute
/// of that name, if it has one.
pub uninterp spec fn attribute(element: ElementRef<'static>, name: Seq<char>) -> Option<Seq<char>>;

/// Calls `Html::parse_document`. Trusted: the document depends on the text
/// alone. Nothing is said of what the document holds.
///
/// The parser panics where one of its buffers would grow past what it can
/// hold. A buffer's length is a `u32`; its capacity is rounded up to a
/// power of two, which must fit in a `u32` and, in bytes, in what the
/// machine can allocate at once. The whole text is copied into one
/// buffer. The pieces of the document are built by appending, and hold
/// U+FFFD, three bytes, for each U+0000 of the text. A text of at most
/// `LONGEST_TEXT` bytes keeps every buffer within 2^30 bytes, which a
/// 32-bit machine can allocate too; a longer one is not handed over.
#[verifier::external_body]
pub(crate) fn parse_document(content: &str) -> (document: Html)
    requires
        content.len() <= LONGEST_TEXT,
    ensures
        document == parsed_document(content@),
{
    Html::parse_document(content)
}

/// Calls `Selector::parse`. Trusted: the outcome depends on the text
/// alone. Nothing is said of which texts are selectors.
#[verifier::external_body]
pub(crate) fn parse_selector(css: &str) -> (outcome: Result<Selector, SelectorErrorKind>)
    ensures
        outcome == parsed_selector(css@),
{
    Selector::parse(css)
}

/// Calls `Html::select` and gathers what it yields, in that order.
/// Trusted: the matches depend on the document and the selector alone.
/// Nothing is said of which elements match.
#[verifier::external_body]
pub(crate) fn select_in_document<'a>(document: &'a Html, selector: &Selector) -> (found: Vec<
    ElementRef<'a>,
>)
    ensures
        found@ == document_matches(*document, *selector),
{
    document.select(selector).collect()
}

/// Calls `ElementRef::select` and gathers what it yields, in that order.
/// Trusted: the matches depend on the element and the selector alone.
/// Nothing is said of which elements match.
#[verifier::external_body]
pub(crate) fn select_in_element<'a>(scope: &ElementRef<'a>, selector: &Selector) -> (found: Vec<
    ElementRef<'a>,
>)
    ensures
        found@ == element_matches(*scope, *selector),
{
    scope.select(selector).collect()
}

/// Calls `ElementRef::text` and gathers the pieces that it yields, each as
/// a string of its own, in that order. Trusted: the pieces depend on the
/// element alone. Nothing is said of what they hold.
#[verifier::external_body]
pub(crate) fn element_text_nodes(element: &ElementRef<'_>) -> (nodes: Vec<String>)
    ensures
        nodes.deep_view() == text_nodes(*element),
{
    element.text().map(str::to_owned).collect()
}

/// Calls `ElementRef::attr`. Trusted: the value depends on the element and
/// the name alone. Nothing is said of which attributes an element has.
#[verifier::external_body]
pub(crate) fn element_attribute(element: &ElementRef<'_>, name: &str) -> (value: Option<String>)
    ensures
        value.deep_view() == attribute(*element, name@),
{
    element.attr(name).map(str::to_owned)
}

/// The elements of a document that match the selector written as `css`.
/// A text that is no selector matches nothing.
pub open spec fn matches_in(document: Html, css: Seq<char>) -> Seq<ElementRef<'static>> {
    match parsed_selector(css) {
        Ok(selector) => document_matches(document, selector),
        Err(_) => Seq::empty(),
    }
}

/// The elements below `scope` that match the selector written as `css`.
/// A text that is no selector matches nothing.
pub open spec fn matches_below(scope: ElementRef<'static>, css: Seq<char>) -> Seq<
    ElementRef<'static>,
> {
    match parsed_selector(css) {
        Ok(selector) => element_matches(scope, selector),
        Err(_) => Seq::empty(),
    }
}

/// The flattened text of an element: its text nodes in document order,
/// with nothing put between them.
pub open spec fn text_in(element: ElementRef<'static>) -> Seq<char> {
    flattened(text_nodes(element))
}

/// The flattened text of the first match below `scope`, if anything matches.
pub open spec fn first_text_below(scope: ElementRef<'static>, css: Seq<char>) -> Option<Seq<char>> {
    let found = matches_below(scope, css);
    if found.len() == 0 {
        None
    } else {
        Some(text_in(found[0]))
    }
}

/// The flattened text of each match below `scope`, in document order.
pub open spec fn texts_below(scope: ElementRef<'static>, css: Seq<char>) -> Seq<Seq<char>> {
    matches_below(scope, css).map_values(|element: ElementRef<'static>| text_in(element))
}

/// The attribute `name` of the first match below `scope`. There is none
/// where nothing matches, nor where the first match lacks the attribute.
pub open spec fn first_attribute_below(
    scope: ElementRef<'static>,
    css: Seq<char>,
    name: Seq<char>,
) -> Option<Seq<char>> {
    let found = matches_below(scope, css);
    if found.len() == 0 {
        None
    } else {
        attribute(found[0], name)
    }
}

/// The elements of a document that match the selector written as `css`.
pub(crate) fn find_in<'a>(document: &'a Html, css: &str) -> (found: Vec<ElementRef<'a>>)
    ensures
        found@ == matches_in(*document, css@),
{
    match parse_selector(css) {
        Ok(selector) => select_in_document(document, &selector),
        Err(_) => Vec::new(),
    }
}

/// The elements below `scope` that match the selector written as `css`.
pub(crate) fn find_below<'a>(scope: &ElementRef<'a>, css: &str) -> (found: Vec<ElementRef<'a>>)
    ensures
        found@ == matches_below(*scope, css@),
{
    match parse_selector(css) {
        Ok(selector) => select_in_element(scope, &selector),
        Err(_) => Vec::new(),
    }
}

/// The flattened text of an element.
pub(crate) fn read_text(element: &ElementRef<'_>) -> (text: String)
    ensures
        text@ == text_in(*element),
{
    let nodes = element_text_nodes(element);
    flatten(&nodes)
}

/// The flattened text of the first match below `scope`.
pub(crate) fn read_first_text(scope: &ElementRef<'_>, css: &str) -> (text: Option<String>)
    ensures
        text.deep_view() == first_text_below(*scope, css@),
{
    let found = find_below(scope, css);
    if found.len() == 0 {
        None
    } else {
        Some(read_text(&found[0]))
    }
}

/// The flattened text of each match below `scope`, in document order.
pub(crate) fn read_texts(scope: &ElementRef<'_>, css: &str) -> (texts: Vec<String>)
    ensures
        texts.deep_view() == texts_below(*scope, css@),
{
    let found = find_below(scope, css);
    let mut texts: Vec<String> = Vec::new();
    let mut i: usize = 0;
    while i < found.len()
        invariant
            i <= found.len(),
            texts.len() == i,
            forall|k: int| 0 <= k < i ==> (#[trigger] texts@[k])@ == text_in(found@[k]),
        decreases found.len() - i,
    {
        texts.push(read_text(&found[i]));
        i = i + 1;
    }
    assert(texts.deep_view() =~= found@.map_values(
        |element: ElementRef<'static>| text_in(element),
    ));
    texts
}

/// The attribute `name` of the first match below `scope`.
pub(crate) fn read_first_attribute(scope: &ElementRef<'_>, css: &str, name: &str) -> (value: Option<
    String,
>)
    ensures
        value.deep_view() == first_attribute_below(*scope, css@, name@),
{
    let found = find_below(scope, css);
    if found.len() == 0 {
        None
    } else {
        element_attribute(&found[0], name)
    }
}

} // verus!
